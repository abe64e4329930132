use backend::text::{push_decimal, str_eq};

fn written(n: u32) -> String {
    let mut out = String::new();
    push_decimal(&mut out, n);
    out
}

#[test]
fn writes_numbers_in_base_ten() {
    assert_eq!(written(0), "0");
    assert_eq!(written(1), "1");
    assert_eq!(written(9), "9");
    assert_eq!(written(10), "10");
    assert_eq!(written(20), "20");
    assert_eq!(written(1005), "1005");
    assert_eq!(written(99999999), "99999999");
    assert_eq!(written(u32::MAX), "4294967295");
}

#[test]
fn appends_to_what_is_there() {
    let mut out = String::from("page=");
    push_decimal(&mut out, 37);
    assert_eq!(out, "page=37");
    push_decimal(&mut out, 0);
    assert_eq!(out, "page=370");
}

#[test]
fn writes_every_number_as_the_formatter_does() {
    for n in (0..=100_000u32).chain(u32::MAX - 1000..=u32::MAX) {
        assert_eq!(written(n), format!("{}", n));
    }
}

#[test]
fn compares_texts_character_by_character() {
    assert!(str_eq("", ""));
    assert!(str_eq("1", "1"));
    assert!(str_eq("timeStamp", "timeStamp"));
    assert!(!str_eq("timeStamp", "timestamp"));
    assert!(!str_eq("1", "10"));
    assert!(!str_eq("10", "1"));
    assert!(!str_eq("1", ""));
    assert!(!str_eq("gas", "gasUsed"));
    assert!(str_eq("\u{e9}t\u{e9}", "\u{e9}t\u{e9}"));
    assert!(!str_eq("\u{e9}", "e"));
}
