use backend::handlers::{get_balance, reported_balance, Failure};
use backend::json::JsonValue;
use backend::models::{BalanceResponse, EtherscanResponse};

const SAMPLE: &str = "0x742d35Cc6634C0532925a3b844Bc454e4438f44e";

fn to_eth(wei: &str) -> String {
    let wei_value: f64 = wei.parse().unwrap_or(0.0);
    format!("{:.6}", wei_value / 1e18)
}

fn envelope(status: &str, result: JsonValue) -> Result<EtherscanResponse, Failure> {
    Ok(EtherscanResponse { status: status.to_string(), result })
}

fn reported(wei: &str) -> Result<EtherscanResponse, Failure> {
    envelope("1", JsonValue::Text(wei.to_string()))
}

fn zero(address: &str) -> BalanceResponse {
    BalanceResponse {
        address: address.to_string(),
        balance_wei: "0".to_string(),
        balance_eth: "0.000000".to_string(),
    }
}

#[test]
fn answers_zero_for_a_malformed_address() {
    assert_eq!(
        get_balance("abc".to_string(), Err(Failure::InvalidAddress), to_eth),
        zero("abc")
    );
    assert_eq!(BalanceResponse::zero("abc".to_string()), zero("abc"));
}

#[test]
fn answers_zero_for_a_malformed_address_whatever_came_back() {
    assert_eq!(
        get_balance("abc".to_string(), reported("1000000000000000000"), to_eth),
        zero("abc")
    );
    assert_eq!(
        reported_balance("abc", &reported("1000000000000000000")),
        Err(Failure::InvalidAddress)
    );
    assert_eq!(reported_balance("abc", &Err(Failure::Network)), Err(Failure::InvalidAddress));
}

#[test]
fn answers_zero_when_the_call_to_upstream_failed() {
    for failure in [Failure::Network, Failure::Body, Failure::Parse] {
        assert_eq!(get_balance(SAMPLE.to_string(), Err(failure), to_eth), zero(SAMPLE));
        assert_eq!(reported_balance(SAMPLE, &Err(failure)), Err(failure));
    }
}

#[test]
fn answers_alike_for_a_malformed_address_and_a_failed_call() {
    let malformed = get_balance("abc".to_string(), Err(Failure::InvalidAddress), to_eth);
    let failed = get_balance(SAMPLE.to_string(), Err(Failure::Network), to_eth);
    assert_eq!(malformed.balance_wei, failed.balance_wei);
    assert_eq!(malformed.balance_eth, failed.balance_eth);
    assert_eq!(malformed.address, "abc");
    assert_eq!(failed.address, SAMPLE);
}

#[test]
fn answers_zero_when_upstream_reports_no_success() {
    for status in ["0", "", "2", "01", "1 ", "true"] {
        let reply = envelope(status, JsonValue::Text("1000000000000000000".to_string()));
        assert_eq!(reported_balance(SAMPLE, &reply), Err(Failure::Status));
        assert_eq!(get_balance(SAMPLE.to_string(), reply, to_eth), zero(SAMPLE));
    }
}

#[test]
fn answers_the_balance_that_upstream_reported() {
    assert_eq!(
        get_balance(SAMPLE.to_string(), reported("1000000000000000000"), to_eth),
        BalanceResponse {
            address: SAMPLE.to_string(),
            balance_wei: "1000000000000000000".to_string(),
            balance_eth: "1.000000".to_string(),
        }
    );
    assert_eq!(
        reported_balance(SAMPLE, &reported("1000000000000000000")),
        Ok("1000000000000000000".to_string())
    );
}

#[test]
fn converts_the_reported_balance_with_the_conversion_given() {
    let answer = get_balance(SAMPLE.to_string(), reported("2500000000000000000"), to_eth);
    assert_eq!(answer.balance_wei, "2500000000000000000");
    assert_eq!(answer.balance_eth, "2.500000");
    let answer = get_balance(SAMPLE.to_string(), reported("42"), |wei: &str| {
        format!("<{}>", wei)
    });
    assert_eq!(answer.balance_wei, "42");
    assert_eq!(answer.balance_eth, "<42>");
}

#[test]
fn reports_a_zero_balance_as_a_balance() {
    assert_eq!(get_balance(SAMPLE.to_string(), reported("0"), to_eth), zero(SAMPLE));
    assert_eq!(reported_balance(SAMPLE, &reported("0")), Ok("0".to_string()));
}

#[test]
fn passes_on_a_reported_text_that_is_no_number() {
    let answer = get_balance(SAMPLE.to_string(), reported("not-a-number"), to_eth);
    assert_eq!(answer.balance_wei, "not-a-number");
    assert_eq!(answer.balance_eth, "0.000000");
}

#[test]
fn counts_a_payload_that_is_no_text_as_zero_wei() {
    let payloads = || {
        vec![
            JsonValue::Null,
            JsonValue::Bool(true),
            JsonValue::Number("1000000000000000000".to_string()),
            JsonValue::Array(vec![JsonValue::Text("5".to_string())]),
            JsonValue::Object(Vec::new()),
        ]
    };
    for payload in payloads() {
        assert_eq!(reported_balance(SAMPLE, &envelope("1", payload)), Ok("0".to_string()));
    }
    for payload in payloads() {
        let answer = get_balance(SAMPLE.to_string(), envelope("1", payload), |wei: &str| {
            format!("<{}>", wei)
        });
        assert_eq!(answer.balance_wei, "0");
        assert_eq!(answer.balance_eth, "<0>");
    }
}

#[test]
fn does_not_convert_when_it_falls_back() {
    let answer = get_balance(SAMPLE.to_string(), Err(Failure::Network), |wei: &str| {
        format!("<{}>", wei)
    });
    assert_eq!(answer, zero(SAMPLE));
}

#[test]
fn tells_whether_an_envelope_reports_success() {
    let succeeded = EtherscanResponse { status: "1".to_string(), result: JsonValue::Null };
    let failed = EtherscanResponse { status: "0".to_string(), result: JsonValue::Null };
    assert!(succeeded.succeeded());
    assert!(!failed.succeeded());
}

#[test]
fn copies_an_answer_field_for_field() {
    let answer = get_balance(SAMPLE.to_string(), reported("5"), to_eth);
    assert_eq!(answer.clone(), answer);
}
