//! JSON documents as upstream sends them.

use vstd::prelude::*;

verus! {

/// A JSON document. A number is kept as the text that writes it; the
/// entries of an object are kept in the order in which they are handed over.
#[derive(Debug, PartialEq, Eq)]
pub enum JsonValue {
    Null,
    Bool(bool),
    Number(String),
    Text(String),
    Array(Vec<JsonValue>),
    Object(Vec<(String, JsonValue)>),
}

/// The mathematical content of a [`JsonValue`].
pub ghost enum JsonModel {
    Null,
    Bool(bool),
    Number(Seq<char>),
    Text(Seq<char>),
    Array(Seq<JsonModel>),
    Object(Seq<(Seq<char>, JsonModel)>),
}

impl View for JsonValue {
    type V = JsonModel;

    open spec fn view(&self) -> JsonModel
        decreases self,
    {
        match self {
            JsonValue::Null => JsonModel::Null,
            JsonValue::Bool(b) => JsonModel::Bool(*b),
            JsonValue::Number(digits) => JsonModel::Number(digits@),
            JsonValue::Text(text) => JsonModel::Text(text@),
            JsonValue::Array(items) => JsonModel::Array(
                Seq::new(
                    items@.len(),
                    |i: int|
                        if 0 <= i < items@.len() {
                            items@[i].view()
                        } else {
                            JsonModel::Null
                        },
                ),
            ),
            JsonValue::Object(entries) => JsonModel::Object(
                Seq::new(
                    entries@.len(),
                    |i: int|
                        (
                            entries@[i].0@,
                            if 0 <= i < entries@.len() {
                                entries@[i].1.view()
                            } else {
                                JsonModel::Null
                            },
                        ),
                ),
            ),
        }
    }
}

impl DeepView for JsonValue {
    type V = JsonModel;

    open spec fn deep_view(&self) -> JsonModel {
        self@
    }
}

/// What an array holds is what its items hold.
pub proof fn lemma_array_view(value: JsonValue)
    requires
        value is Array,
    ensures
        value@ == JsonModel::Array(value->Array_0.deep_view()),
{
    assert(value@->Array_0 =~= value->Array_0.deep_view());
}

/// What an object holds is what its entries hold.
pub proof fn lemma_object_view(value: JsonValue)
    requires
        value is Object,
    ensures
        value@ == JsonModel::Object(value->Object_0.deep_view()),
{
    assert(value@->Object_0 =~= value->Object_0.deep_view());
}

impl JsonModel {
    /// The text of a document that is a string; nothing for any other.
    pub open spec fn text(self) -> Option<Seq<char>> {
        match self {
            JsonModel::Text(text) => Some(text),
            _ => None,
        }
    }
}

/// Entry `i` of a record bears the name `name`.
pub open spec fn named_at(entries: Seq<(Seq<char>, JsonModel)>, i: int, name: Seq<char>) -> bool {
    0 <= i < entries.len() && entries[i].0 == name
}

/// Entry `i` of a record bears the name `name`, and no other entry does.
pub open spec fn named_only_at(
    entries: Seq<(Seq<char>, JsonModel)>,
    i: int,
    name: Seq<char>,
) -> bool {
    named_at(entries, i, name) && forall|j: int| #[trigger] named_at(entries, j, name) ==> j == i
}

/// The text that a record gives under `name`: that of the one entry so
/// named, where that entry is a string. A name that no entry bears, that
/// two entries bear, or whose entry is no string, gives nothing.
pub open spec fn field_text(entries: Seq<(Seq<char>, JsonModel)>, name: Seq<char>) -> Option<
    Seq<char>,
> {
    if exists|i: int| named_only_at(entries, i, name) {
        entries[choose|i: int| named_only_at(entries, i, name)].1.text()
    } else {
        None
    }
}

/// A name that exactly one entry of a record bears gives what that entry
/// gives.
pub proof fn lemma_field_text_of_sole_entry(
    entries: Seq<(Seq<char>, JsonModel)>,
    i: int,
    name: Seq<char>,
)
    requires
        named_only_at(entries, i, name),
    ensures
        field_text(entries, name) == entries[i].1.text(),
{
    assert(named_at(entries, i, name));
}

/// A name that no entry of a record bears gives nothing, and so does a
/// name that two entries bear.
pub proof fn lemma_field_text_absent_or_repeated(
    entries: Seq<(Seq<char>, JsonModel)>,
    name: Seq<char>,
)
    requires
        (forall|i: int| !named_at(entries, i, name)) || (exists|i: int, j: int|
            i != j && named_at(entries, i, name) && named_at(entries, j, name)),
    ensures
        field_text(entries, name) is None,
{
    assert(forall|k: int| !named_only_at(entries, k, name));
}

/// An entry under another name leaves what a name gives as it was.
pub proof fn lemma_field_text_skips_other_names(
    entries: Seq<(Seq<char>, JsonModel)>,
    other: (Seq<char>, JsonModel),
    name: Seq<char>,
)
    requires
        other.0 != name,
    ensures
        field_text(entries.push(other), name) == field_text(entries, name),
{
    let longer = entries.push(other);
    assert forall|k: int| named_at(longer, k, name) <==> named_at(entries, k, name) by {
        if 0 <= k < entries.len() {
            assert(longer[k] == entries[k]);
        }
    }
    assert(forall|k: int| named_only_at(longer, k, name) <==> named_only_at(entries, k, name));
    if exists|k: int| named_only_at(entries, k, name) {
        let k = choose|k: int| named_only_at(entries, k, name);
        lemma_field_text_of_sole_entry(longer, k, name);
    }
}

impl JsonValue {
    /// A copy of the text of a document that is a string.
    pub fn text(&self) -> (found: Option<String>)
        ensures
            found.deep_view() == self@.text(),
    {
        match self {
            JsonValue::Text(text) => Some(text.clone()),
            _ => None,
        }
    }
}

/// Looks a name up among the entries of a record.
pub fn find_field_text(entries: &Vec<(String, JsonValue)>, name: &str) -> (found: Option<String>)
    ensures
        found.deep_view() == field_text(entries.deep_view(), name@),
{
    let ghost model = entries.deep_view();
    let mut at: Option<usize> = None;
    let mut i: usize = 0;
    while i < entries.len()
        invariant
            i <= entries@.len(),
            model == entries.deep_view(),
            match at {
                Some(k) => k < i && named_at(model, k as int, name@) && forall|j: int|
                    0 <= j < i && #[trigger] named_at(model, j, name@) ==> j == k,
                None => forall|j: int| 0 <= j < i ==> !#[trigger] named_at(model, j, name@),
            },
        decreases entries@.len() - i,
    {
        if crate::text::str_eq(entries[i].0.as_str(), name) {
            if at.is_some() {
                assert(named_at(model, i as int, name@));
                return None;
            }
            at = Some(i);
        }
        i += 1;
    }
    match at {
        Some(k) => {
            assert(named_only_at(model, k as int, name@));
            entries[k].1.text()
        },
        None => None,
    }
}

} // verus!
