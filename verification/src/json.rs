//! A plain tree for JSON documents, and the call into `serde_json` that turns
//! bytes into such a tree.

use vstd::prelude::*;

verus! {

/// A JSON number, reduced to what a record needs of it.
#[derive(Debug, Clone, PartialEq, Eq)]
pub enum JsonNumber {
    /// An integer from 0 to `u64::MAX`.
    Unsigned(u64),
    /// Any other number (negative, fractional, or too large), kept as the
    /// text that `serde_json` prints for it.
    Other(String),
}

/// A JSON document.
#[derive(Debug, PartialEq, Eq)]
pub enum JsonValue {
    Null,
    Bool(bool),
    Number(JsonNumber),
    Text(String),
    List(Vec<JsonValue>),
    /// The members of an object. Where a key occurs twice, the later member
    /// is the one that counts.
    Object(Vec<(String, JsonValue)>),
}

/// The mathematical value of a [`JsonNumber`].
pub enum JsonNumberView {
    Unsigned(u64),
    Other(Seq<char>),
}

/// The mathematical value of a [`JsonValue`].
pub enum JsonView {
    Null,
    Bool(bool),
    Number(JsonNumberView),
    Text(Seq<char>),
    List(Seq<JsonView>),
    Object(Seq<(Seq<char>, JsonView)>),
}

impl View for JsonNumber {
    type V = JsonNumberView;

    open spec fn view(&self) -> JsonNumberView {
        match self {
            JsonNumber::Unsigned(n) => JsonNumberView::Unsigned(*n),
            JsonNumber::Other(text) => JsonNumberView::Other(text@),
        }
    }
}

/// The mathematical value of a document: its tree, with each string as its
/// characters and each array as the sequence of its items' values.
pub open spec fn value_of(value: JsonValue) -> JsonView
    decreases value,
{
    match value {
        JsonValue::Null => JsonView::Null,
        JsonValue::Bool(b) => JsonView::Bool(b),
        JsonValue::Number(n) => JsonView::Number(n@),
        JsonValue::Text(s) => JsonView::Text(s@),
        JsonValue::List(items) => JsonView::List(
            Seq::new(
                items@.len(),
                |i: int|
                    if 0 <= i < items@.len() {
                        value_of(items@[i])
                    } else {
                        JsonView::Null
                    },
            ),
        ),
        JsonValue::Object(members) => JsonView::Object(
            Seq::new(
                members@.len(),
                |i: int|
                    if 0 <= i < members@.len() {
                        (members@[i].0@, value_of(members@[i].1))
                    } else {
                        (Seq::empty(), JsonView::Null)
                    },
            ),
        ),
    }
}

impl View for JsonValue {
    type V = JsonView;

    open spec fn view(&self) -> JsonView {
        value_of(*self)
    }
}

/// The value that `members` gives to `key`: that of the last member with this
/// key, and `Null` where there is none.
pub open spec fn lookup(members: Seq<(Seq<char>, JsonView)>, key: Seq<char>) -> JsonView
    decreases members.len(),
{
    if members.len() == 0 {
        JsonView::Null
    } else if members.last().0 == key {
        members.last().1
    } else {
        lookup(members.drop_last(), key)
    }
}

impl JsonView {
    /// The member `key` of an object; `Null` for a missing member and for
    /// anything that is no object.
    pub open spec fn member(self, key: Seq<char>) -> JsonView {
        match self {
            JsonView::Object(members) => lookup(members, key),
            _ => JsonView::Null,
        }
    }

    /// The characters of a string, and `None` for anything else.
    pub open spec fn as_text(self) -> Option<Seq<char>> {
        match self {
            JsonView::Text(s) => Some(s),
            _ => None,
        }
    }

    /// The value of a number from 0 to `u64::MAX`, and `None` for anything
    /// else.
    pub open spec fn as_u64(self) -> Option<u64> {
        match self {
            JsonView::Number(JsonNumberView::Unsigned(n)) => Some(n),
            _ => None,
        }
    }

    /// The items of an array, and `None` for anything else.
    pub open spec fn as_list(self) -> Option<Seq<JsonView>> {
        match self {
            JsonView::List(items) => Some(items),
            _ => None,
        }
    }
}

/// `serde_json::Error`. Nothing is known of a value of it.
#[verifier::external_type_specification]
#[verifier::external_body]
pub struct ExJsonError(serde_json::Error);

/// `serde_json::Value`. Nothing is known of a value of it: the library
/// works on its own copy, a [`JsonValue`].
#[verifier::external_type_specification]
#[verifier::external_body]
pub struct ExOutsideValue(serde_json::Value);

/// What `serde_json::from_slice` makes of `bytes` when asked for a
/// `serde_json::Value`: the document, or `None` where it reports an error.
pub uninterp spec fn json_document(bytes: Seq<u8>) -> Option<JsonView>;

/// Copies a `serde_json::Value` into a [`JsonValue`], node by node. A number
/// for which `serde_json::Number::as_u64` has a value becomes `Unsigned`, any
/// other number `Other`, with the text that `serde_json` prints for it. Nothing
/// is claimed of the result here: `json_from_slice` names it.
#[verifier::external_body]
fn json_from_outside(value: serde_json::Value) -> JsonValue {
    match value {
        serde_json::Value::Null => JsonValue::Null,
        serde_json::Value::Bool(b) => JsonValue::Bool(b),
        serde_json::Value::Number(n) => JsonValue::Number(
            match n.as_u64() {
                Some(u) => JsonNumber::Unsigned(u),
                None => JsonNumber::Other(n.to_string()),
            },
        ),
        serde_json::Value::String(s) => JsonValue::Text(s),
        serde_json::Value::Array(a) => JsonValue::List(a.into_iter().map(json_from_outside).collect()),
        serde_json::Value::Object(o) => JsonValue::Object(
            o.into_iter().map(|(k, v)| (k, json_from_outside(v))).collect(),
        ),
    }
}

/// `serde_json::from_slice`, asked for a `serde_json::Value`. The contract
/// claims only that the outcome is a function of the bytes: it is `Ok` with the
/// document that `json_document` names, or an error where that is `None`.
#[verifier::external_body]
pub(crate) fn json_from_slice(bytes: &[u8]) -> (r: Result<JsonValue, serde_json::Error>)
    ensures
        match r {
            Ok(value) => json_document(bytes@) == Some(value@),
            Err(_) => json_document(bytes@) is None,
        },
{
    serde_json::from_slice::<serde_json::Value>(bytes).map(json_from_outside)
}

/// What the view of an array holds, item by item.
pub proof fn lemma_view_of_list(items: Vec<JsonValue>)
    ensures
        JsonValue::List(items)@ is List,
        JsonValue::List(items)@->List_0.len() == items@.len(),
        forall|k: int|
            0 <= k < items@.len() ==> #[trigger] JsonValue::List(items)@->List_0[k] == items@[k]@,
{
}

/// What the view of an object holds, member by member.
pub proof fn lemma_view_of_object(members: Vec<(String, JsonValue)>)
    ensures
        JsonValue::Object(members)@ is Object,
        JsonValue::Object(members)@->Object_0.len() == members@.len(),
        forall|k: int|
            0 <= k < members@.len() ==> #[trigger] JsonValue::Object(members)@->Object_0[k] == (
                members@[k].0@,
                members@[k].1@,
            ),
{
}

impl JsonValue {
    /// Reads bytes as one JSON document. `None` where they are none.
    pub fn parse(bytes: &[u8]) -> (r: Option<JsonValue>)
        ensures
            match r {
                Some(value) => json_document(bytes@) == Some(value@),
                None => json_document(bytes@) is None,
            },
    {
        match json_from_slice(bytes) {
            Ok(value) => Some(value),
            Err(_) => None,
        }
    }

    /// The member `key` of an object, `None` standing for `Null`.
    pub fn member<'a>(&'a self, key: &str) -> (r: Option<&'a JsonValue>)
        ensures
            self@.member(key@) == (match r {
                Some(value) => value@,
                None => JsonView::Null,
            }),
    {
        match self {
            JsonValue::Object(members) => {
                let wanted = key.to_owned();
                proof {
                    lemma_view_of_object(*members);
                    assert(self@->Object_0.take(members@.len() as int) =~= self@->Object_0);
                }
                let mut i: usize = members.len();
                while i > 0
                    invariant
                        i <= members@.len(),
                        wanted@ == key@,
                        self@ is Object,
                        self@->Object_0.len() == members@.len(),
                        forall|k: int|
                            0 <= k < members@.len() ==> #[trigger] self@->Object_0[k] == (
                                members@[k].0@,
                                members@[k].1@,
                            ),
                        lookup(self@->Object_0, key@) == lookup(
                            self@->Object_0.take(i as int),
                            key@,
                        ),
                    decreases i,
                {
                    i = i - 1;
                    proof {
                        let prefix = self@->Object_0.take(i + 1);
                        assert(prefix.drop_last() =~= self@->Object_0.take(i as int));
                    }
                    if members[i].0 == wanted {
                        return Some(&members[i].1);
                    }
                }
                None
            },
            _ => None,
        }
    }

    /// The characters of a string.
    pub fn as_str<'a>(&'a self) -> (r: Option<&'a String>)
        ensures
            self@.as_text() == (match r {
                Some(s) => Some(s@),
                None => None,
            }),
    {
        match self {
            JsonValue::Text(s) => Some(s),
            _ => None,
        }
    }

    /// The value of a number from 0 to `u64::MAX`.
    pub fn as_u64(&self) -> (r: Option<u64>)
        ensures
            r == self@.as_u64(),
    {
        match self {
            JsonValue::Number(JsonNumber::Unsigned(n)) => Some(*n),
            _ => None,
        }
    }

    /// The items of an array.
    pub fn as_array<'a>(&'a self) -> (r: Option<&'a Vec<JsonValue>>)
        ensures
            match r {
                Some(items) => self@.as_list() is Some && self@.as_list()->Some_0.len()
                    == items@.len() && forall|k: int|
                    0 <= k < items@.len() ==> #[trigger] self@.as_list()->Some_0[k]
                        == items@[k]@,
                None => self@.as_list() is None,
            },
    {
        match self {
            JsonValue::List(items) => {
                proof {
                    lemma_view_of_list(*items);
                }
                Some(items)
            },
            _ => None,
        }
    }
}

} // verus!
