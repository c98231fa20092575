//! JSON values as plain data, and the one place where text becomes a value.

use vstd::prelude::*;

use crate::words::{blank, is_blank, spells};

verus! {

/// A JSON number, kept in every form that its spelling allows.
#[derive(Debug, Clone, Copy, PartialEq)]
pub struct Number {
    /// The number as an unsigned integer, where it is one.
    pub unsigned: Option<u64>,
    /// The number as a signed integer, where it is one that fits.
    pub signed: Option<i64>,
    /// The bit pattern of the double nearest to the number.
    pub double_bits: Option<u64>,
}

/// One member of a JSON object: a key, as UTF-8 bytes, and its value.
#[derive(Debug, PartialEq)]
pub struct Member {
    pub key: Vec<u8>,
    pub value: Json,
}

/// A JSON value. Strings are held as their UTF-8 bytes; the members of an
/// object stand in the order in which they were given.
#[derive(Debug, PartialEq)]
pub enum Json {
    Null,
    Bool(bool),
    Number(Number),
    Text(Vec<u8>),
    Array(Vec<Json>),
    Object(Vec<Member>),
}

#[verifier::external_type_specification]
#[verifier::external_body]
pub struct ExValue(serde_json::Value);

/// The first JSON value that `text` spells, white space before it passed
/// over, together with the number of bytes read up to the value's end;
/// `None` where `text` starts with no value.
pub uninterp spec fn leading_value(text: Seq<u8>) -> Option<(Json, nat)>;

/// Copies a `serde_json::Value` into a `Json`, variant by variant. A number
/// is read through `serde_json::Number::as_u64`, `as_i64` and `as_f64`; an
/// object's members come in the order in which `serde_json::Map::iter` hands
/// them out. Nothing is claimed of the copy: no proof rests on what it
/// holds.
#[verifier::external_body]
fn json_of_value(value: &serde_json::Value) -> (json: Json) {
    match value {
        serde_json::Value::Null => Json::Null,
        serde_json::Value::Bool(b) => Json::Bool(*b),
        serde_json::Value::Number(n) => Json::Number(Number {
            unsigned: n.as_u64(),
            signed: n.as_i64(),
            double_bits: n.as_f64().map(|d| d.to_bits()),
        }),
        serde_json::Value::String(s) => Json::Text(s.clone().into_bytes()),
        serde_json::Value::Array(items) => Json::Array(items.iter().map(json_of_value).collect()),
        serde_json::Value::Object(map) => Json::Object(
            map.iter().map(|(k, v)| Member { key: k.clone().into_bytes(), value: json_of_value(v) }).collect(),
        ),
    }
}

/// Reads the first JSON value of `text` with `serde_json`: a
/// `StreamDeserializer` made by `Deserializer::from_slice` and `into_iter`,
/// its `next` for the value and its `byte_offset` for the number of bytes
/// read when the value ended. An error of the parser, and a text that holds
/// white space only, give `None`.
///
/// The contract claims that the outcome depends on the bytes alone, and
/// gives it a name. It claims nothing of which value or which end that is:
/// that the end lies within the text is tested by those who call this.
#[verifier::external_body]
pub(crate) fn read_leading_value(text: &[u8]) -> (found: Option<(Json, usize)>)
    ensures
        match found {
            Some((value, end)) => leading_value(text@) == Some((value, end as nat)),
            None => leading_value(text@) is None,
        },
{
    let mut stream = serde_json::Deserializer::from_slice(text).into_iter::<serde_json::Value>();
    match stream.next() {
        Some(Ok(value)) => Some((json_of_value(&value), stream.byte_offset())),
        _ => None,
    }
}

/// Whether `text` holds nothing but white space from `at` on.
pub open spec fn blank_from(text: Seq<u8>, at: int) -> bool {
    forall|i: int| at <= i < text.len() ==> is_blank(#[trigger] text[i])
}

/// What `found` is worth as a reading of the whole of `text`: its value,
/// where it ended within `text` and nothing but white space follows.
pub open spec fn whole_of(text: Seq<u8>, found: Option<(Json, nat)>) -> Option<Json> {
    match found {
        Some((value, end)) => if end <= text.len() && blank_from(text, end as int) {
            Some(value)
        } else {
            None
        },
        None => None,
    }
}

/// The JSON value that the whole of `text` spells: its leading value,
/// where nothing but white space follows it.
pub open spec fn whole_value(text: Seq<u8>) -> Option<Json> {
    whole_of(text, leading_value(text))
}

/// Keeps the value of `found` where it is a reading of the whole of `text`.
pub fn take_whole(text: &[u8], found: Option<(Json, usize)>) -> (whole: Option<Json>)
    ensures
        whole == whole_of(
            text@,
            match found {
                Some((value, end)) => Some((value, end as nat)),
                None => None,
            },
        ),
{
    match found {
        Some((value, end)) => {
            if end > text.len() {
                return None;
            }
            let mut i: usize = end;
            while i < text.len()
                invariant
                    found == Some((value, end)),
                    end <= i <= text.len(),
                    forall|j: int| end <= j < i ==> is_blank(#[trigger] text@[j]),
                decreases text.len() - i,
            {
                if !blank(text[i]) {
                    assert(!is_blank(text@[i as int]));
                    return None;
                }
                i += 1;
            }
            Some(value)
        },
        None => None,
    }
}

/// Reads the whole of `text` as one JSON value.
pub fn read_whole_value(text: &[u8]) -> (found: Option<Json>)
    ensures
        found == whole_value(text@),
{
    take_whole(text, read_leading_value(text))
}

/// The place of the first member of `members`, from `start` on, whose key
/// spells `word`.
pub open spec fn member_from(members: Seq<Member>, word: Seq<u8>, start: int) -> Option<int>
    decreases members.len() - start,
{
    if start < 0 || start >= members.len() {
        None
    } else if members[start].key@ == word {
        Some(start)
    } else {
        member_from(members, word, start + 1)
    }
}

/// The place of the first member of `members` whose key spells `word`.
pub open spec fn member_named(members: Seq<Member>, word: Seq<u8>) -> Option<int> {
    member_from(members, word, 0)
}

/// Finds the first member whose key spells `word`.
pub fn find_member<const N: usize>(members: &Vec<Member>, word: &[u8; N]) -> (place: Option<usize>)
    ensures
        match place {
            Some(at) => member_named(members@, word@) == Some(at as int) && at < members@.len(),
            None => member_named(members@, word@) is None,
        },
{
    let mut i: usize = 0;
    while i < members.len()
        invariant
            i <= members.len(),
            member_named(members@, word@) == member_from(members@, word@, i as int),
        decreases members.len() - i,
    {
        if spells(&members[i].key, word) {
            return Some(i);
        }
        i += 1;
    }
    None
}

} // verus!
