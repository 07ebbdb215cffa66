//! A JSON document as the importer reads it: a tree of plain values, with
//! the look-ups that the importer makes.

use vstd::prelude::*;

verus! {

#[verifier::external_type_specification]
#[verifier::external_body]
pub struct ExNumber(serde_json::Number);

#[verifier::external_type_specification]
#[verifier::external_body]
pub struct ExValue(serde_json::Value);

/// A JSON value. An object holds its members in the order in which they were
/// put in; where a key stands twice, the later member counts.
#[derive(Debug)]
pub enum Json {
    Null,
    Bool(bool),
    Number(serde_json::Number),
    Text(String),
    Array(Vec<Json>),
    Object(Vec<(String, Json)>),
}

/// The compact JSON text of `value`, as `serde_json` writes it.
pub uninterp spec fn json_text(value: Json) -> Seq<char>;

/// Builds the `serde_json::Value` of the same shape as `value`, variant by
/// variant; the members of an object are inserted in their order, so that a
/// later member replaces an earlier one of the same key. Nothing is claimed
/// of the result: it is only handed on to `render`.
#[verifier::external_body]
fn to_outside(value: &Json) -> serde_json::Value {
    match value {
        Json::Null => serde_json::Value::Null,
        Json::Bool(b) => serde_json::Value::Bool(*b),
        Json::Number(n) => serde_json::Value::Number(n.clone()),
        Json::Text(s) => serde_json::Value::String(s.clone()),
        Json::Array(items) => serde_json::Value::Array(items.iter().map(to_outside).collect()),
        Json::Object(entries) => serde_json::Value::Object(
            entries.iter().map(|e| (e.0.clone(), to_outside(&e.1))).collect(),
        ),
    }
}

/// `serde_json::Value::to_string` writes a value as compact JSON text: no
/// white space between tokens, the members of an object in the order of
/// their keys. The contract only names that text.
#[verifier::external_body]
fn render(value: &Json) -> (r: String)
    ensures
        r@ == json_text(*value),
{
    to_outside(value).to_string()
}

/// The member of `entries` with the key `key`: the last one, where several
/// have it.
pub open spec fn lookup(entries: Seq<(String, Json)>, key: Seq<char>) -> Option<Json>
    decreases entries.len(),
{
    if entries.len() == 0 {
        None
    } else if entries.last().0@ == key {
        Some(entries.last().1)
    } else {
        lookup(entries.drop_last(), key)
    }
}

impl Json {
    /// The member with the key `key`, where the value is an object that has
    /// one.
    pub open spec fn member(self, key: Seq<char>) -> Option<Json> {
        match self {
            Json::Object(entries) => lookup(entries@, key),
            _ => None,
        }
    }

    /// The text of the value, where it is a string.
    pub open spec fn text(self) -> Option<Seq<char>> {
        match self {
            Json::Text(s) => Some(s@),
            _ => None,
        }
    }

    /// The truth value of the value, where it is one.
    pub open spec fn truth(self) -> Option<bool> {
        match self {
            Json::Bool(b) => Some(b),
            _ => None,
        }
    }

    /// The items of the value, where it is an array.
    pub open spec fn items(self) -> Option<Seq<Json>> {
        match self {
            Json::Array(items) => Some(items@),
            _ => None,
        }
    }

    /// Looks up the member with the key `key`.
    pub fn get(&self, key: &str) -> (r: Option<&Json>)
        ensures
            match r {
                Some(found) => self.member(key@) == Some(*found),
                None => self.member(key@) is None,
            },
    {
        match self {
            Json::Object(entries) => {
                let wanted = key.to_owned();
                let mut i: usize = entries.len();
                proof {
                    assert(entries@.take(i as int) =~= entries@);
                }
                while i > 0
                    invariant
                        i <= entries.len(),
                        wanted@ == key@,
                        self.member(key@) == lookup(entries@, key@),
                        lookup(entries@, key@) == lookup(entries@.take(i as int), key@),
                    decreases i,
                {
                    proof {
                        assert(entries@.take(i as int).drop_last() =~= entries@.take(i - 1));
                        assert(entries@.take(i as int).last() == entries@[i - 1]);
                    }
                    if entries[i - 1].0 == wanted {
                        return Some(&entries[i - 1].1);
                    }
                    i -= 1;
                }
                None
            },
            _ => None,
        }
    }

    /// The string that the value holds, where it is a string.
    pub fn as_str(&self) -> (r: Option<&str>)
        ensures
            match r {
                Some(s) => self.text() == Some(s@),
                None => self.text() is None,
            },
    {
        match self {
            Json::Text(s) => Some(s.as_str()),
            _ => None,
        }
    }

    /// The truth value that the value holds, where it is one.
    pub fn as_bool(&self) -> (r: Option<bool>)
        ensures
            r == self.truth(),
    {
        match self {
            Json::Bool(b) => Some(*b),
            _ => None,
        }
    }

    /// The items of the value, where it is an array.
    pub fn as_array(&self) -> (r: Option<&Vec<Json>>)
        ensures
            match r {
                Some(items) => self.items() == Some(items@),
                None => self.items() is None,
            },
    {
        match self {
            Json::Array(items) => Some(items),
            _ => None,
        }
    }

    /// Whether the value is `null`.
    pub fn is_null(&self) -> (r: bool)
        ensures
            r == (self is Null),
    {
        match self {
            Json::Null => true,
            _ => false,
        }
    }

    /// The compact JSON text of the value.
    pub fn to_text(&self) -> (r: String)
        ensures
            r@ == json_text(*self),
    {
        render(self)
    }
}

} // verus!
