//! JSON documents, as far as the library reads them.

use vstd::prelude::*;
use vstd::string::*;
use crate::text::{same_text, texts_of};

verus! {

/// A JSON value as the parser holds it.
#[verifier::external_type_specification]
#[verifier::external_body]
pub struct ExValue(serde_json::Value);

/// A JSON value. A number is kept as the text that denotes it; the
/// members of an object stand in the order in which the parser hands them
/// out.
#[derive(Debug)]
pub enum Json {
    Null,
    Bool(bool),
    Number(String),
    Text(String),
    List(Vec<Json>),
    Object(Vec<(String, Json)>),
}

/// What the text `text` denotes as JSON, or the parser's message where it
/// denotes nothing.
pub uninterp spec fn json_of_text(text: Seq<char>) -> Result<Json, Seq<char>>;

/// What a parsed value holds.
pub uninterp spec fn json_of_value(value: serde_json::Value) -> Json;

/// Parses a text with `serde_json::from_str`. Trusted: the outcome is the
/// one that `json_of_text` names for the text, the value standing for what
/// it holds, a failure for the parser's message.
#[verifier::external_body]
fn parse_value(text: &str) -> (r: Result<serde_json::Value, String>)
    ensures
        json_of_text(text@) == match r {
            Ok(v) => Ok::<Json, Seq<char>>(json_of_value(v)),
            Err(m) => Err::<Json, Seq<char>>(m@),
        },
{
    serde_json::from_str::<serde_json::Value>(text).map_err(|e| e.to_string())
}

/// Copies a `serde_json::Value` into a `Json`, variant by variant; a
/// number through `serde_json::Number`'s `to_string`. Trusted: the copy is
/// what `json_of_value` names.
#[verifier::external_body]
fn json_of(value: serde_json::Value) -> (j: Json)
    ensures
        j == json_of_value(value),
{
    match value {
        serde_json::Value::Null => Json::Null,
        serde_json::Value::Bool(b) => Json::Bool(b),
        serde_json::Value::Number(n) => Json::Number(n.to_string()),
        serde_json::Value::String(s) => Json::Text(s),
        serde_json::Value::Array(a) => Json::List(a.into_iter().map(json_of).collect()),
        serde_json::Value::Object(o) => Json::Object(o.into_iter().map(|(k, v)| (k, json_of(v))).collect()),
    }
}

/// The value of the first of `pairs` whose name is `key`.
pub open spec fn lookup(pairs: Seq<(String, Json)>, key: Seq<char>) -> Option<Json>
    decreases pairs.len(),
{
    if pairs.len() == 0 {
        None
    } else if pairs[0].0@ == key {
        Some(pairs[0].1)
    } else {
        lookup(pairs.subrange(1, pairs.len() as int), key)
    }
}

impl Json {
    /// The member `key` of an object; nothing for any other value.
    pub open spec fn member(self, key: Seq<char>) -> Option<Json> {
        match self {
            Json::Object(pairs) => lookup(pairs@, key),
            _ => None,
        }
    }

    /// The text of a string.
    pub open spec fn as_text(self) -> Option<Seq<char>> {
        match self {
            Json::Text(s) => Some(s@),
            _ => None,
        }
    }

    /// The value of a boolean.
    pub open spec fn as_flag(self) -> Option<bool> {
        match self {
            Json::Bool(b) => Some(b),
            _ => None,
        }
    }

    /// The texts of a list all of whose items are strings.
    pub open spec fn as_texts(self) -> Option<Seq<Seq<char>>> {
        match self {
            Json::List(items) => if forall|i: int| 0 <= i < items@.len() ==> (#[trigger] items@[i]) is Text {
                Some(Seq::new(items@.len(), |i: int| items@[i]->Text_0@))
            } else {
                None
            },
            _ => None,
        }
    }

    /// Parses a JSON text.
    pub fn parse(text: &str) -> (r: Result<Json, String>)
        ensures
            json_of_text(text@) == match r {
                Ok(j) => Ok::<Json, Seq<char>>(j),
                Err(m) => Err::<Json, Seq<char>>(m@),
            },
    {
        match parse_value(text) {
            Ok(v) => Ok(json_of(v)),
            Err(m) => Err(m),
        }
    }

    /// The member `key` of an object.
    pub fn get(&self, key: &str) -> (r: Option<&Json>)
        ensures
            match r {
                Some(j) => self.member(key@) == Some(*j),
                None => self.member(key@) is None,
            },
    {
        match self {
            Json::Object(pairs) => {
                let n: usize = pairs.len();
                let mut i: usize = 0;
                assert(pairs@.subrange(0, n as int) =~= pairs@);
                while i < n
                    invariant
                        n == pairs.len(),
                        i <= n,
                        self.member(key@) == lookup(pairs@, key@),
                        lookup(pairs@, key@) == lookup(pairs@.subrange(i as int, n as int), key@),
                    decreases n - i,
                {
                    let ghost tail = pairs@.subrange(i as int, n as int);
                    assert(tail[0] == pairs@[i as int]);
                    let pair = &pairs[i];
                    if same_text(pair.0.as_str(), key) {
                        assert(tail.len() > 0 && tail[0].0@ == key@);
                        return Some(&pair.1);
                    }
                    assert(tail.subrange(1, tail.len() as int) =~= pairs@.subrange(i + 1, n as int));
                    i = i + 1;
                }
                assert(pairs@.subrange(n as int, n as int).len() == 0);
                None
            },
            _ => None,
        }
    }

    /// The text of a string.
    pub fn text(&self) -> (r: Option<&str>)
        ensures
            match r {
                Some(s) => self.as_text() == Some(s@),
                None => self.as_text() is None,
            },
    {
        match self {
            Json::Text(s) => Some(s.as_str()),
            _ => None,
        }
    }

    /// The value of a boolean.
    pub fn flag(&self) -> (r: Option<bool>)
        ensures
            r == self.as_flag(),
    {
        match self {
            Json::Bool(b) => Some(*b),
            _ => None,
        }
    }

    /// The texts of a list of strings; nothing where an item is no string.
    pub fn texts(&self) -> (r: Option<Vec<String>>)
        ensures
            match r {
                Some(v) => self.as_texts() == Some(texts_of(v@)),
                None => self.as_texts() is None,
            },
    {
        match self {
            Json::List(items) => {
                let n: usize = items.len();
                let mut out: Vec<String> = Vec::new();
                let mut i: usize = 0;
                while i < n
                    invariant
                        n == items.len(),
                        i <= n,
                        out@.len() == i,
                        *self == Json::List(*items),
                        forall|k: int| 0 <= k < i ==> (#[trigger] items@[k]) is Text,
                        forall|k: int| 0 <= k < i ==> (#[trigger] out@[k])@ == items@[k]->Text_0@,
                    decreases n - i,
                {
                    match &items[i] {
                        Json::Text(s) => {
                            out.push(s.clone());
                        },
                        _ => {
                            assert(!(items@[i as int] is Text));
                            return None;
                        },
                    }
                    i = i + 1;
                }
                assert(texts_of(out@) =~= Seq::new(items@.len(), |i: int| items@[i]->Text_0@));
                Some(out)
            },
            _ => None,
        }
    }
}

} // verus!
