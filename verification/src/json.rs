//! The library's own model of a JSON document, as far as the wrapper reads one,
//! and the syntax check it borrows from `serde_json`.

use vstd::prelude::*;
use crate::text::str_eq;

verus! {

/// One JSON value together with its compact serialization.
///
/// `text` is the value written back out as compact JSON (what `serde_json`
/// prints for it); it is what the `attrs` column and every JSON-typed cell
/// carry.  `node` is the value's shape.
#[derive(Debug)]
pub struct Json {
    pub text: String,
    pub node: JsonNode,
}

/// The shape of a JSON value.
#[derive(Debug)]
pub enum JsonNode {
    Null,
    Bool(bool),
    /// A number; it holds the integer when the number is an integer that fits in an `i64`.
    Number(Option<i64>),
    Str(String),
    Array(Vec<Json>),
    /// The members of an object, in document order, with distinct keys.
    Object(Vec<(String, Json)>),
}

/// Position of the first member whose key is `key`.
pub open spec fn first_key_index(fields: Seq<(String, Json)>, key: Seq<char>) -> Option<int>
    decreases fields.len(),
{
    if fields.len() == 0 {
        None
    } else if fields[0].0@ == key {
        Some(0)
    } else {
        match first_key_index(fields.drop_first(), key) {
            Some(i) => Some(i + 1),
            None => None,
        }
    }
}

pub proof fn lemma_first_key_index(fields: Seq<(String, Json)>, key: Seq<char>)
    ensures
        match first_key_index(fields, key) {
            Some(i) => 0 <= i < fields.len() && fields[i].0@ == key && forall|j: int|
                0 <= j < i ==> fields[j].0@ != key,
            None => forall|j: int| 0 <= j < fields.len() ==> fields[j].0@ != key,
        },
    decreases fields.len(),
{
    if fields.len() > 0 {
        lemma_first_key_index(fields.drop_first(), key);
        if fields[0].0@ != key {
            match first_key_index(fields.drop_first(), key) {
                Some(i) => {
                    assert forall|j: int| 0 <= j < i + 1 implies fields[j].0@ != key by {
                        if j > 0 {
                            assert(fields[j] == fields.drop_first()[j - 1]);
                        }
                    }
                },
                None => {
                    assert forall|j: int| 0 <= j < fields.len() implies fields[j].0@ != key by {
                        if j > 0 {
                            assert(fields[j] == fields.drop_first()[j - 1]);
                        }
                    }
                },
            }
        }
    }
}

impl Json {
    /// Position of the member named `key` when this value is an object that has one.
    pub open spec fn member_position(self, key: Seq<char>) -> Option<int> {
        match self.node {
            JsonNode::Object(fields) => first_key_index(fields@, key),
            _ => None,
        }
    }

    /// The member named `key` when this value is an object that has one.
    pub open spec fn member(self, key: Seq<char>) -> Option<Json> {
        match self.node {
            JsonNode::Object(fields) => match first_key_index(fields@, key) {
                Some(i) => Some(fields@[i].1),
                None => None,
            },
            _ => None,
        }
    }

    /// The characters of this value when it is a string.
    pub open spec fn str_value(self) -> Option<Seq<char>> {
        match self.node {
            JsonNode::Str(s) => Some(s@),
            _ => None,
        }
    }

    /// The characters of member `key` when it is present and a string.
    pub open spec fn member_str(self, key: Seq<char>) -> Option<Seq<char>> {
        match self.member(key) {
            Some(v) => v.str_value(),
            None => None,
        }
    }

    pub open spec fn is_object(self) -> bool {
        self.node is Object
    }

    /// Position of member `key` among the members of an object.
    fn member_index(&self, key: &str) -> (r: Option<usize>)
        ensures
            match r {
                Some(j) => self.member_position(key@) == Some(j as int),
                None => self.member_position(key@) is None,
            },
    {
        match &self.node {
            JsonNode::Object(fields) => {
                proof {
                    lemma_first_key_index(fields@, key@);
                }
                let n = fields.len();
                let mut i: usize = 0;
                while i < n
                    invariant
                        self.node == JsonNode::Object(*fields),
                        n == fields@.len(),
                        i <= n,
                        forall|j: int| 0 <= j < i ==> fields@[j].0@ != key@,
                        match first_key_index(fields@, key@) {
                            Some(k) => 0 <= k < fields.len() && fields@[k].0@ == key@ && forall|j: int|
                                0 <= j < k ==> fields@[j].0@ != key@,
                            None => forall|j: int| 0 <= j < fields.len() ==> fields@[j].0@ != key@,
                        },
                    decreases n - i,
                {
                    if str_eq(fields[i].0.as_str(), key) {
                        return Some(i);
                    }
                    i = i + 1;
                }
                None
            },
            _ => None,
        }
    }

    /// Looks up member `key` of an object.
    pub fn get(&self, key: &str) -> (r: Option<&Json>)
        ensures
            match r {
                Some(v) => self.member(key@) == Some(*v),
                None => self.member(key@) is None,
            },
    {
        match self.member_index(key) {
            Some(i) => match &self.node {
                JsonNode::Object(fields) => {
                    proof {
                        lemma_first_key_index(fields@, key@);
                    }
                    Some(&fields[i].1)
                },
                _ => None,
            },
            None => None,
        }
    }

    /// The string held by member `key`, when there is one.
    pub fn get_str(&self, key: &str) -> (r: Option<&String>)
        ensures
            match r {
                Some(s) => self.member_str(key@) == Some(s@),
                None => self.member_str(key@) is None,
            },
    {
        match self.get(key) {
            Some(v) => match &v.node {
                JsonNode::Str(s) => Some(s),
                _ => None,
            },
            None => None,
        }
    }

    /// Takes member `key` out of an object.
    pub fn into_member(self, key: &str) -> (r: Option<Json>)
        ensures
            r == self.member(key@),
    {
        match self.member_index(key) {
            Some(i) => match self.node {
                JsonNode::Object(mut fields) => {
                    proof {
                        lemma_first_key_index(fields@, key@);
                    }
                    let (_, v) = fields.remove(i);
                    Some(v)
                },
                _ => None,
            },
            None => None,
        }
    }
}

/// What `serde_json` reports when it reads `text` as one JSON value: `None` when
/// it accepts the text, else the text of its error.
pub uninterp spec fn json_syntax_error(text: Seq<char>) -> Option<Seq<char>>;

/// Runs `serde_json::from_str::<serde_json::Value>` on `text`.  Claimed: the
/// result is `None` exactly when serde_json parses the text, and otherwise the
/// `Display` text of serde_json's error; both are functions of the text alone
/// (named `json_syntax_error`).
#[verifier::external_body]
pub(crate) fn check_json_text(text: &str) -> (r: Option<String>)
    ensures
        match r {
            Some(e) => json_syntax_error(text@) == Some(e@),
            None => json_syntax_error(text@) is None,
        },
{
    match serde_json::from_str::<serde_json::Value>(text) {
        Ok(_) => None,
        Err(e) => Some(e.to_string()),
    }
}

} // verus!
