//! A JSON document as plain data, and the way in from text.
//!
//! Reading text is left to `serde_json`; what it yields is copied into
//! [`Json`], on which the rest of the crate works.

use vstd::prelude::*;

verus! {

/// `serde_json::Value`, a JSON document as `serde_json` holds it. Nothing
/// is known of what is inside; [`json_tree`] names it.
#[verifier::external_type_specification]
#[verifier::external_body]
pub struct ExValue(serde_json::Value);

/// `serde_json::Number`, a JSON number. It is carried through as it is.
#[verifier::external_type_specification]
#[verifier::external_body]
pub struct ExNumber(serde_json::Number);

/// `serde_json::Error`, what `serde_json` says of a text it rejects.
#[verifier::external_type_specification]
#[verifier::external_body]
pub struct ExError(serde_json::Error);

/// `Clone` for `serde_json::Number`: the copy is the number itself.
pub assume_specification[ <serde_json::Number as Clone>::clone ](n: &serde_json::Number) -> (r:
    serde_json::Number)
    ensures
        r == *n,
;

/// A JSON document. Objects keep their members in document order.
#[derive(Debug, PartialEq)]
pub enum Json {
    Null,
    Bool(bool),
    Number(serde_json::Number),
    Str(String),
    Array(Vec<Json>),
    Object(Vec<Member>),
}

/// One member of a JSON object.
#[derive(Debug, PartialEq)]
pub struct Member {
    pub key: String,
    pub value: Json,
}

/// The mathematical value of a [`Json`] document.
pub enum JsonTree {
    Null,
    Bool(bool),
    Number(serde_json::Number),
    Text(Seq<char>),
    Array(Seq<JsonTree>),
    Object(Seq<MemberTree>),
}

/// The mathematical value of a [`Member`].
pub struct MemberTree {
    pub key: Seq<char>,
    pub value: JsonTree,
}

impl View for Json {
    type V = JsonTree;

    open spec fn view(&self) -> JsonTree
        decreases self,
    {
        match self {
            Json::Null => JsonTree::Null,
            Json::Bool(b) => JsonTree::Bool(*b),
            Json::Number(n) => JsonTree::Number(*n),
            Json::Str(s) => JsonTree::Text(s@),
            Json::Array(items) => JsonTree::Array(
                Seq::new(
                    items@.len(),
                    |i: int|
                        if 0 <= i < items@.len() {
                            items@[i]@
                        } else {
                            JsonTree::Null
                        },
                ),
            ),
            Json::Object(members) => JsonTree::Object(
                Seq::new(
                    members@.len(),
                    |i: int|
                        if 0 <= i < members@.len() {
                            MemberTree { key: members@[i].key@, value: members@[i].value@ }
                        } else {
                            MemberTree { key: Seq::empty(), value: JsonTree::Null }
                        },
                ),
            ),
        }
    }
}

impl View for Member {
    type V = MemberTree;

    open spec fn view(&self) -> MemberTree {
        MemberTree { key: self.key@, value: self.value@ }
    }
}

impl Clone for Json {
    #[verifier::loop_isolation(false)]
    fn clone(&self) -> (copy: Self)
        ensures
            copy@ == self@,
        decreases self,
    {
        match self {
            Json::Null => Json::Null,
            Json::Bool(b) => Json::Bool(*b),
            Json::Number(n) => Json::Number(n.clone()),
            Json::Str(s) => Json::Str(s.clone()),
            Json::Array(items) => {
                let mut copies: Vec<Json> = Vec::new();
                let mut i: usize = 0;
                while i < items.len()
                    invariant
                        i <= items.len(),
                        copies@.len() == i,
                        forall|k: int| 0 <= k < i ==> (#[trigger] copies@[k])@ == items@[k]@,
                    decreases items.len() - i,
                {
                    copies.push(items[i].clone());
                    i += 1;
                }
                let copy = Json::Array(copies);
                assert(copy@->Array_0 =~= self@->Array_0);
                copy
            },
            Json::Object(members) => {
                let mut copies: Vec<Member> = Vec::new();
                let mut i: usize = 0;
                while i < members.len()
                    invariant
                        i <= members.len(),
                        copies@.len() == i,
                        forall|k: int| 0 <= k < i ==> (#[trigger] copies@[k])@ == members@[k]@,
                    decreases members.len() - i,
                {
                    let member = Member {
                        key: members[i].key.clone(),
                        value: members[i].value.clone(),
                    };
                    copies.push(member);
                    i += 1;
                }
                let copy = Json::Object(copies);
                assert(copy@->Object_0 =~= self@->Object_0);
                copy
            },
        }
    }
}

impl Clone for Member {
    fn clone(&self) -> (copy: Self)
        ensures
            copy@ == self@,
    {
        Member { key: self.key.clone(), value: self.value.clone() }
    }
}

/// The value of the first member of `members` that is called `key`.
pub open spec fn lookup(members: Seq<MemberTree>, key: Seq<char>) -> Option<JsonTree>
    decreases members.len(),
{
    if members.len() == 0 {
        None
    } else if members[0].key == key {
        Some(members[0].value)
    } else {
        lookup(members.drop_first(), key)
    }
}

impl JsonTree {
    /// The member called `key`, if this is an object that has one.
    pub open spec fn member(self, key: Seq<char>) -> Option<JsonTree> {
        match self {
            JsonTree::Object(members) => lookup(members, key),
            _ => None,
        }
    }

    /// The text, if this is a string.
    pub open spec fn as_text(self) -> Option<Seq<char>> {
        match self {
            JsonTree::Text(text) => Some(text),
            _ => None,
        }
    }

    /// The elements, if this is an array.
    pub open spec fn as_items(self) -> Option<Seq<JsonTree>> {
        match self {
            JsonTree::Array(items) => Some(items),
            _ => None,
        }
    }

    /// The text of the member called `key`, if there is such a member and it
    /// is a string.
    pub open spec fn text_member(self, key: Seq<char>) -> Option<Seq<char>> {
        match self.member(key) {
            Some(value) => value.as_text(),
            None => None,
        }
    }
}

/// Looking a key up in a list of members skips the members before the first
/// that bears the key.
pub proof fn lemma_lookup_skip(members: Seq<MemberTree>, key: Seq<char>, from: int)
    requires
        0 <= from <= members.len(),
        forall|k: int| 0 <= k < from ==> (#[trigger] members[k]).key != key,
    ensures
        lookup(members, key) == lookup(members.subrange(from, members.len() as int), key),
    decreases from,
{
    if from == 0 {
        assert(members.subrange(0, members.len() as int) =~= members);
    } else {
        let rest = members.drop_first();
        assert forall|k: int| 0 <= k < from - 1 implies (#[trigger] rest[k]).key != key by {
            assert(rest[k] == members[k + 1]);
        }
        lemma_lookup_skip(rest, key, from - 1);
        assert(rest.subrange(from - 1, rest.len() as int) =~= members.subrange(
            from,
            members.len() as int,
        ));
    }
}

impl Json {
    /// The member called `key`, if this is an object that has one. Where
    /// several members bear the key, the first is returned.
    pub fn get(&self, key: &str) -> (found: Option<&Json>)
        ensures
            match found {
                Some(value) => self@.member(key@) == Some(value@),
                None => self@.member(key@) is None,
            },
    {
        match self {
            Json::Object(members) => {
                let ghost trees = self@->Object_0;
                let mut i: usize = 0;
                while i < members.len()
                    invariant
                        i <= members.len(),
                        self@.member(key@) == lookup(trees, key@),
                        trees.len() == members@.len(),
                        forall|k: int|
                            0 <= k < members@.len() ==> #[trigger] trees[k] == members@[k]@,
                        forall|k: int| 0 <= k < i ==> (#[trigger] trees[k]).key != key@,
                    decreases members.len() - i,
                {
                    if crate::text::same_text(members[i].key.as_str(), key) {
                        proof {
                            lemma_lookup_skip(trees, key@, i as int);
                            let tail = trees.subrange(i as int, trees.len() as int);
                            assert(tail[0] == trees[i as int]);
                            assert(trees[i as int] == members@[i as int]@);
                        }
                        return Some(&members[i].value);
                    }
                    i += 1;
                }
                proof {
                    lemma_lookup_skip(trees, key@, i as int);
                }
                None
            },
            _ => None,
        }
    }

    /// The text, if this is a string.
    pub fn as_str(&self) -> (text: Option<&str>)
        ensures
            match text {
                Some(t) => self@.as_text() == Some(t@),
                None => self@.as_text() is None,
            },
    {
        match self {
            Json::Str(s) => Some(s.as_str()),
            _ => None,
        }
    }

    /// The elements, if this is an array.
    pub fn as_array(&self) -> (items: Option<&Vec<Json>>)
        ensures
            match items {
                Some(list) => self@.as_items() == Some(list@.map_values(|j: Json| j@)),
                None => self@.as_items() is None,
            },
    {
        match self {
            Json::Array(items) => {
                assert(self@->Array_0 =~= items@.map_values(|j: Json| j@));
                Some(items)
            },
            _ => None,
        }
    }

    /// The text of the member called `key`, if there is such a member and it
    /// is a string.
    pub fn text_member(&self, key: &str) -> (text: Option<&str>)
        ensures
            match text {
                Some(t) => self@.text_member(key@) == Some(t@),
                None => self@.text_member(key@) is None,
            },
    {
        match self.get(key) {
            Some(value) => value.as_str(),
            None => None,
        }
    }
}

/// Name for the document that `serde_json::from_str` reads from a text, or
/// `None` where it rejects the text.
pub uninterp spec fn json_parse(text: Seq<char>) -> Option<JsonTree>;

/// Name for the document that a `serde_json::Value` holds.
pub uninterp spec fn json_tree(value: serde_json::Value) -> JsonTree;

/// `serde_json::from_str` at the type `serde_json::Value`: whether the text
/// is accepted, and the document read from it, depend on the text alone.
#[verifier::external_body]
fn read_value(text: &str) -> (read: Result<serde_json::Value, serde_json::Error>)
    ensures
        read is Ok <==> json_parse(text@) is Some,
        read matches Ok(value) ==> json_parse(text@) == Some(json_tree(value)),
{
    serde_json::from_str::<serde_json::Value>(text)
}

/// Copies a `serde_json::Value` into a [`Json`], variant by variant; the
/// members of an object in the order in which its map yields them.
#[verifier::external_body]
fn lift(value: &serde_json::Value) -> (document: Json)
    ensures
        document@ == json_tree(*value),
{
    match value {
        serde_json::Value::Null => Json::Null,
        serde_json::Value::Bool(b) => Json::Bool(*b),
        serde_json::Value::Number(n) => Json::Number(n.clone()),
        serde_json::Value::String(s) => Json::Str(s.clone()),
        serde_json::Value::Array(items) => Json::Array(items.iter().map(lift).collect()),
        serde_json::Value::Object(map) => Json::Object(
            map.iter().map(|(k, v)| Member { key: k.clone(), value: lift(v) }).collect(),
        ),
    }
}

/// Why a text was not read as JSON.
#[derive(Debug)]
pub struct Malformed {
    /// What the reader said of the text.
    pub detail: String,
}

/// Reads `text` as one JSON document.
pub fn parse(text: &str) -> (read: Result<Json, Malformed>)
    ensures
        match read {
            Ok(document) => json_parse(text@) == Some(document@),
            Err(_) => json_parse(text@) is None,
        },
{
    match read_value(text) {
        Ok(value) => Ok(lift(&value)),
        Err(e) => Err(Malformed { detail: e.to_string() }),
    }
}

} // verus!
