//! JSON documents as plain trees, read from text by `serde_json`.

use crate::text::same_text;
use vstd::prelude::*;

verus! {

/// `serde_json::Value`, handed from the parser to the conversion as it is.
#[verifier::external_type_specification]
#[verifier::external_body]
pub struct ExValue(serde_json::Value);

/// `serde_json::Error`, of which nothing is read.
#[verifier::external_type_specification]
#[verifier::external_body]
pub struct ExSyntaxError(serde_json::Error);

/// One entry of a JSON object.
#[derive(Debug, PartialEq, Eq)]
pub struct Member {
    pub key: String,
    pub value: Json,
}

/// A JSON value. A number is kept as the text `serde_json` prints for it.
#[derive(Debug, PartialEq, Eq)]
pub enum Json {
    Null,
    Bool(bool),
    Number(String),
    Text(String),
    Array(Vec<Json>),
    Object(Vec<Member>),
}

/// A JSON value as a mathematical tree.
pub enum JsonView {
    Null,
    Bool(bool),
    Number(Seq<char>),
    Text(Seq<char>),
    Array(Seq<JsonView>),
    Object(Seq<MemberView>),
}

/// One entry of a JSON object as a mathematical pair.
pub struct MemberView {
    pub key: Seq<char>,
    pub value: JsonView,
}

impl View for Json {
    type V = JsonView;

    open spec fn view(&self) -> JsonView
        decreases self,
    {
        match self {
            Json::Null => JsonView::Null,
            Json::Bool(b) => JsonView::Bool(*b),
            Json::Number(n) => JsonView::Number(n@),
            Json::Text(s) => JsonView::Text(s@),
            Json::Array(items) => JsonView::Array(
                Seq::new(
                    items@.len(),
                    |i: int|
                        if 0 <= i < items@.len() {
                            items@[i].view()
                        } else {
                            JsonView::Null
                        },
                ),
            ),
            Json::Object(members) => JsonView::Object(
                Seq::new(
                    members@.len(),
                    |i: int|
                        if 0 <= i < members@.len() {
                            MemberView { key: members@[i].key@, value: members@[i].value.view() }
                        } else {
                            MemberView { key: Seq::empty(), value: JsonView::Null }
                        },
                ),
            ),
        }
    }
}

/// The trees of `items`.
pub open spec fn trees(items: Seq<Json>) -> Seq<JsonView> {
    Seq::new(items.len(), |i: int| items[i]@)
}

/// The keys and trees of `members`.
pub open spec fn pairs_of(members: Seq<Member>) -> Seq<MemberView> {
    Seq::new(members.len(), |i: int| MemberView { key: members[i].key@, value: members[i].value@ })
}

/// The tree that a `serde_json::Value` holds: its variant, and under it the
/// same boolean or string, the number as `serde_json` prints it, the items
/// of an array in order, or the members of an object in the order in which
/// its map hands them out.
pub uninterp spec fn tree_of(value: serde_json::Value) -> JsonView;

/// The document that `serde_json::from_str` reads from `text`, or `None`
/// where it reports an error.
pub uninterp spec fn document_of(text: Seq<char>) -> Option<JsonView>;

/// The value of the first member of `members` whose key is `key`.
pub open spec fn lookup(members: Seq<MemberView>, key: Seq<char>) -> Option<JsonView>
    decreases members.len(),
{
    if members.len() == 0 {
        None
    } else if members[0].key == key {
        Some(members[0].value)
    } else {
        lookup(members.skip(1), key)
    }
}

impl JsonView {
    /// The member `key` of an object; `None` for a missing key and for
    /// anything but an object.
    pub open spec fn member(self, key: Seq<char>) -> Option<JsonView> {
        match self {
            JsonView::Object(members) => lookup(members, key),
            _ => None,
        }
    }

    /// The items of an array; `None` for anything else.
    pub open spec fn items(self) -> Option<Seq<JsonView>> {
        match self {
            JsonView::Array(items) => Some(items),
            _ => None,
        }
    }

    /// The characters of a string; `None` for anything else.
    pub open spec fn text(self) -> Option<Seq<char>> {
        match self {
            JsonView::Text(s) => Some(s),
            _ => None,
        }
    }

    /// The characters of the string that stands under `key`, if `self` is an
    /// object that has such a member and the member is a string.
    pub open spec fn text_member(self, key: Seq<char>) -> Option<Seq<char>> {
        match self.member(key) {
            Some(value) => value.text(),
            None => None,
        }
    }
}

impl Json {
    /// Looks up a member of an object by its key.
    pub fn get(&self, key: &str) -> (found: Option<&Json>)
        ensures
            match found {
                Some(value) => self@.member(key@) == Some(value@),
                None => self@.member(key@) is None,
            },
    {
        match self {
            Json::Object(members) => {
                let ghost pairs = self@->Object_0;
                let mut i: usize = 0;
                proof {
                    assert(pairs =~= pairs_of(members@));
                    assert(pairs.skip(0) =~= pairs);
                }
                while i < members.len()
                    invariant
                        i <= members.len(),
                        pairs.len() == members@.len(),
                        forall|k: int|
                            0 <= k < members@.len() ==> #[trigger] pairs[k] == (MemberView {
                                key: members@[k].key@,
                                value: members@[k].value@,
                            }),
                        self@.member(key@) == lookup(pairs.skip(i as int), key@),
                    decreases members.len() - i,
                {
                    proof {
                        assert(pairs.skip(i as int)[0] == pairs[i as int]);
                        assert(pairs.skip(i as int).skip(1) =~= pairs.skip(i + 1));
                    }
                    if same_text(members[i].key.as_str(), key) {
                        return Some(&members[i].value);
                    }
                    i += 1;
                }
                None
            },
            _ => None,
        }
    }

    /// The items, if `self` is an array.
    pub fn as_array(&self) -> (found: Option<&Vec<Json>>)
        ensures
            match found {
                Some(items) => self@.items() == Some(trees(items@)),
                None => self@.items() is None,
            },
    {
        match self {
            Json::Array(items) => {
                proof {
                    assert(self@->Array_0 =~= trees(items@));
                }
                Some(items)
            },
            _ => None,
        }
    }

    /// The string, if `self` is one.
    pub fn as_str(&self) -> (found: Option<&str>)
        ensures
            match found {
                Some(s) => self@.text() == Some(s@),
                None => self@.text() is None,
            },
    {
        match self {
            Json::Text(s) => Some(s.as_str()),
            _ => None,
        }
    }

    /// A copy of the string under `key`, if `self` is an object that has
    /// such a member and the member is a string.
    pub fn text_of(&self, key: &str) -> (found: Option<String>)
        ensures
            match found {
                Some(s) => self@.text_member(key@) == Some(s@),
                None => self@.text_member(key@) is None,
            },
    {
        match self.get(key) {
            Some(value) => match value.as_str() {
                Some(s) => Some(s.to_owned()),
                None => None,
            },
            None => None,
        }
    }
}

/// Calls `serde_json::from_str` for a `serde_json::Value`. It succeeds
/// exactly on the texts that are JSON documents, and the value then holds the
/// document; what it returns depends on the text alone.
#[verifier::external_body]
fn value_from_str(text: &str) -> (read: Result<serde_json::Value, serde_json::Error>)
    ensures
        match read {
            Ok(value) => document_of(text@) == Some(tree_of(value)),
            Err(_) => document_of(text@) is None,
        },
{
    serde_json::from_str::<serde_json::Value>(text)
}

/// Copies a `serde_json::Value` into a `Json`, variant by variant: a number
/// as `serde_json` prints it, the members of an object in the order in which
/// its map hands them out.
#[verifier::external_body]
fn tree_from_value(value: &serde_json::Value) -> (tree: Json)
    ensures
        tree@ == tree_of(*value),
{
    match value {
        serde_json::Value::Null => Json::Null,
        serde_json::Value::Bool(b) => Json::Bool(*b),
        serde_json::Value::Number(n) => Json::Number(n.to_string()),
        serde_json::Value::String(s) => Json::Text(s.clone()),
        serde_json::Value::Array(items) => Json::Array(items.iter().map(tree_from_value).collect()),
        serde_json::Value::Object(map) => Json::Object(
            map.iter().map(|(k, v)| Member { key: k.clone(), value: tree_from_value(v) }).collect(),
        ),
    }
}

/// Reads a JSON document from `text`. `None` where the text is not JSON.
pub fn parse(text: &str) -> (doc: Option<Json>)
    ensures
        match doc {
            Some(tree) => document_of(text@) == Some(tree@),
            None => document_of(text@) is None,
        },
{
    match value_from_str(text) {
        Ok(value) => Some(tree_from_value(&value)),
        Err(_) => None,
    }
}

} // verus!
