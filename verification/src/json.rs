//! JSON documents as a tree of the library's own, read and written by
//! `serde_json`.
//!
//! Reading JSON text and escaping a string are left to `serde_json`; what is
//! assumed of it is stated at the end of this file. All the rest, the tree
//! that a parsed document is turned into included, is verified.

use vstd::prelude::*;
use vstd::string::*;

verus! {

/// A JSON document.
///
/// The members of an object stand in the order in which `serde_json` hands
/// them out. A number is kept as the text that `serde_json` prints for it.
#[derive(Debug, PartialEq, Eq)]
pub enum Json {
    Null,
    Bool(bool),
    Number(String),
    Text(String),
    Array(Vec<Json>),
    Object(Vec<(String, Json)>),
}

/// The mathematical value of a [`Json`].
pub enum JsonView {
    Null,
    Bool(bool),
    Number(Seq<char>),
    Text(Seq<char>),
    Array(Seq<JsonView>),
    Object(Seq<(Seq<char>, JsonView)>),
}

/// The mathematical value of `doc`.
pub open spec fn tree_of(doc: Json) -> JsonView
    decreases doc,
{
    match doc {
        Json::Null => JsonView::Null,
        Json::Bool(b) => JsonView::Bool(b),
        Json::Number(n) => JsonView::Number(n@),
        Json::Text(s) => JsonView::Text(s@),
        Json::Array(items) => JsonView::Array(
            Seq::new(
                items@.len(),
                |i: int|
                    if 0 <= i < items@.len() {
                        tree_of(items@[i])
                    } else {
                        JsonView::Null
                    },
            ),
        ),
        Json::Object(members) => JsonView::Object(
            Seq::new(
                members@.len(),
                |i: int|
                    if 0 <= i < members@.len() {
                        (members@[i].0@, tree_of(members@[i].1))
                    } else {
                        (Seq::empty(), JsonView::Null)
                    },
            ),
        ),
    }
}

impl View for Json {
    type V = JsonView;

    open spec fn view(&self) -> JsonView {
        tree_of(*self)
    }
}

/// The value of the first of `members`, from index `from` on, whose key is
/// `key`.
pub open spec fn first_member(
    members: Seq<(Seq<char>, JsonView)>,
    key: Seq<char>,
    from: int,
) -> Option<JsonView>
    decreases members.len() - from,
{
    if from < 0 || from >= members.len() {
        None
    } else if members[from].0 == key {
        Some(members[from].1)
    } else {
        first_member(members, key, from + 1)
    }
}

impl JsonView {
    /// The member `key` of an object: the first one, should several have
    /// that key. `None` where there is none, or where `self` is no object.
    pub open spec fn member(self, key: Seq<char>) -> Option<JsonView> {
        match self {
            JsonView::Object(members) => first_member(members, key, 0),
            _ => None,
        }
    }

    /// The characters of a JSON string.
    pub open spec fn text(self) -> Option<Seq<char>> {
        match self {
            JsonView::Text(s) => Some(s),
            _ => None,
        }
    }
}

/// The views of the documents in `items`.
pub open spec fn item_views(items: Seq<Json>) -> Seq<JsonView> {
    Seq::new(items.len(), |i: int| items[i]@)
}

/// An array holds the views of its items.
pub proof fn lemma_array_view(items: Vec<Json>)
    ensures
        Json::Array(items)@ == JsonView::Array(item_views(items@)),
{
    assert(Json::Array(items)@->Array_0 =~= item_views(items@));
}

/// The views of the documents in `found`, if any.
pub open spec fn view_of(found: Option<&Json>) -> Option<JsonView> {
    match found {
        Some(doc) => Some(doc@),
        None => None,
    }
}

impl Json {
    /// Reads JSON text. `None` where `serde_json` rejects the text.
    pub fn parse(text: &str) -> (r: Option<Json>)
        ensures
            match r {
                Some(doc) => json_document(text@) == Some(doc@),
                None => json_document(text@) is None,
            },
    {
        match read_value(text) {
            Some(value) => Some(lift(&value)),
            None => None,
        }
    }

    /// The member `key` of an object.
    pub fn member(&self, key: &str) -> (r: Option<&Json>)
        ensures
            view_of(r) == self@.member(key@),
    {
        match self {
            Json::Object(members) => {
                let wanted = String::from_str(key);
                let mut i: usize = 0;
                while i < members.len()
                    invariant
                        i <= members.len(),
                        wanted@ == key@,
                        self@ is Object,
                        self@->Object_0.len() == members.len(),
                        forall|k: int|
                            0 <= k < members.len() ==> (#[trigger] self@->Object_0[k]) == (
                                members[k].0@,
                                members[k].1@,
                            ),
                        self@.member(key@) == first_member(self@->Object_0, key@, i as int),
                    decreases members.len() - i,
                {
                    if members[i].0 == wanted {
                        return Some(&members[i].1);
                    }
                    i += 1;
                }
                None
            },
            _ => None,
        }
    }

    /// The characters of a JSON string.
    pub fn text(&self) -> (r: Option<&String>)
        ensures
            match r {
                Some(s) => self@.text() == Some(s@),
                None => self@.text() is None,
            },
    {
        match self {
            Json::Text(s) => Some(s),
            _ => None,
        }
    }
}

/// Writes `text` as a JSON string: in quotes, with the escapes that
/// `serde_json` chooses.
pub fn quote(text: &str) -> (r: String)
    ensures
        r@ == json_string(text@),
{
    write_string(text).unwrap()
}

/// Turns a `serde_json::Value` into a [`Json`], level by level.
fn lift(value: &serde_json::Value) -> (doc: Json)
    ensures
        doc@ == value_tree(*value),
    decreases value_tree(*value),
{
    match unpack(value) {
        Node::Null => Json::Null,
        Node::Bool(b) => Json::Bool(b),
        Node::Number(n) => Json::Number(n),
        Node::Text(s) => Json::Text(s.clone()),
        Node::Array(items) => {
            let ghost below = items@.map_values(|v: serde_json::Value| value_tree(v));
            let mut out: Vec<Json> = Vec::new();
            let mut i: usize = 0;
            while i < items.len()
                invariant
                    i <= items.len(),
                    out.len() == i,
                    value_tree(*value) == JsonView::Array(below),
                    below == items@.map_values(|v: serde_json::Value| value_tree(v)),
                    forall|k: int| 0 <= k < i ==> (#[trigger] out[k])@ == below[k],
                decreases items.len() - i,
            {
                assert(decreases_to!(value_tree(*value) => value_tree(*value)->Array_0));
                assert(decreases_to!(below => below[i as int]));
                let item = lift(&items[i]);
                out.push(item);
                i += 1;
            }
            let doc = Json::Array(out);
            assert(doc@->Array_0 =~= below);
            doc
        },
        Node::Object(members) => {
            let ghost below = members@.map_values(
                |m: (&String, &serde_json::Value)| (m.0@, value_tree(*m.1)),
            );
            let mut out: Vec<(String, Json)> = Vec::new();
            let mut i: usize = 0;
            while i < members.len()
                invariant
                    i <= members.len(),
                    out.len() == i,
                    value_tree(*value) == JsonView::Object(below),
                    below == members@.map_values(
                        |m: (&String, &serde_json::Value)| (m.0@, value_tree(*m.1)),
                    ),
                    forall|k: int|
                        0 <= k < i ==> ((#[trigger] out[k]).0@, out[k].1@) == below[k],
                decreases members.len() - i,
            {
                assert(decreases_to!(value_tree(*value) => value_tree(*value)->Object_0));
                assert(decreases_to!(below => below[i as int]));
                assert(decreases_to!(below[i as int] => below[i as int].1));
                let key = members[i].0.clone();
                let item = lift(members[i].1);
                out.push((key, item));
                i += 1;
            }
            let doc = Json::Object(out);
            assert(doc@->Object_0 =~= below);
            doc
        },
    }
}

/// One level of a `serde_json::Value`: its variant, with what the variant
/// holds.
enum Node<'a> {
    Null,
    Bool(bool),
    Number(String),
    Text(&'a String),
    Array(&'a Vec<serde_json::Value>),
    Object(Vec<(&'a String, &'a serde_json::Value)>),
}

/// The tree that `node` stands for, given the trees of the values below it.
spec fn node_tree(node: Node) -> JsonView {
    match node {
        Node::Null => JsonView::Null,
        Node::Bool(b) => JsonView::Bool(b),
        Node::Number(n) => JsonView::Number(n@),
        Node::Text(s) => JsonView::Text(s@),
        Node::Array(items) => JsonView::Array(
            items@.map_values(|v: serde_json::Value| value_tree(v)),
        ),
        Node::Object(members) => JsonView::Object(
            members@.map_values(|m: (&String, &serde_json::Value)| (m.0@, value_tree(*m.1))),
        ),
    }
}

// What is assumed of serde_json.

/// `serde_json::Value`, the document that `serde_json` parses into.
#[verifier::external_type_specification]
#[verifier::external_body]
pub struct ExValue(serde_json::Value);

/// The document that `serde_json::from_str` reads from `text` as a
/// `serde_json::Value`, or `None` where it returns an error.
pub uninterp spec fn json_document(text: Seq<char>) -> Option<JsonView>;

/// The document that a `serde_json::Value` holds.
pub uninterp spec fn value_tree(value: serde_json::Value) -> JsonView;

/// What `serde_json::to_string` writes for the string `text`.
pub uninterp spec fn json_string(text: Seq<char>) -> Seq<char>;

/// `serde_json::from_str` at the type `serde_json::Value`. The contract
/// claims that the outcome depends on the text alone: whether it is an error,
/// and else the document that the value holds.
#[verifier::external_body]
fn read_value(text: &str) -> (r: Option<serde_json::Value>)
    ensures
        match r {
            Some(value) => json_document(text@) == Some(value_tree(value)),
            None => json_document(text@) is None,
        },
{
    serde_json::from_str::<serde_json::Value>(text).ok()
}

/// Tells the variants of `serde_json::Value` apart. The contract claims that
/// the document of a value is made of its variant and of what the variant
/// holds: the documents of an array's items in their order, and the keys of an
/// object with the documents of their values, in the order in which
/// `serde_json::Map::iter` walks them. For a number it is the text that the
/// `Display` of `serde_json::Number` prints.
#[verifier::external_body]
fn unpack<'a>(value: &'a serde_json::Value) -> (node: Node<'a>)
    ensures
        node_tree(node) == value_tree(*value),
{
    match value {
        serde_json::Value::Null => Node::Null,
        serde_json::Value::Bool(b) => Node::Bool(*b),
        serde_json::Value::Number(n) => Node::Number(n.to_string()),
        serde_json::Value::String(s) => Node::Text(s),
        serde_json::Value::Array(items) => Node::Array(items),
        serde_json::Value::Object(members) => Node::Object(members.iter().collect()),
    }
}

/// `serde_json::to_string` on a string slice. The contract claims that it
/// does not fail on one, since it writes to a vector and a string has no
/// other way to fail, and that what it writes depends on the characters
/// alone.
#[verifier::external_body]
fn write_string(text: &str) -> (r: Option<String>)
    ensures
        r is Some,
        r.unwrap()@ == json_string(text@),
{
    serde_json::to_string(text).ok()
}

} // verus!
