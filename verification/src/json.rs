//! JSON documents as plain values.
use crate::text::same_text;
use vstd::prelude::*;

verus! {

/// `serde_json::Value`: what it holds is given by [`value_tree`].
#[verifier::external_type_specification]
#[verifier::external_body]
pub struct ExValue(serde_json::Value);

/// `serde_json::Error`: why a text is no JSON document. It is only carried along.
#[verifier::external_type_specification]
#[verifier::external_body]
pub struct ExError(serde_json::Error);

/// A JSON document as a mathematical value. The members of an object are listed with their names.
pub enum JsonTree {
    Null,
    Bool(bool),
    Number(Seq<char>),
    Text(Seq<char>),
    Array(Seq<JsonTree>),
    Object(Seq<(Seq<char>, JsonTree)>),
}

/// A JSON document. Numbers are kept as they are written.
pub enum Json {
    Null,
    Bool(bool),
    Number(String),
    Text(String),
    Array(Vec<Json>),
    Object(Vec<(String, Json)>),
}

/// A text that is no JSON document.
pub struct JsonError {
    pub source: serde_json::Error,
}

/// The first member with a name.
pub open spec fn first_member(members: Seq<(Seq<char>, JsonTree)>, name: Seq<char>) -> Option<
    JsonTree,
>
    decreases members.len(),
{
    if members.len() == 0 {
        None
    } else if members[0].0 == name {
        Some(members[0].1)
    } else {
        first_member(members.skip(1), name)
    }
}

impl JsonTree {
    /// The member of an object with a name. Nothing but an object has members.
    pub open spec fn member(self, name: Seq<char>) -> Option<JsonTree> {
        match self {
            JsonTree::Object(members) => first_member(members, name),
            _ => None,
        }
    }

    /// What a text holds.
    pub open spec fn text(self) -> Option<Seq<char>> {
        match self {
            JsonTree::Text(text) => Some(text),
            _ => None,
        }
    }

    /// The text that the member with a name holds.
    pub open spec fn member_text(self, name: Seq<char>) -> Option<Seq<char>> {
        match self.member(name) {
            Some(value) => value.text(),
            None => None,
        }
    }

    /// The items of the array that the member with a name holds.
    pub open spec fn member_items(self, name: Seq<char>) -> Option<Seq<JsonTree>> {
        match self.member(name) {
            Some(JsonTree::Array(items)) => Some(items),
            _ => None,
        }
    }
}

/// The mathematical value of a document.
pub open spec fn tree_of(json: Json) -> JsonTree
    decreases json,
{
    match json {
        Json::Null => JsonTree::Null,
        Json::Bool(flag) => JsonTree::Bool(flag),
        Json::Number(text) => JsonTree::Number(text@),
        Json::Text(text) => JsonTree::Text(text@),
        Json::Array(items) => JsonTree::Array(
            Seq::new(
                items@.len(),
                |i: int|
                    if 0 <= i < items@.len() {
                        tree_of(items@[i])
                    } else {
                        JsonTree::Null
                    },
            ),
        ),
        Json::Object(members) => JsonTree::Object(
            Seq::new(
                members@.len(),
                |i: int|
                    if 0 <= i < members@.len() {
                        (members@[i].0@, tree_of(members@[i].1))
                    } else {
                        (seq![], JsonTree::Null)
                    },
            ),
        ),
    }
}

impl View for Json {
    type V = JsonTree;

    open spec fn view(&self) -> JsonTree {
        tree_of(*self)
    }
}

/// The documents of a list.
pub open spec fn trees(list: Seq<Json>) -> Seq<JsonTree> {
    Seq::new(list.len(), |i: int| list[i]@)
}

/// The top level of a `serde_json::Value`.
enum JsonNode {
    Null,
    Bool(bool),
    Number(String),
    Text(String),
    Array(Vec<serde_json::Value>),
    Object(Vec<(String, serde_json::Value)>),
}

/// What a `serde_json::Value` holds.
pub uninterp spec fn value_tree(value: serde_json::Value) -> JsonTree;

/// The document that `serde_json::from_str` reads from a text, or nothing where it fails.
pub uninterp spec fn parsed_json(text: Seq<char>) -> Option<JsonTree>;

/// `serde_json::from_str` to a `serde_json::Value`: whether it succeeds, and what the value then
/// holds, depends on the text alone.
#[verifier::external_body]
fn parse_value(text: &str) -> (parsed: Result<serde_json::Value, serde_json::Error>)
    ensures
        parsed is Ok <==> parsed_json(text@) is Some,
        parsed matches Ok(value) ==> parsed_json(text@) == Some(value_tree(value)),
{
    serde_json::from_str::<serde_json::Value>(text)
}

spec fn node_shows(node: JsonNode, tree: JsonTree) -> bool {
    match (node, tree) {
        (JsonNode::Null, JsonTree::Null) => true,
        (JsonNode::Bool(flag), JsonTree::Bool(value)) => flag == value,
        (JsonNode::Number(text), JsonTree::Number(value)) => text@ == value,
        (JsonNode::Text(text), JsonTree::Text(value)) => text@ == value,
        (JsonNode::Array(items), JsonTree::Array(trees)) => {
            &&& items@.len() == trees.len()
            &&& forall|i: int|
                0 <= i < items@.len() ==> value_tree(#[trigger] items@[i]) == trees[i]
        },
        (JsonNode::Object(members), JsonTree::Object(trees)) => {
            &&& members@.len() == trees.len()
            &&& forall|i: int|
                #![trigger members@[i]]
                0 <= i < members@.len() ==> members@[i].0@ == trees[i].0 && value_tree(members@[i].1)
                    == trees[i].1
            &&& forall|i: int, j: int|
                #![trigger trees[i], trees[j]]
                0 <= i < j < trees.len() ==> trees[i].0 != trees[j].0
        },
        _ => false,
    }
}

/// The variants of `serde_json::Value`: the top level of a value is what the value holds there,
/// and the members of an object have different names.
#[verifier::external_body]
fn open_value(value: serde_json::Value) -> (node: JsonNode)
    ensures
        node_shows(node, value_tree(value)),
{
    match value {
        serde_json::Value::Null => JsonNode::Null,
        serde_json::Value::Bool(flag) => JsonNode::Bool(flag),
        serde_json::Value::Number(number) => JsonNode::Number(number.to_string()),
        serde_json::Value::String(text) => JsonNode::Text(text),
        serde_json::Value::Array(items) => JsonNode::Array(items),
        serde_json::Value::Object(members) => JsonNode::Object(members.into_iter().collect()),
    }
}

fn json_from_value(value: serde_json::Value) -> (json: Json)
    ensures
        json@ == value_tree(value),
    decreases value_tree(value),
{
    let ghost tree = value_tree(value);
    match open_value(value) {
        JsonNode::Null => Json::Null,
        JsonNode::Bool(flag) => Json::Bool(flag),
        JsonNode::Number(text) => Json::Number(text),
        JsonNode::Text(text) => Json::Text(text),
        JsonNode::Array(items) => {
            let ghost all = items@;
            let mut converted: Vec<Json> = Vec::new();
            for item in it: items
                invariant
                    it.seq() == all,
                    tree == value_tree(value),
                    tree is Array,
                    all.len() == tree->Array_0.len(),
                    forall|i: int|
                        0 <= i < all.len() ==> value_tree(#[trigger] all[i]) == tree->Array_0[i],
                    converted@.len() == it.index(),
                    forall|i: int|
                        0 <= i < converted@.len() ==> (#[trigger] converted@[i])@
                            == tree->Array_0[i],
            {
                let ghost i = it.index() as int;
                assert(decreases_to!(tree => tree->Array_0));
                assert(decreases_to!(tree->Array_0 => tree->Array_0[i]));
                converted.push(json_from_value(item));
            }
            let json = Json::Array(converted);
            assert(json@->Array_0 =~= tree->Array_0);
            json
        },
        JsonNode::Object(members) => {
            let ghost all = members@;
            let mut converted: Vec<(String, Json)> = Vec::new();
            for member in it: members
                invariant
                    it.seq() == all,
                    tree == value_tree(value),
                    tree is Object,
                    all.len() == tree->Object_0.len(),
                    forall|i: int|
                        #![trigger all[i]]
                        0 <= i < all.len() ==> all[i].0@ == tree->Object_0[i].0 && value_tree(
                            all[i].1,
                        ) == tree->Object_0[i].1,
                    converted@.len() == it.index(),
                    forall|i: int|
                        #![trigger converted@[i]]
                        0 <= i < converted@.len() ==> converted@[i].0@ == tree->Object_0[i].0
                            && converted@[i].1@ == tree->Object_0[i].1,
            {
                let (name, inner) = member;
                let ghost i = it.index() as int;
                assert(decreases_to!(tree => tree->Object_0));
                assert(decreases_to!(tree->Object_0 => tree->Object_0[i]));
                assert(decreases_to!(tree->Object_0[i] => tree->Object_0[i].1));
                converted.push((name, json_from_value(inner)));
            }
            let json = Json::Object(converted);
            assert(json@->Object_0 =~= tree->Object_0);
            json
        },
    }
}

/// Reads a JSON document.
pub fn parse_json(text: &str) -> (parsed: Result<Json, JsonError>)
    ensures
        parsed is Ok <==> parsed_json(text@) is Some,
        parsed matches Ok(json) ==> parsed_json(text@) == Some(json@),
{
    match parse_value(text) {
        Ok(value) => Ok(json_from_value(value)),
        Err(source) => Err(JsonError { source }),
    }
}

impl Json {
    /// The member of an object with a name.
    pub fn get(&self, name: &str) -> (member: Option<&Json>)
        ensures
            match member {
                Some(value) => self@.member(name@) == Some(value@),
                None => self@.member(name@) is None,
            },
    {
        match self {
            Json::Object(members) => {
                let ghost all = self@->Object_0;
                let mut i: usize = 0;
                assert(all.skip(0) =~= all);
                while i < members.len()
                    invariant
                        i <= members@.len(),
                        self@ == JsonTree::Object(all),
                        all.len() == members@.len(),
                        forall|j: int|
                            #![trigger members@[j]]
                            0 <= j < members@.len() ==> all[j] == (members@[j].0@, members@[j].1@),
                        first_member(all, name@) == first_member(all.skip(i as int), name@),
                    decreases members@.len() - i,
                {
                    if same_text(members[i].0.as_str(), name) {
                        return Some(&members[i].1);
                    }
                    assert(all.skip(i as int).skip(1) =~= all.skip(i + 1));
                    i = i + 1;
                }
                None
            },
            _ => None,
        }
    }

    /// What a text holds.
    pub fn as_str(&self) -> (text: Option<&str>)
        ensures
            match text {
                Some(text) => self@.text() == Some(text@),
                None => self@.text() is None,
            },
    {
        match self {
            Json::Text(text) => Some(text.as_str()),
            _ => None,
        }
    }

    /// The text that the member with a name holds.
    pub fn member_str(&self, name: &str) -> (text: Option<&str>)
        ensures
            match text {
                Some(text) => self@.member_text(name@) == Some(text@),
                None => self@.member_text(name@) is None,
            },
    {
        match self.get(name) {
            Some(value) => value.as_str(),
            None => None,
        }
    }

    /// Whether the member with a name holds a text.
    pub fn member_is(&self, name: &str, text: &str) -> (yes: bool)
        ensures
            yes == (self@.member_text(name@) == Some(text@)),
    {
        match self.member_str(name) {
            Some(held) => same_text(held, text),
            None => false,
        }
    }

    /// The items of the array that the member with a name holds.
    pub fn member_array(&self, name: &str) -> (items: Option<&Vec<Json>>)
        ensures
            match items {
                Some(items) => self@.member_items(name@) == Some(trees(items@)),
                None => self@.member_items(name@) is None,
            },
    {
        match self.get(name) {
            Some(Json::Array(items)) => {
                assert(self@.member(name@)->0->Array_0 =~= trees(items@));
                Some(items)
            },
            _ => None,
        }
    }
}

} // verus!
