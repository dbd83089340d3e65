//! Laws of JSON documents.
use crate::json::{first_member, tree_of, trees, Json, JsonTree};
use vstd::prelude::*;

verus! {

proof fn lemma_first_member(members: Seq<(Seq<char>, JsonTree)>, name: Seq<char>, i: int)
    requires
        0 <= i <= members.len(),
        forall|j: int| 0 <= j < i ==> (#[trigger] members[j]).0 != name,
        i < members.len() ==> members[i].0 == name,
    ensures
        first_member(members, name) == if i < members.len() {
            Some(members[i].1)
        } else {
            None
        },
    decreases i,
{
    if i > 0 {
        let rest = members.skip(1);
        assert(members[0].0 != name);
        assert forall|j: int| 0 <= j < i - 1 implies (#[trigger] rest[j]).0 != name by {
            assert(rest[j] == members[j + 1]);
        }
        lemma_first_member(rest, name, i - 1);
    }
}

/// A member of an object is found by its name, whole, and nothing is found under a name that no
/// member has.
pub proof fn law_members_are_found_by_name(
    members: Seq<(Seq<char>, JsonTree)>,
    name: Seq<char>,
    i: int,
)
    requires
        0 <= i <= members.len(),
        forall|j: int| 0 <= j < i ==> (#[trigger] members[j]).0 != name,
        i < members.len() ==> members[i].0 == name,
    ensures
        i < members.len() ==> JsonTree::Object(members).member(name) == Some(members[i].1),
        i == members.len() ==> JsonTree::Object(members).member(name) is None,
{
    lemma_first_member(members, name, i);
}

/// Only objects have members, and of a member that is a text or an array all is held.
pub proof fn law_texts_and_arrays_are_whole(
    tree: JsonTree,
    name: Seq<char>,
    text: Seq<char>,
    items: Seq<JsonTree>,
)
    ensures
        !(tree is Object) ==> tree.member(name) is None,
        tree.member_text(name) == Some(text) <==> tree.member(name) == Some(JsonTree::Text(text)),
        tree.member_items(name) == Some(items) <==> tree.member(name) == Some(
            JsonTree::Array(items),
        ),
        tree.text() == Some(text) <==> tree == JsonTree::Text(text),
{
}

/// The mathematical value of a document holds all that the document does.
pub proof fn law_documents_are_whole(json: Json, list: Seq<Json>)
    ensures
        match json {
            Json::Null => tree_of(json) == JsonTree::Null,
            Json::Bool(flag) => tree_of(json) == JsonTree::Bool(flag),
            Json::Number(text) => tree_of(json) == JsonTree::Number(text@),
            Json::Text(text) => tree_of(json) == JsonTree::Text(text@),
            Json::Array(items) => {
                &&& tree_of(json) matches JsonTree::Array(held)
                &&& held.len() == items@.len()
                &&& forall|i: int| 0 <= i < held.len() ==> #[trigger] held[i] == tree_of(items@[i])
            },
            Json::Object(members) => {
                &&& tree_of(json) matches JsonTree::Object(held)
                &&& held.len() == members@.len()
                &&& forall|i: int|
                    0 <= i < held.len() ==> #[trigger] held[i] == (
                        members@[i].0@,
                        tree_of(members@[i].1),
                    )
            },
        },
        json@ == tree_of(json),
        trees(list).len() == list.len(),
        forall|i: int| 0 <= i < list.len() ==> #[trigger] trees(list)[i] == tree_of(list[i]),
{
}

} // verus!
