//! Laws of transcripts.
use crate::history::{entries, freshly_named, CodexHistoryMessage, CodexHistoryRole, HistoryEntry};
use crate::identity::is_random_id;
use crate::json::{parsed_json, JsonTree};
use crate::rollout::{
    content_texts, conversation, event_entries, event_entry, parsed_lines, response_entries,
    response_entry,
};
use crate::text::join_of;
use vstd::prelude::*;

verus! {

/// An event line tells something if and only if its payload is a user message or a final answer
/// that is not empty. It then tells the whole text of the message, and who said it.
pub proof fn law_events_are_told_whole(
    line: JsonTree,
    payload: JsonTree,
    role: CodexHistoryRole,
    text: Seq<char>,
)
    requires
        line.member("payload"@) == Some(payload),
    ensures
        event_entry(line) == Some(HistoryEntry { role, text }) <==> {
            &&& line.member_text("type"@) == Some("event_msg"@)
            &&& payload.member_text("message"@) == Some(text)
            &&& text.len() > 0
            &&& role == CodexHistoryRole::User ==> payload.member_text("type"@) == Some(
                "user_message"@,
            )
            &&& role == CodexHistoryRole::Assistant ==> payload.member_text("type"@) == Some(
                "agent_message"@,
            ) && payload.member_text("phase"@) == Some("final_answer"@)
        },
{
    reveal_strlit("user_message");
    reveal_strlit("agent_message");
    assert("user_message"@.len() == 12);
    assert("agent_message"@.len() == 13);
}

/// The text that an event line tells is the whole message of its payload, and a payload with a
/// message of the user or a final answer of the agent is told whenever that is not empty.
pub proof fn law_event_text_is_the_message(line: JsonTree)
    ensures
        event_entry(line) matches Some(entry) ==> {
            &&& line.member("payload"@) matches Some(payload)
            &&& payload.member_text("message"@) == Some(entry.text)
            &&& entry.text.len() > 0
        },
        line.member("payload"@) is None ==> event_entry(line) is None,
{
}

/// A response item line tells something if and only if its payload is a message of the user, or
/// one of the agent that is no comment, with some text. It then tells the texts of its content in
/// full, with an empty line between each two, and who said it.
pub proof fn law_response_items_are_told_whole(
    line: JsonTree,
    payload: JsonTree,
    content: Seq<JsonTree>,
    role: CodexHistoryRole,
    text: Seq<char>,
)
    requires
        line.member("payload"@) == Some(payload),
        payload.member_items("content"@) == Some(content),
    ensures
        response_entry(line) == Some(HistoryEntry { role, text }) <==> {
            &&& line.member_text("type"@) == Some("response_item"@)
            &&& payload.member_text("type"@) == Some("message"@)
            &&& text.len() > 0
            &&& role == CodexHistoryRole::User ==> payload.member_text("role"@) == Some("user"@)
                && text == join_of(content_texts(content, "input_text"@), "\n\n"@)
            &&& role == CodexHistoryRole::Assistant ==> payload.member_text("role"@) == Some(
                "assistant"@,
            ) && payload.member_text("phase"@) != Some("commentary"@) && text == join_of(
                content_texts(content, "output_text"@),
                "\n\n"@,
            )
        },
{
    reveal_strlit("user");
    reveal_strlit("assistant");
    assert("user"@.len() == 4);
    assert("assistant"@.len() == 9);
}

/// A response item line without a payload, or whose payload has no list of content, tells nothing.
pub proof fn law_response_items_need_content(line: JsonTree)
    ensures
        response_entry(line) is Some ==> {
            &&& line.member("payload"@) matches Some(payload)
            &&& payload.member_items("content"@) is Some
        },
{
}

/// The texts of content are those of its items of the wanted type, each in full and in their
/// order.
pub proof fn law_content_is_told_item_by_item(
    item: JsonTree,
    text: Seq<char>,
    earlier: Seq<JsonTree>,
    later: Seq<JsonTree>,
    content_type: Seq<char>,
)
    ensures
        item.member_text("type"@) == Some(content_type) && item.member_text("text"@) == Some(text)
            ==> content_texts(seq![item], content_type) == seq![text],
        item.member_text("type"@) != Some(content_type) || item.member_text("text"@) is None
            ==> content_texts(seq![item], content_type) == Seq::<Seq<char>>::empty(),
        content_texts(earlier + later, content_type) == content_texts(earlier, content_type)
            + content_texts(later, content_type),
    decreases later.len(),
{
    let single = seq![item];
    assert(single.drop_last() =~= seq![]);
    assert(content_texts(single.drop_last(), content_type) =~= seq![]);
    assert(content_texts(single, content_type) =~= match item.member_text("text"@) {
        Some(t) => if item.member_text("type"@) == Some(content_type) {
            seq![t]
        } else {
            seq![]
        },
        None => seq![],
    });
    if later.len() == 0 {
        assert(earlier + later =~= earlier);
        assert(content_texts(earlier, content_type) + content_texts(later, content_type)
            =~= content_texts(earlier, content_type));
    } else {
        law_content_is_told_item_by_item(item, text, earlier, later.drop_last(), content_type);
        assert((earlier + later).drop_last() =~= earlier + later.drop_last());
        assert((earlier + later).last() == later.last());
        assert(content_texts(earlier + later, content_type) =~= content_texts(earlier, content_type)
            + content_texts(later, content_type));
    }
}

/// A transcript of one line tells what the line tells.
pub proof fn law_each_line_is_told(document: JsonTree)
    ensures
        match event_entry(document) {
            Some(entry) => event_entries(seq![document]) == seq![entry],
            None => event_entries(seq![document]).len() == 0,
        },
        match response_entry(document) {
            Some(entry) => response_entries(seq![document]) == seq![entry],
            None => response_entries(seq![document]).len() == 0,
        },
{
    let documents = seq![document];
    assert(documents.drop_last() =~= seq![]);
    assert(event_entries(documents.drop_last()) =~= seq![]);
    assert(response_entries(documents.drop_last()) =~= seq![]);
    assert(event_entry(document) matches Some(entry) ==> event_entries(documents) =~= seq![entry]);
    assert(response_entry(document) matches Some(entry) ==> response_entries(documents) =~= seq![
        entry,
    ]);
}

/// The conversation in a transcript is what its events tell, all of it, or where they tell
/// nothing, what its response items tell, all of it.
pub proof fn law_conversation_is_whole(documents: Seq<JsonTree>)
    ensures
        event_entries(documents).len() > 0 ==> conversation(documents) == event_entries(documents),
        event_entries(documents).len() == 0 ==> conversation(documents) == response_entries(
            documents,
        ),
{
}

/// Every line of a transcript is read as a document, and one that is none is not passed over.
pub proof fn law_every_line_is_read(lines: Seq<Seq<char>>)
    ensures
        parsed_lines(lines) matches Some(documents) ==> {
            &&& documents.len() == lines.len()
            &&& forall|i: int|
                0 <= i < lines.len() ==> parsed_json(#[trigger] lines[i]) == Some(documents[i])
        },
        parsed_lines(lines) is None <==> exists|i: int|
            0 <= i < lines.len() && parsed_json(#[trigger] lines[i]) is None,
{
}

/// Who said what in a message is its role and its whole text, and exactly the messages of the user
/// have a new name.
pub proof fn law_messages_are_whole(list: Seq<CodexHistoryMessage>)
    ensures
        entries(list).len() == list.len(),
        forall|i: int|
            0 <= i < list.len() ==> (#[trigger] entries(list)[i]) == (HistoryEntry {
                role: list[i].role,
                text: list[i].text@,
            }),
        freshly_named(list) <==> forall|i: int|
            0 <= i < list.len() ==> match (#[trigger] list[i]).user_message_id {
                Some(id) => list[i].role == CodexHistoryRole::User && is_random_id(id.id@),
                None => list[i].role == CodexHistoryRole::Assistant,
            },
{
    if freshly_named(list) {
        assert forall|i: int| 0 <= i < list.len() implies match (
        #[trigger] list[i]).user_message_id {
            Some(id) => list[i].role == CodexHistoryRole::User && is_random_id(id.id@),
            None => list[i].role == CodexHistoryRole::Assistant,
        } by {
            assert(list[i].freshly_named());
        }
    }
}

} // verus!
