//! Transcripts of earlier conversations: one JSON document per line.
use crate::history::{entries, freshly_named, CodexHistoryMessage, CodexHistoryRole, HistoryEntry};
use crate::json::{parse_json, parsed_json, trees, Json, JsonError, JsonTree};
use crate::text::{join, join_of, lines, lines_of, same_text, texts};
use vstd::prelude::*;

verus! {

/// The documents of some lines, or nothing where one of them is no JSON document.
pub open spec fn parsed_lines(lines: Seq<Seq<char>>) -> Option<Seq<JsonTree>> {
    if forall|i: int| 0 <= i < lines.len() ==> parsed_json(#[trigger] lines[i]) is Some {
        Some(Seq::new(lines.len(), |i: int| parsed_json(lines[i])->0))
    } else {
        None
    }
}

/// The text of a member, which is empty where there is none.
pub open spec fn text_or_empty(text: Option<Seq<char>>) -> Seq<char> {
    match text {
        Some(text) => text,
        None => seq![],
    }
}

/// Who speaks in an event: the user in a user message, the agent in a final answer.
pub open spec fn event_role(payload: JsonTree) -> Option<CodexHistoryRole> {
    match payload.member_text("type"@) {
        Some(kind) => if kind == "user_message"@ {
            Some(CodexHistoryRole::User)
        } else if kind == "agent_message"@ && payload.member_text("phase"@) == Some(
            "final_answer"@,
        ) {
            Some(CodexHistoryRole::Assistant)
        } else {
            None
        },
        None => None,
    }
}

/// What a line says as an event.
pub open spec fn event_entry(line: JsonTree) -> Option<HistoryEntry> {
    if line.member_text("type"@) != Some("event_msg"@) {
        None
    } else {
        match line.member("payload"@) {
            Some(payload) => match event_role(payload) {
                Some(role) => {
                    let text = text_or_empty(payload.member_text("message"@));
                    if text.len() == 0 {
                        None
                    } else {
                        Some(HistoryEntry { role, text })
                    }
                },
                None => None,
            },
            None => None,
        }
    }
}

/// Who speaks in a response item: the user, or the agent where it does not comment on its work.
pub open spec fn response_role(payload: JsonTree) -> Option<CodexHistoryRole> {
    if payload.member_text("type"@) != Some("message"@) {
        None
    } else {
        match payload.member_text("role"@) {
            Some(role) => if role == "user"@ {
                Some(CodexHistoryRole::User)
            } else if role == "assistant"@ && payload.member_text("phase"@) != Some(
                "commentary"@,
            ) {
                Some(CodexHistoryRole::Assistant)
            } else {
                None
            },
            None => None,
        }
    }
}

/// The type of the content items in which a role writes.
pub open spec fn content_type_of(role: CodexHistoryRole) -> Seq<char> {
    match role {
        CodexHistoryRole::User => "input_text"@,
        CodexHistoryRole::Assistant => "output_text"@,
    }
}

/// The texts of the content items of a type.
pub open spec fn content_texts(content: Seq<JsonTree>, content_type: Seq<char>) -> Seq<Seq<char>>
    decreases content.len(),
{
    if content.len() == 0 {
        seq![]
    } else {
        let before = content_texts(content.drop_last(), content_type);
        let item = content.last();
        match item.member_text("text"@) {
            Some(text) => if item.member_text("type"@) == Some(content_type) {
                before.push(text)
            } else {
                before
            },
            None => before,
        }
    }
}

/// What a line says as a response item.
pub open spec fn response_entry(line: JsonTree) -> Option<HistoryEntry> {
    if line.member_text("type"@) != Some("response_item"@) {
        None
    } else {
        match line.member("payload"@) {
            Some(payload) => match (response_role(payload), payload.member_items("content"@)) {
                (Some(role), Some(content)) => {
                    let text = join_of(content_texts(content, content_type_of(role)), "\n\n"@);
                    if text.len() == 0 {
                        None
                    } else {
                        Some(HistoryEntry { role, text })
                    }
                },
                _ => None,
            },
            None => None,
        }
    }
}

/// What the lines say as events, in their order.
pub open spec fn event_entries(documents: Seq<JsonTree>) -> Seq<HistoryEntry>
    decreases documents.len(),
{
    if documents.len() == 0 {
        seq![]
    } else {
        match event_entry(documents.last()) {
            Some(entry) => event_entries(documents.drop_last()).push(entry),
            None => event_entries(documents.drop_last()),
        }
    }
}

/// What the lines say as response items, in their order.
pub open spec fn response_entries(documents: Seq<JsonTree>) -> Seq<HistoryEntry>
    decreases documents.len(),
{
    if documents.len() == 0 {
        seq![]
    } else {
        match response_entry(documents.last()) {
            Some(entry) => response_entries(documents.drop_last()).push(entry),
            None => response_entries(documents.drop_last()),
        }
    }
}

/// The conversation in a transcript: its events, or its response items where it has no events.
pub open spec fn conversation(documents: Seq<JsonTree>) -> Seq<HistoryEntry> {
    if event_entries(documents).len() > 0 {
        event_entries(documents)
    } else {
        response_entries(documents)
    }
}

/// The message in an event line.
pub fn event_message(line: &Json) -> (message: Option<CodexHistoryMessage>)
    ensures
        match message {
            Some(message) => event_entry(line@) == Some(message.entry())
                && message.freshly_named(),
            None => event_entry(line@) is None,
        },
{
    if !line.member_is("type", "event_msg") {
        return None;
    }
    let payload = match line.get("payload") {
        Some(payload) => payload,
        None => return None,
    };
    let message_type = match payload.member_str("type") {
        Some(message_type) => message_type,
        None => return None,
    };
    let role = if same_text(message_type, "user_message") {
        CodexHistoryRole::User
    } else if same_text(message_type, "agent_message") && payload.member_is(
        "phase",
        "final_answer",
    ) {
        CodexHistoryRole::Assistant
    } else {
        return None;
    };
    assert(event_role(payload@) == Some(role));
    match payload.member_str("message") {
        Some(text) => {
            if text.is_empty() {
                None
            } else {
                Some(CodexHistoryMessage::with_new_id(role, text.to_owned()))
            }
        },
        None => None,
    }
}

fn collect_content_texts(content: &Vec<Json>, content_type: &str) -> (parts: Vec<String>)
    ensures
        texts(parts@) == content_texts(trees(content@), content_type@),
{
    let mut parts: Vec<String> = Vec::new();
    let mut i: usize = 0;
    let ghost all = trees(content@);
    assert(texts(parts@) =~= seq![]);
    while i < content.len()
        invariant
            i <= content@.len(),
            all == trees(content@),
            texts(parts@) == content_texts(all.take(i as int), content_type@),
        decreases content@.len() - i,
    {
        let item = &content[i];
        assert(all.take(i + 1).drop_last() =~= all.take(i as int));
        assert(all.take(i + 1).last() == item@);
        let ghost before = texts(parts@);
        if item.member_is("type", content_type) {
            match item.member_str("text") {
                Some(text) => {
                    let part = text.to_owned();
                    parts.push(part);
                    assert(texts(parts@) =~= before.push(part@));
                },
                None => {},
            }
        }
        i = i + 1;
    }
    assert(all.take(i as int) =~= all);
    parts
}

/// The message in a response item line.
pub fn response_item_message(line: &Json) -> (message: Option<CodexHistoryMessage>)
    ensures
        match message {
            Some(message) => response_entry(line@) == Some(message.entry())
                && message.freshly_named(),
            None => response_entry(line@) is None,
        },
{
    if !line.member_is("type", "response_item") {
        return None;
    }
    let payload = match line.get("payload") {
        Some(payload) => payload,
        None => return None,
    };
    if !payload.member_is("type", "message") {
        return None;
    }
    let role_name = match payload.member_str("role") {
        Some(role_name) => role_name,
        None => return None,
    };
    let role = if same_text(role_name, "user") {
        CodexHistoryRole::User
    } else if same_text(role_name, "assistant") && !payload.member_is("phase", "commentary") {
        CodexHistoryRole::Assistant
    } else {
        return None;
    };
    assert(response_role(payload@) == Some(role));
    let content = match payload.member_array("content") {
        Some(content) => content,
        None => return None,
    };
    let content_type = match role {
        CodexHistoryRole::User => "input_text",
        CodexHistoryRole::Assistant => "output_text",
    };
    let parts = collect_content_texts(content, content_type);
    let text = join(&parts, "\n\n");
    if text.as_str().is_empty() {
        None
    } else {
        Some(CodexHistoryMessage::with_new_id(role, text))
    }
}

/// The messages in the event lines.
pub fn event_messages(documents: &Vec<Json>) -> (messages: Vec<CodexHistoryMessage>)
    ensures
        entries(messages@) == event_entries(trees(documents@)),
        freshly_named(messages@),
{
    let mut messages: Vec<CodexHistoryMessage> = Vec::new();
    let mut i: usize = 0;
    let ghost all = trees(documents@);
    assert(entries(messages@) =~= seq![]);
    while i < documents.len()
        invariant
            i <= documents@.len(),
            all == trees(documents@),
            entries(messages@) == event_entries(all.take(i as int)),
            freshly_named(messages@),
        decreases documents@.len() - i,
    {
        assert(all.take(i + 1).drop_last() =~= all.take(i as int));
        assert(all.take(i + 1).last() == documents@[i as int]@);
        let ghost before = entries(messages@);
        match event_message(&documents[i]) {
            Some(message) => {
                messages.push(message);
                assert(entries(messages@) =~= before.push(message.entry()));
            },
            None => {},
        }
        i = i + 1;
    }
    assert(all.take(i as int) =~= all);
    messages
}

/// The messages in the response item lines.
pub fn response_item_messages(documents: &Vec<Json>) -> (messages: Vec<CodexHistoryMessage>)
    ensures
        entries(messages@) == response_entries(trees(documents@)),
        freshly_named(messages@),
{
    let mut messages: Vec<CodexHistoryMessage> = Vec::new();
    let mut i: usize = 0;
    let ghost all = trees(documents@);
    assert(entries(messages@) =~= seq![]);
    while i < documents.len()
        invariant
            i <= documents@.len(),
            all == trees(documents@),
            entries(messages@) == response_entries(all.take(i as int)),
            freshly_named(messages@),
        decreases documents@.len() - i,
    {
        assert(all.take(i + 1).drop_last() =~= all.take(i as int));
        assert(all.take(i + 1).last() == documents@[i as int]@);
        let ghost before = entries(messages@);
        match response_item_message(&documents[i]) {
            Some(message) => {
                messages.push(message);
                assert(entries(messages@) =~= before.push(message.entry()));
            },
            None => {},
        }
        i = i + 1;
    }
    assert(all.take(i as int) =~= all);
    messages
}

/// Reads each line of a transcript as a JSON document.
pub fn parse_rollout_lines(rollout: &str) -> (documents: Result<Vec<Json>, JsonError>)
    ensures
        match documents {
            Ok(documents) => parsed_lines(lines_of(rollout@)) == Some(trees(documents@)),
            Err(_) => parsed_lines(lines_of(rollout@)) is None,
        },
{
    let lines = lines(rollout);
    let ghost all = texts(lines@);
    let mut documents: Vec<Json> = Vec::new();
    let mut i: usize = 0;
    while i < lines.len()
        invariant
            i <= lines@.len(),
            all == texts(lines@),
            all == lines_of(rollout@),
            documents@.len() == i,
            forall|j: int|
                #![trigger all[j]]
                0 <= j < i ==> parsed_json(all[j]) == Some(documents@[j]@),
        decreases lines@.len() - i,
    {
        match parse_json(lines[i].as_str()) {
            Ok(document) => {
                documents.push(document);
            },
            Err(error) => {
                assert(parsed_json(all[i as int]) is None);
                return Err(error);
            },
        }
        i = i + 1;
    }
    assert(parsed_lines(all)->0 =~= trees(documents@));
    Ok(documents)
}

/// The conversation that the events of a transcript tell. It fails where a line is no JSON
/// document.
pub fn parse_codex_rollout_event_history(rollout: &str) -> (history: Result<
    Vec<CodexHistoryMessage>,
    JsonError,
>)
    ensures
        match history {
            Ok(messages) => {
                &&& parsed_lines(lines_of(rollout@)) matches Some(documents)
                &&& entries(messages@) == event_entries(documents)
                &&& freshly_named(messages@)
            },
            Err(_) => parsed_lines(lines_of(rollout@)) is None,
        },
{
    match parse_rollout_lines(rollout) {
        Ok(documents) => Ok(event_messages(&documents)),
        Err(error) => Err(error),
    }
}

/// The conversation that the response items of a transcript tell. It fails where a line is no
/// JSON document.
pub fn parse_codex_rollout_response_item_history(rollout: &str) -> (history: Result<
    Vec<CodexHistoryMessage>,
    JsonError,
>)
    ensures
        match history {
            Ok(messages) => {
                &&& parsed_lines(lines_of(rollout@)) matches Some(documents)
                &&& entries(messages@) == response_entries(documents)
                &&& freshly_named(messages@)
            },
            Err(_) => parsed_lines(lines_of(rollout@)) is None,
        },
{
    match parse_rollout_lines(rollout) {
        Ok(documents) => Ok(response_item_messages(&documents)),
        Err(error) => Err(error),
    }
}

/// The conversation in a transcript. It fails where a line is no JSON document.
pub fn parse_codex_rollout_history(rollout: &str) -> (history: Result<
    Vec<CodexHistoryMessage>,
    JsonError,
>)
    ensures
        match history {
            Ok(messages) => {
                &&& parsed_lines(lines_of(rollout@)) matches Some(documents)
                &&& entries(messages@) == conversation(documents)
                &&& freshly_named(messages@)
            },
            Err(_) => parsed_lines(lines_of(rollout@)) is None,
        },
{
    match parse_codex_rollout_event_history(rollout) {
        Ok(messages) => {
            if messages.len() > 0 {
                assert(entries(messages@).len() > 0);
                Ok(messages)
            } else {
                assert(entries(messages@).len() == 0);
                parse_codex_rollout_response_item_history(rollout)
            }
        },
        Err(error) => Err(error),
    }
}

/// Nothing that a transcript tells is empty.
pub proof fn law_told_messages_are_not_empty(documents: Seq<JsonTree>)
    ensures
        forall|i: int|
            0 <= i < conversation(documents).len() ==> (#[trigger] conversation(
                documents,
            )[i]).text.len() > 0,
{
    lemma_entries_are_not_empty(documents);
}

proof fn lemma_entries_are_not_empty(documents: Seq<JsonTree>)
    ensures
        forall|i: int|
            0 <= i < event_entries(documents).len() ==> (#[trigger] event_entries(
                documents,
            )[i]).text.len() > 0,
        forall|i: int|
            0 <= i < response_entries(documents).len() ==> (#[trigger] response_entries(
                documents,
            )[i]).text.len() > 0,
    decreases documents.len(),
{
    if documents.len() > 0 {
        lemma_entries_are_not_empty(documents.drop_last());
    }
}

/// What a transcript tells follows its lines: what is told of more lines is what was told before
/// and then what the further lines say.
pub proof fn law_entries_follow_lines(earlier: Seq<JsonTree>, later: Seq<JsonTree>)
    ensures
        event_entries(earlier + later) == event_entries(earlier) + event_entries(later),
        response_entries(earlier + later) == response_entries(earlier) + response_entries(later),
    decreases later.len(),
{
    if later.len() == 0 {
        assert(earlier + later =~= earlier);
        assert(event_entries(earlier) + event_entries(later) =~= event_entries(earlier));
        assert(response_entries(earlier) + response_entries(later) =~= response_entries(earlier));
    } else {
        law_entries_follow_lines(earlier, later.drop_last());
        assert((earlier + later).drop_last() =~= earlier + later.drop_last());
        assert((earlier + later).last() == later.last());
        assert(event_entries(earlier + later) =~= event_entries(earlier) + event_entries(later));
        assert(response_entries(earlier + later) =~= response_entries(earlier) + response_entries(
            later,
        ));
    }
}

/// A transcript in which an event is told is told by its events alone.
pub proof fn law_events_come_first(documents: Seq<JsonTree>, i: int)
    requires
        0 <= i < documents.len(),
        event_entry(documents[i]) is Some,
    ensures
        conversation(documents) == event_entries(documents),
{
    let earlier = documents.take(i);
    let later = documents.skip(i);
    assert(documents =~= earlier + later);
    law_entries_follow_lines(earlier, later);
    let first = seq![documents[i]];
    let rest = later.skip(1);
    assert(later =~= first + rest);
    law_entries_follow_lines(first, rest);
    assert(first.last() == documents[i]);
    assert(event_entries(first.drop_last()).len() == 0);
    assert(event_entries(first).len() == 1);
}

} // verus!
