use codex_terminal::aliases::{
    load_codex_session_aliases, persist_codex_session_alias, resolve_codex_session_id,
    CodexSessionAliases,
};
use codex_terminal::history::{CodexHistoryMessage, CodexHistoryRole, UserMessageId};
use codex_terminal::json::{parse_json, Json};
use codex_terminal::rollout::{
    parse_codex_rollout_event_history, parse_codex_rollout_history,
    parse_codex_rollout_response_item_history, parse_rollout_lines,
};
use codex_terminal::rollout_files::{
    remote_rollout_args, require_rollout, DirectoryEntry, EntryKind, RolloutSearch, REMOTE_SHELL,
};

const EVENTS: &str = "{\"type\":\"session_meta\",\"payload\":{\"id\":\"x\"}}\n\
     {\"type\":\"event_msg\",\"payload\":{\"type\":\"user_message\",\"message\":\"Hello\"}}\n\
     {\"type\":\"event_msg\",\"payload\":{\"type\":\"agent_message\",\"message\":\"Hm\",\"phase\":\"commentary\"}}\n\
     {\"type\":\"event_msg\",\"payload\":{\"type\":\"agent_message\",\"message\":\"Hi\",\"phase\":\"final_answer\"}}\n\
     {\"type\":\"event_msg\",\"payload\":{\"type\":\"user_message\",\"message\":\"\"}}\n\
     {\"type\":\"event_msg\"}\n\
     {\"type\":\"event_msg\",\"payload\":{\"type\":7}}\n\
     {\"type\":\"response_item\",\"payload\":{\"type\":\"message\",\"role\":\"user\",\"content\":[{\"type\":\"input_text\",\"text\":\"Other\"}]}}\n";

fn said(messages: &[CodexHistoryMessage]) -> Vec<(bool, String)> {
    messages
        .iter()
        .map(|message| (message.role == CodexHistoryRole::User, message.text.clone()))
        .collect()
}

fn looks_random(id: &str) -> bool {
    let chars: Vec<char> = id.chars().collect();
    chars.len() == 36
        && chars.iter().enumerate().all(|(i, c)| match i {
            8 | 13 | 18 | 23 => *c == '-',
            14 => *c == '4',
            19 => matches!(c, '8' | '9' | 'a' | 'b'),
            _ => c.is_ascii_hexdigit() && !c.is_ascii_uppercase(),
        })
}

#[test]
fn documents_are_read() {
    let json = parse_json("{\"a\": [1, \"x\\n\", null, true], \"b\": {\"c\": 1.50}}").ok().unwrap();
    let items = json.member_array("a").unwrap();
    assert_eq!(items.len(), 4);
    assert!(matches!(&items[0], Json::Number(text) if text == "1"));
    assert_eq!(items[1].as_str(), Some("x\n"));
    assert!(matches!(items[2], Json::Null));
    assert!(matches!(items[3], Json::Bool(true)));
    assert!(matches!(json.get("b").unwrap().get("c").unwrap(), Json::Number(_)));
    assert!(json.get("c").is_none());
    assert!(json.member_str("a").is_none());
    assert!(json.member_array("b").is_none());
    assert!(items[1].get("a").is_none());
    assert!(!json.member_is("b", "c"));
}

#[test]
fn later_members_replace_earlier_ones() {
    let json = parse_json("{\"a\": \"1\", \"a\": \"2\"}").ok().unwrap();
    assert!(json.member_is("a", "2"));
    assert!(matches!(json, Json::Object(members) if members.len() == 1));
}

#[test]
fn what_is_no_document_is_refused() {
    for text in ["", "{", "{\"a\":}", "nul", "1 2", "\"\\x\""] {
        assert!(parse_json(text).is_err(), "{text}");
    }
}

#[test]
fn event_history_is_told() {
    let messages = parse_codex_rollout_event_history(EVENTS).ok().unwrap();
    assert_eq!(
        said(&messages),
        vec![(true, "Hello".to_string()), (false, "Hi".to_string())]
    );
    assert!(looks_random(&messages[0].user_message_id.as_ref().unwrap().id));
    assert!(messages[1].user_message_id.is_none());
}

#[test]
fn events_come_before_response_items() {
    let messages = parse_codex_rollout_history(EVENTS).ok().unwrap();
    assert_eq!(messages.len(), 2);
    let messages = parse_codex_rollout_response_item_history(EVENTS).ok().unwrap();
    assert_eq!(said(&messages), vec![(true, "Other".to_string())]);
}

#[test]
fn response_items_are_told_where_there_are_no_events() {
    let rollout = "{\"type\":\"response_item\",\"payload\":{\"type\":\"message\",\"role\":\"user\",\"content\":[{\"type\":\"input_text\",\"text\":\"One\"},{\"type\":\"output_text\",\"text\":\"no\"},{\"type\":\"input_text\",\"text\":\"Two\"},{\"type\":\"input_text\"}]}}\n\
        {\"type\":\"response_item\",\"payload\":{\"type\":\"message\",\"role\":\"assistant\",\"phase\":\"commentary\",\"content\":[{\"type\":\"output_text\",\"text\":\"Thinking\"}]}}\n\
        {\"type\":\"response_item\",\"payload\":{\"type\":\"message\",\"role\":\"assistant\",\"content\":[{\"type\":\"output_text\",\"text\":\"Done\"}]}}\n\
        {\"type\":\"response_item\",\"payload\":{\"type\":\"message\",\"role\":\"system\",\"content\":[{\"type\":\"input_text\",\"text\":\"no\"}]}}\n\
        {\"type\":\"response_item\",\"payload\":{\"type\":\"message\",\"role\":\"user\",\"content\":\"no\"}}\n\
        {\"type\":\"response_item\",\"payload\":{\"type\":\"reasoning\",\"role\":\"user\",\"content\":[]}}\n\
        {\"type\":\"response_item\",\"payload\":{\"type\":\"message\",\"role\":\"user\",\"content\":[]}}";
    let messages = parse_codex_rollout_history(rollout).ok().unwrap();
    assert_eq!(
        said(&messages),
        vec![(true, "One\n\nTwo".to_string()), (false, "Done".to_string())]
    );
    assert!(looks_random(&messages[0].user_message_id.as_ref().unwrap().id));
    assert!(messages[1].user_message_id.is_none());
}

#[test]
fn broken_transcripts_are_refused() {
    assert!(parse_codex_rollout_history("{\"type\":\"event_msg\"}\nnot json\n").is_err());
    assert!(parse_codex_rollout_history("{}\n\n{}").is_err());
    assert!(parse_codex_rollout_event_history("{").is_err());
    assert!(parse_codex_rollout_response_item_history("{").is_err());
    assert!(parse_codex_rollout_history("").ok().unwrap().is_empty());
    assert_eq!(parse_rollout_lines("1\r\n2\n").ok().unwrap().len(), 2);
}

#[test]
fn new_names_differ() {
    let a = UserMessageId::new();
    let b = UserMessageId::new();
    assert!(looks_random(&a.id));
    assert_ne!(a.id, b.id);
    let message = CodexHistoryMessage::with_new_id(CodexHistoryRole::Assistant, "x".to_string());
    assert!(message.user_message_id.is_none());
}

#[test]
fn session_is_known_by_its_own_name_where_none_is_recorded() {
    assert_eq!(resolve_codex_session_id(None, "s"), "s");
    assert_eq!(resolve_codex_session_id(Some("not json"), "s"), "s");
    assert_eq!(resolve_codex_session_id(Some("{\"s\": 1}"), "s"), "s");
    assert_eq!(resolve_codex_session_id(Some("{\"t\": \"u\"}"), "s"), "s");
    assert_eq!(resolve_codex_session_id(Some("{\"s\": \"u\"}"), "s"), "u");
}

#[test]
fn recorded_name_is_read_back() {
    let written = persist_codex_session_alias(None, "s\"1\n", "thread-1").ok().unwrap().unwrap();
    let content = String::from_utf8(written).unwrap();
    assert_eq!(resolve_codex_session_id(Some(&content), "s\"1\n"), "thread-1");
    let written = persist_codex_session_alias(Some(&content), "é", "thread-2").ok().unwrap();
    let content = String::from_utf8(written.unwrap()).unwrap();
    assert_eq!(resolve_codex_session_id(Some(&content), "s\"1\n"), "thread-1");
    assert_eq!(resolve_codex_session_id(Some(&content), "é"), "thread-2");
    assert!(persist_codex_session_alias(Some(&content), "é", "thread-2").ok().unwrap().is_none());
    let written = persist_codex_session_alias(Some(&content), "é", "thread-3").ok().unwrap();
    let content = String::from_utf8(written.unwrap()).unwrap();
    assert_eq!(resolve_codex_session_id(Some(&content), "é"), "thread-3");
}

#[test]
fn unreadable_names_are_replaced() {
    let written = persist_codex_session_alias(Some("[]"), "s", "t").ok().unwrap().unwrap();
    assert_eq!(written, b"{\"s\":\"t\"}".to_vec());
}

#[test]
fn names_are_recorded() {
    let mut aliases = CodexSessionAliases::new();
    assert!(aliases.record("a", "1"));
    assert!(!aliases.record("a", "1"));
    assert!(aliases.record("a", "2"));
    assert_eq!(aliases.resolve_codex_session_id("a"), "2");
    assert_eq!(aliases.resolve_codex_session_id("b"), "b");
    assert_eq!(aliases.to_bytes().ok().unwrap(), b"{\"a\":\"2\"}".to_vec());
    let entries = vec![
        ("a".to_string(), "1".to_string()),
        ("b".to_string(), "2".to_string()),
        ("a".to_string(), "3".to_string()),
    ];
    let aliases = CodexSessionAliases::from_entries(&entries);
    assert_eq!(aliases.resolve_codex_session_id("a"), "3");
    let loaded = load_codex_session_aliases(Some("{\"a\":\"1\",\"a\":\"2\"}"));
    assert_eq!(loaded.resolve_codex_session_id("a"), "2");
}

fn entry(kind: EntryKind, name: &str) -> DirectoryEntry<String> {
    DirectoryEntry { kind, name: name.to_string(), path: format!("/{name}") }
}

#[test]
fn transcripts_are_found_by_name() {
    let mut search = RolloutSearch::new("/".to_string(), "abc");
    assert_eq!(search.next_directory(), Some("/".to_string()));
    assert_eq!(search.visit(entry(EntryKind::File, "rollout-2025-abd.jsonl")), None);
    assert_eq!(search.visit(entry(EntryKind::File, "old-rollout-2025-abc.jsonl")), None);
    assert_eq!(search.visit(entry(EntryKind::File, "rollout-2025-abc.json")), None);
    assert_eq!(search.visit(entry(EntryKind::Other, "rollout-2025-abc.jsonl")), None);
    assert_eq!(search.visit(entry(EntryKind::Directory, "rollout-2025-abc.jsonl")), None);
    assert_eq!(
        search.visit(entry(EntryKind::File, "rollout-2025-abc.jsonl")),
        Some("/rollout-2025-abc.jsonl".to_string())
    );
    assert_eq!(
        search.visit(entry(EntryKind::File, "rollout-abc.jsonl")),
        Some("/rollout-abc.jsonl".to_string())
    );
    assert_eq!(search.next_directory(), Some("/rollout-2025-abc.jsonl".to_string()));
    assert_eq!(search.next_directory(), None);
}

#[test]
fn directories_are_read_later() {
    let mut search = RolloutSearch::new("/".to_string(), "abc");
    search.next_directory();
    let found = search.visit_all(vec![
        entry(EntryKind::Directory, "2024"),
        entry(EntryKind::File, "notes"),
        entry(EntryKind::Directory, "2025"),
    ]);
    assert_eq!(found, None);
    assert_eq!(search.next_directory(), Some("/2025".to_string()));
    let found = search.visit_all(vec![
        entry(EntryKind::File, "rollout-1-abc.jsonl"),
        entry(EntryKind::File, "rollout-2-abc.jsonl"),
    ]);
    assert_eq!(found, Some("/rollout-1-abc.jsonl".to_string()));
    assert_eq!(search.next_directory(), Some("/2024".to_string()));
}

#[test]
fn remote_transcripts_are_read_by_a_shell() {
    assert_eq!(REMOTE_SHELL, "sh");
    assert_eq!(
        remote_rollout_args("abc"),
        vec![
            "-lc".to_string(),
            "path=$(find \"$HOME/.codex/sessions\" -type f -name 'rollout-*-abc.jsonl' | head -n 1)\nif [ -z \"$path\" ]; then exit 2; fi\ncat \"$path\"".to_string(),
        ]
    );
}

#[test]
fn missing_transcript_is_reported() {
    assert_eq!(require_rollout(Some(7), "abc"), Ok(7));
    assert_eq!(
        require_rollout::<u8>(None, "abc"),
        Err("Codex transcript not found for session abc".to_string())
    );
}
