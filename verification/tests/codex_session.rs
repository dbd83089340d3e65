use codex_terminal::agent_settings::{AllAgentServersSettings, SettingsContent};
use codex_terminal::codex_agent_server::CodexAgentServer;
use codex_terminal::codex_run::CodexRunOutput;
use codex_terminal::codex_session::{
    codex_input, prompt_text, seed_thread_from_history, CodexConnection, CodexSessionError,
    ContentBlock, StopReason, ThreadSeed,
};
use codex_terminal::history::{CodexHistoryMessage, CodexHistoryRole, UserMessageId};
use codex_terminal::text_map::TextMap;

fn no_settings() -> AllAgentServersSettings {
    AllAgentServersSettings { servers: TextMap::new() }
}

fn in_effect(content: SettingsContent) -> AllAgentServersSettings {
    AllAgentServersSettings { servers: content.agent_servers.unwrap_or_else(TextMap::new) }
}

fn id(text: &str) -> UserMessageId {
    UserMessageId { id: text.to_string() }
}

fn text(text: &str) -> Vec<ContentBlock> {
    vec![ContentBlock::Text(text.to_string())]
}

fn output(thread_id: Option<&str>, response: &str) -> CodexRunOutput {
    CodexRunOutput {
        codex_thread_id: thread_id.map(str::to_string),
        final_response: response.to_string(),
        usage: None,
    }
}

fn begun() -> CodexConnection {
    let mut connection = CodexAgentServer::new().connect();
    connection.create_thread("s".to_string(), vec!["/w".to_string()], None, &no_settings());
    connection
}

fn history(connection: &CodexConnection) -> Vec<(bool, String)> {
    connection
        .sessions
        .get("s")
        .unwrap()
        .history
        .iter()
        .map(|message| (message.role == CodexHistoryRole::User, message.text.clone()))
        .collect()
}

fn message(error: CodexSessionError) -> String {
    error.message()
}

#[test]
fn new_sessions_begin_with_the_defaults() {
    let mut connection = CodexConnection::new();
    let session_id = connection.new_session(vec!["/w".to_string()], &no_settings());
    assert_eq!(session_id.len(), 36);
    let session = connection.sessions.get(&session_id).unwrap();
    assert_eq!(session.codex_thread_id, None);
    assert!(session.history.is_empty());
    assert_eq!(session.work_dirs, vec!["/w"]);
    assert_eq!(session.selected_model, "gpt-5.5");
    assert_eq!(session.mode_id, "standard");
    assert_eq!(session.reasoning_effort, "medium");
    assert_ne!(connection.new_session(vec![], &no_settings()), session_id);
    assert_eq!(connection.sessions.len(), 2);
}

#[test]
fn connections_say_what_they_can() {
    let connection = CodexConnection::new();
    assert_eq!(connection.agent_id(), "codex");
    assert_eq!(connection.telemetry_id(), "codex");
    assert!(connection.supports_load_session());
    assert!(connection.supports_resume_session());
}

#[test]
fn resumed_sessions_go_on_with_their_thread() {
    let mut connection = CodexConnection::new();
    connection.resume_session("s".to_string(), vec![], Some("{\"s\":\"t\"}"), &no_settings());
    assert_eq!(connection.sessions.get("s").unwrap().codex_thread_id.as_deref(), Some("t"));
    connection.resume_session("u".to_string(), vec![], None, &no_settings());
    assert_eq!(connection.sessions.get("u").unwrap().codex_thread_id.as_deref(), Some("u"));
}

#[test]
fn loaded_sessions_are_filled_from_their_transcript() {
    let mut connection = CodexConnection::new();
    let name = connection.load_session(
        "s".to_string(),
        vec![],
        Some("{\"s\":\"t\"}"),
        &no_settings(),
    );
    assert_eq!(name, "t");
    let rollout = "{\"type\":\"event_msg\",\"payload\":{\"type\":\"user_message\",\"message\":\"Hello\"}}\n\
        {\"type\":\"event_msg\",\"payload\":{\"type\":\"agent_message\",\"message\":\"Hi\",\"phase\":\"final_answer\"}}";
    let seeds = connection.finish_load("s", rollout, name).ok().unwrap();
    assert_eq!(seeds.len(), 2);
    let kept = connection.sessions.get("s").unwrap().history[0].user_message_id.as_ref().unwrap();
    assert!(matches!(
        &seeds[0],
        ThreadSeed::User { message_id: Some(message_id), text }
            if message_id.id == kept.id && text == "Hello"
    ));
    assert!(matches!(&seeds[1], ThreadSeed::Assistant { text } if text == "Hi"));
    assert_eq!(
        history(&connection),
        vec![(true, "Hello".to_string()), (false, "Hi".to_string())]
    );
    assert!(connection.finish_load("s", "{", "u".to_string()).is_err());
    assert_eq!(connection.sessions.get("s").unwrap().codex_thread_id.as_deref(), Some("t"));
    assert_eq!(connection.finish_load("gone", rollout, "u".to_string()).ok().unwrap().len(), 2);
    assert!(!connection.sessions.contains_key("gone"));
}

#[test]
fn prompts_are_the_texts_of_their_parts() {
    let prompt = vec![
        ContentBlock::Text("Look".to_string()),
        ContentBlock::Image,
        ContentBlock::ResourceLink("file:///a".to_string()),
        ContentBlock::Audio,
        ContentBlock::Resource("EmbeddedResource".to_string()),
        ContentBlock::Other,
        ContentBlock::Text(String::new()),
    ];
    assert_eq!(prompt_text(prompt), "Look\n\nfile:///a\n\nEmbeddedResource\n\n");
    assert_eq!(prompt_text(vec![]), "");
    assert_eq!(prompt_text(vec![ContentBlock::Image]), "");
}

#[test]
fn prompt_without_session_fails() {
    let mut connection = begun();
    let error = connection.prompt("gone", id("m"), text("Hi")).err().unwrap();
    assert_eq!(error.message(), "Codex session not found");
    assert!(history(&connection).is_empty());
}

#[test]
fn prompt_is_asked_and_answered() {
    let mut connection = begun();
    let run = connection.prompt("s", id("m1"), text("One")).ok().unwrap();
    assert_eq!(run.input, "One");
    assert_eq!(run.session_id, "s");
    assert_eq!(run.codex_thread_id, None);
    assert_eq!(run.work_dirs, vec!["/w"]);
    assert_eq!(run.selected_model, "gpt-5.5");
    assert_eq!(run.reasoning_effort, "medium");
    let finished = connection.finish_prompt("s", output(Some("t"), "First"));
    assert_eq!(finished.new_alias.as_deref(), Some("t"));
    assert_eq!(finished.response.stop_reason, StopReason::EndTurn);
    assert!(finished.response.usage.is_none());
    let run = connection.prompt("s", id("m2"), text("Two")).ok().unwrap();
    assert_eq!(run.codex_thread_id.as_deref(), Some("t"));
    assert_eq!(run.input, "Two");
    let finished = connection.finish_prompt("s", output(None, ""));
    assert_eq!(finished.new_alias, None);
    assert_eq!(connection.sessions.get("s").unwrap().codex_thread_id.as_deref(), Some("t"));
    assert_eq!(
        history(&connection),
        vec![
            (true, "One".to_string()),
            (false, "First".to_string()),
            (true, "Two".to_string()),
        ]
    );
}

#[test]
fn thread_named_like_the_session_needs_no_record() {
    let mut connection = begun();
    assert_eq!(connection.finish_prompt("s", output(Some("s"), "x")).new_alias, None);
    assert_eq!(connection.sessions.get("s").unwrap().codex_thread_id.as_deref(), Some("s"));
    assert_eq!(connection.finish_prompt("gone", output(Some("t"), "x")).new_alias, None);
    assert!(!connection.sessions.contains_key("gone"));
}

#[test]
fn conversation_is_told_again_after_going_back() {
    let mut connection = begun();
    connection.prompt("s", id("m1"), text("One")).ok().unwrap();
    connection.finish_prompt("s", output(Some("t"), "First"));
    connection.prompt("s", id("m2"), text("Two")).ok().unwrap();
    connection.finish_prompt("s", output(Some("t"), "Second"));
    let truncate = connection.truncate("s").unwrap();
    truncate.run(&mut connection, &id("m2"));
    assert_eq!(
        history(&connection),
        vec![(true, "One".to_string()), (false, "First".to_string())]
    );
    let run = connection.prompt("s", id("m3"), text("Other")).ok().unwrap();
    assert_eq!(run.codex_thread_id, None);
    assert_eq!(
        run.input,
        "Continue this conversation. Prior messages are included for context.\n\n\
         User:\nOne\n\nAssistant:\nFirst\n\nUser:\nOther"
    );
    connection.truncate("s").unwrap().run(&mut connection, &id("gone"));
    assert_eq!(history(&connection).len(), 3);
    connection.truncate("s").unwrap().run(&mut connection, &id("m1"));
    assert!(history(&connection).is_empty());
    let session = connection.sessions.get("s").unwrap();
    assert_eq!(codex_input(session, "Again"), "Again");
}

#[test]
fn handles_are_there_only_for_sessions() {
    let connection = begun();
    assert_eq!(connection.truncate("s").unwrap().session_id, "s");
    assert_eq!(connection.model_selector("s").unwrap().session_id, "s");
    assert_eq!(connection.session_modes("s").unwrap().session_id, "s");
    assert_eq!(connection.session_config_options("s").unwrap().session_id, "s");
    assert!(connection.truncate("gone").is_none());
    assert!(connection.model_selector("gone").is_none());
    assert!(connection.session_modes("gone").is_none());
    assert!(connection.session_config_options("gone").is_none());
}

#[test]
fn models_are_selected() {
    let mut connection = begun();
    let selector = connection.model_selector("s").unwrap();
    assert_eq!(selector.list_models().len(), 4);
    assert_eq!(selector.selected_model(&connection).ok().unwrap().id, "gpt-5.5");
    let update = selector.select_model(&mut connection, "gpt-5-codex".to_string());
    assert_eq!(selector.selected_model(&connection).ok().unwrap().name, "GPT-5 Codex");
    let mut content = SettingsContent { agent_servers: None };
    update.apply(&mut content);
    let settings = in_effect(content);
    let session_id = connection.new_session(vec![], &settings);
    assert_eq!(connection.sessions.get(&session_id).unwrap().selected_model, "gpt-5-codex");
    selector.select_model(&mut connection, "unknown".to_string());
    let error = selector.selected_model(&connection).err().unwrap();
    assert_eq!(message(error), "Codex model not found");
}

#[test]
fn modes_bring_their_reasoning_effort() {
    let mut connection = begun();
    let modes = connection.session_modes("s").unwrap();
    assert_eq!(modes.all_modes().len(), 2);
    assert_eq!(modes.current_mode(&connection), "standard");
    let update = modes
        .set_mode(&mut connection, "fast".to_string(), &no_settings())
        .ok()
        .unwrap();
    assert_eq!(modes.current_mode(&connection), "fast");
    assert_eq!(connection.sessions.get("s").unwrap().reasoning_effort, "low");
    let mut content = SettingsContent { agent_servers: None };
    update.apply(&mut content);
    let settings = in_effect(content);
    let session_id = connection.new_session(vec![], &settings);
    assert_eq!(connection.sessions.get(&session_id).unwrap().mode_id, "fast");
    assert_eq!(connection.sessions.get(&session_id).unwrap().reasoning_effort, "low");
    let error = modes
        .set_mode(&mut connection, "turbo".to_string(), &no_settings())
        .err()
        .unwrap();
    assert_eq!(message(error), "Invalid Codex mode: turbo");
    assert_eq!(modes.current_mode(&connection), "fast");
}

#[test]
fn options_are_set_and_shown() {
    let mut connection = begun();
    let options = connection.session_config_options("s").unwrap();
    let values = |connection: &CodexConnection| -> Vec<String> {
        options.config_options(connection).into_iter().map(|option| option.current_value).collect()
    };
    assert_eq!(values(&connection), vec!["standard", "gpt-5.5", "medium"]);
    let change = options
        .set_config_option(
            &mut connection,
            "reasoning_effort".to_string(),
            "high".to_string(),
            &no_settings(),
        )
        .ok()
        .unwrap();
    assert_eq!(change.options[2].current_value, "high");
    let mut content = SettingsContent { agent_servers: None };
    change.update.apply(&mut content);
    let settings = in_effect(content);
    options
        .set_config_option(&mut connection, "mode".to_string(), "fast".to_string(), &settings)
        .ok()
        .unwrap();
    assert_eq!(values(&connection), vec!["fast", "gpt-5.5", "low"]);
    options
        .set_config_option(&mut connection, "mode".to_string(), "standard".to_string(), &settings)
        .ok()
        .unwrap();
    assert_eq!(values(&connection), vec!["standard", "gpt-5.5", "high"]);
    options
        .set_config_option(
            &mut connection,
            "model".to_string(),
            "gpt-5.1-codex".to_string(),
            &settings,
        )
        .ok()
        .unwrap();
    assert_eq!(values(&connection), vec!["standard", "gpt-5.1-codex", "high"]);
}

#[test]
fn wrong_options_are_refused() {
    let mut connection = begun();
    let options = connection.session_config_options("s").unwrap();
    for (config_id, value, expected) in [
        ("model", "gpt-4", "Invalid Codex model: gpt-4"),
        ("mode", "turbo", "Invalid Codex mode: turbo"),
        ("reasoning_effort", "none", "Invalid Codex reasoning effort: none"),
        ("theme", "dark", "Invalid Codex config option: theme"),
    ] {
        let error = options
            .set_config_option(
                &mut connection,
                config_id.to_string(),
                value.to_string(),
                &no_settings(),
            )
            .err()
            .unwrap();
        assert_eq!(message(error), expected);
    }
    let session = connection.sessions.get("s").unwrap();
    assert_eq!(session.selected_model, "gpt-5.5");
    assert_eq!(session.mode_id, "standard");
    assert_eq!(session.reasoning_effort, "medium");
}

#[test]
fn options_of_a_session_that_is_gone_are_the_defaults() {
    let mut connection = begun();
    let options = connection.session_config_options("s").unwrap();
    let selector = connection.model_selector("s").unwrap();
    let modes = connection.session_modes("s").unwrap();
    connection.sessions.remove("s");
    let shown = options.config_options(&connection);
    assert_eq!(shown[0].current_value, "standard");
    assert_eq!(shown[1].current_value, "gpt-5.5");
    assert_eq!(shown[2].current_value, "medium");
    assert_eq!(selector.selected_model(&connection).ok().unwrap().id, "gpt-5.5");
    assert_eq!(modes.current_mode(&connection), "standard");
    assert!(modes.set_mode(&mut connection, "fast".to_string(), &no_settings()).is_ok());
    assert_eq!(connection.sessions.len(), 0);
}

#[test]
fn threads_are_seeded_from_a_conversation() {
    let history = vec![
        CodexHistoryMessage {
            user_message_id: None,
            role: CodexHistoryRole::User,
            text: "q".to_string(),
        },
        CodexHistoryMessage {
            user_message_id: Some(id("ignored")),
            role: CodexHistoryRole::Assistant,
            text: "a".to_string(),
        },
    ];
    let seeds = seed_thread_from_history(&history);
    assert!(matches!(&seeds[0], ThreadSeed::User { message_id: None, text } if text == "q"));
    assert!(matches!(&seeds[1], ThreadSeed::Assistant { text } if text == "a"));
}

#[test]
fn other_sessions_are_untouched() {
    let mut connection = begun();
    connection.create_thread("other".to_string(), vec![], None, &no_settings());
    connection.prompt("other", id("m"), text("Hi")).ok().unwrap();
    connection
        .session_modes("s")
        .unwrap()
        .set_mode(&mut connection, "fast".to_string(), &no_settings())
        .ok()
        .unwrap();
    connection.truncate("s").unwrap().run(&mut connection, &id("m"));
    let other = connection.sessions.get("other").unwrap();
    assert_eq!(other.mode_id, "standard");
    assert_eq!(other.history.len(), 1);
}
