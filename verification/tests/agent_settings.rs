use codex_terminal::agent_settings::{
    codex_agent_settings, contains_text, default_codex_settings, distinct_texts,
    persist_codex_config_option, persist_codex_mode, persist_codex_model, toggle_favorite,
    AgentServerSource, AllAgentServersSettings, CustomAgentServerSettings, SettingsContent,
};
use codex_terminal::codex_agent_server::CodexAgentServer;
use codex_terminal::codex_config::{
    all_session_modes, codex_default_mode, codex_default_model, codex_default_reasoning_effort,
    codex_mode_config_option, codex_model_config_option, codex_model_context_window, codex_models,
    codex_reasoning_config_option, find_codex_model, is_valid_mode, is_valid_reasoning_effort,
    IconName, SessionConfigOptionCategory,
};
use codex_terminal::text_map::TextMap;

fn empty_content() -> SettingsContent {
    SettingsContent { agent_servers: None }
}

fn in_effect(content: SettingsContent) -> AllAgentServersSettings {
    AllAgentServersSettings { servers: content.agent_servers.unwrap_or_else(TextMap::new) }
}

fn codex(content: &SettingsContent) -> &CustomAgentServerSettings {
    content.agent_servers.as_ref().unwrap().get("codex").unwrap()
}

#[test]
fn reasoning_efforts_and_modes_are_known() {
    for effort in ["low", "medium", "high"] {
        assert!(is_valid_reasoning_effort(effort));
    }
    for effort in ["", "Low", "none", "highest", "default"] {
        assert!(!is_valid_reasoning_effort(effort));
    }
    assert!(is_valid_mode("standard"));
    assert!(is_valid_mode("fast"));
    assert!(!is_valid_mode("Fast"));
    assert!(!is_valid_mode(""));
}

#[test]
fn default_settings_are_those_of_the_registry() {
    let settings = default_codex_settings();
    assert!(matches!(settings.source, AgentServerSource::Registry));
    assert_eq!(settings.default_mode, None);
    assert_eq!(settings.default_model, None);
    assert!(settings.favorite_models.is_empty());
    assert_eq!(settings.env.len(), 0);
    assert_eq!(settings.default_config_options.len(), 0);
    assert_eq!(settings.favorite_config_option_values.len(), 0);
}

#[test]
fn favorites_are_added_and_removed() {
    let mut list = vec!["a".to_string(), "b".to_string(), "a".to_string()];
    toggle_favorite(&mut list, "b".to_string(), true);
    assert_eq!(list, vec!["a", "b", "a"]);
    toggle_favorite(&mut list, "c".to_string(), true);
    assert_eq!(list, vec!["a", "b", "a", "c"]);
    toggle_favorite(&mut list, "a".to_string(), false);
    assert_eq!(list, vec!["b", "c"]);
    toggle_favorite(&mut list, "a".to_string(), false);
    assert_eq!(list, vec!["b", "c"]);
    assert!(contains_text(&list, "c"));
    assert!(!contains_text(&list, "a"));
}

#[test]
fn new_favorite_can_be_undone() {
    let mut list = vec!["a".to_string(), "b".to_string()];
    toggle_favorite(&mut list, "c".to_string(), true);
    toggle_favorite(&mut list, "c".to_string(), false);
    assert_eq!(list, vec!["a", "b"]);
}

#[test]
fn repeated_favorites_are_listed_once() {
    let list = vec!["a".to_string(), "b".to_string(), "a".to_string(), "c".to_string()];
    assert_eq!(distinct_texts(&list), vec!["a", "b", "c"]);
}

#[test]
fn settings_without_agents_get_the_codex_agent() {
    let mut content = empty_content();
    persist_codex_model(&mut content, Some("gpt-5-codex".to_string()));
    assert!(matches!(codex(&content).source, AgentServerSource::Registry));
    assert_eq!(codex(&content).default_model, Some("gpt-5-codex".to_string()));
    persist_codex_mode(&mut content, Some("fast".to_string()));
    assert_eq!(codex(&content).default_model, Some("gpt-5-codex".to_string()));
    assert_eq!(codex(&content).default_mode, Some("fast".to_string()));
    persist_codex_model(&mut content, None);
    assert_eq!(codex(&content).default_model, None);
}

#[test]
fn settings_of_other_agents_are_kept() {
    let mut servers = TextMap::new();
    let mut other = default_codex_settings();
    other.default_model = Some("mine".to_string());
    servers.insert("other".to_string(), other);
    let mut custom = default_codex_settings();
    custom.source = AgentServerSource::Custom {
        path: "/bin/codex".to_string(),
        args: vec!["acp".to_string()],
    };
    custom.default_mode = Some("fast".to_string());
    servers.insert("codex".to_string(), custom);
    let mut content = SettingsContent { agent_servers: Some(servers) };
    let server = CodexAgentServer::new();
    server.set_default_model(Some("gpt-5.5".to_string()), &mut content);
    let other = content.agent_servers.as_ref().unwrap().get("other").unwrap();
    assert_eq!(other.default_model, Some("mine".to_string()));
    assert!(matches!(
        &codex(&content).source,
        AgentServerSource::Custom { path, args } if path == "/bin/codex" && args.len() == 1
    ));
    assert_eq!(codex(&content).default_mode, Some("fast".to_string()));
    assert_eq!(codex(&content).default_model, Some("gpt-5.5".to_string()));
}

#[test]
fn default_options_are_written_and_forgotten() {
    let mut content = empty_content();
    persist_codex_config_option(
        &mut content,
        "reasoning_effort".to_string(),
        Some("high".to_string()),
    );
    assert_eq!(
        codex(&content).default_config_options.get("reasoning_effort"),
        Some(&"high".to_string())
    );
    persist_codex_config_option(&mut content, "reasoning_effort".to_string(), None);
    assert!(!codex(&content).default_config_options.contains_key("reasoning_effort"));
}

#[test]
fn server_reads_back_what_it_wrote() {
    let server = CodexAgentServer::new();
    assert_eq!(server.agent_id(), "codex");
    assert_eq!(server.logo(), IconName::AiOpenAi);
    let mut content = empty_content();
    server.set_default_mode(Some("fast".to_string()), &mut content);
    server.set_default_config_option("model", Some("gpt-5.1-codex"), &mut content);
    server.set_default_config_option("reasoning_effort", Some("high"), &mut content);
    let settings = in_effect(content);
    assert_eq!(server.default_mode(&settings), Some("fast".to_string()));
    assert_eq!(server.default_model(&settings), Some("gpt-5.1-codex".to_string()));
    assert_eq!(server.default_config_option("mode", &settings), Some("fast".to_string()));
    assert_eq!(
        server.default_config_option("model", &settings),
        Some("gpt-5.1-codex".to_string())
    );
    assert_eq!(
        server.default_config_option("reasoning_effort", &settings),
        Some("high".to_string())
    );
    assert_eq!(server.default_config_option("theme", &settings), None);
}

#[test]
fn server_ignores_options_that_it_does_not_have() {
    let server = CodexAgentServer::new();
    let mut content = empty_content();
    server.set_default_config_option("theme", Some("dark"), &mut content);
    assert!(content.agent_servers.is_none());
    server.set_default_config_option("reasoning_effort", Some("extreme"), &mut content);
    assert_eq!(
        codex(&content).default_config_options.get("reasoning_effort"),
        Some(&"extreme".to_string())
    );
    let settings = in_effect(content);
    assert_eq!(server.default_config_option("reasoning_effort", &settings), None);
}

#[test]
fn server_without_settings_has_no_defaults() {
    let server = CodexAgentServer::new();
    let settings = in_effect(empty_content());
    assert!(codex_agent_settings(&settings).is_none());
    assert_eq!(server.default_mode(&settings), None);
    assert_eq!(server.default_model(&settings), None);
    assert_eq!(server.default_config_option("model", &settings), None);
    assert!(server.favorite_model_ids(&settings).is_empty());
    assert!(server.favorite_config_option_value_ids("mode", &settings).is_empty());
}

#[test]
fn favorite_models_are_favorite_values_of_the_model_option() {
    let server = CodexAgentServer::new();
    let mut content = empty_content();
    server.toggle_favorite_model("gpt-5.5".to_string(), true, &mut content);
    server.toggle_favorite_config_option_value(
        "model".to_string(),
        "gpt-5-codex".to_string(),
        true,
        &mut content,
    );
    assert_eq!(codex(&content).favorite_models, vec!["gpt-5.5", "gpt-5-codex"]);
    assert_eq!(codex(&content).favorite_config_option_values.len(), 0);
    server.toggle_favorite_config_option_value(
        "model".to_string(),
        "gpt-5.5".to_string(),
        false,
        &mut content,
    );
    let settings = in_effect(content);
    assert_eq!(server.favorite_model_ids(&settings), vec!["gpt-5-codex"]);
    assert_eq!(
        server.favorite_config_option_value_ids("model", &settings),
        vec!["gpt-5-codex"]
    );
}

#[test]
fn favorite_values_of_an_option_are_dropped_with_the_last_one() {
    let server = CodexAgentServer::new();
    let mut content = empty_content();
    for value in ["low", "high", "low"] {
        server.toggle_favorite_config_option_value(
            "reasoning_effort".to_string(),
            value.to_string(),
            true,
            &mut content,
        );
    }
    let settings = in_effect(content);
    assert_eq!(
        server.favorite_config_option_value_ids("reasoning_effort", &settings),
        vec!["low", "high"]
    );
    let mut content = SettingsContent { agent_servers: Some(settings.servers) };
    for value in ["low", "high"] {
        server.toggle_favorite_config_option_value(
            "reasoning_effort".to_string(),
            value.to_string(),
            false,
            &mut content,
        );
    }
    assert!(!codex(&content).favorite_config_option_values.contains_key("reasoning_effort"));
    server.toggle_favorite_config_option_value(
        "mode".to_string(),
        "fast".to_string(),
        false,
        &mut content,
    );
    assert_eq!(codex(&content).favorite_config_option_values.len(), 0);
}

#[test]
fn models_are_listed() {
    let models = codex_models();
    let ids: Vec<&str> = models.iter().map(|model| model.id.as_str()).collect();
    assert_eq!(ids, vec!["gpt-5.5", "gpt-5.3-codex", "gpt-5.1-codex", "gpt-5-codex"]);
    assert_eq!(models[0].name, "GPT-5.5");
    assert_eq!(
        models[1].description.as_deref(),
        Some("Codex-optimized model for agentic coding tasks.")
    );
    assert_eq!(models.iter().filter(|model| model.is_latest).count(), 1);
    assert!(models[0].is_latest);
    assert!(models.iter().all(|model| model.icon == Some(IconName::AiOpenAi)));
    assert!(models.iter().all(|model| model.cost.is_none()));
    assert_eq!(find_codex_model("gpt-5.1-codex").unwrap().name, "GPT-5.1 Codex");
    assert!(find_codex_model("gpt-4").is_none());
    assert_eq!(codex_model_context_window("gpt-5.5"), 258_400);
}

#[test]
fn modes_are_listed() {
    let modes = all_session_modes();
    assert_eq!(modes.len(), 2);
    assert_eq!(modes[0].id, "standard");
    assert_eq!(modes[0].name, "Standard");
    assert_eq!(
        modes[1].description.as_deref(),
        Some("Use lower reasoning effort for quicker Codex turns.")
    );
}

#[test]
fn options_show_their_values() {
    let mode = codex_mode_config_option("fast".to_string());
    assert_eq!(mode.id, "mode");
    assert_eq!(mode.current_value, "fast");
    assert_eq!(mode.category, Some(SessionConfigOptionCategory::Mode));
    assert_eq!(mode.options.len(), 2);
    let model = codex_model_config_option("custom".to_string());
    assert_eq!(model.id, "model");
    assert_eq!(model.current_value, "custom");
    assert_eq!(model.options[3].value, "gpt-5-codex");
    assert_eq!(model.options[3].name, "GPT-5 Codex");
    assert_eq!(model.category, Some(SessionConfigOptionCategory::Model));
    let effort = codex_reasoning_config_option("low".to_string());
    assert_eq!(effort.name, "Reasoning");
    assert_eq!(effort.description.as_deref(), Some("Controls Codex reasoning effort."));
    assert_eq!(effort.options[2].value, "high");
    assert_eq!(effort.category, Some(SessionConfigOptionCategory::ThoughtLevel));
}

#[test]
fn defaults_of_new_sessions_follow_the_settings() {
    let settings = in_effect(empty_content());
    assert_eq!(codex_default_model(&settings), "gpt-5.5");
    assert_eq!(codex_default_mode(&settings), "standard");
    assert_eq!(codex_default_reasoning_effort("standard", &settings), "medium");
    assert_eq!(codex_default_reasoning_effort("fast", &settings), "low");
    let mut content = empty_content();
    persist_codex_model(&mut content, Some("anything".to_string()));
    persist_codex_mode(&mut content, Some("turbo".to_string()));
    persist_codex_config_option(
        &mut content,
        "reasoning_effort".to_string(),
        Some("high".to_string()),
    );
    let settings = in_effect(content);
    assert_eq!(codex_default_model(&settings), "anything");
    assert_eq!(codex_default_mode(&settings), "standard");
    assert_eq!(codex_default_reasoning_effort("standard", &settings), "high");
    assert_eq!(codex_default_reasoning_effort("fast", &settings), "low");
}
