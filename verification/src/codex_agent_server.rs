//! The Codex agent server: what the settings say of it, and how the user changes that.
use crate::agent_settings::{
    codex_agent_settings, codex_or_default, codex_settings, distinct_texts, law_favorite_is_listed,
    lemma_option_names_differ, list_or_empty, lists_once, persist_codex_config_option,
    persist_codex_mode, persist_codex_model, toggle_codex_favorite_model,
    toggle_codex_favorite_option_value, toggled, toggled_under, with_codex, with_option,
    AgentSettings, AllAgentServersSettings, SettingsContent, CODEX_AGENT_ID, MODEL_CONFIG_ID,
    MODE_CONFIG_ID, REASONING_EFFORT_CONFIG_ID,
};
use crate::codex_config::{
    configured_effort, is_reasoning_effort, is_valid_reasoning_effort, IconName,
};
use crate::codex_session::{CodexConnection, Session};
use crate::text::{copied, optional_str, optional_text, owned, same_text, texts};
use vstd::prelude::*;

verus! {

/// The Codex agent server.
pub struct CodexAgentServer {}

/// What the settings say of an option of the Codex agent.
pub open spec fn option_default(settings: Option<AgentSettings>, config_id: Seq<char>) -> Option<
    Seq<char>,
> {
    match settings {
        Some(settings) => if config_id == MODEL_CONFIG_ID@ {
            settings.default_model
        } else if config_id == MODE_CONFIG_ID@ {
            settings.default_mode
        } else if config_id == REASONING_EFFORT_CONFIG_ID@ {
            configured_effort(settings)
        } else {
            None
        },
        None => None,
    }
}

/// The settings of the Codex agent in which an option has a default value, or has none any more.
/// Options other than the model, the mode and the reasoning effort have no default value.
pub open spec fn with_option_default(
    settings: AgentSettings,
    config_id: Seq<char>,
    value: Option<Seq<char>>,
) -> AgentSettings {
    if config_id == MODEL_CONFIG_ID@ {
        AgentSettings { default_model: value, ..settings }
    } else if config_id == MODE_CONFIG_ID@ {
        AgentSettings { default_mode: value, ..settings }
    } else if config_id == REASONING_EFFORT_CONFIG_ID@ {
        AgentSettings {
            default_config_options: with_option(settings.default_config_options, config_id, value),
            ..settings
        }
    } else {
        settings
    }
}

/// Whether an option of the Codex agent has a default value in the settings.
pub open spec fn has_option_default(config_id: Seq<char>) -> bool {
    config_id == MODEL_CONFIG_ID@ || config_id == MODE_CONFIG_ID@ || config_id
        == REASONING_EFFORT_CONFIG_ID@
}

/// The favorite values of an option.
pub open spec fn favorites(settings: Option<AgentSettings>, config_id: Seq<char>) -> Seq<Seq<char>> {
    match settings {
        Some(settings) => if config_id == MODEL_CONFIG_ID@ {
            settings.favorite_models
        } else {
            list_or_empty(settings.favorite_config_option_values, config_id)
        },
        None => Seq::empty(),
    }
}

/// The settings of the Codex agent in which a value of an option is, or is no longer, a favorite.
pub open spec fn with_favorite(
    settings: AgentSettings,
    config_id: Seq<char>,
    value: Seq<char>,
    should_be_favorite: bool,
) -> AgentSettings {
    if config_id == MODEL_CONFIG_ID@ {
        AgentSettings {
            favorite_models: toggled(settings.favorite_models, value, should_be_favorite),
            ..settings
        }
    } else {
        AgentSettings {
            favorite_config_option_values: toggled_under(
                settings.favorite_config_option_values,
                config_id,
                value,
                should_be_favorite,
            ),
            ..settings
        }
    }
}

impl CodexAgentServer {
    /// The agent server.
    pub fn new() -> (server: Self)
        ensures
            server == (CodexAgentServer {  }),
    {
        CodexAgentServer {  }
    }

    /// The name of the agent in the settings.
    pub fn agent_id(&self) -> (id: &'static str)
        ensures
            id@ == CODEX_AGENT_ID@,
    {
        CODEX_AGENT_ID
    }

    /// The icon of the agent.
    pub fn logo(&self) -> (icon: IconName)
        ensures
            icon == IconName::AiOpenAi,
    {
        IconName::AiOpenAi
    }

    /// A connection to the agent, without sessions.
    pub fn connect(&self) -> (connection: CodexConnection)
        ensures
            connection@ == Map::<Seq<char>, Session>::empty(),
    {
        CodexConnection::new()
    }

    /// The mode that new sessions begin with.
    pub fn default_mode(&self, settings: &AllAgentServersSettings) -> (mode_id: Option<String>)
        ensures
            optional_text(mode_id) == match codex_settings(settings@) {
                Some(codex) => codex.default_mode,
                None => None,
            },
    {
        match codex_agent_settings(settings) {
            Some(codex) => copied(&codex.default_mode),
            None => None,
        }
    }

    /// Sets the mode that new sessions begin with.
    pub fn set_default_mode(&self, mode_id: Option<String>, content: &mut SettingsContent)
        ensures
            final(content)@ == with_codex(
                old(content)@,
                AgentSettings {
                    default_mode: optional_text(mode_id),
                    ..codex_or_default(old(content)@)
                },
            ),
    {
        persist_codex_mode(content, mode_id);
    }

    /// The model that new sessions begin with.
    pub fn default_model(&self, settings: &AllAgentServersSettings) -> (model_id: Option<String>)
        ensures
            optional_text(model_id) == match codex_settings(settings@) {
                Some(codex) => codex.default_model,
                None => None,
            },
    {
        match codex_agent_settings(settings) {
            Some(codex) => copied(&codex.default_model),
            None => None,
        }
    }

    /// Sets the model that new sessions begin with.
    pub fn set_default_model(&self, model_id: Option<String>, content: &mut SettingsContent)
        ensures
            final(content)@ == with_codex(
                old(content)@,
                AgentSettings {
                    default_model: optional_text(model_id),
                    ..codex_or_default(old(content)@)
                },
            ),
    {
        persist_codex_model(content, model_id);
    }

    /// The favorite models, each once.
    pub fn favorite_model_ids(&self, settings: &AllAgentServersSettings) -> (ids: Vec<String>)
        ensures
            lists_once(texts(ids@), favorites(codex_settings(settings@), MODEL_CONFIG_ID@)),
    {
        match codex_agent_settings(settings) {
            Some(codex) => distinct_texts(&codex.favorite_models),
            None => {
                let ids: Vec<String> = Vec::new();
                assert(texts(ids@) =~= Seq::empty());
                ids
            },
        }
    }

    /// Makes a model a favorite, or no longer one.
    pub fn toggle_favorite_model(
        &self,
        model_id: String,
        should_be_favorite: bool,
        content: &mut SettingsContent,
    )
        ensures
            final(content)@ == with_codex(
                old(content)@,
                with_favorite(
                    codex_or_default(old(content)@),
                    MODEL_CONFIG_ID@,
                    model_id@,
                    should_be_favorite,
                ),
            ),
    {
        toggle_codex_favorite_model(content, model_id, should_be_favorite);
    }

    /// The value that an option has in new sessions.
    pub fn default_config_option(
        &self,
        config_id: &str,
        settings: &AllAgentServersSettings,
    ) -> (value: Option<String>)
        ensures
            optional_text(value) == option_default(codex_settings(settings@), config_id@),
    {
        match codex_agent_settings(settings) {
            Some(codex) => {
                if same_text(config_id, MODEL_CONFIG_ID) {
                    copied(&codex.default_model)
                } else if same_text(config_id, MODE_CONFIG_ID) {
                    copied(&codex.default_mode)
                } else if same_text(config_id, REASONING_EFFORT_CONFIG_ID) {
                    match codex.default_config_options.get(config_id) {
                        Some(value) => if is_valid_reasoning_effort(value.as_str()) {
                            Some(value.clone())
                        } else {
                            None
                        },
                        None => None,
                    }
                } else {
                    None
                }
            },
            None => None,
        }
    }

    /// Sets the value that an option has in new sessions, or forgets it. Nothing changes where
    /// the option has no default value in the settings.
    pub fn set_default_config_option(
        &self,
        config_id: &str,
        value_id: Option<&str>,
        content: &mut SettingsContent,
    )
        ensures
            !has_option_default(config_id@) ==> *final(content) == *old(content),
            has_option_default(config_id@) ==> final(content)@ == with_codex(
                old(content)@,
                with_option_default(
                    codex_or_default(old(content)@),
                    config_id@,
                    optional_str(value_id),
                ),
            ),
    {
        if same_text(config_id, MODEL_CONFIG_ID) {
            persist_codex_model(content, owned(value_id));
        } else if same_text(config_id, MODE_CONFIG_ID) {
            persist_codex_mode(content, owned(value_id));
        } else if same_text(config_id, REASONING_EFFORT_CONFIG_ID) {
            persist_codex_config_option(content, config_id.to_owned(), owned(value_id));
        }
    }

    /// The favorite values of an option, each once.
    pub fn favorite_config_option_value_ids(
        &self,
        config_id: &str,
        settings: &AllAgentServersSettings,
    ) -> (ids: Vec<String>)
        ensures
            lists_once(texts(ids@), favorites(codex_settings(settings@), config_id@)),
    {
        match codex_agent_settings(settings) {
            Some(codex) => {
                if same_text(config_id, MODEL_CONFIG_ID) {
                    return distinct_texts(&codex.favorite_models);
                }
                match codex.favorite_config_option_values.get(config_id) {
                    Some(values) => distinct_texts(values),
                    None => {
                        let ids: Vec<String> = Vec::new();
                        assert(texts(ids@) =~= Seq::empty());
                        ids
                    },
                }
            },
            None => {
                let ids: Vec<String> = Vec::new();
                assert(texts(ids@) =~= Seq::empty());
                ids
            },
        }
    }

    /// Makes a value of an option a favorite, or no longer one.
    pub fn toggle_favorite_config_option_value(
        &self,
        config_id: String,
        value_id: String,
        should_be_favorite: bool,
        content: &mut SettingsContent,
    )
        ensures
            final(content)@ == with_codex(
                old(content)@,
                with_favorite(
                    codex_or_default(old(content)@),
                    config_id@,
                    value_id@,
                    should_be_favorite,
                ),
            ),
    {
        if same_text(config_id.as_str(), MODEL_CONFIG_ID) {
            toggle_codex_favorite_model(content, value_id, should_be_favorite);
        } else {
            toggle_codex_favorite_option_value(content, config_id, value_id, should_be_favorite);
        }
    }
}

/// Settings in which an option was given a default value say that value of it, where the value
/// is one that the option can have, and say of other options what they said before.
pub proof fn law_default_is_read_back(
    settings: AgentSettings,
    config_id: Seq<char>,
    value: Option<Seq<char>>,
)
    requires
        has_option_default(config_id),
        config_id == REASONING_EFFORT_CONFIG_ID@ ==> match value {
            Some(effort) => is_reasoning_effort(effort),
            None => true,
        },
    ensures
        option_default(Some(with_option_default(settings, config_id, value)), config_id) == value,
        forall|other: Seq<char>|
            other != config_id ==> #[trigger] option_default(
                Some(with_option_default(settings, config_id, value)),
                other,
            ) == option_default(Some(settings), other),
{
    lemma_option_names_differ();
}

/// Settings in which a value of an option was made a favorite list it as one until it is no
/// longer one. The other favorites of the option, and the favorites of other options, are as
/// before.
pub proof fn law_favorite_value_is_read_back(
    settings: AgentSettings,
    config_id: Seq<char>,
    value: Seq<char>,
    should_be_favorite: bool,
)
    ensures
        favorites(
            Some(with_favorite(settings, config_id, value, should_be_favorite)),
            config_id,
        ).contains(value) == should_be_favorite,
        forall|other: Seq<char>|
            other != value ==> (#[trigger] favorites(
                Some(with_favorite(settings, config_id, value, should_be_favorite)),
                config_id,
            ).contains(other) <==> favorites(Some(settings), config_id).contains(other)),
        forall|other_id: Seq<char>|
            other_id != config_id ==> #[trigger] favorites(
                Some(with_favorite(settings, config_id, value, should_be_favorite)),
                other_id,
            ) == favorites(Some(settings), other_id),
{
    let list = favorites(Some(settings), config_id);
    law_favorite_is_listed(list, value, should_be_favorite);
    let after = favorites(
        Some(with_favorite(settings, config_id, value, should_be_favorite)),
        config_id,
    );
    assert(after =~= toggled(list, value, should_be_favorite));
}

} // verus!
