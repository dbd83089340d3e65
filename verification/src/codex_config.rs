//! The models, modes and reasoning efforts that a Codex session can be given.
use crate::agent_settings::{
    codex_agent_settings, codex_settings, AgentSettings, AllAgentServersSettings, MODEL_CONFIG_ID,
    MODE_CONFIG_ID, REASONING_EFFORT_CONFIG_ID,
};
use crate::text::same_text;
use vstd::prelude::*;

verus! {

/// The mode in which the reasoning effort is the selected one.
pub const STANDARD_MODE_ID: &'static str = "standard";

/// The mode in which the reasoning effort is low.
pub const FAST_MODE_ID: &'static str = "fast";

/// The model of a session for which none was chosen.
pub const DEFAULT_CODEX_MODEL: &'static str = "gpt-5.5";

pub const LOW_REASONING_EFFORT: &'static str = "low";

pub const MEDIUM_REASONING_EFFORT: &'static str = "medium";

pub const HIGH_REASONING_EFFORT: &'static str = "high";

/// How many tokens a Codex model can take in.
pub const CODEX_CONTEXT_WINDOW: u64 = 258_400;

/// The icons that a model can be shown with.
#[derive(Clone, Copy, Debug, PartialEq, Eq, Structural)]
pub enum IconName {
    AiOpenAi,
}

/// What is shown of a model.
pub struct AgentModelInfo {
    pub id: String,
    pub name: String,
    pub description: Option<String>,
    pub icon: Option<IconName>,
    pub is_latest: bool,
    pub cost: Option<String>,
}

/// A mode that a session can be in.
pub struct SessionMode {
    pub id: String,
    pub name: String,
    pub description: Option<String>,
}

/// What a configuration option is about.
#[derive(Clone, Copy, Debug, PartialEq, Eq, Structural)]
pub enum SessionConfigOptionCategory {
    Mode,
    Model,
    ThoughtLevel,
}

/// One of the values that a configuration option can have.
pub struct SessionConfigSelectOption {
    pub value: String,
    pub name: String,
    pub description: Option<String>,
}

/// A configuration option, its value, and the values that it can have.
pub struct SessionConfigOption {
    pub id: String,
    pub name: String,
    pub current_value: String,
    pub options: Vec<SessionConfigSelectOption>,
    pub description: Option<String>,
    pub category: Option<SessionConfigOptionCategory>,
}

/// A name, what it stands for, and what is said of it.
pub struct Choice {
    pub id: Seq<char>,
    pub name: Seq<char>,
    pub description: Seq<char>,
}

/// What is shown of a model, as a mathematical value.
pub struct ModelInfo {
    pub choice: Choice,
    pub icon: IconName,
    pub is_latest: bool,
}

/// A configuration option as a mathematical value.
pub struct ConfigOption {
    pub choice: Choice,
    pub category: SessionConfigOptionCategory,
    pub current_value: Seq<char>,
    pub options: Seq<Choice>,
}

/// A name, what it stands for, and what is said of it.
pub open spec fn choice(id: &str, name: &str, description: &str) -> Choice {
    Choice { id: id@, name: name@, description: description@ }
}

impl AgentModelInfo {
    /// The model is shown as `info` says, and without a price.
    pub open spec fn shows(self, info: ModelInfo) -> bool {
        &&& self.id@ == info.choice.id
        &&& self.name@ == info.choice.name
        &&& self.description matches Some(text) && text@ == info.choice.description
        &&& self.icon == Some(info.icon)
        &&& self.is_latest == info.is_latest
        &&& self.cost is None
    }
}

impl SessionMode {
    /// The mode is shown as `choice` says.
    pub open spec fn shows(self, choice: Choice) -> bool {
        &&& self.id@ == choice.id
        &&& self.name@ == choice.name
        &&& self.description matches Some(text) && text@ == choice.description
    }
}

impl SessionConfigSelectOption {
    /// The value is shown as `choice` says.
    pub open spec fn shows(self, choice: Choice) -> bool {
        &&& self.value@ == choice.id
        &&& self.name@ == choice.name
        &&& self.description matches Some(text) && text@ == choice.description
    }
}

impl SessionConfigOption {
    /// The option, its value and the values that it can have are shown as `option` says.
    pub open spec fn shows(self, option: ConfigOption) -> bool {
        &&& self.id@ == option.choice.id
        &&& self.name@ == option.choice.name
        &&& self.description matches Some(text) && text@ == option.choice.description
        &&& self.category == Some(option.category)
        &&& self.current_value@ == option.current_value
        &&& self.options@.len() == option.options.len()
        &&& forall|i: int|
            0 <= i < option.options.len() ==> (#[trigger] self.options@[i]).shows(
                option.options[i],
            )
    }
}

/// The models of the Codex agent.
pub open spec fn model_infos() -> Seq<ModelInfo> {
    seq![
        ModelInfo {
            choice: choice(
                DEFAULT_CODEX_MODEL,
                "GPT-5.5",
                "Default Codex model for coding and agentic work.",
            ),
            icon: IconName::AiOpenAi,
            is_latest: true,
        },
        ModelInfo {
            choice: choice(
                "gpt-5.3-codex",
                "GPT-5.3 Codex",
                "Codex-optimized model for agentic coding tasks.",
            ),
            icon: IconName::AiOpenAi,
            is_latest: false,
        },
        ModelInfo {
            choice: choice("gpt-5.1-codex", "GPT-5.1 Codex", "Earlier Codex-optimized model."),
            icon: IconName::AiOpenAi,
            is_latest: false,
        },
        ModelInfo {
            choice: choice("gpt-5-codex", "GPT-5 Codex", "Previous Codex-optimized model."),
            icon: IconName::AiOpenAi,
            is_latest: false,
        },
    ]
}

/// Whether there is a model with a name.
pub open spec fn is_codex_model(id: Seq<char>) -> bool {
    exists|i: int| 0 <= i < model_infos().len() && (#[trigger] model_infos()[i]).choice.id == id
}

/// Whether there is a mode with a name.
pub open spec fn is_codex_mode(id: Seq<char>) -> bool {
    id == STANDARD_MODE_ID@ || id == FAST_MODE_ID@
}

/// Whether there is a reasoning effort with a name.
pub open spec fn is_reasoning_effort(value: Seq<char>) -> bool {
    value == LOW_REASONING_EFFORT@ || value == MEDIUM_REASONING_EFFORT@ || value
        == HIGH_REASONING_EFFORT@
}

/// The modes of a session.
pub open spec fn session_modes() -> Seq<Choice> {
    seq![
        choice(STANDARD_MODE_ID, "Standard", "Use Codex with its default reasoning effort."),
        choice(FAST_MODE_ID, "Fast", "Use lower reasoning effort for quicker Codex turns."),
    ]
}

/// The option that selects the mode.
pub open spec fn mode_option(current_value: Seq<char>) -> ConfigOption {
    ConfigOption {
        choice: choice(MODE_CONFIG_ID, "Mode", "Controls the Codex session mode."),
        category: SessionConfigOptionCategory::Mode,
        current_value,
        options: seq![
            choice(STANDARD_MODE_ID, "Standard", "Use Codex with the selected reasoning effort."),
            choice(FAST_MODE_ID, "Fast", "Use low reasoning effort for quicker Codex turns."),
        ],
    }
}

/// The option that selects the model.
pub open spec fn model_option(current_value: Seq<char>) -> ConfigOption {
    ConfigOption {
        choice: choice(MODEL_CONFIG_ID, "Model", "Controls the Codex model."),
        category: SessionConfigOptionCategory::Model,
        current_value,
        options: Seq::new(model_infos().len(), |i: int| model_infos()[i].choice),
    }
}

/// The option that selects the reasoning effort.
pub open spec fn reasoning_option(current_value: Seq<char>) -> ConfigOption {
    ConfigOption {
        choice: choice(
            REASONING_EFFORT_CONFIG_ID,
            "Reasoning",
            "Controls Codex reasoning effort.",
        ),
        category: SessionConfigOptionCategory::ThoughtLevel,
        current_value,
        options: seq![
            choice(LOW_REASONING_EFFORT, "Low", "Use less reasoning for quicker responses."),
            choice(MEDIUM_REASONING_EFFORT, "Medium", "Use the default reasoning level."),
            choice(HIGH_REASONING_EFFORT, "High", "Use more reasoning for harder tasks."),
        ],
    }
}

/// The model that a new session begins with.
pub open spec fn initial_model(settings: Option<AgentSettings>) -> Seq<char> {
    match settings {
        Some(AgentSettings { default_model: Some(model), .. }) => model,
        _ => DEFAULT_CODEX_MODEL@,
    }
}

/// The mode that a new session begins with.
pub open spec fn initial_mode(settings: Option<AgentSettings>) -> Seq<char> {
    match settings {
        Some(AgentSettings { default_mode: Some(mode), .. }) => if is_codex_mode(mode) {
            mode
        } else {
            STANDARD_MODE_ID@
        },
        _ => STANDARD_MODE_ID@,
    }
}

/// The reasoning effort that the settings give, where it is one.
pub open spec fn configured_effort(settings: AgentSettings) -> Option<Seq<char>> {
    let options = settings.default_config_options;
    if options.contains_key(REASONING_EFFORT_CONFIG_ID@) && is_reasoning_effort(
        options[REASONING_EFFORT_CONFIG_ID@],
    ) {
        Some(options[REASONING_EFFORT_CONFIG_ID@])
    } else {
        None
    }
}

/// The reasoning effort of a session that gets a mode.
pub open spec fn initial_effort(mode_id: Seq<char>, settings: Option<AgentSettings>) -> Seq<char> {
    if mode_id == FAST_MODE_ID@ {
        LOW_REASONING_EFFORT@
    } else {
        match settings {
            Some(settings) => match configured_effort(settings) {
                Some(effort) => effort,
                None => MEDIUM_REASONING_EFFORT@,
            },
            None => MEDIUM_REASONING_EFFORT@,
        }
    }
}

/// Whether a text names a reasoning effort.
pub fn is_valid_reasoning_effort(value: &str) -> (valid: bool)
    ensures
        valid == is_reasoning_effort(value@),
{
    same_text(value, LOW_REASONING_EFFORT) || same_text(value, MEDIUM_REASONING_EFFORT)
        || same_text(value, HIGH_REASONING_EFFORT)
}

/// Whether a text names a mode.
pub fn is_valid_mode(mode_id: &str) -> (valid: bool)
    ensures
        valid == is_codex_mode(mode_id@),
{
    same_text(mode_id, STANDARD_MODE_ID) || same_text(mode_id, FAST_MODE_ID)
}

fn codex_model(id: &str, name: &str, description: &str, is_latest: bool) -> (model: AgentModelInfo)
    ensures
        model.shows(
            ModelInfo {
                choice: choice(id, name, description),
                icon: IconName::AiOpenAi,
                is_latest,
            },
        ),
{
    AgentModelInfo {
        id: id.to_owned(),
        name: name.to_owned(),
        description: Some(description.to_owned()),
        icon: Some(IconName::AiOpenAi),
        is_latest,
        cost: None,
    }
}

/// The models of the Codex agent.
pub fn codex_models() -> (models: Vec<AgentModelInfo>)
    ensures
        models@.len() == model_infos().len(),
        forall|i: int|
            0 <= i < model_infos().len() ==> (#[trigger] models@[i]).shows(model_infos()[i]),
{
    let mut models: Vec<AgentModelInfo> = Vec::new();
    models.push(
        codex_model(
            DEFAULT_CODEX_MODEL,
            "GPT-5.5",
            "Default Codex model for coding and agentic work.",
            true,
        ),
    );
    models.push(
        codex_model(
            "gpt-5.3-codex",
            "GPT-5.3 Codex",
            "Codex-optimized model for agentic coding tasks.",
            false,
        ),
    );
    models.push(
        codex_model("gpt-5.1-codex", "GPT-5.1 Codex", "Earlier Codex-optimized model.", false),
    );
    models.push(
        codex_model("gpt-5-codex", "GPT-5 Codex", "Previous Codex-optimized model.", false),
    );
    models
}

/// The model with a name.
pub fn find_codex_model(model_id: &str) -> (found: Option<AgentModelInfo>)
    ensures
        match found {
            Some(model) => exists|i: int|
                0 <= i < model_infos().len() && model.shows(#[trigger] model_infos()[i])
                    && model_infos()[i].choice.id == model_id@,
            None => !is_codex_model(model_id@),
        },
{
    let models = codex_models();
    let ghost listed = models@;
    for model in it: models
        invariant
            it.seq() == listed,
            listed.len() == model_infos().len(),
            forall|i: int|
                0 <= i < model_infos().len() ==> (#[trigger] listed[i]).shows(model_infos()[i]),
            forall|i: int|
                0 <= i < it.index() ==> (#[trigger] model_infos()[i]).choice.id != model_id@,
    {
        let ghost i = it.index() as int;
        assert(listed[i].shows(model_infos()[i]));
        if same_text(model.id.as_str(), model_id) {
            return Some(model);
        }
    }
    None
}

/// How many tokens a model can take in.
pub fn codex_model_context_window(_model_id: &str) -> (tokens: u64)
    ensures
        tokens == CODEX_CONTEXT_WINDOW,
{
    CODEX_CONTEXT_WINDOW
}

/// The model that a new session begins with.
pub fn codex_default_model(settings: &AllAgentServersSettings) -> (model_id: String)
    ensures
        model_id@ == initial_model(codex_settings(settings@)),
{
    match codex_agent_settings(settings) {
        Some(codex) => match &codex.default_model {
            Some(model_id) => model_id.clone(),
            None => DEFAULT_CODEX_MODEL.to_owned(),
        },
        None => DEFAULT_CODEX_MODEL.to_owned(),
    }
}

/// The mode that a new session begins with.
pub fn codex_default_mode(settings: &AllAgentServersSettings) -> (mode_id: String)
    ensures
        mode_id@ == initial_mode(codex_settings(settings@)),
{
    match codex_agent_settings(settings) {
        Some(codex) => match &codex.default_mode {
            Some(mode_id) => if is_valid_mode(mode_id.as_str()) {
                mode_id.clone()
            } else {
                STANDARD_MODE_ID.to_owned()
            },
            None => STANDARD_MODE_ID.to_owned(),
        },
        None => STANDARD_MODE_ID.to_owned(),
    }
}

/// The reasoning effort of a session that gets a mode.
pub fn codex_default_reasoning_effort(
    mode_id: &str,
    settings: &AllAgentServersSettings,
) -> (effort: String)
    ensures
        effort@ == initial_effort(mode_id@, codex_settings(settings@)),
{
    if same_text(mode_id, FAST_MODE_ID) {
        return LOW_REASONING_EFFORT.to_owned();
    }
    match codex_agent_settings(settings) {
        Some(codex) => match codex.default_config_options.get(REASONING_EFFORT_CONFIG_ID) {
            Some(effort) => if is_valid_reasoning_effort(effort.as_str()) {
                effort.clone()
            } else {
                MEDIUM_REASONING_EFFORT.to_owned()
            },
            None => MEDIUM_REASONING_EFFORT.to_owned(),
        },
        None => MEDIUM_REASONING_EFFORT.to_owned(),
    }
}

fn session_mode(id: &str, name: &str, description: &str) -> (mode: SessionMode)
    ensures
        mode.shows(choice(id, name, description)),
{
    SessionMode {
        id: id.to_owned(),
        name: name.to_owned(),
        description: Some(description.to_owned()),
    }
}

/// The modes of a session.
pub fn all_session_modes() -> (modes: Vec<SessionMode>)
    ensures
        modes@.len() == session_modes().len(),
        forall|i: int|
            0 <= i < session_modes().len() ==> (#[trigger] modes@[i]).shows(session_modes()[i]),
{
    let mut modes: Vec<SessionMode> = Vec::new();
    modes.push(
        session_mode(STANDARD_MODE_ID, "Standard", "Use Codex with its default reasoning effort."),
    );
    modes.push(
        session_mode(FAST_MODE_ID, "Fast", "Use lower reasoning effort for quicker Codex turns."),
    );
    modes
}

fn select_option(value: &str, name: &str, description: &str) -> (option: SessionConfigSelectOption)
    ensures
        option.shows(choice(value, name, description)),
{
    SessionConfigSelectOption {
        value: value.to_owned(),
        name: name.to_owned(),
        description: Some(description.to_owned()),
    }
}

/// The option that selects the mode.
pub fn codex_mode_config_option(current_value: String) -> (option: SessionConfigOption)
    ensures
        option.shows(mode_option(current_value@)),
{
    let mut options: Vec<SessionConfigSelectOption> = Vec::new();
    options.push(
        select_option(
            STANDARD_MODE_ID,
            "Standard",
            "Use Codex with the selected reasoning effort.",
        ),
    );
    options.push(
        select_option(FAST_MODE_ID, "Fast", "Use low reasoning effort for quicker Codex turns."),
    );
    SessionConfigOption {
        id: MODE_CONFIG_ID.to_owned(),
        name: "Mode".to_owned(),
        current_value,
        options,
        description: Some("Controls the Codex session mode.".to_owned()),
        category: Some(SessionConfigOptionCategory::Mode),
    }
}

/// The option that selects the model.
pub fn codex_model_config_option(current_value: String) -> (option: SessionConfigOption)
    ensures
        option.shows(model_option(current_value@)),
{
    let models = codex_models();
    let ghost listed = models@;
    let mut options: Vec<SessionConfigSelectOption> = Vec::new();
    for model in it: models
        invariant
            it.seq() == listed,
            listed.len() == model_infos().len(),
            forall|i: int|
                0 <= i < model_infos().len() ==> (#[trigger] listed[i]).shows(model_infos()[i]),
            options@.len() == it.index(),
            forall|i: int|
                0 <= i < options@.len() ==> (#[trigger] options@[i]).shows(
                    model_infos()[i].choice,
                ),
    {
        assert(listed[it.index() as int].shows(model_infos()[it.index() as int]));
        options.push(
            SessionConfigSelectOption {
                value: model.id,
                name: model.name,
                description: model.description,
            },
        );
    }
    SessionConfigOption {
        id: MODEL_CONFIG_ID.to_owned(),
        name: "Model".to_owned(),
        current_value,
        options,
        description: Some("Controls the Codex model.".to_owned()),
        category: Some(SessionConfigOptionCategory::Model),
    }
}

/// The option that selects the reasoning effort.
pub fn codex_reasoning_config_option(current_value: String) -> (option: SessionConfigOption)
    ensures
        option.shows(reasoning_option(current_value@)),
{
    let mut options: Vec<SessionConfigSelectOption> = Vec::new();
    options.push(
        select_option(LOW_REASONING_EFFORT, "Low", "Use less reasoning for quicker responses."),
    );
    options.push(
        select_option(MEDIUM_REASONING_EFFORT, "Medium", "Use the default reasoning level."),
    );
    options.push(
        select_option(HIGH_REASONING_EFFORT, "High", "Use more reasoning for harder tasks."),
    );
    SessionConfigOption {
        id: REASONING_EFFORT_CONFIG_ID.to_owned(),
        name: "Reasoning".to_owned(),
        current_value,
        options,
        description: Some("Controls Codex reasoning effort.".to_owned()),
        category: Some(SessionConfigOptionCategory::ThoughtLevel),
    }
}

/// The models have different names, exactly one of them is the latest, and that is the model of
/// sessions for which none was chosen.
pub proof fn law_models_are_distinct()
    ensures
        forall|i: int, j: int|
            #![trigger model_infos()[i], model_infos()[j]]
            0 <= i < j < model_infos().len() ==> model_infos()[i].choice.id
                != model_infos()[j].choice.id,
        forall|i: int|
            #![trigger model_infos()[i]]
            0 <= i < model_infos().len() ==> (model_infos()[i].is_latest
                <==> model_infos()[i].choice.id == DEFAULT_CODEX_MODEL@),
        is_codex_model(DEFAULT_CODEX_MODEL@),
{
    reveal_strlit("gpt-5.5");
    reveal_strlit("gpt-5.3-codex");
    reveal_strlit("gpt-5.1-codex");
    reveal_strlit("gpt-5-codex");
    assert("gpt-5.5"@.len() == 7);
    assert("gpt-5.3-codex"@.len() == 13 && "gpt-5.3-codex"@[6] == '3');
    assert("gpt-5.1-codex"@.len() == 13 && "gpt-5.1-codex"@[6] == '1');
    assert("gpt-5-codex"@.len() == 11);
    assert(model_infos()[0].choice.id == DEFAULT_CODEX_MODEL@);
}

/// Whatever the settings say, a new session begins in a mode that there is and with a reasoning
/// effort that there is. In the fast mode that is the low one.
pub proof fn law_new_sessions_are_valid(settings: Option<AgentSettings>, mode_id: Seq<char>)
    ensures
        is_codex_mode(initial_mode(settings)),
        is_reasoning_effort(initial_effort(mode_id, settings)),
        initial_effort(FAST_MODE_ID@, settings) == LOW_REASONING_EFFORT@,
{
}

} // verus!
