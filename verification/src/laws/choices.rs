//! Laws of the models, modes and reasoning efforts.
use crate::agent_settings::AgentSettings;
use crate::codex_config::{
    configured_effort, initial_effort, initial_mode, initial_model, is_codex_mode, is_codex_model,
    is_reasoning_effort, mode_option, model_infos, model_option, reasoning_option, session_modes,
    AgentModelInfo, Choice, ConfigOption, IconName, ModelInfo, SessionConfigOption,
    SessionConfigOptionCategory, SessionConfigSelectOption, SessionMode,
};
use vstd::prelude::*;

verus! {

/// There are exactly four models, two modes and three reasoning efforts.
pub proof fn law_models_are_known_by_name(name: Seq<char>)
    ensures
        is_codex_model(name) <==> name == "gpt-5.5"@ || name == "gpt-5.3-codex"@ || name
            == "gpt-5.1-codex"@ || name == "gpt-5-codex"@,
        is_codex_mode(name) <==> name == "standard"@ || name == "fast"@,
        is_reasoning_effort(name) <==> name == "low"@ || name == "medium"@ || name == "high"@,
{
    assert(model_infos().len() == 4);
    assert(model_infos()[0].choice.id == "gpt-5.5"@);
    assert(model_infos()[1].choice.id == "gpt-5.3-codex"@);
    assert(model_infos()[2].choice.id == "gpt-5.1-codex"@);
    assert(model_infos()[3].choice.id == "gpt-5-codex"@);
}

/// A choice is made of three given texts.
pub open spec fn is_choice(choice: Choice, id: &str, name: &str, description: &str) -> bool {
    choice.id == id@ && choice.name == name@ && choice.description == description@
}

/// What is offered: each model, mode and reasoning effort with its name and what is said of it,
/// whatever the current value is, which every option shows in full.
pub proof fn law_options_offer_every_value(current_value: Seq<char>)
    ensures
        model_infos().len() == 4,
        is_choice(
            model_infos()[0].choice,
            "gpt-5.5",
            "GPT-5.5",
            "Default Codex model for coding and agentic work.",
        ),
        is_choice(
            model_infos()[1].choice,
            "gpt-5.3-codex",
            "GPT-5.3 Codex",
            "Codex-optimized model for agentic coding tasks.",
        ),
        is_choice(
            model_infos()[2].choice,
            "gpt-5.1-codex",
            "GPT-5.1 Codex",
            "Earlier Codex-optimized model.",
        ),
        is_choice(
            model_infos()[3].choice,
            "gpt-5-codex",
            "GPT-5 Codex",
            "Previous Codex-optimized model.",
        ),
        forall|i: int|
            0 <= i < 4 ==> (#[trigger] model_infos()[i]).icon == IconName::AiOpenAi
                && model_infos()[i].is_latest == (i == 0),
        session_modes().len() == 2,
        is_choice(
            session_modes()[0],
            "standard",
            "Standard",
            "Use Codex with its default reasoning effort.",
        ),
        is_choice(
            session_modes()[1],
            "fast",
            "Fast",
            "Use lower reasoning effort for quicker Codex turns.",
        ),
        mode_option(current_value).current_value == current_value,
        mode_option(current_value).category == SessionConfigOptionCategory::Mode,
        is_choice(
            mode_option(current_value).choice,
            "mode",
            "Mode",
            "Controls the Codex session mode.",
        ),
        mode_option(current_value).options.len() == 2,
        is_choice(
            mode_option(current_value).options[0],
            "standard",
            "Standard",
            "Use Codex with the selected reasoning effort.",
        ),
        is_choice(
            mode_option(current_value).options[1],
            "fast",
            "Fast",
            "Use low reasoning effort for quicker Codex turns.",
        ),
        model_option(current_value).current_value == current_value,
        model_option(current_value).category == SessionConfigOptionCategory::Model,
        is_choice(
            model_option(current_value).choice,
            "model",
            "Model",
            "Controls the Codex model.",
        ),
        model_option(current_value).options.len() == 4,
        forall|i: int|
            0 <= i < 4 ==> #[trigger] model_option(current_value).options[i]
                == model_infos()[i].choice,
        reasoning_option(current_value).current_value == current_value,
        reasoning_option(current_value).category == SessionConfigOptionCategory::ThoughtLevel,
        is_choice(
            reasoning_option(current_value).choice,
            "reasoning_effort",
            "Reasoning",
            "Controls Codex reasoning effort.",
        ),
        reasoning_option(current_value).options.len() == 3,
        is_choice(
            reasoning_option(current_value).options[0],
            "low",
            "Low",
            "Use less reasoning for quicker responses.",
        ),
        is_choice(
            reasoning_option(current_value).options[1],
            "medium",
            "Medium",
            "Use the default reasoning level.",
        ),
        is_choice(
            reasoning_option(current_value).options[2],
            "high",
            "High",
            "Use more reasoning for harder tasks.",
        ),
{
}

/// A new session begins with the model of the settings, whichever it is, with their mode and
/// reasoning effort where there are such, and else with the usual ones. The fast mode goes with low
/// effort.
pub proof fn law_new_sessions_follow_the_settings(settings: AgentSettings, mode_id: Seq<char>)
    ensures
        settings.default_model matches Some(model) ==> initial_model(Some(settings)) == model,
        settings.default_model is None ==> initial_model(Some(settings)) == "gpt-5.5"@,
        initial_model(None) == "gpt-5.5"@,
        settings.default_mode matches Some(mode) ==> initial_mode(Some(settings)) == if mode
            == "fast"@ {
            mode
        } else {
            "standard"@
        },
        settings.default_mode is None ==> initial_mode(Some(settings)) == "standard"@,
        initial_mode(None) == "standard"@,
        mode_id == "fast"@ ==> initial_effort(mode_id, Some(settings)) == "low"@ && initial_effort(
            mode_id,
            None,
        ) == "low"@,
        mode_id != "fast"@ ==> initial_effort(mode_id, None) == "medium"@,
        mode_id != "fast"@ ==> {
            let options = settings.default_config_options;
            let effort = options["reasoning_effort"@];
            initial_effort(mode_id, Some(settings)) == if options.contains_key("reasoning_effort"@)
                && (effort == "low"@ || effort == "high"@) {
                effort
            } else {
                "medium"@
            }
        },
{
}

/// A reasoning effort is configured if and only if the settings give one that there is.
pub proof fn law_only_real_efforts_are_configured(settings: AgentSettings, effort: Seq<char>)
    ensures
        configured_effort(settings) == Some(effort) <==> {
            &&& settings.default_config_options.contains_key("reasoning_effort"@)
            &&& settings.default_config_options["reasoning_effort"@] == effort
            &&& effort == "low"@ || effort == "medium"@ || effort == "high"@
        },
{
}

/// What is shown of a model, a mode, a value or an option is all that there is to show of it.
pub proof fn law_choices_are_shown_whole(
    model: AgentModelInfo,
    info: ModelInfo,
    mode: SessionMode,
    value: SessionConfigSelectOption,
    choice: Choice,
    option: SessionConfigOption,
    shown: ConfigOption,
)
    ensures
        model.shows(info) ==> {
            &&& model.id@ == info.choice.id
            &&& model.name@ == info.choice.name
            &&& model.description is Some
            &&& model.description->0@ == info.choice.description
            &&& model.icon == Some(info.icon)
            &&& model.is_latest == info.is_latest
            &&& model.cost is None
        },
        mode.shows(choice) ==> {
            &&& mode.id@ == choice.id
            &&& mode.name@ == choice.name
            &&& mode.description is Some
            &&& mode.description->0@ == choice.description
        },
        value.shows(choice) ==> {
            &&& value.value@ == choice.id
            &&& value.name@ == choice.name
            &&& value.description is Some
            &&& value.description->0@ == choice.description
        },
        option.shows(shown) ==> {
            &&& option.id@ == shown.choice.id
            &&& option.name@ == shown.choice.name
            &&& option.description is Some
            &&& option.description->0@ == shown.choice.description
            &&& option.category == Some(shown.category)
            &&& option.current_value@ == shown.current_value
            &&& option.options@.len() == shown.options.len()
            &&& forall|i: int|
                0 <= i < shown.options.len() ==> (#[trigger] option.options@[i]).value@
                    == shown.options[i].id && option.options@[i].name@ == shown.options[i].name
                    && option.options@[i].description is Some
                    && option.options@[i].description->0@ == shown.options[i].description
        },
{
    if option.shows(shown) {
        assert forall|i: int| 0 <= i < shown.options.len() implies (
        #[trigger] option.options@[i]).value@ == shown.options[i].id && option.options@[i].name@
            == shown.options[i].name && option.options@[i].description is Some
            && option.options@[i].description->0@ == shown.options[i].description by {
            assert(option.options@[i].shows(shown.options[i]));
        }
    }
}

} // verus!
