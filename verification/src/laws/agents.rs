//! Laws of the settings of agents.
use crate::agent_settings::{
    codex_or_default, codex_settings, default_settings, lemma_option_names_differ, list_or_empty,
    list_values, lists_once, servers, settings_values, text_values, toggled, toggled_under,
    with_codex, with_option, without, AgentServerSource, AgentSettings,
    AllAgentServersSettings, CustomAgentServerSettings, SettingsContent,
};
use crate::codex_agent_server::{
    favorites, has_option_default, option_default, with_favorite, with_option_default,
};
use crate::text::texts;
use vstd::prelude::*;

verus! {

/// The settings of the Codex agent are those under its name, and the usual ones where there are
/// none.
pub proof fn law_settings_are_found_by_name(
    servers_map: Map<Seq<char>, AgentSettings>,
    content: Option<Map<Seq<char>, AgentSettings>>,
    settings: AgentSettings,
)
    ensures
        servers_map.contains_key("codex"@) ==> codex_settings(servers_map) == Some(
            servers_map["codex"@],
        ),
        !servers_map.contains_key("codex"@) ==> codex_settings(servers_map) is None,
        content matches Some(named) ==> servers(content) == named && with_codex(content, settings)
            == Some(named.insert("codex"@, settings)),
        content is None ==> servers(content) == Map::<Seq<char>, AgentSettings>::empty()
            && with_codex(content, settings) == Some(
            Map::<Seq<char>, AgentSettings>::empty().insert("codex"@, settings),
        ),
        content matches Some(named) ==> codex_or_default(content) == if named.contains_key(
            "codex"@,
        ) {
            named["codex"@]
        } else {
            default_settings()
        },
        content is None ==> codex_or_default(content) == default_settings(),
        default_settings() == (AgentSettings {
            source: AgentServerSource::Registry,
            env: Map::empty(),
            default_mode: None,
            default_model: None,
            favorite_models: seq![],
            default_config_options: Map::empty(),
            favorite_config_option_values: Map::empty(),
        }),
{
    assert(default_settings().favorite_models =~= seq![]);
}

/// A new favorite comes last, and those before it stay in their order.
pub proof fn law_new_favorites_come_last(list: Seq<Seq<char>>, value: Seq<char>)
    ensures
        list.contains(value) ==> toggled(list, value, true) == list,
        !list.contains(value) ==> {
            &&& toggled(list, value, true).len() == list.len() + 1
            &&& toggled(list, value, true).last() == value
            &&& toggled(list, value, true).drop_last() == list
        },
{
    if !list.contains(value) {
        assert(toggled(list, value, true).drop_last() =~= list);
    }
}

/// When a favorite is taken out, every other stays in its place among the others.
pub proof fn law_other_favorites_keep_their_order(
    favorite: Seq<char>,
    earlier: Seq<Seq<char>>,
    later: Seq<Seq<char>>,
    value: Seq<char>,
)
    ensures
        favorite == value ==> toggled(seq![favorite], value, false).len() == 0,
        favorite != value ==> toggled(seq![favorite], value, false) == seq![favorite],
        toggled(earlier + later, value, false) == toggled(earlier, value, false) + toggled(
            later,
            value,
            false,
        ),
    decreases later.len(),
{
    let single = seq![favorite];
    assert(single.drop_last() =~= seq![]);
    assert(without(single.drop_last(), value) =~= seq![]);
    assert(favorite != value ==> without(single, value) =~= seq![favorite]);
    if later.len() == 0 {
        assert(earlier + later =~= earlier);
        assert(without(earlier, value) + without(later, value) =~= without(earlier, value));
    } else {
        law_other_favorites_keep_their_order(favorite, earlier, later.drop_last(), value);
        assert((earlier + later).drop_last() =~= earlier + later.drop_last());
        assert((earlier + later).last() == later.last());
        assert(without(earlier + later, value) =~= without(earlier, value) + without(later, value));
    }
}

/// The favorites of an option change as a list of favorites does, and those of other options do
/// not change. A list from which the last favorite was taken is gone.
pub proof fn law_favorites_of_options_change_alone(
    lists: Map<Seq<char>, Seq<Seq<char>>>,
    key: Seq<char>,
    value: Seq<char>,
    should_be_favorite: bool,
)
    ensures
        ({
            let after = toggled_under(lists, key, value, should_be_favorite);
            let list = if lists.contains_key(key) {
                lists[key]
            } else {
                seq![]
            };
            &&& list_or_empty(lists, key) == list
            &&& list_or_empty(after, key) == toggled(list, value, should_be_favorite)
            &&& after.contains_key(key) <==> should_be_favorite || toggled(
                list,
                value,
                should_be_favorite,
            ).len() > 0
            &&& after.remove(key) == lists.remove(key)
        }),
{
    let after = toggled_under(lists, key, value, should_be_favorite);
    assert(after.remove(key) =~= lists.remove(key));
    assert(list_or_empty(lists, key) =~= if lists.contains_key(key) {
        lists[key]
    } else {
        seq![]
    });
    assert(list_or_empty(after, key) =~= toggled(
        list_or_empty(lists, key),
        value,
        should_be_favorite,
    ));
}

/// A value of an option is kept in full under the name of the option until it is forgotten, and
/// the values of other options are untouched.
pub proof fn law_option_values_are_kept(
    options: Map<Seq<char>, Seq<char>>,
    config_id: Seq<char>,
    value: Seq<char>,
)
    ensures
        with_option(options, config_id, Some(value)) == options.insert(config_id, value),
        with_option(options, config_id, None) == options.remove(config_id),
{
}

/// What the settings say of an option: the model and the mode whatever they are, the reasoning
/// effort where there is such, and nothing of any other option.
pub proof fn law_defaults_are_read(settings: AgentSettings, config_id: Seq<char>)
    ensures
        option_default(None, config_id) is None,
        option_default(Some(settings), "model"@) == settings.default_model,
        option_default(Some(settings), "mode"@) == settings.default_mode,
        option_default(Some(settings), "reasoning_effort"@) == {
            let options = settings.default_config_options;
            let effort = options["reasoning_effort"@];
            if options.contains_key("reasoning_effort"@) && (effort == "low"@ || effort
                == "medium"@ || effort == "high"@) {
                Some(effort)
            } else {
                None
            }
        },
        config_id != "model"@ && config_id != "mode"@ && config_id != "reasoning_effort"@
            ==> option_default(Some(settings), config_id) is None && !has_option_default(config_id),
        has_option_default("model"@),
        has_option_default("mode"@),
        has_option_default("reasoning_effort"@),
{
    lemma_option_names_differ();
}

/// To set a default changes that default and nothing else of the settings.
pub proof fn law_setting_a_default_changes_nothing_else(
    settings: AgentSettings,
    config_id: Seq<char>,
    value: Option<Seq<char>>,
)
    ensures
        config_id == "model"@ ==> with_option_default(settings, config_id, value) == (
        AgentSettings { default_model: value, ..settings }),
        config_id == "mode"@ ==> with_option_default(settings, config_id, value) == (
        AgentSettings { default_mode: value, ..settings }),
        config_id == "reasoning_effort"@ ==> with_option_default(settings, config_id, value) == (
        AgentSettings {
            default_config_options: match value {
                Some(effort) => settings.default_config_options.insert(config_id, effort),
                None => settings.default_config_options.remove(config_id),
            },
            ..settings
        }),
        !has_option_default(config_id) ==> with_option_default(settings, config_id, value)
            == settings,
{
    lemma_option_names_differ();
}

/// The favorites of an option are those of the settings, all of them, and to change one changes
/// nothing of the settings but the favorites of that option.
pub proof fn law_changing_a_favorite_changes_nothing_else(
    settings: AgentSettings,
    config_id: Seq<char>,
    value: Seq<char>,
    should_be_favorite: bool,
)
    ensures
        favorites(None, config_id).len() == 0,
        favorites(Some(settings), "model"@) == settings.favorite_models,
        config_id != "model"@ ==> {
            let lists = settings.favorite_config_option_values;
            &&& lists.contains_key(config_id) ==> favorites(Some(settings), config_id)
                == lists[config_id]
            &&& !lists.contains_key(config_id) ==> favorites(Some(settings), config_id).len() == 0
        },
        ({
            let after = with_favorite(settings, config_id, value, should_be_favorite);
            &&& config_id == "model"@ ==> after == (AgentSettings {
                favorite_models: toggled(settings.favorite_models, value, should_be_favorite),
                ..settings
            })
            &&& config_id != "model"@ ==> after == (AgentSettings {
                favorite_config_option_values: toggled_under(
                    settings.favorite_config_option_values,
                    config_id,
                    value,
                    should_be_favorite,
                ),
                ..settings
            })
        }),
{
}

/// A list that names texts once names every one of them, once, and nothing else.
pub proof fn law_listed_once_is_complete(listed: Seq<Seq<char>>, list: Seq<Seq<char>>, i: int)
    requires
        lists_once(listed, list),
    ensures
        0 <= i < list.len() ==> listed.contains(list[i]),
        0 <= i < listed.len() ==> list.contains(listed[i]),
        forall|j: int, k: int| 0 <= j < k < listed.len() ==> listed[j] != listed[k],
{
    if 0 <= i < list.len() {
        assert(list.contains(list[i]));
    }
    if 0 <= i < listed.len() {
        assert(listed.contains(listed[i]));
    }
}

/// The mathematical value of the settings of an agent holds all that the settings do.
pub proof fn law_agent_settings_are_whole(
    settings: CustomAgentServerSettings,
    map: Map<Seq<char>, CustomAgentServerSettings>,
    texts_map: Map<Seq<char>, String>,
    lists_map: Map<Seq<char>, Vec<String>>,
    content: SettingsContent,
    all: AllAgentServersSettings,
)
    ensures
        content.agent_servers matches Some(named) ==> content@ == Some(settings_values(named@)),
        content.agent_servers is None ==> content@ is None,
        all@ == settings_values(all.servers@),
        settings@.source == settings.source,
        settings@.env == text_values(settings.env@),
        settings.default_mode matches Some(mode) ==> settings@.default_mode == Some(mode@),
        settings.default_mode is None ==> settings@.default_mode is None,
        settings.default_model matches Some(model) ==> settings@.default_model == Some(model@),
        settings.default_model is None ==> settings@.default_model is None,
        settings@.favorite_models == texts(settings.favorite_models@),
        settings@.default_config_options == text_values(settings.default_config_options@),
        settings@.favorite_config_option_values == list_values(
            settings.favorite_config_option_values@,
        ),
        settings_values(map).dom() == map.dom(),
        forall|id: Seq<char>| #[trigger]
            map.contains_key(id) ==> settings_values(map)[id] == map[id]@,
        text_values(texts_map).dom() == texts_map.dom(),
        forall|key: Seq<char>| #[trigger]
            texts_map.contains_key(key) ==> text_values(texts_map)[key] == texts_map[key]@,
        list_values(lists_map).dom() == lists_map.dom(),
        forall|key: Seq<char>| #[trigger]
            lists_map.contains_key(key) ==> list_values(lists_map)[key] == texts(
                lists_map[key]@,
            ),
{
    assert(settings_values(map).dom() =~= map.dom());
    assert(text_values(texts_map).dom() =~= texts_map.dom());
    assert(list_values(lists_map).dom() =~= lists_map.dom());
}

} // verus!
