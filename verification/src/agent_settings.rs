//! What the settings say of an agent server, and how they are changed.
use crate::text::{optional_text, same_text, texts};
use crate::text_map::TextMap;
use vstd::prelude::*;

verus! {

/// The name of the Codex agent in the settings.
pub const CODEX_AGENT_ID: &'static str = "codex";

/// The configuration option that selects the model.
pub const MODEL_CONFIG_ID: &'static str = "model";

/// The configuration option that selects the mode.
pub const MODE_CONFIG_ID: &'static str = "mode";

/// The configuration option that selects the reasoning effort.
pub const REASONING_EFFORT_CONFIG_ID: &'static str = "reasoning_effort";

/// Where an agent server comes from.
pub enum AgentServerSource {
    /// A program of the user's.
    Custom { path: String, args: Vec<String> },
    /// The registry of agents.
    Registry,
}

/// The settings of one agent server.
pub struct CustomAgentServerSettings {
    pub source: AgentServerSource,
    pub env: TextMap<String>,
    pub default_mode: Option<String>,
    pub default_model: Option<String>,
    pub favorite_models: Vec<String>,
    pub default_config_options: TextMap<String>,
    pub favorite_config_option_values: TextMap<Vec<String>>,
}

/// The part of the settings file that names agent servers.
pub struct SettingsContent {
    pub agent_servers: Option<TextMap<CustomAgentServerSettings>>,
}

/// The settings of all agent servers that are in effect.
pub struct AllAgentServersSettings {
    pub servers: TextMap<CustomAgentServerSettings>,
}

/// The settings of one agent server as a mathematical value.
pub struct AgentSettings {
    pub source: AgentServerSource,
    pub env: Map<Seq<char>, Seq<char>>,
    pub default_mode: Option<Seq<char>>,
    pub default_model: Option<Seq<char>>,
    pub favorite_models: Seq<Seq<char>>,
    pub default_config_options: Map<Seq<char>, Seq<char>>,
    pub favorite_config_option_values: Map<Seq<char>, Seq<Seq<char>>>,
}

/// The characters of the texts of a map.
pub open spec fn text_values(map: Map<Seq<char>, String>) -> Map<Seq<char>, Seq<char>> {
    map.map_values(|text: String| text@)
}

/// The characters of the lists of texts of a map.
pub open spec fn list_values(map: Map<Seq<char>, Vec<String>>) -> Map<Seq<char>, Seq<Seq<char>>> {
    map.map_values(|list: Vec<String>| texts(list@))
}

impl View for CustomAgentServerSettings {
    type V = AgentSettings;

    open spec fn view(&self) -> AgentSettings {
        AgentSettings {
            source: self.source,
            env: text_values(self.env@),
            default_mode: optional_text(self.default_mode),
            default_model: optional_text(self.default_model),
            favorite_models: texts(self.favorite_models@),
            default_config_options: text_values(self.default_config_options@),
            favorite_config_option_values: list_values(self.favorite_config_option_values@),
        }
    }
}

/// The settings of the agent servers of a map.
pub open spec fn settings_values(map: Map<Seq<char>, CustomAgentServerSettings>) -> Map<
    Seq<char>,
    AgentSettings,
> {
    map.map_values(|settings: CustomAgentServerSettings| settings@)
}

impl View for SettingsContent {
    type V = Option<Map<Seq<char>, AgentSettings>>;

    open spec fn view(&self) -> Option<Map<Seq<char>, AgentSettings>> {
        match self.agent_servers {
            Some(servers) => Some(settings_values(servers@)),
            None => None,
        }
    }
}

impl View for AllAgentServersSettings {
    type V = Map<Seq<char>, AgentSettings>;

    open spec fn view(&self) -> Map<Seq<char>, AgentSettings> {
        settings_values(self.servers@)
    }
}

/// The settings of the Codex agent.
pub open spec fn codex_settings(servers: Map<Seq<char>, AgentSettings>) -> Option<AgentSettings> {
    if servers.contains_key(CODEX_AGENT_ID@) {
        Some(servers[CODEX_AGENT_ID@])
    } else {
        None
    }
}

/// The settings of the Codex agent.
pub fn codex_agent_settings(settings: &AllAgentServersSettings) -> (codex: Option<
    &CustomAgentServerSettings,
>)
    ensures
        match codex {
            Some(codex) => codex_settings(settings@) == Some(codex@),
            None => codex_settings(settings@) is None,
        },
{
    settings.servers.get(CODEX_AGENT_ID)
}

/// The settings that the Codex agent has before any are made.
pub open spec fn default_settings() -> AgentSettings {
    AgentSettings {
        source: AgentServerSource::Registry,
        env: Map::empty(),
        default_mode: None,
        default_model: None,
        favorite_models: Seq::empty(),
        default_config_options: Map::empty(),
        favorite_config_option_values: Map::empty(),
    }
}

/// The agent servers that the settings name.
pub open spec fn servers(content: Option<Map<Seq<char>, AgentSettings>>) -> Map<
    Seq<char>,
    AgentSettings,
> {
    match content {
        Some(servers) => servers,
        None => Map::empty(),
    }
}

/// The settings of the Codex agent, or the default ones where there are none.
pub open spec fn codex_or_default(content: Option<Map<Seq<char>, AgentSettings>>) -> AgentSettings {
    if servers(content).contains_key(CODEX_AGENT_ID@) {
        servers(content)[CODEX_AGENT_ID@]
    } else {
        default_settings()
    }
}

/// The settings with those of the Codex agent replaced.
pub open spec fn with_codex(
    content: Option<Map<Seq<char>, AgentSettings>>,
    settings: AgentSettings,
) -> Option<Map<Seq<char>, AgentSettings>> {
    Some(servers(content).insert(CODEX_AGENT_ID@, settings))
}

/// The settings that the Codex agent has before any are made.
pub fn default_codex_settings() -> (settings: CustomAgentServerSettings)
    ensures
        settings@ == default_settings(),
{
    let settings = CustomAgentServerSettings {
        source: AgentServerSource::Registry,
        env: TextMap::new(),
        default_mode: None,
        default_model: None,
        favorite_models: Vec::new(),
        default_config_options: TextMap::new(),
        favorite_config_option_values: TextMap::new(),
    };
    proof {
        assert(settings@.env =~= Map::empty());
        assert(settings@.favorite_models =~= Seq::empty());
        assert(settings@.default_config_options =~= Map::empty());
        assert(settings@.favorite_config_option_values =~= Map::empty());
    }
    settings
}

fn codex_entry(content: &mut SettingsContent) -> (entry: &mut CustomAgentServerSettings)
    ensures
        entry@ == codex_or_default(old(content)@),
        final(content)@ == with_codex(old(content)@, final(entry)@),
{
    let ghost before = servers(content@);
    if content.agent_servers.is_none() {
        content.agent_servers = Some(TextMap::new());
        assert(servers(content@) =~= before);
    }
    let listed = content.agent_servers.as_mut().unwrap();
    if !listed.contains_key(CODEX_AGENT_ID) {
        listed.insert(CODEX_AGENT_ID.to_owned(), default_codex_settings());
    }
    listed.get_mut(CODEX_AGENT_ID).unwrap()
}

/// A list of texts without those that equal `value`.
pub open spec fn without(list: Seq<Seq<char>>, value: Seq<char>) -> Seq<Seq<char>>
    decreases list.len(),
{
    if list.len() == 0 {
        list
    } else if list.last() == value {
        without(list.drop_last(), value)
    } else {
        without(list.drop_last(), value).push(list.last())
    }
}

/// A list of favorites in which `value` is, or is no longer, a favorite.
pub open spec fn toggled(list: Seq<Seq<char>>, value: Seq<char>, should_be_favorite: bool) -> Seq<
    Seq<char>,
> {
    if !should_be_favorite {
        without(list, value)
    } else if list.contains(value) {
        list
    } else {
        list.push(value)
    }
}

/// The list of a key, or the empty list.
pub open spec fn list_or_empty(lists: Map<Seq<char>, Seq<Seq<char>>>, key: Seq<char>) -> Seq<
    Seq<char>,
> {
    if lists.contains_key(key) {
        lists[key]
    } else {
        Seq::empty()
    }
}

/// Lists of favorites in which `value` is, or is no longer, a favorite of `key`. A list from which
/// the last favorite was taken is dropped.
pub open spec fn toggled_under(
    lists: Map<Seq<char>, Seq<Seq<char>>>,
    key: Seq<char>,
    value: Seq<char>,
    should_be_favorite: bool,
) -> Map<Seq<char>, Seq<Seq<char>>> {
    let list = toggled(list_or_empty(lists, key), value, should_be_favorite);
    if !should_be_favorite && list.len() == 0 {
        lists.remove(key)
    } else {
        lists.insert(key, list)
    }
}

/// `listed` names the texts of `list`, each once.
pub open spec fn lists_once(listed: Seq<Seq<char>>, list: Seq<Seq<char>>) -> bool {
    &&& listed.no_duplicates()
    &&& forall|text: Seq<char>| #[trigger] listed.contains(text) <==> list.contains(text)
}

/// Whether a list holds a text.
pub fn contains_text(list: &Vec<String>, text: &str) -> (yes: bool)
    ensures
        yes == texts(list@).contains(text@),
{
    let mut i: usize = 0;
    while i < list.len()
        invariant
            i <= list@.len(),
            forall|j: int| 0 <= j < i ==> (#[trigger] list@[j])@ != text@,
        decreases list@.len() - i,
    {
        if same_text(list[i].as_str(), text) {
            assert(texts(list@)[i as int] == text@);
            return true;
        }
        i = i + 1;
    }
    assert forall|j: int| 0 <= j < texts(list@).len() implies texts(list@)[j] != text@ by {
        assert(list@[j]@ != text@);
    }
    false
}

/// The texts of a list, each once.
pub fn distinct_texts(list: &Vec<String>) -> (distinct: Vec<String>)
    ensures
        lists_once(texts(distinct@), texts(list@)),
{
    let mut distinct: Vec<String> = Vec::new();
    let ghost all = texts(list@);
    let mut i: usize = 0;
    while i < list.len()
        invariant
            i <= list@.len(),
            all == texts(list@),
            lists_once(texts(distinct@), all.take(i as int)),
        decreases list@.len() - i,
    {
        let ghost before = texts(distinct@);
        let ghost next = all.take(i + 1);
        assert(next =~= all.take(i as int).push(all[i as int]));
        let known = contains_text(&distinct, list[i].as_str());
        if !known {
            distinct.push(list[i].clone());
            assert(texts(distinct@) =~= before.push(all[i as int]));
        }
        proof {
            let after = texts(distinct@);
            assert forall|text: Seq<char>| #[trigger] after.contains(text) <==> next.contains(
                text,
            ) by {
                lemma_push_contains(all.take(i as int), all[i as int], text);
                lemma_push_contains(before, all[i as int], text);
                assert(before.contains(text) <==> all.take(i as int).contains(text));
            }
            if !known {
                lemma_push_no_duplicates(before, all[i as int]);
            }
        }
        i = i + 1;
    }
    assert(all.take(i as int) =~= all);
    distinct
}

pub(crate) proof fn lemma_push_contains(list: Seq<Seq<char>>, value: Seq<char>, text: Seq<char>)
    ensures
        list.push(value).contains(text) <==> list.contains(text) || text == value,
{
    let pushed = list.push(value);
    if list.contains(text) {
        let i = choose|i: int| 0 <= i < list.len() && list[i] == text;
        assert(pushed[i] == text);
    }
    if text == value {
        assert(pushed[list.len() as int] == text);
    }
    if pushed.contains(text) && text != value {
        let i = choose|i: int| 0 <= i < pushed.len() && pushed[i] == text;
        assert(list[i] == text);
    }
}

proof fn lemma_push_no_duplicates(list: Seq<Seq<char>>, value: Seq<char>)
    requires
        list.no_duplicates(),
        !list.contains(value),
    ensures
        list.push(value).no_duplicates(),
{
    let pushed = list.push(value);
    assert forall|i: int, j: int| 0 <= i < pushed.len() && 0 <= j < pushed.len() && i != j implies
        pushed[i] != pushed[j] by {
        if i < list.len() {
            assert(list.contains(list[i]));
        }
        if j < list.len() {
            assert(list.contains(list[j]));
        }
    }
}

/// Makes a text a favorite, or no longer one.
pub fn toggle_favorite(list: &mut Vec<String>, value: String, should_be_favorite: bool)
    ensures
        texts(final(list)@) == toggled(texts(old(list)@), value@, should_be_favorite),
{
    let ghost before = texts(list@);
    if should_be_favorite {
        if !contains_text(list, value.as_str()) {
            list.push(value);
            assert(texts(list@) =~= before.push(value@));
        }
    } else {
        let mut all: Vec<String> = Vec::new();
        std::mem::swap(list, &mut all);
        let ghost taken = all@;
        assert(texts(list@) =~= without(before.take(0), value@));
        for text in it: all
            invariant
                it.seq() == taken,
                before == texts(taken),
                texts(list@) == without(before.take(it.index() as int), value@),
        {
            let ghost i = it.index() as int;
            let ghost kept = texts(list@);
            assert(before.take(i + 1).drop_last() =~= before.take(i));
            assert(before.take(i + 1).last() == text@);
            if !same_text(text.as_str(), value.as_str()) {
                list.push(text);
                assert(texts(list@) =~= kept.push(text@));
            }
        }
        assert(before.take(before.len() as int) =~= before);
    }
}

/// Sets the model that new sessions of the Codex agent begin with.
pub fn persist_codex_model(content: &mut SettingsContent, model_id: Option<String>)
    ensures
        final(content)@ == with_codex(
            old(content)@,
            AgentSettings {
                default_model: optional_text(model_id),
                ..codex_or_default(old(content)@)
            },
        ),
{
    let entry = codex_entry(content);
    entry.default_model = model_id;
}

/// Sets the mode that new sessions of the Codex agent begin with.
pub fn persist_codex_mode(content: &mut SettingsContent, mode_id: Option<String>)
    ensures
        final(content)@ == with_codex(
            old(content)@,
            AgentSettings {
                default_mode: optional_text(mode_id),
                ..codex_or_default(old(content)@)
            },
        ),
{
    let entry = codex_entry(content);
    entry.default_mode = mode_id;
}

/// The default values of options with the value of one set, or taken out.
pub open spec fn with_option(
    options: Map<Seq<char>, Seq<char>>,
    config_id: Seq<char>,
    value_id: Option<Seq<char>>,
) -> Map<Seq<char>, Seq<char>> {
    match value_id {
        Some(value) => options.insert(config_id, value),
        None => options.remove(config_id),
    }
}

/// Sets the value that an option has in new sessions of the Codex agent, or forgets it.
pub fn persist_codex_config_option(
    content: &mut SettingsContent,
    config_id: String,
    value_id: Option<String>,
)
    ensures
        final(content)@ == with_codex(
            old(content)@,
            AgentSettings {
                default_config_options: with_option(
                    codex_or_default(old(content)@).default_config_options,
                    config_id@,
                    optional_text(value_id),
                ),
                ..codex_or_default(old(content)@)
            },
        ),
{
    let entry = codex_entry(content);
    let ghost before = entry.default_config_options@;
    match value_id {
        Some(value) => {
            entry.default_config_options.insert(config_id, value);
            assert(text_values(before.insert(config_id@, value)) =~= text_values(before).insert(
                config_id@,
                value@,
            ));
        },
        None => {
            entry.default_config_options.remove(config_id.as_str());
            assert(text_values(before.remove(config_id@)) =~= text_values(before).remove(
                config_id@,
            ));
        },
    }
}

/// Makes a model a favorite of the Codex agent, or no longer one.
pub fn toggle_codex_favorite_model(
    content: &mut SettingsContent,
    model_id: String,
    should_be_favorite: bool,
)
    ensures
        final(content)@ == with_codex(
            old(content)@,
            AgentSettings {
                favorite_models: toggled(
                    codex_or_default(old(content)@).favorite_models,
                    model_id@,
                    should_be_favorite,
                ),
                ..codex_or_default(old(content)@)
            },
        ),
{
    let entry = codex_entry(content);
    toggle_favorite(&mut entry.favorite_models, model_id, should_be_favorite);
}

/// Makes a value of an option a favorite of the Codex agent, or no longer one.
pub fn toggle_codex_favorite_option_value(
    content: &mut SettingsContent,
    config_id: String,
    value_id: String,
    should_be_favorite: bool,
)
    ensures
        final(content)@ == with_codex(
            old(content)@,
            AgentSettings {
                favorite_config_option_values: toggled_under(
                    codex_or_default(old(content)@).favorite_config_option_values,
                    config_id@,
                    value_id@,
                    should_be_favorite,
                ),
                ..codex_or_default(old(content)@)
            },
        ),
{
    let entry = codex_entry(content);
    let ghost before = entry.favorite_config_option_values@;
    let mut list = match entry.favorite_config_option_values.remove(config_id.as_str()) {
        Some(list) => list,
        None => Vec::new(),
    };
    assert(texts(list@) =~= list_or_empty(list_values(before), config_id@));
    toggle_favorite(&mut list, value_id, should_be_favorite);
    if should_be_favorite || list.len() > 0 {
        entry.favorite_config_option_values.insert(config_id, list);
        assert(list_values(before.remove(config_id@).insert(config_id@, list)) =~= list_values(
            before,
        ).insert(config_id@, texts(list@)));
    } else {
        assert(list_values(before.remove(config_id@)) =~= list_values(before).remove(config_id@));
    }
}

proof fn lemma_without(list: Seq<Seq<char>>, value: Seq<char>)
    ensures
        forall|text: Seq<char>| #[trigger]
            without(list, value).contains(text) <==> list.contains(text) && text != value,
        list.no_duplicates() ==> without(list, value).no_duplicates(),
        !list.contains(value) ==> without(list, value) == list,
    decreases list.len(),
{
    if list.len() > 0 {
        let rest = list.drop_last();
        let last = list.last();
        lemma_without(rest, value);
        assert(list =~= rest.push(last));
        assert forall|text: Seq<char>| #[trigger]
            without(list, value).contains(text) <==> list.contains(text) && text != value by {
            lemma_push_contains(rest, last, text);
            lemma_push_contains(without(rest, value), last, text);
            assert(without(rest, value).contains(text) <==> rest.contains(text) && text != value);
        }
        if list.no_duplicates() {
            assert forall|i: int| 0 <= i < rest.len() implies rest[i] != last by {
                assert(list[i] != list[list.len() - 1]);
            }
            assert(rest.no_duplicates()) by {
                assert forall|i: int, j: int|
                    0 <= i < rest.len() && 0 <= j < rest.len() && i != j implies rest[i]
                    != rest[j] by {
                    assert(list[i] != list[j]);
                }
            }
            if last != value {
                lemma_push_no_duplicates(without(rest, value), last);
            }
        }
        if !list.contains(value) {
            lemma_push_contains(rest, last, value);
            assert(without(list, value) =~= list);
        }
    }
}

/// A favorite is listed from when it is made one until it is no longer one, and no other text
/// becomes a favorite or stops being one by that.
pub proof fn law_favorite_is_listed(
    list: Seq<Seq<char>>,
    value: Seq<char>,
    should_be_favorite: bool,
)
    ensures
        toggled(list, value, should_be_favorite).contains(value) == should_be_favorite,
        forall|other: Seq<char>|
            other != value ==> (#[trigger] toggled(list, value, should_be_favorite).contains(other)
                <==> list.contains(other)),
{
    lemma_without(list, value);
    assert forall|other: Seq<char>| other != value implies (#[trigger] toggled(
        list,
        value,
        should_be_favorite,
    ).contains(other) <==> list.contains(other)) by {
        lemma_push_contains(list, value, other);
    }
    lemma_push_contains(list, value, value);
}

/// Nothing becomes a favorite twice.
pub proof fn law_favorites_stay_distinct(
    list: Seq<Seq<char>>,
    value: Seq<char>,
    should_be_favorite: bool,
)
    requires
        list.no_duplicates(),
    ensures
        toggled(list, value, should_be_favorite).no_duplicates(),
{
    lemma_without(list, value);
    if !list.contains(value) {
        lemma_push_no_duplicates(list, value);
    }
}

/// To make something a favorite, or no longer one, for a second time changes nothing.
pub proof fn law_toggling_again_changes_nothing(
    list: Seq<Seq<char>>,
    value: Seq<char>,
    should_be_favorite: bool,
)
    ensures
        toggled(toggled(list, value, should_be_favorite), value, should_be_favorite) == toggled(
            list,
            value,
            should_be_favorite,
        ),
{
    law_favorite_is_listed(list, value, should_be_favorite);
    lemma_without(toggled(list, value, should_be_favorite), value);
}

/// Something that was no favorite can be made one and no longer one, and the list is as before.
pub proof fn law_new_favorite_can_be_undone(list: Seq<Seq<char>>, value: Seq<char>)
    requires
        !list.contains(value),
    ensures
        toggled(toggled(list, value, true), value, false) == list,
{
    lemma_without(list, value);
    assert(list.push(value).drop_last() =~= list);
}

/// The favorites of an option can be undone in the same way, unless the list of the option is
/// there and empty. Such a list is dropped.
pub proof fn law_new_favorite_of_option_can_be_undone(
    lists: Map<Seq<char>, Seq<Seq<char>>>,
    key: Seq<char>,
    value: Seq<char>,
)
    requires
        !list_or_empty(lists, key).contains(value),
        lists.contains_key(key) ==> lists[key].len() > 0,
    ensures
        toggled_under(toggled_under(lists, key, value, true), key, value, false) == lists,
{
    law_new_favorite_can_be_undone(list_or_empty(lists, key), value);
    assert(toggled_under(toggled_under(lists, key, value, true), key, value, false) =~= lists);
}

/// No list of favorites that a favorite was taken from is left empty.
pub proof fn law_no_empty_favorites_are_kept(
    lists: Map<Seq<char>, Seq<Seq<char>>>,
    key: Seq<char>,
    value: Seq<char>,
    should_be_favorite: bool,
)
    requires
        forall|k: Seq<char>| #[trigger] lists.contains_key(k) ==> lists[k].len() > 0,
    ensures
        forall|k: Seq<char>| #[trigger]
            toggled_under(lists, key, value, should_be_favorite).contains_key(k) ==> toggled_under(
                lists,
                key,
                value,
                should_be_favorite,
            )[k].len() > 0,
{
    law_favorite_is_listed(list_or_empty(lists, key), value, should_be_favorite);
}

/// What is written into the settings of the Codex agent is read from them, and the settings of
/// every other agent are as before.
pub proof fn law_written_settings_are_read(
    content: Option<Map<Seq<char>, AgentSettings>>,
    settings: AgentSettings,
)
    ensures
        with_codex(content, settings) matches Some(written) && codex_settings(written) == Some(
            settings,
        ) && codex_or_default(Some(written)) == settings,
        forall|agent: Seq<char>|
            agent != CODEX_AGENT_ID@ ==> {
                &&& #[trigger] servers(with_codex(content, settings)).contains_key(agent)
                    <==> servers(content).contains_key(agent)
                &&& servers(content).contains_key(agent) ==> servers(
                    with_codex(content, settings),
                )[agent] == servers(content)[agent]
            },
{
}

pub(crate) proof fn lemma_option_names_differ()
    ensures
        MODEL_CONFIG_ID@ != MODE_CONFIG_ID@,
        MODEL_CONFIG_ID@ != REASONING_EFFORT_CONFIG_ID@,
        MODE_CONFIG_ID@ != REASONING_EFFORT_CONFIG_ID@,
{
    reveal_strlit("model");
    reveal_strlit("mode");
    reveal_strlit("reasoning_effort");
    assert("model"@.len() == 5);
    assert("mode"@.len() == 4);
    assert("reasoning_effort"@.len() == 16);
}

} // verus!
