//! The sessions of the Codex agent: how they begin, what is asked in them, and what can be chosen
//! for them.
use crate::agent_settings::{
    codex_or_default, codex_settings, law_written_settings_are_read, lemma_option_names_differ,
    persist_codex_config_option, persist_codex_mode, persist_codex_model, servers, with_codex,
    with_option, AgentSettings, AllAgentServersSettings, SettingsContent, CODEX_AGENT_ID,
    MODEL_CONFIG_ID, MODE_CONFIG_ID, REASONING_EFFORT_CONFIG_ID,
};
use crate::aliases::{file_aliases, resolve_codex_session_id, resolved};
use crate::codex_config::{
    all_session_modes, codex_default_mode, codex_default_model, codex_default_reasoning_effort,
    codex_mode_config_option, codex_model_config_option, codex_models,
    codex_reasoning_config_option, find_codex_model, initial_effort, initial_mode, initial_model,
    is_codex_mode, is_codex_model, is_reasoning_effort, is_valid_mode, is_valid_reasoning_effort,
    law_new_sessions_are_valid, mode_option, model_infos, model_option, reasoning_option,
    session_modes, AgentModelInfo, SessionConfigOption, SessionMode, DEFAULT_CODEX_MODEL,
    FAST_MODE_ID, MEDIUM_REASONING_EFFORT, STANDARD_MODE_ID,
};
use crate::codex_events::Usage;
use crate::codex_run::{CodexRun, CodexRunOutput};
use crate::history::{
    entries, CodexHistoryMessage, CodexHistoryRole, HistoryEntry, UserMessageId,
};
use crate::identity::{is_random_id, random_id};
use crate::json::JsonError;
use crate::rollout::{conversation, parse_codex_rollout_history, parsed_lines};
use crate::text::{
    copied, copied_list, join, join_of, lines_of, optional_str, optional_text, same_text, texts,
};
use crate::text_map::TextMap;
use vstd::prelude::*;

verus! {

/// A session of the Codex agent.
pub struct CodexSession {
    /// The thread of the Codex program that the session goes on with.
    pub codex_thread_id: Option<String>,
    pub history: Vec<CodexHistoryMessage>,
    /// The directories of the session, in their order.
    pub work_dirs: Vec<String>,
    pub selected_model: String,
    pub mode_id: String,
    pub reasoning_effort: String,
}

/// The sessions of the Codex agent.
pub struct CodexConnection {
    pub sessions: TextMap<CodexSession>,
}

/// A part of a prompt.
pub enum ContentBlock {
    Text(String),
    /// The address of a resource.
    ResourceLink(String),
    /// A resource as it is written out.
    Resource(String),
    Image,
    Audio,
    Other,
}

/// Why something could not be done.
pub enum CodexSessionError {
    SessionNotFound,
    ModelNotFound,
    InvalidModel(String),
    InvalidMode(String),
    InvalidReasoningEffort(String),
    InvalidConfigOption(String),
}

/// A change to the settings of the Codex agent.
pub enum SettingsUpdate {
    DefaultModel(Option<String>),
    DefaultMode(Option<String>),
    DefaultConfigOption { config_id: String, value_id: Option<String> },
}

/// Why a turn ended.
#[derive(Clone, Copy, Debug, PartialEq, Eq, Structural)]
pub enum StopReason {
    EndTurn,
}

/// The answer to a prompt.
pub struct PromptResponse {
    pub stop_reason: StopReason,
    pub usage: Option<Usage>,
}

/// What a finished prompt leads to: its answer, and the Codex thread that is to be recorded for
/// the session.
pub struct FinishedPrompt {
    pub response: PromptResponse,
    pub new_alias: Option<String>,
}

/// Something that is put into a thread before it is shown.
pub enum ThreadSeed {
    User { message_id: Option<UserMessageId>, text: String },
    Assistant { text: String },
}

/// The options after one was set, and the change to the settings that goes with it.
pub struct ConfigChange {
    pub options: Vec<SessionConfigOption>,
    pub update: SettingsUpdate,
}

/// A message as a mathematical value.
pub struct Message {
    pub user_message_id: Option<Seq<char>>,
    pub role: CodexHistoryRole,
    pub text: Seq<char>,
}

/// Something that is put into a thread, as a mathematical value.
pub enum Seed {
    User { message_id: Option<Seq<char>>, text: Seq<char> },
    Assistant { text: Seq<char> },
}

/// A session as a mathematical value.
pub struct Session {
    pub codex_thread_id: Option<Seq<char>>,
    pub history: Seq<Message>,
    pub work_dirs: Seq<Seq<char>>,
    pub selected_model: Seq<char>,
    pub mode_id: Seq<char>,
    pub reasoning_effort: Seq<char>,
}

/// The characters of a name that may be missing.
pub open spec fn optional_id(id: Option<UserMessageId>) -> Option<Seq<char>> {
    match id {
        Some(id) => Some(id@),
        None => None,
    }
}

impl View for ThreadSeed {
    type V = Seed;

    open spec fn view(&self) -> Seed {
        match self {
            ThreadSeed::User { message_id, text } => Seed::User {
                message_id: optional_id(*message_id),
                text: text@,
            },
            ThreadSeed::Assistant { text } => Seed::Assistant { text: text@ },
        }
    }
}

/// What is put into a thread for a message.
pub open spec fn seed_of(message: Message) -> Seed {
    match message.role {
        CodexHistoryRole::User => Seed::User {
            message_id: message.user_message_id,
            text: message.text,
        },
        CodexHistoryRole::Assistant => Seed::Assistant { text: message.text },
    }
}

/// `seeds` is what is put into a thread for a conversation, in its order.
pub open spec fn seeds_thread(seeds: Seq<ThreadSeed>, history: Seq<Message>) -> bool {
    &&& seeds.len() == history.len()
    &&& forall|i: int| 0 <= i < history.len() ==> (#[trigger] seeds[i])@ == seed_of(history[i])
}

impl View for CodexHistoryMessage {
    type V = Message;

    open spec fn view(&self) -> Message {
        Message {
            user_message_id: optional_id(self.user_message_id),
            role: self.role,
            text: self.text@,
        }
    }
}

/// The messages of a list.
pub open spec fn messages(list: Seq<CodexHistoryMessage>) -> Seq<Message> {
    Seq::new(list.len(), |i: int| list[i]@)
}

impl View for CodexSession {
    type V = Session;

    open spec fn view(&self) -> Session {
        Session {
            codex_thread_id: optional_text(self.codex_thread_id),
            history: messages(self.history@),
            work_dirs: texts(self.work_dirs@),
            selected_model: self.selected_model@,
            mode_id: self.mode_id@,
            reasoning_effort: self.reasoning_effort@,
        }
    }
}

/// The sessions of a map.
pub open spec fn session_values(map: Map<Seq<char>, CodexSession>) -> Map<Seq<char>, Session> {
    map.map_values(|session: CodexSession| session@)
}

impl View for CodexConnection {
    type V = Map<Seq<char>, Session>;

    open spec fn view(&self) -> Map<Seq<char>, Session> {
        session_values(self.sessions@)
    }
}

/// The sessions with one changed, where it is there.
pub open spec fn with_session(
    sessions: Map<Seq<char>, Session>,
    session_id: Seq<char>,
    session: Session,
) -> Map<Seq<char>, Session> {
    if sessions.contains_key(session_id) {
        sessions.insert(session_id, session)
    } else {
        sessions
    }
}

/// A session that begins.
pub open spec fn new_session(
    work_dirs: Seq<Seq<char>>,
    codex_thread_id: Option<Seq<char>>,
    settings: Option<AgentSettings>,
) -> Session {
    let mode_id = initial_mode(settings);
    Session {
        codex_thread_id,
        history: seq![],
        work_dirs,
        selected_model: initial_model(settings),
        mode_id,
        reasoning_effort: initial_effort(mode_id, settings),
    }
}

/// What is asked in a part of a prompt.
pub open spec fn block_text(block: ContentBlock) -> Option<Seq<char>> {
    match block {
        ContentBlock::Text(text) => Some(text@),
        ContentBlock::ResourceLink(uri) => Some(uri@),
        ContentBlock::Resource(rendering) => Some(rendering@),
        ContentBlock::Image => None,
        ContentBlock::Audio => None,
        ContentBlock::Other => None,
    }
}

/// What is asked in the parts of a prompt.
pub open spec fn block_texts(prompt: Seq<ContentBlock>) -> Seq<Seq<char>>
    decreases prompt.len(),
{
    if prompt.len() == 0 {
        seq![]
    } else {
        match block_text(prompt.last()) {
            Some(text) => block_texts(prompt.drop_last()).push(text),
            None => block_texts(prompt.drop_last()),
        }
    }
}

/// What is asked in a prompt: its texts, with an empty line between each two.
pub open spec fn prompt_of(prompt: Seq<ContentBlock>) -> Seq<char> {
    join_of(block_texts(prompt), "\n\n"@)
}

/// What stands above a message when a conversation is told again.
pub open spec fn speaker(role: CodexHistoryRole) -> Seq<char> {
    match role {
        CodexHistoryRole::User => "User:\n"@,
        CodexHistoryRole::Assistant => "Assistant:\n"@,
    }
}

/// A conversation told again.
pub open spec fn transcript(history: Seq<Message>) -> Seq<char>
    decreases history.len(),
{
    if history.len() == 0 {
        seq![]
    } else {
        transcript(history.drop_last()) + speaker(history.last().role) + history.last().text
            + "\n\n"@
    }
}

/// What the Codex program is told. It is told the conversation again where it has no thread that
/// it could go on with.
pub open spec fn input_of(session: Session, user_text: Seq<char>) -> Seq<char> {
    if session.codex_thread_id is Some || session.history.len() == 0 {
        user_text
    } else {
        "Continue this conversation. Prior messages are included for context.\n\n"@ + transcript(
            session.history,
        ) + "User:\n"@ + user_text
    }
}

/// How many messages stand before the first with a name, or all of them where there is none.
pub open spec fn messages_before(history: Seq<Message>, id: Seq<char>) -> nat
    decreases history.len(),
{
    if history.len() == 0 || history[0].user_message_id == Some(id) {
        0
    } else {
        1 + messages_before(history.skip(1), id)
    }
}

/// A session that goes back to before a message.
pub open spec fn rewound(session: Session, message_id: Seq<char>) -> Session {
    Session {
        codex_thread_id: None,
        history: session.history.take(messages_before(session.history, message_id) as int),
        ..session
    }
}

impl Message {
    /// Who said what in this message.
    pub open spec fn entry(self) -> HistoryEntry {
        HistoryEntry { role: self.role, text: self.text }
    }

    /// The message has a new name if and only if it is one of the user's.
    pub open spec fn freshly_named(self) -> bool {
        match self.user_message_id {
            Some(id) => self.role == CodexHistoryRole::User && is_random_id(id),
            None => self.role == CodexHistoryRole::Assistant,
        }
    }
}

/// Who said what in a conversation.
pub open spec fn told_entries(history: Seq<Message>) -> Seq<HistoryEntry> {
    Seq::new(history.len(), |i: int| history[i].entry())
}

/// `history` is the conversation in a transcript, with new names for the messages of the user.
pub open spec fn retells(history: Seq<Message>, rollout: Seq<char>) -> bool {
    &&& parsed_lines(lines_of(rollout)) matches Some(documents)
    &&& told_entries(history) == conversation(documents)
    &&& forall|i: int| 0 <= i < history.len() ==> (#[trigger] history[i]).freshly_named()
}

/// A session that was filled with what was said in it.
pub open spec fn restored(
    session: Session,
    history: Seq<Message>,
    codex_session_id: Seq<char>,
) -> Session {
    Session { history, codex_thread_id: Some(codex_session_id), ..session }
}

/// A session in which something was asked.
pub open spec fn asked(session: Session, message_id: Seq<char>, user_text: Seq<char>) -> Session {
    Session {
        history: session.history.push(
            Message {
                user_message_id: Some(message_id),
                role: CodexHistoryRole::User,
                text: user_text,
            },
        ),
        ..session
    }
}

/// A session in which a run of the Codex program came to an end.
pub open spec fn answered(
    session: Session,
    codex_thread_id: Option<Seq<char>>,
    response: Seq<char>,
) -> Session {
    Session {
        codex_thread_id: match codex_thread_id {
            Some(id) => Some(id),
            None => session.codex_thread_id,
        },
        history: if response.len() > 0 {
            session.history.push(
                Message {
                    user_message_id: None,
                    role: CodexHistoryRole::Assistant,
                    text: response,
                },
            )
        } else {
            session.history
        },
        ..session
    }
}

/// A session in a mode, with the reasoning effort that goes with it.
pub open spec fn in_mode(
    session: Session,
    mode_id: Seq<char>,
    settings: Option<AgentSettings>,
) -> Session {
    Session { mode_id, reasoning_effort: initial_effort(mode_id, settings), ..session }
}

/// The texts of a prompt, with an empty line between each two.
pub fn prompt_text(prompt: Vec<ContentBlock>) -> (text: String)
    ensures
        text@ == prompt_of(prompt@),
{
    let ghost all = prompt@;
    let mut parts: Vec<String> = Vec::new();
    assert(texts(parts@) =~= block_texts(all.take(0)));
    for block in it: prompt
        invariant
            it.seq() == all,
            texts(parts@) == block_texts(all.take(it.index() as int)),
    {
        let ghost i = it.index() as int;
        let ghost before = texts(parts@);
        assert(all.take(i + 1).drop_last() =~= all.take(i));
        assert(all.take(i + 1).last() == block);
        match block {
            ContentBlock::Text(text) => {
                parts.push(text);
                assert(texts(parts@) =~= before.push(text@));
            },
            ContentBlock::ResourceLink(uri) => {
                parts.push(uri);
                assert(texts(parts@) =~= before.push(uri@));
            },
            ContentBlock::Resource(rendering) => {
                parts.push(rendering);
                assert(texts(parts@) =~= before.push(rendering@));
            },
            ContentBlock::Image => {},
            ContentBlock::Audio => {},
            ContentBlock::Other => {},
        }
    }
    assert(all.take(all.len() as int) =~= all);
    join(&parts, "\n\n")
}

/// What the Codex program is told.
pub fn codex_input(session: &CodexSession, user_text: &str) -> (input: String)
    ensures
        input@ == input_of(session@, user_text@),
{
    if session.codex_thread_id.is_some() || session.history.len() == 0 {
        return user_text.to_owned();
    }
    let header = "Continue this conversation. Prior messages are included for context.\n\n";
    let mut input = header.to_owned();
    let ghost all = messages(session.history@);
    let mut i: usize = 0;
    assert(header@ + transcript(all.take(0)) =~= input@);
    while i < session.history.len()
        invariant
            i <= session.history@.len(),
            all == messages(session.history@),
            input@ == header@ + transcript(all.take(i as int)),
        decreases session.history@.len() - i,
    {
        let ghost before = transcript(all.take(i as int));
        assert(all.take(i + 1).drop_last() =~= all.take(i as int));
        match session.history[i].role {
            CodexHistoryRole::User => {
                input.append("User:\n");
            },
            CodexHistoryRole::Assistant => {
                input.append("Assistant:\n");
            },
        }
        input.append(session.history[i].text.as_str());
        input.append("\n\n");
        assert(input@ =~= header@ + (before + speaker(all[i as int].role) + all[i as int].text
            + "\n\n"@));
        i = i + 1;
    }
    assert(all.take(i as int) =~= all);
    input.append("User:\n");
    input.append(user_text);
    input
}

/// What is put into a thread for a conversation.
pub fn seed_thread_from_history(history: &Vec<CodexHistoryMessage>) -> (seeds: Vec<ThreadSeed>)
    ensures
        seeds_thread(seeds@, messages(history@)),
{
    let mut seeds: Vec<ThreadSeed> = Vec::new();
    let ghost all = messages(history@);
    let mut i: usize = 0;
    while i < history.len()
        invariant
            i <= history@.len(),
            all == messages(history@),
            seeds@.len() == i,
            forall|j: int| 0 <= j < i ==> (#[trigger] seeds@[j])@ == seed_of(all[j]),
        decreases history@.len() - i,
    {
        let message = &history[i];
        let text = message.text.clone();
        let seed = match message.role {
            CodexHistoryRole::User => {
                let message_id = match &message.user_message_id {
                    Some(id) => Some(UserMessageId { id: id.id.clone() }),
                    None => None,
                };
                ThreadSeed::User { message_id, text }
            },
            CodexHistoryRole::Assistant => ThreadSeed::Assistant { text },
        };
        seeds.push(seed);
        i = i + 1;
    }
    seeds
}

impl CodexSession {
    fn truncate_before(&mut self, message_id: &UserMessageId)
        ensures
            final(self)@ == rewound(old(self)@, message_id@),
    {
        self.codex_thread_id = None;
        let ghost all = messages(self.history@);
        let mut i: usize = 0;
        assert(all.skip(0) =~= all);
        while i < self.history.len() && !self.history[i].is_named(message_id)
            invariant
                i <= self.history@.len(),
                all == messages(self.history@),
                messages_before(all, message_id@) == i + messages_before(
                    all.skip(i as int),
                    message_id@,
                ),
            decreases self.history@.len() - i,
        {
            assert(all.skip(i as int).skip(1) =~= all.skip(i + 1));
            i = i + 1;
        }
        self.history.truncate(i);
        assert(messages(self.history@) =~= all.take(i as int));
    }
}

impl CodexHistoryMessage {
    fn is_named(&self, id: &UserMessageId) -> (yes: bool)
        ensures
            yes == (self@.user_message_id == Some(id@)),
    {
        match &self.user_message_id {
            Some(own) => same_text(own.id.as_str(), id.id.as_str()),
            None => false,
        }
    }
}

proof fn lemma_session_insert(
    sessions: Map<Seq<char>, CodexSession>,
    session_id: Seq<char>,
    session: CodexSession,
)
    ensures
        session_values(sessions.insert(session_id, session)) == session_values(sessions).insert(
            session_id,
            session@,
        ),
{
    assert(session_values(sessions.insert(session_id, session)) =~= session_values(
        sessions,
    ).insert(session_id, session@));
}

impl CodexConnection {
    /// A connection without sessions.
    pub fn new() -> (connection: Self)
        ensures
            connection@ == Map::<Seq<char>, Session>::empty(),
    {
        let connection = CodexConnection { sessions: TextMap::new() };
        assert(connection@ =~= Map::empty());
        connection
    }

    /// The name of the agent in the settings.
    pub fn agent_id(&self) -> (id: &'static str)
        ensures
            id@ == CODEX_AGENT_ID@,
    {
        CODEX_AGENT_ID
    }

    /// The name under which use of the agent is reported.
    pub fn telemetry_id(&self) -> (id: &'static str)
        ensures
            id@ == "codex"@,
    {
        "codex"
    }

    /// Begins a session under a name.
    pub fn create_thread(
        &mut self,
        session_id: String,
        work_dirs: Vec<String>,
        codex_thread_id: Option<String>,
        settings: &AllAgentServersSettings,
    )
        ensures
            final(self)@ == old(self)@.insert(
                session_id@,
                new_session(
                    texts(work_dirs@),
                    optional_text(codex_thread_id),
                    codex_settings(settings@),
                ),
            ),
    {
        let selected_model = codex_default_model(settings);
        let mode_id = codex_default_mode(settings);
        let reasoning_effort = codex_default_reasoning_effort(mode_id.as_str(), settings);
        let session = CodexSession {
            codex_thread_id,
            history: Vec::new(),
            work_dirs,
            selected_model,
            mode_id,
            reasoning_effort,
        };
        proof {
            assert(session@.history =~= seq![]);
            lemma_session_insert(self.sessions@, session_id@, session);
        }
        self.sessions.insert(session_id, session);
    }

    /// Begins a session under a new name, and returns the name.
    pub fn new_session(
        &mut self,
        work_dirs: Vec<String>,
        settings: &AllAgentServersSettings,
    ) -> (session_id: String)
        ensures
            is_random_id(session_id@),
            final(self)@ == old(self)@.insert(
                session_id@,
                new_session(texts(work_dirs@), None, codex_settings(settings@)),
            ),
    {
        let session_id = random_id();
        self.create_thread(session_id.clone(), work_dirs, None, settings);
        session_id
    }

    /// Earlier sessions can be shown again.
    pub fn supports_load_session(&self) -> (supported: bool)
        ensures
            supported,
    {
        true
    }

    /// Begins to show an earlier session again, and returns the name by which the Codex program
    /// knows it, going by the content of the file of names. What was said in it is not there yet.
    pub fn load_session(
        &mut self,
        session_id: String,
        work_dirs: Vec<String>,
        aliases: Option<&str>,
        settings: &AllAgentServersSettings,
    ) -> (codex_session_id: String)
        ensures
            codex_session_id@ == resolved(file_aliases(optional_str(aliases)), session_id@),
            final(self)@ == old(self)@.insert(
                session_id@,
                new_session(
                    texts(work_dirs@),
                    Some(codex_session_id@),
                    codex_settings(settings@),
                ),
            ),
    {
        let codex_session_id = resolve_codex_session_id(aliases, session_id.as_str());
        self.create_thread(session_id, work_dirs, Some(codex_session_id.clone()), settings);
        codex_session_id
    }

    /// Fills a session that is loaded with what was said in it, where it is still there.
    pub fn restore_history(
        &mut self,
        session_id: &str,
        history: Vec<CodexHistoryMessage>,
        codex_session_id: String,
    )
        ensures
            final(self)@ == with_session(
                old(self)@,
                session_id@,
                restored(old(self)@[session_id@], messages(history@), codex_session_id@),
            ),
    {
        let ghost before = self.sessions@;
        match self.sessions.get_mut(session_id) {
            Some(session) => {
                session.history = history;
                session.codex_thread_id = Some(codex_session_id);
            },
            None => {},
        }
        proof {
            if before.contains_key(session_id@) {
                lemma_session_insert(before, session_id@, self.sessions@[session_id@]);
            }
        }
    }

    /// Fills a session that is loaded with what its transcript tells, and returns what is put
    /// into its thread. Nothing changes where a line of the transcript is no JSON document.
    pub fn finish_load(
        &mut self,
        session_id: &str,
        rollout: &str,
        codex_session_id: String,
    ) -> (seeds: Result<Vec<ThreadSeed>, JsonError>)
        ensures
            match seeds {
                Ok(seeds) => exists|history: Seq<Message>| #[trigger]
                    retells(history, rollout@) && seeds_thread(seeds@, history) && final(self)@
                        == with_session(
                        old(self)@,
                        session_id@,
                        restored(old(self)@[session_id@], history, codex_session_id@),
                    ),
                Err(_) => parsed_lines(lines_of(rollout@)) is None && *final(self) == *old(self),
            },
    {
        match parse_codex_rollout_history(rollout) {
            Ok(history) => {
                let seeds = seed_thread_from_history(&history);
                let ghost told = messages(history@);
                proof {
                    assert(told_entries(told) =~= entries(history@));
                    assert forall|i: int| 0 <= i < told.len() implies (
                    #[trigger] told[i]).freshly_named() by {
                        assert(history@[i].freshly_named());
                    }
                    assert(retells(told, rollout@));
                }
                self.restore_history(session_id, history, codex_session_id);
                Ok(seeds)
            },
            Err(error) => Err(error),
        }
    }

    /// Earlier sessions can be gone on with.
    pub fn supports_resume_session(&self) -> (supported: bool)
        ensures
            supported,
    {
        true
    }

    /// Goes on with an earlier session under the name by which the Codex program knows it, going
    /// by the content of the file of names. What was said in it is not told.
    pub fn resume_session(
        &mut self,
        session_id: String,
        work_dirs: Vec<String>,
        aliases: Option<&str>,
        settings: &AllAgentServersSettings,
    )
        ensures
            final(self)@ == old(self)@.insert(
                session_id@,
                new_session(
                    texts(work_dirs@),
                    Some(resolved(file_aliases(optional_str(aliases)), session_id@)),
                    codex_settings(settings@),
                ),
            ),
    {
        let codex_session_id = resolve_codex_session_id(aliases, session_id.as_str());
        self.create_thread(session_id, work_dirs, Some(codex_session_id), settings);
    }

    /// Asks something in a session, and says how the Codex program is to be run for it. It fails
    /// where there is no such session.
    pub fn prompt(
        &mut self,
        session_id: &str,
        user_message_id: UserMessageId,
        prompt: Vec<ContentBlock>,
    ) -> (run: Result<CodexRun, CodexSessionError>)
        ensures
            match run {
                Ok(run) => {
                    let before = old(self)@[session_id@];
                    let user_text = prompt_of(prompt@);
                    &&& old(self)@.contains_key(session_id@)
                    &&& final(self)@ == old(self)@.insert(
                        session_id@,
                        asked(before, user_message_id@, user_text),
                    )
                    &&& run.session_id@ == session_id@
                    &&& optional_text(run.codex_thread_id) == before.codex_thread_id
                    &&& run.input@ == input_of(before, user_text)
                    &&& texts(run.work_dirs@) == before.work_dirs
                    &&& run.selected_model@ == before.selected_model
                    &&& run.reasoning_effort@ == before.reasoning_effort
                },
                Err(error) => {
                    &&& !old(self)@.contains_key(session_id@)
                    &&& error is SessionNotFound
                    &&& final(self)@ == old(self)@
                },
            },
    {
        let user_text = prompt_text(prompt);
        let ghost before = self.sessions@;
        let run = match self.sessions.get_mut(session_id) {
            Some(session) => {
                let input = codex_input(session, user_text.as_str());
                let run = CodexRun {
                    session_id: session_id.to_owned(),
                    codex_thread_id: copied(&session.codex_thread_id),
                    input,
                    work_dirs: copied_list(&session.work_dirs),
                    selected_model: session.selected_model.clone(),
                    reasoning_effort: session.reasoning_effort.clone(),
                };
                let ghost old_history = messages(session.history@);
                let message = CodexHistoryMessage {
                    user_message_id: Some(user_message_id),
                    role: CodexHistoryRole::User,
                    text: user_text,
                };
                session.history.push(message);
                assert(messages(session.history@) =~= old_history.push(message@));
                Ok(run)
            },
            None => Err(CodexSessionError::SessionNotFound),
        };
        proof {
            if before.contains_key(session_id@) {
                lemma_session_insert(before, session_id@, self.sessions@[session_id@]);
            }
        }
        run
    }

    /// Takes in what a run of the Codex program came to.
    pub fn finish_prompt(&mut self, session_id: &str, output: CodexRunOutput) -> (finished:
        FinishedPrompt)
        ensures
            final(self)@ == with_session(
                old(self)@,
                session_id@,
                answered(old(self)@[session_id@], output@.codex_thread_id, output@.final_response),
            ),
            finished.response == (PromptResponse {
                stop_reason: StopReason::EndTurn,
                usage: output.usage,
            }),
            optional_text(finished.new_alias) == match output@.codex_thread_id {
                Some(thread_id) => if old(self)@.contains_key(session_id@) && thread_id
                    != session_id@ {
                    Some(thread_id)
                } else {
                    None
                },
                None => None,
            },
    {
        let ghost before = self.sessions@;
        let usage = output.usage;
        let mut new_alias: Option<String> = None;
        match self.sessions.get_mut(session_id) {
            Some(session) => {
                match output.codex_thread_id {
                    Some(thread_id) => {
                        if !same_text(thread_id.as_str(), session_id) {
                            new_alias = Some(thread_id.clone());
                        }
                        session.codex_thread_id = Some(thread_id);
                    },
                    None => {},
                }
                if !output.final_response.as_str().is_empty() {
                    let ghost old_history = messages(session.history@);
                    let message = CodexHistoryMessage {
                        user_message_id: None,
                        role: CodexHistoryRole::Assistant,
                        text: output.final_response,
                    };
                    session.history.push(message);
                    assert(messages(session.history@) =~= old_history.push(message@));
                }
            },
            None => {},
        }
        proof {
            if before.contains_key(session_id@) {
                lemma_session_insert(before, session_id@, self.sessions@[session_id@]);
            }
        }
        FinishedPrompt {
            response: PromptResponse { stop_reason: StopReason::EndTurn, usage },
            new_alias,
        }
    }

    /// The means to go back in a session.
    pub fn truncate(&self, session_id: &str) -> (handle: Option<CodexSessionTruncate>)
        ensures
            handle is Some <==> self@.contains_key(session_id@),
            handle matches Some(handle) ==> handle.session_id@ == session_id@,
    {
        if self.sessions.contains_key(session_id) {
            Some(CodexSessionTruncate { session_id: session_id.to_owned() })
        } else {
            None
        }
    }

    /// The means to choose the model of a session.
    pub fn model_selector(&self, session_id: &str) -> (handle: Option<CodexModelSelector>)
        ensures
            handle is Some <==> self@.contains_key(session_id@),
            handle matches Some(handle) ==> handle.session_id@ == session_id@,
    {
        if self.sessions.contains_key(session_id) {
            Some(CodexModelSelector { session_id: session_id.to_owned() })
        } else {
            None
        }
    }

    /// The means to choose the mode of a session.
    pub fn session_modes(&self, session_id: &str) -> (handle: Option<CodexSessionModes>)
        ensures
            handle is Some <==> self@.contains_key(session_id@),
            handle matches Some(handle) ==> handle.session_id@ == session_id@,
    {
        if self.sessions.contains_key(session_id) {
            Some(CodexSessionModes { session_id: session_id.to_owned() })
        } else {
            None
        }
    }

    /// The means to choose the options of a session.
    pub fn session_config_options(&self, session_id: &str) -> (handle: Option<
        CodexSessionConfigOptions,
    >)
        ensures
            handle is Some <==> self@.contains_key(session_id@),
            handle matches Some(handle) ==> handle.session_id@ == session_id@,
    {
        if self.sessions.contains_key(session_id) {
            Some(CodexSessionConfigOptions { session_id: session_id.to_owned() })
        } else {
            None
        }
    }

    fn set_model(&mut self, session_id: &str, model_id: String)
        ensures
            final(self)@ == with_session(
                old(self)@,
                session_id@,
                Session { selected_model: model_id@, ..old(self)@[session_id@] },
            ),
    {
        let ghost before = self.sessions@;
        match self.sessions.get_mut(session_id) {
            Some(session) => {
                session.selected_model = model_id;
            },
            None => {},
        }
        proof {
            if before.contains_key(session_id@) {
                lemma_session_insert(before, session_id@, self.sessions@[session_id@]);
            }
        }
    }

    fn set_mode(&mut self, session_id: &str, mode_id: String, settings: &AllAgentServersSettings)
        ensures
            final(self)@ == with_session(
                old(self)@,
                session_id@,
                in_mode(old(self)@[session_id@], mode_id@, codex_settings(settings@)),
            ),
    {
        let reasoning_effort = codex_default_reasoning_effort(mode_id.as_str(), settings);
        let ghost before = self.sessions@;
        match self.sessions.get_mut(session_id) {
            Some(session) => {
                session.mode_id = mode_id;
                session.reasoning_effort = reasoning_effort;
            },
            None => {},
        }
        proof {
            if before.contains_key(session_id@) {
                lemma_session_insert(before, session_id@, self.sessions@[session_id@]);
            }
        }
    }

    fn set_reasoning_effort(&mut self, session_id: &str, reasoning_effort: String)
        ensures
            final(self)@ == with_session(
                old(self)@,
                session_id@,
                Session { reasoning_effort: reasoning_effort@, ..old(self)@[session_id@] },
            ),
    {
        let ghost before = self.sessions@;
        match self.sessions.get_mut(session_id) {
            Some(session) => {
                session.reasoning_effort = reasoning_effort;
            },
            None => {},
        }
        proof {
            if before.contains_key(session_id@) {
                lemma_session_insert(before, session_id@, self.sessions@[session_id@]);
            }
        }
    }
}

/// The means to go back in a session.
pub struct CodexSessionTruncate {
    pub session_id: String,
}

/// The means to choose the model of a session.
pub struct CodexModelSelector {
    pub session_id: String,
}

/// The means to choose the mode of a session.
pub struct CodexSessionModes {
    pub session_id: String,
}

/// The means to choose the options of a session.
pub struct CodexSessionConfigOptions {
    pub session_id: String,
}

impl CodexSessionTruncate {
    /// Goes back to before a message. The Codex program then has no thread to go on with.
    pub fn run(&self, connection: &mut CodexConnection, message_id: &UserMessageId)
        ensures
            final(connection)@ == with_session(
                old(connection)@,
                self.session_id@,
                rewound(old(connection)@[self.session_id@], message_id@),
            ),
    {
        let ghost before = connection.sessions@;
        match connection.sessions.get_mut(self.session_id.as_str()) {
            Some(session) => {
                session.truncate_before(message_id);
            },
            None => {},
        }
        proof {
            if before.contains_key(self.session_id@) {
                lemma_session_insert(
                    before,
                    self.session_id@,
                    connection.sessions@[self.session_id@],
                );
            }
        }
    }
}

/// The model of a session, or the default one where there is no such session.
pub open spec fn model_of(sessions: Map<Seq<char>, Session>, session_id: Seq<char>) -> Seq<char> {
    if sessions.contains_key(session_id) {
        sessions[session_id].selected_model
    } else {
        DEFAULT_CODEX_MODEL@
    }
}

/// The mode of a session, or the standard one where there is no such session.
pub open spec fn mode_of(sessions: Map<Seq<char>, Session>, session_id: Seq<char>) -> Seq<char> {
    if sessions.contains_key(session_id) {
        sessions[session_id].mode_id
    } else {
        STANDARD_MODE_ID@
    }
}

/// The reasoning effort of a session, or the medium one where there is no such session.
pub open spec fn effort_of(sessions: Map<Seq<char>, Session>, session_id: Seq<char>) -> Seq<char> {
    if sessions.contains_key(session_id) {
        sessions[session_id].reasoning_effort
    } else {
        MEDIUM_REASONING_EFFORT@
    }
}

impl CodexModelSelector {
    /// The models of the Codex agent.
    pub fn list_models(&self) -> (models: Vec<AgentModelInfo>)
        ensures
            models@.len() == model_infos().len(),
            forall|i: int|
                0 <= i < model_infos().len() ==> (#[trigger] models@[i]).shows(model_infos()[i]),
    {
        codex_models()
    }

    /// Chooses the model of the session, and of new ones.
    pub fn select_model(&self, connection: &mut CodexConnection, model_id: String) -> (update:
        SettingsUpdate)
        ensures
            final(connection)@ == with_session(
                old(connection)@,
                self.session_id@,
                Session { selected_model: model_id@, ..old(connection)@[self.session_id@] },
            ),
            update matches SettingsUpdate::DefaultModel(Some(model)) && model@ == model_id@,
    {
        connection.set_model(self.session_id.as_str(), model_id.clone());
        SettingsUpdate::DefaultModel(Some(model_id))
    }

    /// The model of the session. It fails where the Codex agent has no such model.
    pub fn selected_model(&self, connection: &CodexConnection) -> (model: Result<
        AgentModelInfo,
        CodexSessionError,
    >)
        ensures
            match model {
                Ok(model) => exists|i: int|
                    0 <= i < model_infos().len() && model.shows(#[trigger] model_infos()[i])
                        && model_infos()[i].choice.id == model_of(connection@, self.session_id@),
                Err(error) => error is ModelNotFound && !is_codex_model(
                    model_of(connection@, self.session_id@),
                ),
            },
    {
        let model_id = match connection.sessions.get(self.session_id.as_str()) {
            Some(session) => session.selected_model.as_str(),
            None => DEFAULT_CODEX_MODEL,
        };
        match find_codex_model(model_id) {
            Some(model) => Ok(model),
            None => Err(CodexSessionError::ModelNotFound),
        }
    }
}

impl CodexSessionModes {
    /// The mode of the session.
    pub fn current_mode(&self, connection: &CodexConnection) -> (mode_id: String)
        ensures
            mode_id@ == mode_of(connection@, self.session_id@),
    {
        match connection.sessions.get(self.session_id.as_str()) {
            Some(session) => session.mode_id.clone(),
            None => STANDARD_MODE_ID.to_owned(),
        }
    }

    /// The modes of a session.
    pub fn all_modes(&self) -> (modes: Vec<SessionMode>)
        ensures
            modes@.len() == session_modes().len(),
            forall|i: int|
                0 <= i < session_modes().len() ==> (#[trigger] modes@[i]).shows(
                    session_modes()[i],
                ),
    {
        all_session_modes()
    }

    /// Puts the session into a mode, with the reasoning effort that goes with it, and new ones
    /// too. Nothing changes where there is no such mode.
    pub fn set_mode(
        &self,
        connection: &mut CodexConnection,
        mode_id: String,
        settings: &AllAgentServersSettings,
    ) -> (update: Result<SettingsUpdate, CodexSessionError>)
        ensures
            match update {
                Ok(update) => {
                    &&& is_codex_mode(mode_id@)
                    &&& final(connection)@ == with_session(
                        old(connection)@,
                        self.session_id@,
                        in_mode(
                            old(connection)@[self.session_id@],
                            mode_id@,
                            codex_settings(settings@),
                        ),
                    )
                    &&& update matches SettingsUpdate::DefaultMode(Some(mode))
                    &&& mode@ == mode_id@
                },
                Err(error) => {
                    &&& !is_codex_mode(mode_id@)
                    &&& *final(connection) == *old(connection)
                    &&& error matches CodexSessionError::InvalidMode(mode)
                    &&& mode@ == mode_id@
                },
            },
    {
        if !is_valid_mode(mode_id.as_str()) {
            return Err(CodexSessionError::InvalidMode(mode_id));
        }
        connection.set_mode(self.session_id.as_str(), mode_id.clone(), settings);
        Ok(SettingsUpdate::DefaultMode(Some(mode_id)))
    }
}

/// `options` shows the mode, the model and the reasoning effort of a session.
pub open spec fn shows_options(
    options: Seq<SessionConfigOption>,
    sessions: Map<Seq<char>, Session>,
    session_id: Seq<char>,
) -> bool {
    &&& options.len() == 3
    &&& options[0].shows(mode_option(mode_of(sessions, session_id)))
    &&& options[1].shows(model_option(model_of(sessions, session_id)))
    &&& options[2].shows(reasoning_option(effort_of(sessions, session_id)))
}

/// Whether an option can be given a value.
pub open spec fn accepts_option(config_id: Seq<char>, value: Seq<char>) -> bool {
    if config_id == MODEL_CONFIG_ID@ {
        is_codex_model(value)
    } else if config_id == MODE_CONFIG_ID@ {
        is_codex_mode(value)
    } else if config_id == REASONING_EFFORT_CONFIG_ID@ {
        is_reasoning_effort(value)
    } else {
        false
    }
}

/// A session in which an option has a value.
pub open spec fn with_option_value(
    session: Session,
    config_id: Seq<char>,
    value: Seq<char>,
    settings: Option<AgentSettings>,
) -> Session {
    if config_id == MODEL_CONFIG_ID@ {
        Session { selected_model: value, ..session }
    } else if config_id == MODE_CONFIG_ID@ {
        in_mode(session, value, settings)
    } else {
        Session { reasoning_effort: value, ..session }
    }
}

/// The change to the settings that goes with a value of an option.
pub open spec fn is_update_for(
    update: SettingsUpdate,
    config_id: Seq<char>,
    value: Seq<char>,
) -> bool {
    match update {
        SettingsUpdate::DefaultModel(model) => config_id == MODEL_CONFIG_ID@ && optional_text(model)
            == Some(value),
        SettingsUpdate::DefaultMode(mode) => config_id != MODEL_CONFIG_ID@ && config_id
            == MODE_CONFIG_ID@ && optional_text(mode) == Some(value),
        SettingsUpdate::DefaultConfigOption { config_id: id, value_id } => config_id
            != MODEL_CONFIG_ID@ && config_id != MODE_CONFIG_ID@ && id@
            == REASONING_EFFORT_CONFIG_ID@ && optional_text(value_id) == Some(value),
    }
}

/// The reason why an option cannot be given a value.
pub open spec fn is_refusal_of(
    error: CodexSessionError,
    config_id: Seq<char>,
    value: Seq<char>,
) -> bool {
    if config_id == MODEL_CONFIG_ID@ {
        error matches CodexSessionError::InvalidModel(model) && model@ == value
    } else if config_id == MODE_CONFIG_ID@ {
        error matches CodexSessionError::InvalidMode(mode) && mode@ == value
    } else if config_id == REASONING_EFFORT_CONFIG_ID@ {
        error matches CodexSessionError::InvalidReasoningEffort(effort) && effort@ == value
    } else {
        error matches CodexSessionError::InvalidConfigOption(id) && id@ == config_id
    }
}

impl CodexSessionConfigOptions {
    /// The mode, the model and the reasoning effort of the session.
    pub fn config_options(&self, connection: &CodexConnection) -> (options: Vec<
        SessionConfigOption,
    >)
        ensures
            shows_options(options@, connection@, self.session_id@),
    {
        let (selected_model, mode_id, reasoning_effort) = match connection.sessions.get(
            self.session_id.as_str(),
        ) {
            Some(session) => (
                session.selected_model.clone(),
                session.mode_id.clone(),
                session.reasoning_effort.clone(),
            ),
            None => (
                DEFAULT_CODEX_MODEL.to_owned(),
                STANDARD_MODE_ID.to_owned(),
                MEDIUM_REASONING_EFFORT.to_owned(),
            ),
        };
        let mut options: Vec<SessionConfigOption> = Vec::new();
        options.push(codex_mode_config_option(mode_id));
        options.push(codex_model_config_option(selected_model));
        options.push(codex_reasoning_config_option(reasoning_effort));
        options
    }

    /// Gives an option of the session a value, and of new sessions too. Nothing changes where
    /// there is no such option or no such value.
    pub fn set_config_option(
        &self,
        connection: &mut CodexConnection,
        config_id: String,
        value: String,
        settings: &AllAgentServersSettings,
    ) -> (change: Result<ConfigChange, CodexSessionError>)
        ensures
            match change {
                Ok(change) => {
                    &&& accepts_option(config_id@, value@)
                    &&& final(connection)@ == with_session(
                        old(connection)@,
                        self.session_id@,
                        with_option_value(
                            old(connection)@[self.session_id@],
                            config_id@,
                            value@,
                            codex_settings(settings@),
                        ),
                    )
                    &&& shows_options(change.options@, final(connection)@, self.session_id@)
                    &&& is_update_for(change.update, config_id@, value@)
                },
                Err(error) => {
                    &&& !accepts_option(config_id@, value@)
                    &&& *final(connection) == *old(connection)
                    &&& is_refusal_of(error, config_id@, value@)
                },
            },
    {
        let update = if same_text(config_id.as_str(), MODEL_CONFIG_ID) {
            match find_codex_model(value.as_str()) {
                Some(_) => {},
                None => {
                    return Err(CodexSessionError::InvalidModel(value));
                },
            }
            connection.set_model(self.session_id.as_str(), value.clone());
            SettingsUpdate::DefaultModel(Some(value))
        } else if same_text(config_id.as_str(), MODE_CONFIG_ID) {
            if !is_valid_mode(value.as_str()) {
                return Err(CodexSessionError::InvalidMode(value));
            }
            connection.set_mode(self.session_id.as_str(), value.clone(), settings);
            SettingsUpdate::DefaultMode(Some(value))
        } else if same_text(config_id.as_str(), REASONING_EFFORT_CONFIG_ID) {
            if !is_valid_reasoning_effort(value.as_str()) {
                return Err(CodexSessionError::InvalidReasoningEffort(value));
            }
            connection.set_reasoning_effort(self.session_id.as_str(), value.clone());
            SettingsUpdate::DefaultConfigOption { config_id, value_id: Some(value) }
        } else {
            return Err(CodexSessionError::InvalidConfigOption(config_id));
        };
        let options = self.config_options(connection);
        Ok(ConfigChange { options, update })
    }
}

/// The settings of the Codex agent after a change.
pub open spec fn updated(settings: AgentSettings, update: SettingsUpdate) -> AgentSettings {
    match update {
        SettingsUpdate::DefaultModel(model) => AgentSettings {
            default_model: optional_text(model),
            ..settings
        },
        SettingsUpdate::DefaultMode(mode) => AgentSettings {
            default_mode: optional_text(mode),
            ..settings
        },
        SettingsUpdate::DefaultConfigOption { config_id, value_id } => AgentSettings {
            default_config_options: with_option(
                settings.default_config_options,
                config_id@,
                optional_text(value_id),
            ),
            ..settings
        },
    }
}

impl SettingsUpdate {
    /// Makes the change.
    pub fn apply(self, content: &mut SettingsContent)
        ensures
            final(content)@ == with_codex(
                old(content)@,
                updated(codex_or_default(old(content)@), self),
            ),
    {
        match self {
            SettingsUpdate::DefaultModel(model) => {
                persist_codex_model(content, model);
            },
            SettingsUpdate::DefaultMode(mode) => {
                persist_codex_mode(content, mode);
            },
            SettingsUpdate::DefaultConfigOption { config_id, value_id } => {
                persist_codex_config_option(content, config_id, value_id);
            },
        }
    }
}

/// What is said of something that could not be done.
pub open spec fn error_text(error: CodexSessionError) -> Seq<char> {
    match error {
        CodexSessionError::SessionNotFound => "Codex session not found"@,
        CodexSessionError::ModelNotFound => "Codex model not found"@,
        CodexSessionError::InvalidModel(value) => "Invalid Codex model: "@ + value@,
        CodexSessionError::InvalidMode(value) => "Invalid Codex mode: "@ + value@,
        CodexSessionError::InvalidReasoningEffort(value) => "Invalid Codex reasoning effort: "@
            + value@,
        CodexSessionError::InvalidConfigOption(id) => "Invalid Codex config option: "@ + id@,
    }
}

impl CodexSessionError {
    /// What is said of something that could not be done.
    pub fn message(&self) -> (message: String)
        ensures
            message@ == error_text(*self),
    {
        match self {
            CodexSessionError::SessionNotFound => "Codex session not found".to_owned(),
            CodexSessionError::ModelNotFound => "Codex model not found".to_owned(),
            CodexSessionError::InvalidModel(value) => "Invalid Codex model: ".to_owned().concat(
                value.as_str(),
            ),
            CodexSessionError::InvalidMode(value) => "Invalid Codex mode: ".to_owned().concat(
                value.as_str(),
            ),
            CodexSessionError::InvalidReasoningEffort(value) => {
                "Invalid Codex reasoning effort: ".to_owned().concat(value.as_str())
            },
            CodexSessionError::InvalidConfigOption(id) => {
                "Invalid Codex config option: ".to_owned().concat(id.as_str())
            },
        }
    }
}

impl Session {
    /// The session is in a mode that there is, with a reasoning effort that there is.
    pub open spec fn is_valid(self) -> bool {
        is_codex_mode(self.mode_id) && is_reasoning_effort(self.reasoning_effort)
    }
}

/// Every session is in a mode that there is, with a reasoning effort that there is: it begins so,
/// whatever the settings say, and nothing that is done in it or chosen for it changes that.
pub proof fn law_sessions_stay_valid(
    session: Session,
    settings: Option<AgentSettings>,
    work_dirs: Seq<Seq<char>>,
    codex_thread_id: Option<Seq<char>>,
    message_id: Seq<char>,
    text: Seq<char>,
    history: Seq<Message>,
    config_id: Seq<char>,
)
    requires
        session.is_valid(),
    ensures
        new_session(work_dirs, codex_thread_id, settings).is_valid(),
        restored(session, history, text).is_valid(),
        asked(session, message_id, text).is_valid(),
        answered(session, codex_thread_id, text).is_valid(),
        rewound(session, message_id).is_valid(),
        (Session { selected_model: text, ..session }).is_valid(),
        is_codex_mode(text) ==> in_mode(session, text, settings).is_valid(),
        accepts_option(config_id, text) ==> with_option_value(
            session,
            config_id,
            text,
            settings,
        ).is_valid(),
{
    law_new_sessions_are_valid(settings, text);
    law_new_sessions_are_valid(settings, initial_mode(settings));
}

/// What is done in one session changes no other.
pub proof fn law_other_sessions_are_untouched(
    sessions: Map<Seq<char>, Session>,
    session_id: Seq<char>,
    session: Session,
    other: Seq<char>,
)
    requires
        other != session_id,
    ensures
        sessions.insert(session_id, session).contains_key(other) <==> sessions.contains_key(other),
        with_session(sessions, session_id, session).contains_key(other) <==> sessions.contains_key(
            other,
        ),
        sessions.contains_key(other) ==> sessions.insert(session_id, session)[other]
            == sessions[other],
        sessions.contains_key(other) ==> with_session(sessions, session_id, session)[other]
            == sessions[other],
{
}

/// A session that was begun is there, and what is asked in it does not fail for want of it.
pub proof fn law_begun_session_is_there(
    sessions: Map<Seq<char>, Session>,
    session_id: Seq<char>,
    session: Session,
)
    ensures
        sessions.insert(session_id, session).contains_key(session_id),
        with_session(sessions, session_id, session).contains_key(session_id)
            <==> sessions.contains_key(session_id),
{
}

proof fn lemma_messages_before(history: Seq<Message>, id: Seq<char>)
    ensures
        messages_before(history, id) <= history.len(),
        forall|i: int|
            0 <= i < messages_before(history, id) ==> (#[trigger] history[i]).user_message_id
                != Some(id),
        messages_before(history, id) < history.len() ==> history[messages_before(
            history,
            id,
        ) as int].user_message_id == Some(id),
    decreases history.len(),
{
    if history.len() > 0 && history[0].user_message_id != Some(id) {
        let rest = history.skip(1);
        lemma_messages_before(rest, id);
        assert forall|i: int| 0 <= i < messages_before(history, id) implies (
        #[trigger] history[i]).user_message_id != Some(id) by {
            if i > 0 {
                assert(history[i] == rest[i - 1]);
            }
        }
    }
}

/// A session that goes back to before a message keeps what was said before that message, and
/// nothing else: not the message, and no thread of the Codex program. Where there is no such
/// message, it keeps everything that was said.
pub proof fn law_rewound_session_keeps_what_came_before(session: Session, message_id: Seq<char>)
    ensures
        rewound(session, message_id).codex_thread_id is None,
        rewound(session, message_id).history.is_prefix_of(session.history),
        forall|i: int|
            0 <= i < rewound(session, message_id).history.len() ==> (#[trigger] rewound(
                session,
                message_id,
            ).history[i]).user_message_id != Some(message_id),
        forall|n: int|
            #![trigger session.history.take(n)]
            0 <= n <= session.history.len() && (n < session.history.len()
                ==> session.history[n].user_message_id == Some(message_id)) && (forall|i: int|
                0 <= i < n ==> (#[trigger] session.history[i]).user_message_id != Some(message_id))
                ==> rewound(session, message_id).history == session.history.take(n),
        rewound(session, message_id).work_dirs == session.work_dirs,
        rewound(session, message_id).selected_model == session.selected_model,
        rewound(session, message_id).mode_id == session.mode_id,
        rewound(session, message_id).reasoning_effort == session.reasoning_effort,
{
    let n = messages_before(session.history, message_id) as int;
    lemma_messages_before(session.history, message_id);
    assert(session.history.take(n) =~= session.history.subrange(0, n));
    assert forall|m: int|
        #![trigger session.history.take(m)]
        0 <= m <= session.history.len() && (m < session.history.len()
            ==> session.history[m].user_message_id == Some(message_id)) && (forall|i: int|
            0 <= i < m ==> (#[trigger] session.history[i]).user_message_id != Some(
                message_id,
            )) implies rewound(session, message_id).history == session.history.take(m) by {
        if m < n {
            assert(session.history[m].user_message_id != Some(message_id));
        }
        if n < m {
            assert(session.history[n].user_message_id != Some(message_id));
        }
    }
}

/// What was asked under a new name is taken back by going back to before it, and so is the
/// answer to it.
pub proof fn law_question_can_be_taken_back(
    session: Session,
    message_id: Seq<char>,
    user_text: Seq<char>,
    codex_thread_id: Option<Seq<char>>,
    response: Seq<char>,
)
    requires
        forall|i: int|
            0 <= i < session.history.len() ==> (#[trigger] session.history[i]).user_message_id
                != Some(message_id),
    ensures
        rewound(asked(session, message_id, user_text), message_id) == (Session {
            codex_thread_id: None,
            ..session
        }),
        rewound(
            answered(asked(session, message_id, user_text), codex_thread_id, response),
            message_id,
        ) == (Session { codex_thread_id: None, ..session }),
{
    let question = asked(session, message_id, user_text);
    let answer = answered(question, codex_thread_id, response);
    let n = session.history.len() as int;
    law_rewound_session_keeps_what_came_before(question, message_id);
    law_rewound_session_keeps_what_came_before(answer, message_id);
    assert(question.history.take(n) =~= session.history);
    assert(answer.history.take(n) =~= session.history);
    assert forall|i: int| 0 <= i < n implies (#[trigger] question.history[i]).user_message_id
        != Some(message_id) by {
        assert(question.history[i] == session.history[i]);
    }
    assert forall|i: int| 0 <= i < n implies (#[trigger] answer.history[i]).user_message_id
        != Some(message_id) by {
        assert(answer.history[i] == session.history[i]);
    }
}

/// A session that has a thread of the Codex program goes on with it: the program is told the
/// question alone. A session that went back has none, and the program is told all that is left of
/// the conversation again.
pub proof fn law_conversation_is_retold_only_without_thread(
    session: Session,
    message_id: Seq<char>,
    user_text: Seq<char>,
    codex_thread_id: Seq<char>,
    response: Seq<char>,
)
    ensures
        input_of(answered(session, Some(codex_thread_id), response), user_text) == user_text,
        rewound(session, message_id).history.len() > 0 ==> input_of(
            rewound(session, message_id),
            user_text,
        ) == "Continue this conversation. Prior messages are included for context.\n\n"@
            + transcript(rewound(session, message_id).history) + "User:\n"@ + user_text,
        rewound(session, message_id).history.len() == 0 ==> input_of(
            rewound(session, message_id),
            user_text,
        ) == user_text,
{
}

/// The conversation that is told again is the messages one after the other, each below who said
/// it.
pub proof fn law_transcript_follows_conversation(earlier: Seq<Message>, later: Seq<Message>)
    ensures
        transcript(earlier + later) == transcript(earlier) + transcript(later),
    decreases later.len(),
{
    if later.len() == 0 {
        assert(earlier + later =~= earlier);
        assert(transcript(earlier) + transcript(later) =~= transcript(earlier));
    } else {
        law_transcript_follows_conversation(earlier, later.drop_last());
        assert((earlier + later).drop_last() =~= earlier + later.drop_last());
        assert((earlier + later).last() == later.last());
        assert(transcript(earlier + later) =~= transcript(earlier) + transcript(later));
    }
}

/// A value that an option of a session was given is shown as its value, and the values of the
/// other options are as before, but for the reasoning effort, which goes with the mode.
pub proof fn law_chosen_value_is_shown(
    sessions: Map<Seq<char>, Session>,
    session_id: Seq<char>,
    config_id: Seq<char>,
    value: Seq<char>,
    settings: Option<AgentSettings>,
)
    requires
        sessions.contains_key(session_id),
        accepts_option(config_id, value),
    ensures
        ({
            let after = with_session(
                sessions,
                session_id,
                with_option_value(sessions[session_id], config_id, value, settings),
            );
            &&& model_of(after, session_id) == if config_id == MODEL_CONFIG_ID@ {
                value
            } else {
                model_of(sessions, session_id)
            }
            &&& mode_of(after, session_id) == if config_id == MODE_CONFIG_ID@ {
                value
            } else {
                mode_of(sessions, session_id)
            }
            &&& effort_of(after, session_id) == if config_id == REASONING_EFFORT_CONFIG_ID@ {
                value
            } else if config_id == MODE_CONFIG_ID@ {
                initial_effort(value, settings)
            } else {
                effort_of(sessions, session_id)
            }
        }),
{
    lemma_option_names_differ();
}

/// A value that an option was given in one session is the value that it has in new sessions, once
/// the change to the settings that goes with it was made. In the fast mode the reasoning effort
/// stays the low one.
pub proof fn law_chosen_value_is_remembered(
    content: Option<Map<Seq<char>, AgentSettings>>,
    update: SettingsUpdate,
    config_id: Seq<char>,
    value: Seq<char>,
    work_dirs: Seq<Seq<char>>,
)
    requires
        accepts_option(config_id, value),
        is_update_for(update, config_id, value),
    ensures
        ({
            let written = with_codex(content, updated(codex_or_default(content), update));
            let session = new_session(work_dirs, None, codex_settings(servers(written)));
            &&& config_id == MODEL_CONFIG_ID@ ==> session.selected_model == value
            &&& config_id == MODE_CONFIG_ID@ ==> session.mode_id == value
            &&& config_id == REASONING_EFFORT_CONFIG_ID@ && session.mode_id != FAST_MODE_ID@
                ==> session.reasoning_effort == value
        }),
{
    lemma_option_names_differ();
    law_written_settings_are_read(content, updated(codex_or_default(content), update));
}

} // verus!
