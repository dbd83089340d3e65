//! Laws of the sessions of the Codex agent.
use crate::agent_settings::{lemma_option_names_differ, AgentSettings};
use crate::codex_config::{initial_effort, initial_mode, initial_model, SessionConfigOption};
use crate::codex_session::{
    accepts_option, answered, asked, block_text, block_texts, effort_of, error_text, in_mode,
    input_of, is_refusal_of, is_update_for, messages, mode_of, model_of, new_session, prompt_of,
    restored, retells, rewound, seed_of, seeds_thread, session_values, shows_options,
    told_entries, transcript, updated, with_option_value, with_session, CodexConnection,
    CodexSession, CodexSessionError, ContentBlock, Message, Seed, Session, SettingsUpdate, ThreadSeed,
};
use crate::history::{CodexHistoryMessage, CodexHistoryRole};
use crate::identity::is_random_id;
use crate::laws::choices::law_models_are_known_by_name;
use crate::laws::texts::law_joined_texts_are_whole;
use crate::rollout::{conversation, parsed_lines};
use crate::text::lines_of;
use vstd::prelude::*;

verus! {

/// A message is told again in full, below who said it and with an empty line after it.
pub proof fn law_messages_are_retold_whole(message: Message)
    ensures
        transcript(seq![message]) == (if message.role == CodexHistoryRole::User {
            "User:\n"@
        } else {
            "Assistant:\n"@
        }) + message.text + "\n\n"@,
        transcript(seq![]) == Seq::<char>::empty(),
{
    let history = seq![message];
    assert(history.drop_last() =~= seq![]);
    assert(transcript(history.drop_last()) =~= seq![]);
    assert(transcript(history) =~= (if message.role == CodexHistoryRole::User {
        "User:\n"@
    } else {
        "Assistant:\n"@
    }) + message.text + "\n\n"@);
}

/// The Codex program is told the question in full. Where it has no thread to go on with and
/// something was said, it is told the conversation before it, all of it.
pub proof fn law_questions_are_asked_whole(session: Session, user_text: Seq<char>)
    ensures
        session.codex_thread_id is Some ==> input_of(session, user_text) == user_text,
        session.history.len() == 0 ==> input_of(session, user_text) == user_text,
        session.codex_thread_id is None && session.history.len() > 0 ==> input_of(
            session,
            user_text,
        ) == "Continue this conversation. Prior messages are included for context.\n\n"@
            + transcript(session.history) + "User:\n"@ + user_text,
{
}

/// Texts, addresses and written-out resources of a prompt are asked in full; images, sounds and
/// other parts are not.
pub proof fn law_parts_of_prompts_are_whole(block: ContentBlock)
    ensures
        block matches ContentBlock::Text(text) ==> block_text(block) == Some(text@),
        block matches ContentBlock::ResourceLink(uri) ==> block_text(block) == Some(uri@),
        block matches ContentBlock::Resource(rendering) ==> block_text(block) == Some(rendering@),
        block is Image || block is Audio || block is Other ==> block_text(block) is None,
{
}

/// A prompt is asked part by part, in its order, with an empty line between each two texts.
pub proof fn law_prompts_are_asked_part_by_part(
    block: ContentBlock,
    earlier: Seq<ContentBlock>,
    later: Seq<ContentBlock>,
)
    ensures
        match block_text(block) {
            Some(text) => block_texts(seq![block]) == seq![text] && prompt_of(seq![block]) == text,
            None => block_texts(seq![block]).len() == 0 && prompt_of(seq![block]).len() == 0,
        },
        block_texts(earlier + later) == block_texts(earlier) + block_texts(later),
        block_texts(earlier).len() > 0 && block_texts(later).len() > 0 ==> prompt_of(
            earlier + later,
        ) == prompt_of(earlier) + "\n\n"@ + prompt_of(later),
        block_texts(later).len() == 0 ==> prompt_of(earlier + later) == prompt_of(earlier),
        block_texts(earlier).len() == 0 ==> prompt_of(earlier + later) == prompt_of(later),
    decreases later.len(),
{
    let single = seq![block];
    assert(single.drop_last() =~= seq![]);
    assert(block_texts(single.drop_last()) =~= seq![]);
    assert(block_text(block) matches Some(text) ==> block_texts(single) =~= seq![text]);
    if later.len() == 0 {
        assert(earlier + later =~= earlier);
        assert(block_texts(earlier) + block_texts(later) =~= block_texts(earlier));
    } else {
        law_prompts_are_asked_part_by_part(block, earlier, later.drop_last());
        assert((earlier + later).drop_last() =~= earlier + later.drop_last());
        assert((earlier + later).last() == later.last());
        assert(block_texts(earlier + later) =~= block_texts(earlier) + block_texts(later));
    }
    law_joined_texts_are_whole(seq![], block_texts(earlier), block_texts(later), "\n\n"@);
    if block_texts(later).len() == 0 {
        assert(block_texts(earlier) + block_texts(later) =~= block_texts(earlier));
    }
    if block_texts(earlier).len() == 0 {
        assert(block_texts(earlier) + block_texts(later) =~= block_texts(later));
    }
}

/// What is asked is added to the conversation in full, under its name, and changes nothing else of
/// the session.
pub proof fn law_asking_adds_the_question(
    session: Session,
    message_id: Seq<char>,
    user_text: Seq<char>,
)
    ensures
        ({
            let after = asked(session, message_id, user_text);
            let n = session.history.len() as int;
            &&& after.history.len() == n + 1
            &&& after.history.take(n) == session.history
            &&& after.history[n].user_message_id == Some(message_id)
            &&& after.history[n].role == CodexHistoryRole::User
            &&& after.history[n].text == user_text
            &&& after == (Session { history: after.history, ..session })
        }),
{
    let after = asked(session, message_id, user_text);
    assert(after.history.take(session.history.len() as int) =~= session.history);
}

/// An answer that is not empty is added to the conversation in full. A thread that the Codex
/// program named is kept, and else the one that the session had. Nothing else changes.
pub proof fn law_answering_adds_the_answer(
    session: Session,
    codex_thread_id: Option<Seq<char>>,
    response: Seq<char>,
)
    ensures
        ({
            let after = answered(session, codex_thread_id, response);
            let n = session.history.len() as int;
            &&& response.len() == 0 ==> after.history == session.history
            &&& response.len() > 0 ==> {
                &&& after.history.len() == n + 1
                &&& after.history.take(n) == session.history
                &&& after.history[n].user_message_id is None
                &&& after.history[n].role == CodexHistoryRole::Assistant
                &&& after.history[n].text == response
            }
            &&& codex_thread_id is Some ==> after.codex_thread_id == codex_thread_id
            &&& codex_thread_id is None ==> after.codex_thread_id == session.codex_thread_id
            &&& after == (Session {
                history: after.history,
                codex_thread_id: after.codex_thread_id,
                ..session
            })
        }),
{
    let after = answered(session, codex_thread_id, response);
    if response.len() > 0 {
        assert(after.history.take(session.history.len() as int) =~= session.history);
    }
}

/// To go back changes nothing of a session but its conversation and its thread.
pub proof fn law_going_back_changes_nothing_else(session: Session, message_id: Seq<char>)
    ensures
        rewound(session, message_id) == (Session {
            history: rewound(session, message_id).history,
            codex_thread_id: None,
            ..session
        }),
{
}

/// A new session has the directories and the thread that it was given, and begins with nothing
/// said, as the settings say.
pub proof fn law_new_sessions_are_empty(
    work_dirs: Seq<Seq<char>>,
    codex_thread_id: Option<Seq<char>>,
    settings: Option<AgentSettings>,
)
    ensures
        ({
            let session = new_session(work_dirs, codex_thread_id, settings);
            &&& session.work_dirs == work_dirs
            &&& session.codex_thread_id == codex_thread_id
            &&& session.history.len() == 0
            &&& session.selected_model == initial_model(settings)
            &&& session.mode_id == initial_mode(settings)
            &&& session.reasoning_effort == initial_effort(session.mode_id, settings)
        }),
{
}

/// A session that was filled holds the conversation and the thread that it was filled with, and is
/// else as before.
pub proof fn law_filled_sessions_hold_the_conversation(
    session: Session,
    history: Seq<Message>,
    codex_session_id: Seq<char>,
)
    ensures
        restored(session, history, codex_session_id) == (Session {
            history,
            codex_thread_id: Some(codex_session_id),
            ..session
        }),
{
}

/// A conversation that retells a transcript holds what the transcript does, message by message and
/// in full, and exactly the messages of the user have a new name.
pub proof fn law_retold_conversations_are_whole(history: Seq<Message>, rollout: Seq<char>, i: int)
    requires
        retells(history, rollout),
    ensures
        parsed_lines(lines_of(rollout)) is Some,
        history.len() == conversation(parsed_lines(lines_of(rollout))->0).len(),
        0 <= i < history.len() ==> {
            let entry = conversation(parsed_lines(lines_of(rollout))->0)[i];
            &&& history[i].text == entry.text
            &&& history[i].role == entry.role
            &&& match history[i].user_message_id {
                Some(id) => history[i].role == CodexHistoryRole::User && is_random_id(id),
                None => history[i].role == CodexHistoryRole::Assistant,
            }
        },
{
    if 0 <= i < history.len() {
        assert(history[i].freshly_named());
        assert(told_entries(history)[i] == history[i].entry());
    }
}

/// Every message of a conversation is put into the thread, in full and in its order, as said by who
/// said it, and messages of the user under their names.
pub proof fn law_threads_are_seeded_whole(seeds: Seq<ThreadSeed>, history: Seq<Message>, i: int)
    requires
        seeds_thread(seeds, history),
    ensures
        seeds.len() == history.len(),
        0 <= i < history.len() ==> match seeds[i] {
            ThreadSeed::User { message_id, text } => {
                &&& history[i].role == CodexHistoryRole::User
                &&& text@ == history[i].text
                &&& match message_id {
                    Some(id) => history[i].user_message_id == Some(id.id@),
                    None => history[i].user_message_id is None,
                }
            },
            ThreadSeed::Assistant { text } => history[i].role == CodexHistoryRole::Assistant
                && text@ == history[i].text,
        },
{
    if 0 <= i < history.len() {
        assert(seeds[i]@ == seed_of(history[i]));
    }
}

/// A change to a session is made in that session, where it is there, and nowhere else.
pub proof fn law_sessions_are_changed_in_place(
    sessions: Map<Seq<char>, Session>,
    session_id: Seq<char>,
    session: Session,
)
    ensures
        sessions.contains_key(session_id) ==> with_session(sessions, session_id, session)
            == sessions.insert(session_id, session),
        !sessions.contains_key(session_id) ==> with_session(sessions, session_id, session)
            == sessions,
{
}

/// The model, the mode and the reasoning effort of a session are its own, and the usual ones where
/// there is no such session.
pub proof fn law_values_are_those_of_the_session(
    sessions: Map<Seq<char>, Session>,
    session_id: Seq<char>,
)
    ensures
        sessions.contains_key(session_id) ==> {
            &&& model_of(sessions, session_id) == sessions[session_id].selected_model
            &&& mode_of(sessions, session_id) == sessions[session_id].mode_id
            &&& effort_of(sessions, session_id) == sessions[session_id].reasoning_effort
        },
        !sessions.contains_key(session_id) ==> {
            &&& model_of(sessions, session_id) == "gpt-5.5"@
            &&& mode_of(sessions, session_id) == "standard"@
            &&& effort_of(sessions, session_id) == "medium"@
        },
{
}

/// The options that are shown are the mode, the model and the reasoning effort, with the values of
/// the session.
pub proof fn law_shown_options_have_the_values_of_the_session(
    options: Seq<SessionConfigOption>,
    sessions: Map<Seq<char>, Session>,
    session_id: Seq<char>,
)
    requires
        shows_options(options, sessions, session_id),
    ensures
        options.len() == 3,
        options[0].id@ == "mode"@,
        options[0].current_value@ == mode_of(sessions, session_id),
        options[1].id@ == "model"@,
        options[1].current_value@ == model_of(sessions, session_id),
        options[2].id@ == "reasoning_effort"@,
        options[2].current_value@ == effort_of(sessions, session_id),
{
}

/// An option takes exactly the values that there are for it, and there are three options.
pub proof fn law_options_take_their_values(config_id: Seq<char>, value: Seq<char>)
    ensures
        config_id == "model"@ ==> (accepts_option(config_id, value) <==> value == "gpt-5.5"@
            || value == "gpt-5.3-codex"@ || value == "gpt-5.1-codex"@ || value == "gpt-5-codex"@),
        config_id == "mode"@ ==> (accepts_option(config_id, value) <==> value == "standard"@
            || value == "fast"@),
        config_id == "reasoning_effort"@ ==> (accepts_option(config_id, value) <==> value == "low"@
            || value == "medium"@ || value == "high"@),
        config_id != "model"@ && config_id != "mode"@ && config_id != "reasoning_effort"@
            ==> !accepts_option(config_id, value),
{
    lemma_option_names_differ();
    law_models_are_known_by_name(value);
}

/// To choose a value changes of a session the value of that option and nothing else, but for the
/// reasoning effort, which goes with the mode.
pub proof fn law_choosing_changes_nothing_else(
    session: Session,
    config_id: Seq<char>,
    value: Seq<char>,
    settings: Option<AgentSettings>,
)
    requires
        accepts_option(config_id, value),
    ensures
        config_id == "model"@ ==> with_option_value(session, config_id, value, settings) == (
        Session { selected_model: value, ..session }),
        config_id == "mode"@ ==> with_option_value(session, config_id, value, settings) == (
        Session { mode_id: value, reasoning_effort: initial_effort(value, settings), ..session }),
        config_id == "reasoning_effort"@ ==> with_option_value(
            session,
            config_id,
            value,
            settings,
        ) == (Session { reasoning_effort: value, ..session }),
        in_mode(session, value, settings) == (Session {
            mode_id: value,
            reasoning_effort: initial_effort(value, settings),
            ..session
        }),
{
    lemma_option_names_differ();
}

/// The change to the settings that goes with a value sets that value, of that option, and nothing
/// else of the settings.
pub proof fn law_choices_are_saved(
    settings: AgentSettings,
    update: SettingsUpdate,
    config_id: Seq<char>,
    value: Seq<char>,
)
    requires
        accepts_option(config_id, value),
        is_update_for(update, config_id, value),
    ensures
        config_id == "model"@ ==> updated(settings, update) == (AgentSettings {
            default_model: Some(value),
            ..settings
        }),
        config_id == "mode"@ ==> updated(settings, update) == (AgentSettings {
            default_mode: Some(value),
            ..settings
        }),
        config_id == "reasoning_effort"@ ==> updated(settings, update) == (AgentSettings {
            default_config_options: settings.default_config_options.insert(config_id, value),
            ..settings
        }),
{
    lemma_option_names_differ();
}

/// A change to the settings sets what it names, to what it says, and nothing else.
pub proof fn law_updates_change_nothing_else(settings: AgentSettings, update: SettingsUpdate)
    ensures
        match update {
            SettingsUpdate::DefaultModel(Some(model)) => updated(settings, update) == (
            AgentSettings { default_model: Some(model@), ..settings }),
            SettingsUpdate::DefaultModel(None) => updated(settings, update) == (AgentSettings {
                default_model: None,
                ..settings
            }),
            SettingsUpdate::DefaultMode(Some(mode)) => updated(settings, update) == (
            AgentSettings { default_mode: Some(mode@), ..settings }),
            SettingsUpdate::DefaultMode(None) => updated(settings, update) == (AgentSettings {
                default_mode: None,
                ..settings
            }),
            SettingsUpdate::DefaultConfigOption { config_id, value_id: Some(value) } => updated(
                settings,
                update,
            ) == (AgentSettings {
                default_config_options: settings.default_config_options.insert(config_id@, value@),
                ..settings
            }),
            SettingsUpdate::DefaultConfigOption { config_id, value_id: None } => updated(
                settings,
                update,
            ) == (AgentSettings {
                default_config_options: settings.default_config_options.remove(config_id@),
                ..settings
            }),
        },
{
}

/// A refusal names what was refused, in full.
pub proof fn law_refusals_name_what_was_refused(
    error: CodexSessionError,
    config_id: Seq<char>,
    value: Seq<char>,
)
    ensures
        match error {
            CodexSessionError::SessionNotFound => error_text(error) == "Codex session not found"@,
            CodexSessionError::ModelNotFound => error_text(error) == "Codex model not found"@,
            CodexSessionError::InvalidModel(named) => error_text(error) == "Invalid Codex model: "@
                + named@,
            CodexSessionError::InvalidMode(named) => error_text(error) == "Invalid Codex mode: "@
                + named@,
            CodexSessionError::InvalidReasoningEffort(named) => error_text(error)
                == "Invalid Codex reasoning effort: "@ + named@,
            CodexSessionError::InvalidConfigOption(named) => error_text(error)
                == "Invalid Codex config option: "@ + named@,
        },
        is_refusal_of(error, config_id, value) ==> {
            &&& config_id == "model"@ ==> error_text(error) == "Invalid Codex model: "@ + value
            &&& config_id == "mode"@ ==> error_text(error) == "Invalid Codex mode: "@ + value
            &&& config_id == "reasoning_effort"@ ==> error_text(error)
                == "Invalid Codex reasoning effort: "@ + value
            &&& config_id != "model"@ && config_id != "mode"@ && config_id != "reasoning_effort"@
                ==> error_text(error) == "Invalid Codex config option: "@ + config_id
        },
{
    lemma_option_names_differ();
}

/// The mathematical value of a session, of its messages and of what is put into a thread holds all
/// that they do.
pub proof fn law_sessions_are_whole(
    session: CodexSession,
    message: CodexHistoryMessage,
    list: Seq<CodexHistoryMessage>,
    seed: ThreadSeed,
    map: Map<Seq<char>, CodexSession>,
    connection: CodexConnection,
)
    ensures
        connection@ == session_values(connection.sessions@),
        session.codex_thread_id matches Some(id) ==> session@.codex_thread_id == Some(id@),
        session.codex_thread_id is None ==> session@.codex_thread_id is None,
        session@.history == messages(session.history@),
        session@.work_dirs.len() == session.work_dirs@.len(),
        forall|i: int|
            0 <= i < session.work_dirs@.len() ==> #[trigger] session@.work_dirs[i]
                == session.work_dirs@[i]@,
        session@.selected_model == session.selected_model@,
        session@.mode_id == session.mode_id@,
        session@.reasoning_effort == session.reasoning_effort@,
        message.user_message_id matches Some(id) ==> message@.user_message_id == Some(id.id@),
        message.user_message_id is None ==> message@.user_message_id is None,
        message@.role == message.role,
        message@.text == message.text@,
        messages(list).len() == list.len(),
        forall|i: int| 0 <= i < list.len() ==> #[trigger] messages(list)[i] == list[i]@,
        match seed {
            ThreadSeed::User { message_id: Some(id), text } => seed@ == (Seed::User {
                message_id: Some(id.id@),
                text: text@,
            }),
            ThreadSeed::User { message_id: None, text } => seed@ == (Seed::User {
                message_id: None,
                text: text@,
            }),
            ThreadSeed::Assistant { text } => seed@ == (Seed::Assistant { text: text@ }),
        },
        session_values(map).dom() == map.dom(),
        forall|id: Seq<char>| #[trigger]
            map.contains_key(id) ==> session_values(map)[id] == map[id]@,
{
    assert(session_values(map).dom() =~= map.dom());
}

} // verus!
