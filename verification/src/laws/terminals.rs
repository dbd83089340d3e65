//! Laws of terminal sessions.
use crate::identity::is_random_id;
use crate::laws::texts::{law_decimal_is_read_back, number_of};
use crate::terminal_sessions::{
    answers_lookup, answers_resize, args_of, error_text, last_bytes, lists_in_order,
    lists_sessions, names_home, new_terminal, pairs, program_of, pty_size, runs_in,
    terminal_values, told, CreateTerminalSession, PtySize, RemoteTerminalSession, Terminal,
    TerminalError, TerminalExit, TerminalMessage, TerminalSessionInfo, TerminalSessionStore,
    TerminalSize, Told,
};
use crate::text::decimal_of;
use vstd::prelude::*;

verus! {

/// What is attached to a session is told all the output that was kept, whether or not the program
/// has ended, then the end of the program where it has, and nothing else.
pub proof fn law_attached_is_told_all_that_is_kept(session: Terminal, attach_id: u64)
    ensures
        ({
            let greeting = session.greeting(attach_id);
            let replayed: int = if session.output.len() > 0 {
                1
            } else {
                0
            };
            let ended: int = if session.exit is Some {
                1
            } else {
                0
            };
            &&& greeting.len() == replayed + ended
            &&& session.output.len() > 0 ==> greeting[0] == (Told::Output {
                session_id: session.id,
                attach_id,
                sequence: session.sequence,
                data: session.output,
                replay: true,
            })
            &&& session.exit matches Some(exit) ==> greeting[replayed] == (Told::Exited {
                session_id: session.id,
                exit,
            })
        }),
{
}

/// To attach something changes of a session only what is attached and when something last was. What
/// was attached before stays so, in its order.
pub proof fn law_attaching_changes_nothing_else(session: Terminal, attach_id: u64, now: u64)
    ensures
        ({
            let after = session.attached(attach_id, now);
            &&& session.attachments.is_prefix_of(after.attachments)
            &&& session.attachments.contains(attach_id) ==> after.attachments.len()
                == session.attachments.len()
            &&& !session.attachments.contains(attach_id) ==> after.attachments.len()
                == session.attachments.len() + 1
            &&& after.attachments.contains(attach_id)
            &&& after == (Terminal {
                attachments: after.attachments,
                last_attached_at: Some(now),
                ..session
            })
        }),
{
    let after = session.attached(attach_id, now);
    assert(session.attachments =~= after.attachments.subrange(
        0,
        session.attachments.len() as int,
    ));
    if !session.attachments.contains(attach_id) {
        assert(after.attachments[session.attachments.len() as int] == attach_id);
    }
}

/// As much of the end of some bytes is kept as may be, and no less.
pub proof fn law_as_much_as_may_be_is_kept(bytes: Seq<u8>, limit: nat)
    ensures
        bytes.len() <= limit ==> last_bytes(bytes, limit) == bytes,
        bytes.len() > limit ==> last_bytes(bytes, limit).len() == limit,
        last_bytes(bytes, limit).is_suffix_of(bytes),
{
    let kept = last_bytes(bytes, limit);
    assert(kept =~= bytes.subrange(bytes.len() - kept.len(), bytes.len() as int));
}

/// Output changes of a session only what is kept of it and how many times there was output, and
/// the end of all output is kept.
pub proof fn law_output_changes_nothing_else(session: Terminal, bytes: Seq<u8>)
    requires
        session.sequence < u64::MAX,
    ensures
        ({
            let after = session.after_output(bytes);
            let all = session.output + bytes;
            &&& after.sequence == session.sequence + 1
            &&& after.output.is_suffix_of(all)
            &&& after.output.len() == if all.len() <= session.replay_buffer_bytes {
                all.len()
            } else {
                session.replay_buffer_bytes as nat
            }
            &&& after == (Terminal {
                output: after.output,
                sequence: after.sequence,
                ..session
            })
        }),
{
    law_as_much_as_may_be_is_kept(session.output + bytes, session.replay_buffer_bytes as nat);
}

/// Each that is attached is told every byte of new output, once, and which output it is.
pub proof fn law_new_output_is_told_whole(session: Terminal, bytes: Seq<u8>, i: int)
    requires
        session.sequence < u64::MAX,
    ensures
        session.output_news(bytes).len() == session.attachments.len(),
        0 <= i < session.attachments.len() ==> {
            &&& session.output_news(bytes)[i] matches Told::Output {
                session_id,
                attach_id,
                sequence,
                data,
                replay,
            }
            &&& session_id == session.id
            &&& attach_id == session.attachments[i]
            &&& sequence == session.sequence + 1
            &&& data == bytes
            &&& !replay
        },
{
}

/// A session is listed with all that is known of it.
pub proof fn law_sessions_are_listed_whole(session: Terminal)
    ensures
        ({
            let listed = session.listed();
            &&& listed.session_id == session.id
            &&& listed.profile_id == session.profile_id
            &&& listed.label == session.label
            &&& listed.cwd == session.cwd
            &&& listed.persistent == session.persistent
            &&& listed.exited == (session.exit is Some)
            &&& session.exit matches Some(exit) ==> listed.exit_code == exit.exit_code
                && listed.signal == exit.signal
            &&& session.exit is None ==> listed.exit_code is None && listed.signal is None
        }),
{
}

/// A new session is what was asked for, and nothing has happened in it.
pub proof fn law_new_sessions_are_what_was_asked_for(
    session_id: Seq<char>,
    request: CreateTerminalSession,
    replay_buffer_bytes: usize,
    now: u64,
)
    ensures
        ({
            let session = new_terminal(session_id, request, replay_buffer_bytes, now);
            &&& session.id == session_id
            &&& session.profile_id == request.profile_id@
            &&& session.label == request.label@
            &&& request.cwd matches Some(cwd) ==> session.cwd == Some(cwd@)
            &&& request.cwd is None ==> session.cwd is None
            &&& session.persistent == request.persistent
            &&& session.created_at == now
            &&& session.last_attached_at is None
            &&& session.output.len() == 0
            &&& session.exit is None
            &&& session.attachments.len() == 0
            &&& session.sequence == 0
            &&& session.replay_buffer_bytes == replay_buffer_bytes
        }),
{
}

/// The program that is run is the one that was asked for, with its arguments; else the shell that
/// the environment names, or the usual one, without arguments.
pub proof fn law_requested_program_is_run(request: CreateTerminalSession, shell: Option<Seq<char>>)
    ensures
        request.program matches Some(program) ==> {
            &&& program_of(request, shell) == program@
            &&& args_of(request).len() == request.args@.len()
            &&& forall|i: int|
                0 <= i < request.args@.len() ==> #[trigger] args_of(request)[i]
                    == request.args@[i]@
        },
        request.program is None ==> {
            &&& args_of(request).len() == 0
            &&& shell matches Some(named) ==> program_of(request, shell) == named
            &&& shell is None ==> program_of(request, shell) == "/bin/sh"@
        },
        pairs(request.env@).len() == request.env@.len(),
        forall|i: int|
            0 <= i < request.env@.len() ==> #[trigger] pairs(request.env@)[i] == (
                request.env@[i].0@,
                request.env@[i].1@,
            ),
{
}

/// A session is run in the directory that was asked for. Only a tilde that stands alone or before
/// a separator is replaced, and what stands after it is kept.
pub proof fn law_session_runs_where_asked(directory: Option<String>, cwd: Option<String>)
    requires
        runs_in(directory, cwd),
    ensures
        cwd is None ==> directory is None,
        cwd matches Some(asked) ==> {
            &&& asked@.len() == 0 <==> directory is None
            &&& asked@.len() > 0 && asked@[0] != '~' ==> directory->0@ == asked@
            &&& asked@.len() > 1 && asked@[1] != '/' && asked@[1] != '\\' ==> directory->0@
                == asked@
            &&& asked@.len() > 0 ==> directory->0@ == asked@ || asked@.skip(1).is_suffix_of(
                directory->0@,
            )
        },
{
}

/// A number of cells or pixels that fits is kept, and the greatest that does is taken for any
/// other. There is at least one row and one column.
pub proof fn law_sizes_are_kept_where_they_fit(size: TerminalSize)
    ensures
        ({
            let pty = pty_size(size);
            &&& pty.rows == if size.rows == 0 {
                1
            } else if size.rows > 65535 {
                65535
            } else {
                size.rows
            }
            &&& pty.cols == if size.columns == 0 {
                1
            } else if size.columns > 65535 {
                65535
            } else {
                size.columns
            }
            &&& pty.pixel_width == if size.cell_width > 65535 {
                65535
            } else {
                size.cell_width
            }
            &&& pty.pixel_height == if size.cell_height > 65535 {
                65535
            } else {
                size.cell_height
            }
        }),
{
}

/// A request that names a session is answered with that session if and only if it is there, and is
/// told else what was missing.
pub proof fn law_lookups_are_answered(
    found: Result<String, TerminalError>,
    sessions: Map<Seq<char>, Terminal>,
    session_id: Option<Seq<char>>,
)
    requires
        answers_lookup(found, sessions, session_id),
    ensures
        session_id is None ==> (found matches Err(error) && error is MissingSessionId),
        session_id matches Some(id) ==> if sessions.contains_key(id) {
            found matches Ok(answer) && answer@ == id
        } else {
            found matches Err(TerminalError::SessionNotFound(answer)) && answer@ == id
        },
{
}

/// A request that names a session and a size is answered with that session and the size of its
/// pseudoterminal if and only if it is there, and is told else what was missing first.
pub proof fn law_resizes_are_answered(
    found: Result<(String, PtySize), TerminalError>,
    sessions: Map<Seq<char>, Terminal>,
    session_id: Option<Seq<char>>,
    size: Option<TerminalSize>,
)
    requires
        answers_resize(found, sessions, session_id, size),
    ensures
        session_id is None ==> (found matches Err(error) && error is MissingSessionId),
        session_id is Some && size is None ==> (found matches Err(error) && error is MissingSize),
        session_id is Some && size is Some ==> if sessions.contains_key(session_id->0) {
            found matches Ok(answer) && answer.0@ == session_id->0 && answer.1 == pty_size(size->0)
        } else {
            found matches Err(TerminalError::SessionNotFound(answer)) && answer@ == session_id->0
        },
{
}

/// A list of the sessions holds every session, once, and nothing else.
pub proof fn law_lists_hold_every_session(
    infos: Seq<TerminalSessionInfo>,
    sessions: Map<Seq<char>, Terminal>,
)
    requires
        lists_sessions(infos, sessions),
    ensures
        exists|order: Seq<Seq<char>>|
            {
                &&& order.no_duplicates()
                &&& order.len() == infos.len()
                &&& forall|id: Seq<char>| #[trigger]
                    order.contains(id) <==> sessions.contains_key(id)
                &&& forall|i: int|
                    0 <= i < infos.len() ==> (#[trigger] infos[i])@ == sessions[order[i]].listed()
            },
{
    let order = choose|order: Seq<Seq<char>>| lists_in_order(infos, sessions, order);
    assert(lists_in_order(infos, sessions, order));
}

/// A refusal says what was wrong, in full.
pub proof fn law_refusals_say_what_was_wrong(error: TerminalError)
    ensures
        match error {
            TerminalError::InvalidProjectId(id) => exists|digits: Seq<char>|
                number_of(digits) == id && error_text(error)
                    == #[trigger] ("invalid remote terminal project id "@ + digits),
            TerminalError::MissingSize => error_text(error) == "missing terminal size"@,
            TerminalError::MissingSessionId => error_text(error) == "missing terminal session id"@,
            TerminalError::SessionNotFound(id) => error_text(error)
                == "terminal session not found: "@ + id@,
        },
{
    if let TerminalError::InvalidProjectId(id) = error {
        law_decimal_is_read_back(id as nat);
        let digits = decimal_of(id as nat);
        assert(number_of(digits) == id && error_text(error)
            == "invalid remote terminal project id "@ + digits);
    }
}

/// The mathematical value of a session, of what is told of it and of what is listed of it holds all
/// that they do.
pub proof fn law_terminals_are_whole(
    session: RemoteTerminalSession,
    message: TerminalMessage,
    messages: Seq<TerminalMessage>,
    info: TerminalSessionInfo,
)
    ensures
        session@.id == session.id@,
        session@.profile_id == session.profile_id@,
        session@.label == session.label@,
        session.cwd matches Some(cwd) ==> session@.cwd == Some(cwd@),
        session.cwd is None ==> session@.cwd is None,
        session@.persistent == session.persistent,
        session@.created_at == session.created_at,
        session@.last_attached_at == session.last_attached_at,
        session@.output == session.output@,
        session@.exit == session.exit,
        session@.attachments == session.attachments@,
        session@.sequence == session.sequence,
        session@.replay_buffer_bytes == session.replay_buffer_bytes,
        match message {
            TerminalMessage::Output(output) => message@ == (Told::Output {
                session_id: output.session_id@,
                attach_id: output.attach_id,
                sequence: output.sequence,
                data: output.data@,
                replay: output.replay,
            }),
            TerminalMessage::Exited(exited) => message@ == (Told::Exited {
                session_id: exited.session_id@,
                exit: (TerminalExit { exit_code: exited.exit_code, signal: exited.signal }),
            }),
        },
        told(messages).len() == messages.len(),
        forall|i: int| 0 <= i < messages.len() ==> #[trigger] told(messages)[i] == messages[i]@,
        info@.session_id == info.session_id@,
        info@.profile_id == info.profile_id@,
        info@.label == info.label@,
        info.cwd matches Some(cwd) ==> info@.cwd == Some(cwd@),
        info.cwd is None ==> info@.cwd is None,
        info@.persistent == info.persistent,
        info@.exited == info.exited,
        info@.exit_code == info.exit_code,
        info@.signal == info.signal,
{
}

/// A tilde stands for the home directory only where it is the whole path or a separator follows
/// it.
pub proof fn law_only_a_leading_tilde_names_home(path: Seq<char>)
    ensures
        names_home(path) ==> path[0] == '~' && (path.len() == 1 || path[1] == '/' || path[1]
            == '\\'),
        path.len() == 1 && path[0] == '~' ==> names_home(path),
        path.len() > 1 && path[0] == '~' && path[1] == '/' ==> names_home(path),
{
}

/// A random identity has the form of a version 4 UUID: digits in groups with hyphens between them.
pub proof fn law_random_identities_are_grouped(id: Seq<char>, i: int)
    requires
        is_random_id(id),
        0 <= i < 36,
    ensures
        id.len() == 36,
        id[i] == '-' <==> i == 8 || i == 13 || i == 18 || i == 23,
        id[i] != '-' ==> '0' <= id[i] <= '9' || 'a' <= id[i] <= 'f',
        id[14] == '4',
{
}

/// The mathematical value of a store holds every session under its name, and stores with the same
/// setup differ only in their sessions.
pub proof fn law_stores_are_whole(
    store: TerminalSessionStore,
    other: TerminalSessionStore,
    map: Map<Seq<char>, RemoteTerminalSession>,
)
    ensures
        store@ == terminal_values(store.sessions@),
        terminal_values(map).dom() == map.dom(),
        forall|id: Seq<char>| #[trigger]
            map.contains_key(id) ==> terminal_values(map)[id] == map[id]@,
        store.same_setup(other) <==> store.next_attach_id == other.next_attach_id
            && store.replay_buffer_bytes == other.replay_buffer_bytes && store.project_id
            == other.project_id,
{
    assert(terminal_values(map).dom() =~= map.dom());
}

} // verus!
