//! Terminal sessions that outlive the windows in which they are shown.
use crate::identity::{is_random_id, random_id};
use crate::text::{copied, copied_list, decimal, decimal_of, optional_text, texts};
use crate::text_map::{lists_keys, TextMap};
use vstd::prelude::*;

verus! {

/// How many bytes of the output of a session are kept.
pub const DEFAULT_REPLAY_BUFFER_BYTES: usize = 10_485_760;

/// The shell that is run where the environment names none.
pub const FALLBACK_SHELL: &'static str = "/bin/sh";

/// The size of a terminal in cells, and of a cell in pixels.
#[derive(Clone, Copy, Debug, PartialEq, Eq, Structural)]
pub struct TerminalSize {
    pub rows: u32,
    pub columns: u32,
    pub cell_width: u32,
    pub cell_height: u32,
}

/// The size of a pseudoterminal.
#[derive(Clone, Copy, Debug, PartialEq, Eq, Structural)]
pub struct PtySize {
    pub rows: u16,
    pub cols: u16,
    pub pixel_width: u16,
    pub pixel_height: u16,
}

/// A request for a new session.
pub struct CreateTerminalSession {
    pub project_id: u64,
    pub profile_id: String,
    pub label: String,
    pub cwd: Option<String>,
    pub persistent: bool,
    pub program: Option<String>,
    pub args: Vec<String>,
    pub env: Vec<(String, String)>,
    pub initial_size: Option<TerminalSize>,
}

/// A program to run in a terminal.
pub struct TerminalCommand {
    pub program: String,
    pub args: Vec<String>,
    pub cwd: Option<String>,
    pub env: Vec<(String, String)>,
}

/// How a new session is to be started.
pub struct TerminalPlan {
    pub session_id: String,
    pub size: PtySize,
    pub command: TerminalCommand,
}

/// How the program of a session ended.
#[derive(Clone, Copy, Debug, PartialEq, Eq, Structural)]
pub struct TerminalExit {
    pub exit_code: Option<i32>,
    pub signal: Option<i32>,
}

/// A terminal session.
pub struct RemoteTerminalSession {
    pub id: String,
    pub profile_id: String,
    pub label: String,
    pub cwd: Option<String>,
    pub persistent: bool,
    /// When the session began, on the clock of the caller.
    pub created_at: u64,
    /// When something was last attached to the session, on the clock of the caller.
    pub last_attached_at: Option<u64>,
    /// The end of the output.
    pub output: Vec<u8>,
    pub exit: Option<TerminalExit>,
    /// What is attached to the session.
    pub attachments: Vec<u64>,
    /// How many times there was output.
    pub sequence: u64,
    /// How many bytes of the output are kept.
    pub replay_buffer_bytes: usize,
}

/// The terminal sessions of a server.
pub struct TerminalSessionStore {
    pub sessions: TextMap<RemoteTerminalSession>,
    pub next_attach_id: u64,
    pub replay_buffer_bytes: usize,
    /// The project that requests have to name.
    pub project_id: u64,
}

/// Output of a session.
pub struct TerminalOutput {
    pub session_id: String,
    pub attach_id: u64,
    pub sequence: u64,
    pub data: Vec<u8>,
    /// Whether the output is an earlier one, told again.
    pub replay: bool,
}

/// The end of the program of a session.
pub struct TerminalSessionExited {
    pub session_id: String,
    pub exit_code: Option<i32>,
    pub signal: Option<i32>,
}

/// Something that is told of a session.
pub enum TerminalMessage {
    Output(TerminalOutput),
    Exited(TerminalSessionExited),
}

/// What is listed of a session.
pub struct TerminalSessionInfo {
    pub session_id: String,
    pub profile_id: String,
    pub label: String,
    pub cwd: Option<String>,
    pub persistent: bool,
    pub exited: bool,
    pub exit_code: Option<i32>,
    pub signal: Option<i32>,
}

/// Why a request was refused.
pub enum TerminalError {
    InvalidProjectId(u64),
    MissingSize,
    MissingSessionId,
    SessionNotFound(String),
}

/// A terminal session as a mathematical value.
pub struct Terminal {
    pub id: Seq<char>,
    pub profile_id: Seq<char>,
    pub label: Seq<char>,
    pub cwd: Option<Seq<char>>,
    pub persistent: bool,
    pub created_at: u64,
    pub last_attached_at: Option<u64>,
    pub output: Seq<u8>,
    pub exit: Option<TerminalExit>,
    pub attachments: Seq<u64>,
    pub sequence: u64,
    pub replay_buffer_bytes: usize,
}

/// Something that is told of a session, as a mathematical value.
pub enum Told {
    Output {
        session_id: Seq<char>,
        attach_id: u64,
        sequence: u64,
        data: Seq<u8>,
        replay: bool,
    },
    Exited { session_id: Seq<char>, exit: TerminalExit },
}

/// What is listed of a session, as a mathematical value.
pub struct Listed {
    pub session_id: Seq<char>,
    pub profile_id: Seq<char>,
    pub label: Seq<char>,
    pub cwd: Option<Seq<char>>,
    pub persistent: bool,
    pub exited: bool,
    pub exit_code: Option<i32>,
    pub signal: Option<i32>,
}

impl View for RemoteTerminalSession {
    type V = Terminal;

    open spec fn view(&self) -> Terminal {
        Terminal {
            id: self.id@,
            profile_id: self.profile_id@,
            label: self.label@,
            cwd: optional_text(self.cwd),
            persistent: self.persistent,
            created_at: self.created_at,
            last_attached_at: self.last_attached_at,
            output: self.output@,
            exit: self.exit,
            attachments: self.attachments@,
            sequence: self.sequence,
            replay_buffer_bytes: self.replay_buffer_bytes,
        }
    }
}

impl View for TerminalMessage {
    type V = Told;

    open spec fn view(&self) -> Told {
        match self {
            TerminalMessage::Output(output) => Told::Output {
                session_id: output.session_id@,
                attach_id: output.attach_id,
                sequence: output.sequence,
                data: output.data@,
                replay: output.replay,
            },
            TerminalMessage::Exited(exited) => Told::Exited {
                session_id: exited.session_id@,
                exit: TerminalExit { exit_code: exited.exit_code, signal: exited.signal },
            },
        }
    }
}

/// The messages of a list.
pub open spec fn told(messages: Seq<TerminalMessage>) -> Seq<Told> {
    Seq::new(messages.len(), |i: int| messages[i]@)
}

impl View for TerminalSessionInfo {
    type V = Listed;

    open spec fn view(&self) -> Listed {
        Listed {
            session_id: self.session_id@,
            profile_id: self.profile_id@,
            label: self.label@,
            cwd: optional_text(self.cwd),
            persistent: self.persistent,
            exited: self.exited,
            exit_code: self.exit_code,
            signal: self.signal,
        }
    }
}

/// The sessions of a map.
pub open spec fn terminal_values(map: Map<Seq<char>, RemoteTerminalSession>) -> Map<
    Seq<char>,
    Terminal,
> {
    map.map_values(|session: RemoteTerminalSession| session@)
}

impl View for TerminalSessionStore {
    type V = Map<Seq<char>, Terminal>;

    open spec fn view(&self) -> Map<Seq<char>, Terminal> {
        terminal_values(self.sessions@)
    }
}

/// A number as it fits into 16 bits: the greatest that does where it is too great.
pub open spec fn clipped(n: u32) -> u16 {
    if n <= u16::MAX {
        n as u16
    } else {
        u16::MAX
    }
}

/// A count as it fits into 16 bits, and not zero.
pub open spec fn clipped_count(n: u32) -> u16 {
    if n == 0 {
        1
    } else {
        clipped(n)
    }
}

/// The size of the pseudoterminal for a size of a terminal.
pub open spec fn pty_size(size: TerminalSize) -> PtySize {
    PtySize {
        rows: clipped_count(size.rows),
        cols: clipped_count(size.columns),
        pixel_width: clipped(size.cell_width),
        pixel_height: clipped(size.cell_height),
    }
}

/// The last `limit` bytes, or all of them where there are fewer.
pub open spec fn last_bytes(bytes: Seq<u8>, limit: nat) -> Seq<u8> {
    if bytes.len() <= limit {
        bytes
    } else {
        bytes.skip(bytes.len() - limit)
    }
}

impl Terminal {
    /// The session with something attached to it.
    pub open spec fn attached(self, attach_id: u64, now: u64) -> Terminal {
        Terminal {
            last_attached_at: Some(now),
            attachments: if self.attachments.contains(attach_id) {
                self.attachments
            } else {
                self.attachments.push(attach_id)
            },
            ..self
        }
    }

    /// What is told to something that is attached: the output that was kept, and the end of the
    /// program where it ended.
    pub open spec fn greeting(self, attach_id: u64) -> Seq<Told> {
        let replay = if self.output.len() == 0 {
            seq![]
        } else {
            seq![
                Told::Output {
                    session_id: self.id,
                    attach_id,
                    sequence: self.sequence,
                    data: self.output,
                    replay: true,
                },
            ]
        };
        let end = match self.exit {
            Some(exit) => seq![Told::Exited { session_id: self.id, exit }],
            None => seq![],
        };
        replay + end
    }

    /// The session after more output.
    pub open spec fn after_output(self, bytes: Seq<u8>) -> Terminal {
        Terminal {
            output: last_bytes(self.output + bytes, self.replay_buffer_bytes as nat),
            sequence: (self.sequence + 1) as u64,
            ..self
        }
    }

    /// What is told of more output, to each that is attached.
    pub open spec fn output_news(self, bytes: Seq<u8>) -> Seq<Told> {
        Seq::new(
            self.attachments.len(),
            |i: int|
                Told::Output {
                    session_id: self.id,
                    attach_id: self.attachments[i],
                    sequence: (self.sequence + 1) as u64,
                    data: bytes,
                    replay: false,
                },
        )
    }

    /// What is listed of the session.
    pub open spec fn listed(self) -> Listed {
        Listed {
            session_id: self.id,
            profile_id: self.profile_id,
            label: self.label,
            cwd: self.cwd,
            persistent: self.persistent,
            exited: self.exit is Some,
            exit_code: match self.exit {
                Some(exit) => exit.exit_code,
                None => None,
            },
            signal: match self.exit {
                Some(exit) => exit.signal,
                None => None,
            },
        }
    }
}

/// A session that begins.
pub open spec fn new_terminal(
    session_id: Seq<char>,
    request: CreateTerminalSession,
    replay_buffer_bytes: usize,
    now: u64,
) -> Terminal {
    Terminal {
        id: session_id,
        profile_id: request.profile_id@,
        label: request.label@,
        cwd: optional_text(request.cwd),
        persistent: request.persistent,
        created_at: now,
        last_attached_at: None,
        output: seq![],
        exit: None,
        attachments: seq![],
        sequence: 0,
        replay_buffer_bytes,
    }
}

fn clip(n: u32) -> (clipped_n: u16)
    ensures
        clipped_n == clipped(n),
{
    if n <= 0xffff {
        n as u16
    } else {
        0xffff
    }
}

/// The size of the pseudoterminal for a size of a terminal.
pub fn size_to_pty_size(size: &TerminalSize) -> (pty: PtySize)
    ensures
        pty == pty_size(*size),
{
    let rows: u16 = clip(size.rows);
    let cols: u16 = clip(size.columns);
    PtySize {
        rows: if rows == 0 {
            1
        } else {
            rows
        },
        cols: if cols == 0 {
            1
        } else {
            cols
        },
        pixel_width: clip(size.cell_width),
        pixel_height: clip(size.cell_height),
    }
}

/// Whether a path begins with a tilde that stands for the home directory.
pub open spec fn names_home(path: Seq<char>) -> bool {
    &&& path.len() > 0
    &&& path[0] == '~'
    &&& path.len() == 1 || path[1] == '/' || path[1] == '\\'
}

/// `shellexpand::tilde`: only a tilde at the beginning of a path, which is the whole path or
/// stands before a separator, is replaced, and what follows it is kept. What it is replaced with
/// depends on the environment; where that names no home directory, the path is kept as it is.
#[verifier::external_body]
fn expand_tilde(path: &str) -> (expanded: String)
    ensures
        !names_home(path@) ==> expanded@ == path@,
        expanded@ == path@ || path@.skip(1).is_suffix_of(expanded@),
{
    shellexpand::tilde(path).to_string()
}

/// `directory` is where the program of a session is run for which `cwd` was asked: nowhere in
/// particular where that is missing or empty, else there, up to a home directory in place of a
/// tilde.
pub open spec fn runs_in(directory: Option<String>, cwd: Option<String>) -> bool {
    match cwd {
        Some(path) => if path@.len() == 0 {
            directory is None
        } else {
            &&& directory matches Some(expanded)
            &&& !names_home(path@) ==> expanded@ == path@
            &&& expanded@ == path@ || path@.skip(1).is_suffix_of(expanded@)
        },
        None => directory is None,
    }
}

/// The directory in which the program of a session is run: the one that is asked for, unless it
/// is empty.
pub fn session_directory(cwd: &Option<String>) -> (directory: Option<String>)
    ensures
        runs_in(directory, *cwd),
{
    match cwd {
        Some(path) => {
            if path.as_str().is_empty() {
                None
            } else {
                Some(expand_tilde(path.as_str()))
            }
        },
        None => None,
    }
}

/// The names and values of a list.
pub open spec fn pairs(list: Seq<(String, String)>) -> Seq<(Seq<char>, Seq<char>)> {
    Seq::new(list.len(), |i: int| (list[i].0@, list[i].1@))
}

/// The program that a request asks for, or the shell where it asks for none.
pub open spec fn program_of(request: CreateTerminalSession, shell: Option<Seq<char>>) -> Seq<char> {
    match request.program {
        Some(program) => program@,
        None => match shell {
            Some(shell) => shell,
            None => FALLBACK_SHELL@,
        },
    }
}

/// The arguments for the program that a request asks for. The shell has none.
pub open spec fn args_of(request: CreateTerminalSession) -> Seq<Seq<char>> {
    match request.program {
        Some(_) => texts(request.args@),
        None => seq![],
    }
}

fn copied_bytes(bytes: &[u8]) -> (copy: Vec<u8>)
    ensures
        copy@ == bytes@,
{
    let mut copy: Vec<u8> = Vec::new();
    copy.extend_from_slice(bytes);
    assert(copy@ =~= bytes@);
    copy
}

/// The program to run for a request, with the shell that the environment names and in a
/// directory.
pub fn terminal_command(
    request: &CreateTerminalSession,
    shell: Option<String>,
    directory: Option<String>,
) -> (command: TerminalCommand)
    ensures
        command.program@ == program_of(*request, optional_text(shell)),
        texts(command.args@) == args_of(*request),
        command.cwd == directory,
        pairs(command.env@) == pairs(request.env@),
{
    let mut args: Vec<String> = Vec::new();
    let program = match &request.program {
        Some(program) => {
            args = copied_list(&request.args);
            program.clone()
        },
        None => match shell {
            Some(shell) => shell,
            None => FALLBACK_SHELL.to_owned(),
        },
    };
    assert(texts(args@) =~= args_of(*request));
    let mut env: Vec<(String, String)> = Vec::new();
    let mut i: usize = 0;
    while i < request.env.len()
        invariant
            i <= request.env@.len(),
            env@.len() == i,
            forall|j: int|
                #![trigger env@[j]]
                0 <= j < i ==> env@[j].0@ == request.env@[j].0@ && env@[j].1@
                    == request.env@[j].1@,
        decreases request.env@.len() - i,
    {
        env.push((request.env[i].0.clone(), request.env[i].1.clone()));
        i = i + 1;
    }
    assert(pairs(env@) =~= pairs(request.env@));
    TerminalCommand { program, args, cwd: directory, env }
}

impl TerminalExit {
    /// The end of a program with an exit code. Codes that do not fit are taken as negative ones.
    pub fn with_code(code: u32) -> (exit: Self)
        ensures
            exit.signal is None,
            exit.exit_code == Some(
                if code <= i32::MAX {
                    code as i32
                } else {
                    (code - 0x1_0000_0000) as i32
                },
            ),
    {
        assert(code > 0x7fff_ffff ==> (code as i32) == code - 0x1_0000_0000) by (bit_vector);
        TerminalExit { exit_code: Some(code as i32), signal: None }
    }
}

impl RemoteTerminalSession {
    fn exited_message(&self, exit: TerminalExit) -> (message: TerminalMessage)
        ensures
            message@ == (Told::Exited { session_id: self.id@, exit }),
    {
        TerminalMessage::Exited(
            TerminalSessionExited {
                session_id: self.id.clone(),
                exit_code: exit.exit_code,
                signal: exit.signal,
            },
        )
    }

    fn is_attached(&self, attach_id: u64) -> (yes: bool)
        ensures
            yes == self.attachments@.contains(attach_id),
    {
        let mut i: usize = 0;
        while i < self.attachments.len()
            invariant
                i <= self.attachments@.len(),
                forall|j: int| 0 <= j < i ==> self.attachments@[j] != attach_id,
            decreases self.attachments@.len() - i,
        {
            if self.attachments[i] == attach_id {
                return true;
            }
            i = i + 1;
        }
        false
    }

    /// Attaches something to the session, and returns what is told to it.
    pub fn attach(&mut self, attach_id: u64, now: u64) -> (messages: Vec<TerminalMessage>)
        ensures
            final(self)@ == old(self)@.attached(attach_id, now),
            told(messages@) == old(self)@.greeting(attach_id),
    {
        self.last_attached_at = Some(now);
        if !self.is_attached(attach_id) {
            self.attachments.push(attach_id);
        }
        let mut messages: Vec<TerminalMessage> = Vec::new();
        if self.output.len() > 0 {
            let message = TerminalMessage::Output(
                TerminalOutput {
                    session_id: self.id.clone(),
                    attach_id,
                    sequence: self.sequence,
                    data: copied_bytes(self.output.as_slice()),
                    replay: true,
                },
            );
            messages.push(message);
        }
        match self.exit {
            Some(exit) => {
                messages.push(self.exited_message(exit));
            },
            None => {},
        }
        assert(told(messages@) =~= old(self)@.greeting(attach_id));
        messages
    }

    /// Keeps more output, and returns what is told of it to each that is attached.
    pub fn record_output(&mut self, bytes: &[u8]) -> (messages: Vec<TerminalMessage>)
        requires
            old(self).sequence < u64::MAX,
        ensures
            final(self)@ == old(self)@.after_output(bytes@),
            told(messages@) == old(self)@.output_news(bytes@),
    {
        self.output.extend_from_slice(bytes);
        assert(self.output@ =~= old(self).output@ + bytes@);
        if self.output.len() > self.replay_buffer_bytes {
            let excess: usize = self.output.len() - self.replay_buffer_bytes;
            let kept = self.output.split_off(excess);
            self.output = kept;
        }
        assert(self.output@ =~= last_bytes(
            old(self).output@ + bytes@,
            self.replay_buffer_bytes as nat,
        ));
        self.sequence = self.sequence + 1;
        let mut messages: Vec<TerminalMessage> = Vec::new();
        let ghost news = old(self)@.output_news(bytes@);
        let mut i: usize = 0;
        while i < self.attachments.len()
            invariant
                i <= self.attachments@.len(),
                messages@.len() == i,
                news.len() == self.attachments@.len(),
                forall|j: int|
                    #![trigger news[j]]
                    0 <= j < news.len() ==> news[j] == (Told::Output {
                        session_id: self.id@,
                        attach_id: self.attachments@[j],
                        sequence: self.sequence,
                        data: bytes@,
                        replay: false,
                    }),
                forall|j: int| 0 <= j < i ==> (#[trigger] messages@[j])@ == news[j],
            decreases self.attachments@.len() - i,
        {
            messages.push(
                TerminalMessage::Output(
                    TerminalOutput {
                        session_id: self.id.clone(),
                        attach_id: self.attachments[i],
                        sequence: self.sequence,
                        data: copied_bytes(bytes),
                        replay: false,
                    },
                ),
            );
            assert(messages@[i as int]@ == news[i as int]);
            i = i + 1;
        }
        assert(told(messages@) =~= news);
        messages
    }

    /// Keeps how the program of the session ended, and returns what is told of it.
    pub fn set_exit(&mut self, exit: TerminalExit) -> (message: TerminalMessage)
        ensures
            final(self)@ == (Terminal { exit: Some(exit), ..old(self)@ }),
            message@ == (Told::Exited { session_id: old(self)@.id, exit }),
    {
        self.exit = Some(exit);
        self.exited_message(exit)
    }

    /// What is listed of the session.
    pub fn info(&self) -> (info: TerminalSessionInfo)
        ensures
            info@ == self@.listed(),
    {
        let (exited, exit_code, signal) = match self.exit {
            Some(exit) => (true, exit.exit_code, exit.signal),
            None => (false, None, None),
        };
        TerminalSessionInfo {
            session_id: self.id.clone(),
            profile_id: self.profile_id.clone(),
            label: self.label.clone(),
            cwd: copied(&self.cwd),
            persistent: self.persistent,
            exited,
            exit_code,
            signal,
        }
    }
}

impl TerminalSessionStore {
    /// A store without sessions, for requests that name a project.
    pub fn new(project_id: u64) -> (store: Self)
        ensures
            store@ == Map::<Seq<char>, Terminal>::empty(),
            store.next_attach_id == 1,
            store.replay_buffer_bytes == DEFAULT_REPLAY_BUFFER_BYTES,
            store.project_id == project_id,
    {
        let store = TerminalSessionStore {
            sessions: TextMap::new(),
            next_attach_id: 1,
            replay_buffer_bytes: DEFAULT_REPLAY_BUFFER_BYTES,
            project_id,
        };
        assert(store@ =~= Map::empty());
        store
    }

    /// Everything but the sessions is the same.
    pub open spec fn same_setup(self, other: Self) -> bool {
        &&& self.next_attach_id == other.next_attach_id
        &&& self.replay_buffer_bytes == other.replay_buffer_bytes
        &&& self.project_id == other.project_id
    }

    /// Says how a session is to be started for a request, under a new name. The request has to
    /// name the project and a size.
    pub fn handle_create_terminal_session(
        &self,
        request: &CreateTerminalSession,
        shell: Option<String>,
    ) -> (plan: Result<TerminalPlan, TerminalError>)
        ensures
            match plan {
                Ok(plan) => {
                    &&& request.project_id == self.project_id
                    &&& request.initial_size matches Some(size)
                    &&& is_random_id(plan.session_id@)
                    &&& plan.size == pty_size(size)
                    &&& plan.command.program@ == program_of(*request, optional_text(shell))
                    &&& texts(plan.command.args@) == args_of(*request)
                    &&& pairs(plan.command.env@) == pairs(request.env@)
                    &&& runs_in(plan.command.cwd, request.cwd)
                },
                Err(TerminalError::InvalidProjectId(id)) => request.project_id != self.project_id
                    && id == request.project_id,
                Err(TerminalError::MissingSize) => request.project_id == self.project_id
                    && request.initial_size is None,
                Err(_) => false,
            },
    {
        if request.project_id != self.project_id {
            return Err(TerminalError::InvalidProjectId(request.project_id));
        }
        let size = match request.initial_size {
            Some(size) => size,
            None => return Err(TerminalError::MissingSize),
        };
        let directory = session_directory(&request.cwd);
        Ok(
            TerminalPlan {
                session_id: random_id(),
                size: size_to_pty_size(&size),
                command: terminal_command(request, shell, directory),
            },
        )
    }

    /// Keeps a session that was started.
    pub fn create_session(&mut self, session_id: String, request: CreateTerminalSession, now: u64)
        ensures
            final(self)@ == old(self)@.insert(
                session_id@,
                new_terminal(session_id@, request, old(self).replay_buffer_bytes, now),
            ),
            final(self).same_setup(*old(self)),
    {
        let session = RemoteTerminalSession {
            id: session_id.clone(),
            profile_id: request.profile_id,
            label: request.label,
            cwd: request.cwd,
            persistent: request.persistent,
            created_at: now,
            last_attached_at: None,
            output: Vec::new(),
            exit: None,
            attachments: Vec::new(),
            sequence: 0,
            replay_buffer_bytes: self.replay_buffer_bytes,
        };
        let ghost before = self.sessions@;
        self.sessions.insert(session_id, session);
        assert(terminal_values(before.insert(session_id@, session)) =~= terminal_values(
            before,
        ).insert(session_id@, session@));
    }

    fn find_session(&self, session_id: Option<String>) -> (found: Result<String, TerminalError>)
        ensures
            answers_lookup(found, self@, optional_text(session_id)),
    {
        match session_id {
            Some(id) => if self.sessions.contains_key(id.as_str()) {
                Ok(id)
            } else {
                Err(TerminalError::SessionNotFound(id))
            },
            None => Err(TerminalError::MissingSessionId),
        }
    }

    /// The session that a request for input names.
    pub fn handle_terminal_input(&self, session_id: Option<String>) -> (found: Result<
        String,
        TerminalError,
    >)
        ensures
            answers_lookup(found, self@, optional_text(session_id)),
    {
        self.find_session(session_id)
    }

    /// The session that a request for another size names, and the size of its pseudoterminal.
    pub fn handle_resize_terminal_session(
        &self,
        session_id: Option<String>,
        size: Option<TerminalSize>,
    ) -> (found: Result<(String, PtySize), TerminalError>)
        ensures
            answers_resize(found, self@, optional_text(session_id), size),
    {
        let id = match session_id {
            Some(id) => id,
            None => return Err(TerminalError::MissingSessionId),
        };
        let size = match size {
            Some(size) => size,
            None => return Err(TerminalError::MissingSize),
        };
        if self.sessions.contains_key(id.as_str()) {
            Ok((id, size_to_pty_size(&size)))
        } else {
            Err(TerminalError::SessionNotFound(id))
        }
    }

    /// The session that a request to attach something names, and the size that its
    /// pseudoterminal gets before that is done.
    pub fn handle_attach_terminal_session(
        &self,
        session_id: Option<String>,
        size: Option<TerminalSize>,
    ) -> (found: Result<(String, PtySize), TerminalError>)
        ensures
            answers_resize(found, self@, optional_text(session_id), size),
    {
        self.handle_resize_terminal_session(session_id, size)
    }

    /// Attaches something to a session that has the right size, and returns what is told to it.
    pub fn attach_to_session(&mut self, session_id: &str, attach_id: u64, now: u64) -> (messages:
        Result<Vec<TerminalMessage>, TerminalError>)
        ensures
            final(self).same_setup(*old(self)),
            match messages {
                Ok(messages) => {
                    &&& old(self)@.contains_key(session_id@)
                    &&& final(self)@ == old(self)@.insert(
                        session_id@,
                        old(self)@[session_id@].attached(attach_id, now),
                    )
                    &&& told(messages@) == old(self)@[session_id@].greeting(attach_id)
                },
                Err(error) => {
                    &&& !old(self)@.contains_key(session_id@)
                    &&& final(self)@ == old(self)@
                    &&& error matches TerminalError::SessionNotFound(id)
                    &&& id@ == session_id@
                },
            },
    {
        let ghost before = self.sessions@;
        let messages = match self.sessions.get_mut(session_id) {
            Some(session) => Ok(session.attach(attach_id, now)),
            None => Err(TerminalError::SessionNotFound(session_id.to_owned())),
        };
        proof {
            if before.contains_key(session_id@) {
                assert(self@ =~= terminal_values(before).insert(
                    session_id@,
                    self.sessions@[session_id@]@,
                ));
            }
        }
        messages
    }

    /// Takes out the session that a request to close it names, where it is there. The request
    /// has to name a session, but not one that is there.
    pub fn handle_close_terminal_session(&mut self, session_id: Option<String>) -> (closed: Result<
        Option<RemoteTerminalSession>,
        TerminalError,
    >)
        ensures
            final(self).same_setup(*old(self)),
            match session_id {
                Some(id) => {
                    &&& final(self)@ == old(self)@.remove(id@)
                    &&& match closed {
                        Ok(Some(session)) => old(self)@.contains_key(id@) && session@
                            == old(self)@[id@],
                        Ok(None) => !old(self)@.contains_key(id@),
                        Err(_) => false,
                    }
                },
                None => {
                    &&& final(self)@ == old(self)@
                    &&& closed matches Err(error)
                    &&& error is MissingSessionId
                },
            },
    {
        match session_id {
            Some(id) => {
                let ghost before = self.sessions@;
                let removed = self.sessions.remove(id.as_str());
                assert(terminal_values(before.remove(id@)) =~= terminal_values(before).remove(
                    id@,
                ));
                Ok(removed)
            },
            None => Err(TerminalError::MissingSessionId),
        }
    }

    /// What is listed of the sessions. The request has to name the project.
    pub fn handle_list_terminal_sessions(&self, project_id: u64) -> (listed: Result<
        Vec<TerminalSessionInfo>,
        TerminalError,
    >)
        ensures
            match listed {
                Ok(infos) => project_id == self.project_id && lists_sessions(infos@, self@),
                Err(error) => project_id != self.project_id && error
                    == TerminalError::InvalidProjectId(project_id),
            },
    {
        if project_id != self.project_id {
            return Err(TerminalError::InvalidProjectId(project_id));
        }
        let len: usize = self.sessions.len();
        let ghost order = self.sessions.order();
        let mut infos: Vec<TerminalSessionInfo> = Vec::new();
        let mut i: usize = 0;
        while i < len
            invariant
                i <= len,
                len == order.len(),
                order == self.sessions.order(),
                infos@.len() == i,
                forall|j: int|
                    0 <= j < i ==> (#[trigger] infos@[j])@ == self@[order[j]].listed(),
            decreases len - i,
        {
            infos.push(self.sessions.value_at(i).info());
            i = i + 1;
        }
        proof {
            assert forall|key: Seq<char>| #[trigger] order.contains(key) <==> self@.contains_key(
                key,
            ) by {
                assert(order.contains(key) <==> self.sessions@.contains_key(key));
            }
            assert(lists_in_order(infos@, self@, order));
        }
        Ok(infos)
    }
}

/// What a request is answered that names a session.
pub open spec fn answers_lookup(
    found: Result<String, TerminalError>,
    sessions: Map<Seq<char>, Terminal>,
    session_id: Option<Seq<char>>,
) -> bool {
    match found {
        Ok(id) => session_id == Some(id@) && sessions.contains_key(id@),
        Err(TerminalError::MissingSessionId) => session_id is None,
        Err(TerminalError::SessionNotFound(id)) => session_id == Some(id@)
            && !sessions.contains_key(id@),
        Err(_) => false,
    }
}

/// What a request is answered that names a session and a size.
pub open spec fn answers_resize(
    found: Result<(String, PtySize), TerminalError>,
    sessions: Map<Seq<char>, Terminal>,
    session_id: Option<Seq<char>>,
    size: Option<TerminalSize>,
) -> bool {
    match found {
        Ok((id, pty)) => {
            &&& session_id == Some(id@)
            &&& sessions.contains_key(id@)
            &&& size matches Some(size)
            &&& pty == pty_size(size)
        },
        Err(TerminalError::MissingSessionId) => session_id is None,
        Err(TerminalError::MissingSize) => session_id is Some && size is None,
        Err(TerminalError::SessionNotFound(id)) => {
            &&& session_id == Some(id@)
            &&& size is Some
            &&& !sessions.contains_key(id@)
        },
        Err(_) => false,
    }
}

/// `infos` lists the sessions that `order` names.
pub open spec fn lists_in_order(
    infos: Seq<TerminalSessionInfo>,
    sessions: Map<Seq<char>, Terminal>,
    order: Seq<Seq<char>>,
) -> bool {
    &&& lists_keys(order, sessions)
    &&& infos.len() == order.len()
    &&& forall|i: int|
        0 <= i < infos.len() ==> (#[trigger] infos[i])@ == sessions[order[i]].listed()
}

/// `infos` lists the sessions, each once, in some order.
pub open spec fn lists_sessions(
    infos: Seq<TerminalSessionInfo>,
    sessions: Map<Seq<char>, Terminal>,
) -> bool {
    exists|order: Seq<Seq<char>>| lists_in_order(infos, sessions, order)
}

/// What is said of a request that was refused.
pub open spec fn error_text(error: TerminalError) -> Seq<char> {
    match error {
        TerminalError::InvalidProjectId(id) => "invalid remote terminal project id "@ + decimal_of(
            id as nat,
        ),
        TerminalError::MissingSize => "missing terminal size"@,
        TerminalError::MissingSessionId => "missing terminal session id"@,
        TerminalError::SessionNotFound(id) => "terminal session not found: "@ + id@,
    }
}

impl TerminalError {
    /// What is said of a request that was refused.
    pub fn message(&self) -> (message: String)
        ensures
            message@ == error_text(*self),
    {
        match self {
            TerminalError::InvalidProjectId(id) => {
                "invalid remote terminal project id ".to_owned().concat(decimal(*id).as_str())
            },
            TerminalError::MissingSize => "missing terminal size".to_owned(),
            TerminalError::MissingSessionId => "missing terminal session id".to_owned(),
            TerminalError::SessionNotFound(id) => "terminal session not found: ".to_owned().concat(
                id.as_str(),
            ),
        }
    }
}

/// What is kept of output that came in two parts is what is kept of it as a whole.
pub proof fn law_kept_output_does_not_depend_on_parts(
    earlier: Seq<u8>,
    first: Seq<u8>,
    second: Seq<u8>,
    limit: nat,
)
    ensures
        last_bytes(last_bytes(earlier + first, limit) + second, limit) == last_bytes(
            earlier + (first + second),
            limit,
        ),
{
    let whole = earlier + (first + second);
    let kept = last_bytes(earlier + first, limit);
    assert(last_bytes(kept + second, limit) =~= last_bytes(whole, limit));
}

/// All output of a session, where it came in parts.
pub open spec fn whole_output(parts: Seq<Seq<u8>>) -> Seq<u8>
    decreases parts.len(),
{
    if parts.len() == 0 {
        seq![]
    } else {
        whole_output(parts.drop_last()) + parts.last()
    }
}

/// A session after output that came in parts.
pub open spec fn after_outputs(session: Terminal, parts: Seq<Seq<u8>>) -> Terminal
    decreases parts.len(),
{
    if parts.len() == 0 {
        session
    } else {
        after_outputs(session, parts.drop_last()).after_output(parts.last())
    }
}

proof fn lemma_after_outputs(session: Terminal, parts: Seq<Seq<u8>>)
    requires
        session.output.len() == 0,
    ensures
        after_outputs(session, parts).output == last_bytes(
            whole_output(parts),
            session.replay_buffer_bytes as nat,
        ),
        after_outputs(session, parts).replay_buffer_bytes == session.replay_buffer_bytes,
        after_outputs(session, parts).id == session.id,
        after_outputs(session, parts).exit == session.exit,
        session.sequence + parts.len() <= u64::MAX ==> after_outputs(session, parts).sequence
            == session.sequence + parts.len(),
    decreases parts.len(),
{
    if parts.len() == 0 {
        assert(session.output =~= last_bytes(seq![], session.replay_buffer_bytes as nat));
    } else {
        let rest = parts.drop_last();
        let limit = session.replay_buffer_bytes as nat;
        lemma_after_outputs(session, rest);
        law_kept_output_does_not_depend_on_parts(seq![], whole_output(rest), parts.last(), limit);
        assert(seq![] + whole_output(rest) =~= whole_output(rest));
        assert(seq![] + (whole_output(rest) + parts.last()) =~= whole_output(parts));
    }
}

/// What is attached to a session that began without output is told, in one piece, the end of all
/// the output that there was, in whatever parts it came, and how many parts there were.
pub proof fn law_attached_is_told_the_end_of_all_output(
    session: Terminal,
    parts: Seq<Seq<u8>>,
    attach_id: u64,
)
    requires
        session.output.len() == 0,
        session.exit is None,
        session.sequence + parts.len() <= u64::MAX,
    ensures
        ({
            let kept = last_bytes(whole_output(parts), session.replay_buffer_bytes as nat);
            &&& kept.len() <= session.replay_buffer_bytes
            &&& kept.is_suffix_of(whole_output(parts))
            &&& after_outputs(session, parts).greeting(attach_id) == if kept.len() == 0 {
                seq![]
            } else {
                seq![
                    Told::Output {
                        session_id: session.id,
                        attach_id,
                        sequence: (session.sequence + parts.len()) as u64,
                        data: kept,
                        replay: true,
                    },
                ]
            }
        }),
{
    lemma_after_outputs(session, parts);
    let kept = last_bytes(whole_output(parts), session.replay_buffer_bytes as nat);
    let whole = whole_output(parts);
    assert(kept =~= whole.subrange(whole.len() - kept.len(), whole.len() as int));
    let after = after_outputs(session, parts);
    let replay = Told::Output {
        session_id: session.id,
        attach_id,
        sequence: (session.sequence + parts.len()) as u64,
        data: kept,
        replay: true,
    };
    if kept.len() > 0 {
        assert(after.greeting(attach_id) =~= seq![replay]);
    } else {
        assert(after.greeting(attach_id) =~= seq![]);
    }
}

/// A session never keeps more output than it may.
pub proof fn law_kept_output_is_bounded(session: Terminal, bytes: Seq<u8>)
    ensures
        session.after_output(bytes).output.len() <= session.replay_buffer_bytes,
        (session.output + bytes).len() <= session.replay_buffer_bytes ==> session.after_output(
            bytes,
        ).output == session.output + bytes,
{
}

/// Nothing is attached to a session twice, so nothing is told of the same output twice.
pub proof fn law_attached_once(session: Terminal, attach_id: u64, now: u64, bytes: Seq<u8>)
    requires
        session.attachments.no_duplicates(),
    ensures
        session.attached(attach_id, now).attachments.no_duplicates(),
        session.attached(attach_id, now).attachments.contains(attach_id),
        session.after_output(bytes).attachments == session.attachments,
        exists|i: int|
            0 <= i < session.attached(attach_id, now).output_news(bytes).len()
                && #[trigger] session.attached(attach_id, now).output_news(bytes)[i] == (
            Told::Output {
                session_id: session.id,
                attach_id,
                sequence: (session.sequence + 1) as u64,
                data: bytes,
                replay: false,
            }),
{
    let after = session.attached(attach_id, now);
    if !session.attachments.contains(attach_id) {
        assert(after.attachments[session.attachments.len() as int] == attach_id);
    }
    assert(after.attachments.contains(attach_id));
    let i = choose|i: int| 0 <= i < after.attachments.len() && after.attachments[i] == attach_id;
    assert(after.output_news(bytes)[i] == (Told::Output {
        session_id: session.id,
        attach_id,
        sequence: (session.sequence + 1) as u64,
        data: bytes,
        replay: false,
    }));
}

/// What is attached after the program of a session ended is told so, last of all, and the session
/// is listed as one that ended.
pub proof fn law_end_is_told(session: Terminal, exit: TerminalExit, attach_id: u64)
    ensures
        ({
            let ended = Terminal { exit: Some(exit), ..session };
            &&& ended.greeting(attach_id).last() == (Told::Exited { session_id: session.id, exit })
            &&& ended.listed().exited
            &&& ended.listed().exit_code == exit.exit_code
            &&& ended.listed().signal == exit.signal
        }),
        session.exit is None ==> !session.listed().exited,
{
}

/// A pseudoterminal has at least one row and one column, and a size that fits is kept.
pub proof fn law_pseudoterminals_are_not_empty(size: TerminalSize)
    ensures
        pty_size(size).rows >= 1,
        pty_size(size).cols >= 1,
        1 <= size.rows <= u16::MAX ==> pty_size(size).rows == size.rows,
        1 <= size.columns <= u16::MAX ==> pty_size(size).cols == size.columns,
        size.cell_width <= u16::MAX ==> pty_size(size).pixel_width == size.cell_width,
        size.cell_height <= u16::MAX ==> pty_size(size).pixel_height == size.cell_height,
{
}

/// A session is there from when it was created until it is closed, and neither changes another
/// session.
pub proof fn law_session_is_there_until_closed(
    sessions: Map<Seq<char>, Terminal>,
    session_id: Seq<char>,
    session: Terminal,
    other: Seq<char>,
)
    requires
        other != session_id,
    ensures
        sessions.insert(session_id, session).contains_key(session_id),
        !sessions.remove(session_id).contains_key(session_id),
        !sessions.contains_key(session_id) ==> sessions.insert(session_id, session).remove(
            session_id,
        ) == sessions,
        sessions.insert(session_id, session).contains_key(other) <==> sessions.contains_key(other),
        sessions.remove(session_id).contains_key(other) <==> sessions.contains_key(other),
        sessions.contains_key(other) ==> sessions.insert(session_id, session)[other]
            == sessions[other] && sessions.remove(session_id)[other] == sessions[other],
{
    if !sessions.contains_key(session_id) {
        assert(sessions.insert(session_id, session).remove(session_id) =~= sessions);
    }
}

impl Terminal {
    /// The session keeps no more output than it may, and nothing is attached to it twice.
    pub open spec fn is_valid(self) -> bool {
        &&& self.output.len() <= self.replay_buffer_bytes
        &&& self.attachments.no_duplicates()
    }
}

/// Every session is kept under its own name and is valid.
pub open spec fn all_valid(sessions: Map<Seq<char>, Terminal>) -> bool {
    forall|id: Seq<char>| #[trigger]
        sessions.contains_key(id) ==> sessions[id].id == id && sessions[id].is_valid()
}

/// Sessions stay valid, and kept under their own names, whatever happens: when one is created,
/// when something is attached to it, when there is output, when its program ends and when it is
/// closed.
pub proof fn law_sessions_stay_valid(
    sessions: Map<Seq<char>, Terminal>,
    session_id: Seq<char>,
    request: CreateTerminalSession,
    replay_buffer_bytes: usize,
    now: u64,
    attach_id: u64,
    bytes: Seq<u8>,
    exit: TerminalExit,
)
    requires
        all_valid(sessions),
    ensures
        all_valid(
            sessions.insert(
                session_id,
                new_terminal(session_id, request, replay_buffer_bytes, now),
            ),
        ),
        all_valid(sessions.remove(session_id)),
        sessions.contains_key(session_id) ==> {
            let session = sessions[session_id];
            &&& all_valid(sessions.insert(session_id, session.attached(attach_id, now)))
            &&& all_valid(sessions.insert(session_id, session.after_output(bytes)))
            &&& all_valid(
                sessions.insert(session_id, (Terminal { exit: Some(exit), ..session })),
            )
        },
{
    if sessions.contains_key(session_id) {
        law_attached_once(sessions[session_id], attach_id, now, bytes);
        law_kept_output_is_bounded(sessions[session_id], bytes);
    }
}

} // verus!
