//! One run of the Codex program: how it is started, what its events lead to, and how it ends.
use crate::codex_config::{codex_model_context_window, CODEX_CONTEXT_WINDOW};
use crate::codex_events::{
    item_to_session_update, shown_of, CodexEvent, CodexItem, SessionUpdate, Shown, TokenUsage,
    Usage,
};
use crate::text::{
    copied, optional_text, same_text, texts, trim, trim_line_end, trim_line_end_of, trim_of,
};
use vstd::prelude::*;

verus! {

/// The program that is run.
pub const CODEX_PROGRAM: &'static str = "codex";

/// The model name with which no model is asked for.
pub const UNSPECIFIED_MODEL: &'static str = "default";

/// What a run of the Codex program needs to know.
pub struct CodexRun {
    pub session_id: String,
    pub codex_thread_id: Option<String>,
    pub input: String,
    /// The directories of the session, in their order.
    pub work_dirs: Vec<String>,
    pub selected_model: String,
    pub reasoning_effort: String,
}

/// What a run of the Codex program came to.
pub struct CodexRunOutput {
    pub codex_thread_id: Option<String>,
    pub final_response: String,
    pub usage: Option<Usage>,
}

/// What a run has come to so far.
pub struct CodexRunState {
    pub codex_thread_id: Option<String>,
    pub final_response: String,
    pub usage: Option<Usage>,
}

/// What is to be done about an event.
pub enum CodexRunAction {
    /// Nothing.
    Continue,
    /// Tell the thread how much of the context window is used.
    UpdateTokenUsage(TokenUsage),
    /// Show something in the thread.
    UpdateSession(SessionUpdate),
    /// End the run with a failure.
    Fail(String),
}

/// How the Codex program ended, and what it wrote to its error output.
pub struct ExitReport {
    pub success: bool,
    pub status: String,
    pub stderr: String,
}

/// What a run has come to, as a mathematical value.
pub struct Progress {
    pub codex_thread_id: Option<Seq<char>>,
    pub final_response: Seq<char>,
    pub usage: Option<Usage>,
}

/// What is to be done about an event, as a mathematical value.
pub enum Reaction {
    Continue,
    UpdateTokenUsage(TokenUsage),
    Show(Shown),
    Fail(Seq<char>),
}

impl View for CodexRunState {
    type V = Progress;

    open spec fn view(&self) -> Progress {
        Progress {
            codex_thread_id: optional_text(self.codex_thread_id),
            final_response: self.final_response@,
            usage: self.usage,
        }
    }
}

impl View for CodexRunOutput {
    type V = Progress;

    open spec fn view(&self) -> Progress {
        Progress {
            codex_thread_id: optional_text(self.codex_thread_id),
            final_response: self.final_response@,
            usage: self.usage,
        }
    }
}

impl View for CodexRunAction {
    type V = Reaction;

    open spec fn view(&self) -> Reaction {
        match self {
            CodexRunAction::Continue => Reaction::Continue,
            CodexRunAction::UpdateTokenUsage(usage) => Reaction::UpdateTokenUsage(*usage),
            CodexRunAction::UpdateSession(update) => Reaction::Show(update@),
            CodexRunAction::Fail(message) => Reaction::Fail(message@),
        }
    }
}

/// The arguments that name the directory to work in: the first of the session, unless it is
/// empty.
pub open spec fn directory_args(work_dirs: Seq<Seq<char>>) -> Seq<Seq<char>> {
    if work_dirs.len() > 0 && work_dirs[0].len() > 0 {
        seq!["--cd"@, work_dirs[0]]
    } else {
        seq![]
    }
}

/// The arguments that name further directories, without the empty ones.
pub open spec fn further_directory_args(dirs: Seq<Seq<char>>) -> Seq<Seq<char>>
    decreases dirs.len(),
{
    if dirs.len() == 0 {
        seq![]
    } else if dirs.last().len() == 0 {
        further_directory_args(dirs.drop_last())
    } else {
        further_directory_args(dirs.drop_last()) + seq!["--add-dir"@, dirs.last()]
    }
}

/// The directories of a session but for the first.
pub open spec fn further_directories(work_dirs: Seq<Seq<char>>) -> Seq<Seq<char>> {
    if work_dirs.len() > 0 {
        work_dirs.skip(1)
    } else {
        work_dirs
    }
}

impl CodexRun {
    /// The arguments with which the Codex program is run.
    pub open spec fn args(self) -> Seq<Seq<char>> {
        let fixed = seq![
            "exec"@,
            "--experimental-json"@,
            "--sandbox"@,
            "danger-full-access"@,
            "--skip-git-repo-check"@,
        ];
        let model = if self.selected_model@ == UNSPECIFIED_MODEL@ {
            seq![]
        } else {
            seq!["--model"@, self.selected_model@]
        };
        let effort = seq![
            "--config"@,
            "model_reasoning_effort=\""@ + self.reasoning_effort@ + "\""@,
        ];
        let dirs = texts(self.work_dirs@);
        let resume = match self.codex_thread_id {
            Some(thread_id) => seq!["resume"@, thread_id@],
            None => seq![],
        };
        fixed + model + effort + directory_args(dirs) + further_directory_args(
            further_directories(dirs),
        ) + resume + seq![self.input@]
    }

    /// The arguments with which the Codex program is run.
    pub fn codex_args(&self) -> (args: Vec<String>)
        ensures
            texts(args@) == self.args(),
    {
        let mut args: Vec<String> = Vec::new();
        args.push("exec".to_owned());
        args.push("--experimental-json".to_owned());
        args.push("--sandbox".to_owned());
        args.push("danger-full-access".to_owned());
        args.push("--skip-git-repo-check".to_owned());
        let ghost fixed = texts(args@);
        assert(fixed =~= seq![
            "exec"@,
            "--experimental-json"@,
            "--sandbox"@,
            "danger-full-access"@,
            "--skip-git-repo-check"@,
        ]);
        let ghost mut model = Seq::<Seq<char>>::empty();
        if !same_text(self.selected_model.as_str(), UNSPECIFIED_MODEL) {
            args.push("--model".to_owned());
            args.push(self.selected_model.clone());
            proof {
                model = seq!["--model"@, self.selected_model@];
            }
        }
        assert(texts(args@) =~= fixed + model);
        let mut effort = "model_reasoning_effort=\"".to_owned();
        effort.append(self.reasoning_effort.as_str());
        effort.append("\"");
        args.push("--config".to_owned());
        args.push(effort);
        assert(texts(args@) =~= fixed + model + seq!["--config"@, effort@]);
        let ghost dirs = texts(self.work_dirs@);
        let ghost before_dirs = texts(args@);
        if self.work_dirs.len() > 0 && !self.work_dirs[0].as_str().is_empty() {
            args.push("--cd".to_owned());
            args.push(self.work_dirs[0].clone());
        }
        assert(texts(args@) =~= before_dirs + directory_args(dirs));
        let ghost before_further = texts(args@);
        let ghost further = further_directories(dirs);
        if self.work_dirs.len() > 0 {
            let mut i: usize = 1;
            assert(further.take(0) =~= seq![]);
            assert(texts(args@) =~= before_further + seq![]);
            while i < self.work_dirs.len()
                invariant
                    1 <= i <= self.work_dirs@.len(),
                    dirs == texts(self.work_dirs@),
                    further == dirs.skip(1),
                    texts(args@) == before_further + further_directory_args(further.take(i - 1)),
                decreases self.work_dirs@.len() - i,
            {
                let ghost before = texts(args@);
                assert(further.take(i as int).drop_last() =~= further.take(i - 1));
                if !self.work_dirs[i].as_str().is_empty() {
                    args.push("--add-dir".to_owned());
                    args.push(self.work_dirs[i].clone());
                    assert(texts(args@) =~= before + seq!["--add-dir"@, self.work_dirs@[i as int]@]);
                    assert(before_further + (further_directory_args(further.take(i - 1)) + seq![
                        "--add-dir"@,
                        self.work_dirs@[i as int]@,
                    ]) =~= texts(args@));
                }
                i = i + 1;
            }
            assert(further.take(i - 1) =~= further);
        } else {
            assert(texts(args@) =~= before_further + further_directory_args(further));
        }
        let ghost before_resume = texts(args@);
        let ghost mut resume = Seq::<Seq<char>>::empty();
        match &self.codex_thread_id {
            Some(thread_id) => {
                args.push("resume".to_owned());
                args.push(thread_id.clone());
                proof {
                    resume = seq!["resume"@, thread_id@];
                }
            },
            None => {},
        }
        assert(texts(args@) =~= before_resume + resume);
        let ghost before_input = texts(args@);
        args.push(self.input.clone());
        assert(texts(args@) =~= before_input + seq![self.input@]);
        args
    }
}

/// Whether an event counts tokens that can be counted.
pub open spec fn countable(event: CodexEvent) -> bool {
    event matches CodexEvent::TurnCompleted { usage } ==> usage.countable()
}

/// What a run has come to after an event.
pub open spec fn after_event(before: Progress, event: CodexEvent) -> Progress {
    match event {
        CodexEvent::ThreadStarted { thread_id } => Progress {
            codex_thread_id: Some(thread_id@),
            ..before
        },
        CodexEvent::TurnCompleted { usage } => Progress {
            usage: Some(
                Usage {
                    total_tokens: (usage.input_tokens + usage.output_tokens) as u64,
                    input_tokens: usage.input_tokens,
                    output_tokens: usage.output_tokens,
                    thought_tokens: Some(usage.reasoning_output_tokens),
                    cached_read_tokens: Some(usage.cached_input_tokens),
                    cached_write_tokens: None,
                },
            ),
            ..before
        },
        CodexEvent::ItemCompleted { item: CodexItem::AgentMessage { text } } => Progress {
            final_response: text@,
            ..before
        },
        _ => before,
    }
}

/// What is to be done about an event.
pub open spec fn reaction_to(event: CodexEvent) -> Reaction {
    match event {
        CodexEvent::TurnCompleted { usage } => Reaction::UpdateTokenUsage(
            TokenUsage {
                max_tokens: CODEX_CONTEXT_WINDOW,
                used_tokens: (usage.input_tokens + usage.output_tokens) as u64,
                input_tokens: usage.input_tokens,
                output_tokens: usage.output_tokens,
                max_output_tokens: None,
            },
        ),
        CodexEvent::TurnFailed { error } => Reaction::Fail(error.message@),
        CodexEvent::ItemCompleted { item } => match shown_of(item) {
            Some(shown) => Reaction::Show(shown),
            None => Reaction::Continue,
        },
        CodexEvent::Error { message } => Reaction::Fail(message@),
        _ => Reaction::Continue,
    }
}

/// What is said of a program that failed: how it ended, and what it wrote to its error output
/// where that is not blank.
pub open spec fn exit_text(program: Seq<char>, status: Seq<char>, stderr: Seq<char>) -> Seq<char> {
    let headline = program + " exited with "@ + status;
    if trim_of(stderr).len() == 0 {
        headline
    } else {
        headline + ": "@ + trim_of(stderr)
    }
}

/// What is said of a program that failed.
pub fn exit_message(program: &str, status: &str, stderr: &str) -> (message: String)
    ensures
        message@ == exit_text(program@, status@, stderr@),
{
    let mut message = program.to_owned();
    message.append(" exited with ");
    message.append(status);
    let trimmed = trim(stderr);
    if !trimmed.as_str().is_empty() {
        message.append(": ");
        message.append(trimmed.as_str());
    }
    message
}

/// What is said of a line that is no event.
pub fn event_parse_message(line: &str) -> (message: String)
    ensures
        message@ == "failed to parse Codex event: "@ + line@,
{
    let mut message = "failed to parse Codex event: ".to_owned();
    message.append(line);
    message
}

/// Adds a line to what a program has written to its error output.
pub fn record_stderr_line(stderr: &mut String, line: &str)
    ensures
        final(stderr)@ == (old(stderr)@ + trim_line_end_of(line@)).push('\n'),
{
    let trimmed = trim_line_end(line);
    stderr.append(trimmed.as_str());
    stderr.push('\n');
}

impl CodexRunState {
    /// A run of which nothing has come yet.
    pub fn new(run: &CodexRun) -> (state: Self)
        ensures
            state@ == (Progress {
                codex_thread_id: optional_text(run.codex_thread_id),
                final_response: seq![],
                usage: None,
            }),
    {
        let codex_thread_id = copied(&run.codex_thread_id);
        CodexRunState { codex_thread_id, final_response: String::new(), usage: None }
    }

    /// Takes an event in and says what is to be done about it.
    pub fn handle_event(&mut self, event: CodexEvent, selected_model: &str) -> (action:
        CodexRunAction)
        requires
            countable(event),
        ensures
            final(self)@ == after_event(old(self)@, event),
            action@ == reaction_to(event),
    {
        match event {
            CodexEvent::ThreadStarted { thread_id } => {
                self.codex_thread_id = Some(thread_id);
                CodexRunAction::Continue
            },
            CodexEvent::TurnCompleted { usage } => {
                let token_usage = usage.to_token_usage(codex_model_context_window(selected_model));
                self.usage = Some(usage.into_acp_usage());
                CodexRunAction::UpdateTokenUsage(token_usage)
            },
            CodexEvent::TurnFailed { error } => CodexRunAction::Fail(error.message),
            CodexEvent::ItemCompleted { item } => {
                let action = match item_to_session_update(&item) {
                    Some(update) => CodexRunAction::UpdateSession(update),
                    None => CodexRunAction::Continue,
                };
                match item {
                    CodexItem::AgentMessage { text } => {
                        self.final_response = text;
                    },
                    _ => {},
                }
                action
            },
            CodexEvent::Error { message } => CodexRunAction::Fail(message),
            CodexEvent::TurnStarted => CodexRunAction::Continue,
            CodexEvent::ItemStarted { .. } => CodexRunAction::Continue,
            CodexEvent::ItemUpdated { .. } => CodexRunAction::Continue,
        }
    }

    /// Ends a run when there are no more events. It failed where the program did; where there is
    /// no program left to ask, it did not.
    pub fn finish(self, exit: Option<ExitReport>) -> (output: Result<CodexRunOutput, String>)
        ensures
            match exit {
                Some(report) => if report.success {
                    output matches Ok(output) && output@ == self@
                } else {
                    output matches Err(message) && message@ == exit_text(
                        "Codex"@,
                        report.status@,
                        report.stderr@,
                    )
                },
                None => output matches Ok(output) && output@ == self@,
            },
    {
        match exit {
            Some(report) => {
                if !report.success {
                    return Err(
                        exit_message("Codex", report.status.as_str(), report.stderr.as_str()),
                    );
                }
            },
            None => {},
        }
        Ok(
            CodexRunOutput {
                codex_thread_id: self.codex_thread_id,
                final_response: self.final_response,
                usage: self.usage,
            },
        )
    }
}

/// What a command on a remote machine came to: what it wrote, or why it failed.
pub fn remote_capture_result(stdout: String, exit: ExitReport) -> (result: Result<String, String>)
    ensures
        if exit.success {
            result matches Ok(output) && output@ == stdout@
        } else {
            result matches Err(message) && message@ == exit_text(
                "remote command"@,
                exit.status@,
                exit.stderr@,
            )
        },
{
    if exit.success {
        Ok(stdout)
    } else {
        Err(exit_message("remote command", exit.status.as_str(), exit.stderr.as_str()))
    }
}

/// What a run has come to after some events.
pub open spec fn after_events(before: Progress, events: Seq<CodexEvent>) -> Progress
    decreases events.len(),
{
    if events.len() == 0 {
        before
    } else {
        after_event(after_events(before, events.drop_last()), events.last())
    }
}

/// The text of a message of the agent, where an event completes one.
pub open spec fn completed_message(event: CodexEvent) -> Option<Seq<char>> {
    match event {
        CodexEvent::ItemCompleted { item: CodexItem::AgentMessage { text } } => Some(text@),
        _ => None,
    }
}

/// The thread that an event starts.
pub open spec fn started_thread(event: CodexEvent) -> Option<Seq<char>> {
    match event {
        CodexEvent::ThreadStarted { thread_id } => Some(thread_id@),
        _ => None,
    }
}

/// The answer of a run is the last message that the agent completed.
pub proof fn law_last_message_is_the_answer(before: Progress, events: Seq<CodexEvent>, i: int)
    requires
        0 <= i < events.len(),
        completed_message(events[i]) is Some,
        forall|j: int| i < j < events.len() ==> completed_message(#[trigger] events[j]) is None,
    ensures
        Some(after_events(before, events).final_response) == completed_message(events[i]),
    decreases events.len(),
{
    if i < events.len() - 1 {
        assert(completed_message(events[events.len() - 1]) is None);
        law_last_message_is_the_answer(before, events.drop_last(), i);
    }
}

/// The thread of a run is the last that was started.
pub proof fn law_last_started_thread_is_kept(before: Progress, events: Seq<CodexEvent>, i: int)
    requires
        0 <= i < events.len(),
        started_thread(events[i]) is Some,
        forall|j: int| i < j < events.len() ==> started_thread(#[trigger] events[j]) is None,
    ensures
        after_events(before, events).codex_thread_id == started_thread(events[i]),
    decreases events.len(),
{
    if i < events.len() - 1 {
        assert(started_thread(events[events.len() - 1]) is None);
        law_last_started_thread_is_kept(before, events.drop_last(), i);
    }
}

/// A run in which no message of the agent was completed has the answer that it had before, and
/// one in which no thread was started goes on with the thread that it had before.
pub proof fn law_silence_changes_nothing(before: Progress, events: Seq<CodexEvent>)
    ensures
        (forall|j: int|
            0 <= j < events.len() ==> completed_message(#[trigger] events[j]) is None)
            ==> after_events(before, events).final_response == before.final_response,
        (forall|j: int| 0 <= j < events.len() ==> started_thread(#[trigger] events[j]) is None)
            ==> after_events(before, events).codex_thread_id == before.codex_thread_id,
    decreases events.len(),
{
    if events.len() > 0 {
        let rest = events.drop_last();
        law_silence_changes_nothing(before, rest);
        let last = events[events.len() - 1];
        if completed_message(last) is None && after_events(before, rest).final_response
            != before.final_response {
            let j = choose|j: int|
                0 <= j < rest.len() && completed_message(#[trigger] rest[j]) is Some;
            assert(completed_message(events[j]) is Some);
        }
        if started_thread(last) is None && after_events(before, rest).codex_thread_id
            != before.codex_thread_id {
            let j = choose|j: int|
                0 <= j < rest.len() && started_thread(#[trigger] rest[j]) is Some;
            assert(started_thread(events[j]) is Some);
        }
    }
}

/// The Codex program is always told to execute, and always told the input last. A thread that it
/// is to go on with stands just before the input.
pub proof fn law_input_is_the_last_argument(run: CodexRun)
    ensures
        run.args().len() >= 8,
        run.args()[0] == "exec"@,
        run.args().last() == run.input@,
        run.codex_thread_id matches Some(thread_id) ==> {
            &&& run.args()[run.args().len() - 2] == thread_id@
            &&& run.args()[run.args().len() - 3] == "resume"@
        },
{
}

/// A run fails on an event if and only if the event says that the turn or the run failed, and
/// such an event changes nothing of what the run has come to.
pub proof fn law_only_failures_fail(before: Progress, event: CodexEvent)
    ensures
        reaction_to(event) is Fail <==> event is TurnFailed || event is Error,
        reaction_to(event) is Fail ==> after_event(before, event) == before,
{
}

} // verus!
