//! What the Codex program reports while it works, and what is shown of it.
use crate::text::{
    decimal, decimal_of, join, join_of, law_shortened_text_has_few_lines, line_feeds, lines,
    lines_of, signed_decimal, signed_decimal_of, texts, trim, trim_of, truncate_and_trailoff,
    truncate_lines_and_trailoff, truncated, truncated_lines,
};
use vstd::prelude::*;
use vstd::utf8::encode_utf8;

verus! {

/// How many characters of a command or a path are shown.
pub const MAX_CODEX_TOOL_COMMAND_CHARS: usize = 160;

/// How many bytes the output of a command that succeeded can have to be shown.
pub const MAX_CODEX_SUCCESS_OUTPUT_CHARS: usize = 600;

/// How many lines the output of a command that succeeded can have to be shown.
pub const MAX_CODEX_SUCCESS_OUTPUT_LINES: usize = 8;

/// How many lines of the output of a command that failed are shown.
pub const MAX_CODEX_FAILED_OUTPUT_LINES: usize = 40;

/// How many changed files are shown.
pub const MAX_CODEX_FILE_CHANGE_ENTRIES: usize = 12;

/// An event of the Codex program.
pub enum CodexEvent {
    ThreadStarted { thread_id: String },
    TurnStarted,
    TurnCompleted { usage: CodexUsage },
    TurnFailed { error: CodexError },
    ItemStarted { item: CodexItem },
    ItemUpdated { item: CodexItem },
    ItemCompleted { item: CodexItem },
    Error { message: String },
}

/// Why a turn failed.
pub struct CodexError {
    pub message: String,
}

/// How many tokens a turn took.
#[derive(Clone, Copy, Debug, PartialEq, Eq, Structural)]
pub struct CodexUsage {
    pub input_tokens: u64,
    pub cached_input_tokens: u64,
    pub output_tokens: u64,
    pub reasoning_output_tokens: u64,
}

/// A piece of the work of the Codex program.
pub enum CodexItem {
    AgentMessage { text: String },
    Reasoning { text: String },
    CommandExecution {
        command: String,
        aggregated_output: String,
        exit_code: Option<i32>,
        status: String,
    },
    FileChange { changes: Vec<CodexFileChange>, status: String },
    McpToolCall,
    WebSearch,
    TodoList { items: Vec<CodexTodoItem> },
    Error { message: String },
}

/// A file that was changed, and how.
pub struct CodexFileChange {
    pub path: String,
    pub kind: String,
}

/// A step of the plan.
pub struct CodexTodoItem {
    pub text: String,
    pub completed: bool,
}

/// How much of the context window of the model a thread uses.
#[derive(Clone, Copy, Debug, PartialEq, Eq, Structural)]
pub struct TokenUsage {
    pub max_tokens: u64,
    pub used_tokens: u64,
    pub input_tokens: u64,
    pub output_tokens: u64,
    pub max_output_tokens: Option<u64>,
}

/// How many tokens a prompt took.
#[derive(Clone, Copy, Debug, PartialEq, Eq, Structural)]
pub struct Usage {
    pub total_tokens: u64,
    pub input_tokens: u64,
    pub output_tokens: u64,
    pub thought_tokens: Option<u64>,
    pub cached_read_tokens: Option<u64>,
    pub cached_write_tokens: Option<u64>,
}

#[derive(Clone, Copy, Debug, PartialEq, Eq, Structural)]
pub enum PlanEntryPriority {
    High,
    Medium,
    Low,
}

#[derive(Clone, Copy, Debug, PartialEq, Eq, Structural)]
pub enum PlanEntryStatus {
    Pending,
    InProgress,
    Completed,
}

/// A step of the plan as it is shown.
pub struct PlanEntry {
    pub content: String,
    pub priority: PlanEntryPriority,
    pub status: PlanEntryStatus,
}

/// Something new to show in a session.
pub enum SessionUpdate {
    AgentMessageChunk(String),
    AgentThoughtChunk(String),
    Plan(Vec<PlanEntry>),
}

/// A step of the plan as a mathematical value.
pub struct PlanStep {
    pub content: Seq<char>,
    pub priority: PlanEntryPriority,
    pub status: PlanEntryStatus,
}

/// Something new to show in a session, as a mathematical value.
pub enum Shown {
    Message(Seq<char>),
    Thought(Seq<char>),
    Plan(Seq<PlanStep>),
}

impl View for PlanEntry {
    type V = PlanStep;

    open spec fn view(&self) -> PlanStep {
        PlanStep { content: self.content@, priority: self.priority, status: self.status }
    }
}

impl View for SessionUpdate {
    type V = Shown;

    open spec fn view(&self) -> Shown {
        match self {
            SessionUpdate::AgentMessageChunk(text) => Shown::Message(text@),
            SessionUpdate::AgentThoughtChunk(text) => Shown::Thought(text@),
            SessionUpdate::Plan(entries) => Shown::Plan(
                Seq::new(entries@.len(), |i: int| entries@[i]@),
            ),
        }
    }
}

/// What is shown of the output of a command: nothing where it is blank, and nothing where the
/// command did not fail and the output is long.
pub open spec fn output_summary(output: Seq<char>, exit_code: Option<i32>) -> Option<Seq<char>> {
    let trimmed = trim_of(output);
    let failed = exit_code matches Some(code) && code != 0;
    let short = encode_utf8(trimmed).len() <= MAX_CODEX_SUCCESS_OUTPUT_CHARS && lines_of(
        trimmed,
    ).len() <= MAX_CODEX_SUCCESS_OUTPUT_LINES;
    if trimmed.len() == 0 {
        None
    } else if failed {
        Some(truncated_lines(trimmed, MAX_CODEX_FAILED_OUTPUT_LINES as nat))
    } else if short {
        Some(truncated_lines(trimmed, MAX_CODEX_SUCCESS_OUTPUT_LINES as nat))
    } else {
        None
    }
}

/// What is shown of a command.
pub open spec fn command_report(
    command: Seq<char>,
    output: Seq<char>,
    exit_code: Option<i32>,
    status: Seq<char>,
) -> Seq<char> {
    let headline = "Command `"@ + truncated(command, MAX_CODEX_TOOL_COMMAND_CHARS as nat) + "` "@
        + status;
    let exit = match exit_code {
        Some(code) => " with exit code "@ + signed_decimal_of(code as int),
        None => seq![],
    };
    let details = match output_summary(output, exit_code) {
        Some(summary) => "\n\n```text\n"@ + summary + "\n```"@,
        None => seq![],
    };
    headline + exit + details
}

/// What is shown of a changed file.
pub open spec fn change_line(change: CodexFileChange) -> Seq<char> {
    "- "@ + change.kind@ + " "@ + truncated(change.path@, MAX_CODEX_TOOL_COMMAND_CHARS as nat)
}

/// The lines that are shown of changed files: one for each of the first, and one that says how
/// many more there are.
pub open spec fn change_lines(changes: Seq<CodexFileChange>) -> Seq<Seq<char>> {
    let max = MAX_CODEX_FILE_CHANGE_ENTRIES as int;
    if changes.len() <= max {
        Seq::new(changes.len(), |i: int| change_line(changes[i]))
    } else {
        Seq::new(max as nat, |i: int| change_line(changes[i])).push(
            "- ... and "@ + decimal_of((changes.len() - max) as nat) + " more"@,
        )
    }
}

/// What is shown of a step of the plan.
pub open spec fn plan_step(item: CodexTodoItem) -> PlanStep {
    PlanStep {
        content: item.text@,
        priority: PlanEntryPriority::Medium,
        status: if item.completed {
            PlanEntryStatus::Completed
        } else {
            PlanEntryStatus::Pending
        },
    }
}

/// What is shown of a piece of work.
pub open spec fn shown_of(item: CodexItem) -> Option<Shown> {
    match item {
        CodexItem::AgentMessage { text } => if text@.len() > 0 {
            Some(Shown::Message(text@))
        } else {
            None
        },
        CodexItem::Reasoning { text } => if text@.len() > 0 {
            Some(Shown::Thought(text@))
        } else {
            None
        },
        CodexItem::CommandExecution { command, aggregated_output, exit_code, status } => Some(
            Shown::Thought(command_report(command@, aggregated_output@, exit_code, status@)),
        ),
        CodexItem::FileChange { changes, status } => Some(
            Shown::Thought(
                "File changes "@ + status@ + ":\n"@ + join_of(change_lines(changes@), "\n"@),
            ),
        ),
        CodexItem::TodoList { items } => Some(
            Shown::Plan(Seq::new(items@.len(), |i: int| plan_step(items@[i]))),
        ),
        CodexItem::Error { message } => if message@.len() > 0 {
            Some(Shown::Thought(message@))
        } else {
            None
        },
        CodexItem::McpToolCall => None,
        CodexItem::WebSearch => None,
    }
}

/// What is shown of the output of a command.
pub fn summarize_codex_command_output(
    aggregated_output: &str,
    exit_code: Option<i32>,
) -> (summary: Option<String>)
    ensures
        match summary {
            Some(summary) => output_summary(aggregated_output@, exit_code) == Some(summary@),
            None => output_summary(aggregated_output@, exit_code) is None,
        },
{
    let trimmed = trim(aggregated_output);
    if trimmed.as_str().is_empty() {
        return None;
    }
    let line_count: usize = lines(trimmed.as_str()).len();
    assert(line_count == lines_of(trimmed@).len());
    let is_failed_command = match exit_code {
        Some(code) => code != 0,
        None => false,
    };
    let byte_count: usize = trimmed.as_str().as_bytes().len();
    let should_include_success_output = byte_count <= MAX_CODEX_SUCCESS_OUTPUT_CHARS && line_count
        <= MAX_CODEX_SUCCESS_OUTPUT_LINES;
    if !is_failed_command && !should_include_success_output {
        return None;
    }
    let max_lines: usize = if is_failed_command {
        MAX_CODEX_FAILED_OUTPUT_LINES
    } else {
        MAX_CODEX_SUCCESS_OUTPUT_LINES
    };
    Some(truncate_lines_and_trailoff(trimmed.as_str(), max_lines))
}

fn summarize_codex_command(
    command: &str,
    aggregated_output: &str,
    exit_code: Option<i32>,
    status: &str,
) -> (report: String)
    ensures
        report@ == command_report(command@, aggregated_output@, exit_code, status@),
{
    let mut report = "Command `".to_owned();
    report.append(truncate_and_trailoff(command, MAX_CODEX_TOOL_COMMAND_CHARS).as_str());
    report.append("` ");
    report.append(status);
    let ghost headline = report@;
    match exit_code {
        Some(code) => {
            let code_text = signed_decimal(code);
            report.append(" with exit code ");
            report.append(code_text.as_str());
            assert(report@ =~= headline + (" with exit code "@ + code_text@));
        },
        None => {
            assert(report@ =~= headline + seq![]);
        },
    }
    let ghost before = report@;
    match summarize_codex_command_output(aggregated_output, exit_code) {
        Some(output) => {
            report.append("\n\n```text\n");
            report.append(output.as_str());
            report.append("\n```");
            assert(report@ =~= before + ("\n\n```text\n"@ + output@ + "\n```"@));
        },
        None => {
            assert(report@ =~= before + seq![]);
        },
    }
    report
}

/// What is shown of changed files.
pub fn summarize_codex_file_changes(changes: &Vec<CodexFileChange>) -> (summary: String)
    ensures
        summary@ == join_of(change_lines(changes@), "\n"@),
{
    let mut shown: Vec<String> = Vec::new();
    let mut i: usize = 0;
    while i < changes.len() && i < MAX_CODEX_FILE_CHANGE_ENTRIES
        invariant
            i <= changes@.len(),
            i <= MAX_CODEX_FILE_CHANGE_ENTRIES,
            shown@.len() == i,
            forall|j: int| 0 <= j < i ==> (#[trigger] shown@[j])@ == change_line(changes@[j]),
        decreases changes@.len() - i,
    {
        let mut line = "- ".to_owned();
        line.append(changes[i].kind.as_str());
        line.append(" ");
        line.append(
            truncate_and_trailoff(
                changes[i].path.as_str(),
                MAX_CODEX_TOOL_COMMAND_CHARS,
            ).as_str(),
        );
        shown.push(line);
        i = i + 1;
    }
    if changes.len() > MAX_CODEX_FILE_CHANGE_ENTRIES {
        let mut line = "- ... and ".to_owned();
        line.append(decimal((changes.len() - MAX_CODEX_FILE_CHANGE_ENTRIES) as u64).as_str());
        line.append(" more");
        shown.push(line);
    }
    assert(texts(shown@) =~= change_lines(changes@));
    join(&shown, "\n")
}

fn plan_entries(items: &Vec<CodexTodoItem>) -> (entries: Vec<PlanEntry>)
    ensures
        entries@.len() == items@.len(),
        forall|i: int| 0 <= i < items@.len() ==> (#[trigger] entries@[i])@ == plan_step(items@[i]),
{
    let mut entries: Vec<PlanEntry> = Vec::new();
    let mut i: usize = 0;
    while i < items.len()
        invariant
            i <= items@.len(),
            entries@.len() == i,
            forall|j: int| 0 <= j < i ==> (#[trigger] entries@[j])@ == plan_step(items@[j]),
        decreases items@.len() - i,
    {
        entries.push(
            PlanEntry {
                content: items[i].text.clone(),
                priority: PlanEntryPriority::Medium,
                status: if items[i].completed {
                    PlanEntryStatus::Completed
                } else {
                    PlanEntryStatus::Pending
                },
            },
        );
        i = i + 1;
    }
    entries
}

/// What is shown of a piece of work.
pub fn item_to_session_update(item: &CodexItem) -> (update: Option<SessionUpdate>)
    ensures
        match update {
            Some(update) => shown_of(*item) == Some(update@),
            None => shown_of(*item) is None,
        },
{
    match item {
        CodexItem::AgentMessage { text } => {
            if text.as_str().is_empty() {
                None
            } else {
                Some(SessionUpdate::AgentMessageChunk(text.clone()))
            }
        },
        CodexItem::Reasoning { text } => {
            if text.as_str().is_empty() {
                None
            } else {
                Some(SessionUpdate::AgentThoughtChunk(text.clone()))
            }
        },
        CodexItem::CommandExecution { command, aggregated_output, exit_code, status } => {
            Some(
                SessionUpdate::AgentThoughtChunk(
                    summarize_codex_command(
                        command.as_str(),
                        aggregated_output.as_str(),
                        *exit_code,
                        status.as_str(),
                    ),
                ),
            )
        },
        CodexItem::FileChange { changes, status } => {
            let mut text = "File changes ".to_owned();
            text.append(status.as_str());
            text.append(":\n");
            text.append(summarize_codex_file_changes(changes).as_str());
            Some(SessionUpdate::AgentThoughtChunk(text))
        },
        CodexItem::TodoList { items } => {
            let update = SessionUpdate::Plan(plan_entries(items));
            assert(update@->Plan_0 =~= shown_of(*item)->0->Plan_0);
            Some(update)
        },
        CodexItem::Error { message } => {
            if message.as_str().is_empty() {
                None
            } else {
                Some(SessionUpdate::AgentThoughtChunk(message.clone()))
            }
        },
        CodexItem::McpToolCall => None,
        CodexItem::WebSearch => None,
    }
}

impl CodexUsage {
    /// The tokens that went in and came out can be counted.
    pub open spec fn countable(self) -> bool {
        self.input_tokens + self.output_tokens <= u64::MAX
    }

    /// How much of a context window of `max_tokens` the turn used.
    pub fn to_token_usage(&self, max_tokens: u64) -> (usage: TokenUsage)
        requires
            self.countable(),
        ensures
            usage == (TokenUsage {
                max_tokens,
                used_tokens: (self.input_tokens + self.output_tokens) as u64,
                input_tokens: self.input_tokens,
                output_tokens: self.output_tokens,
                max_output_tokens: None,
            }),
    {
        TokenUsage {
            max_tokens,
            used_tokens: self.input_tokens + self.output_tokens,
            input_tokens: self.input_tokens,
            output_tokens: self.output_tokens,
            max_output_tokens: None,
        }
    }

    /// How many tokens the turn took.
    pub fn into_acp_usage(self) -> (usage: Usage)
        requires
            self.countable(),
        ensures
            usage == (Usage {
                total_tokens: (self.input_tokens + self.output_tokens) as u64,
                input_tokens: self.input_tokens,
                output_tokens: self.output_tokens,
                thought_tokens: Some(self.reasoning_output_tokens),
                cached_read_tokens: Some(self.cached_input_tokens),
                cached_write_tokens: None,
            }),
    {
        Usage {
            total_tokens: self.input_tokens + self.output_tokens,
            input_tokens: self.input_tokens,
            output_tokens: self.output_tokens,
            thought_tokens: Some(self.reasoning_output_tokens),
            cached_read_tokens: Some(self.cached_input_tokens),
            cached_write_tokens: None,
        }
    }
}

/// However many files were changed, no more lines are shown than one for each of the first and
/// one that says how many more there are.
pub proof fn law_few_changes_are_shown(changes: Seq<CodexFileChange>)
    ensures
        change_lines(changes).len() <= MAX_CODEX_FILE_CHANGE_ENTRIES + 1,
        changes.len() <= MAX_CODEX_FILE_CHANGE_ENTRIES ==> change_lines(changes).len()
            == changes.len(),
        forall|i: int|
            0 <= i < changes.len() && i < MAX_CODEX_FILE_CHANGE_ENTRIES ==> #[trigger] change_lines(
                changes,
            )[i] == change_line(changes[i]),
{
}

/// The output of a command that failed is shown unless it is blank, and what is shown of a
/// command that did not fail has no more lines than are allowed.
pub proof fn law_failures_are_shown(output: Seq<char>, exit_code: Option<i32>)
    ensures
        exit_code matches Some(code) && code != 0 ==> (output_summary(output, exit_code) is Some
            <==> trim_of(output).len() > 0),
        trim_of(output).len() == 0 ==> output_summary(output, exit_code) is None,
        !(exit_code matches Some(code) && code != 0) && lines_of(trim_of(output)).len()
            > MAX_CODEX_SUCCESS_OUTPUT_LINES ==> output_summary(output, exit_code) is None,
{
}

/// What is shown of the output of a command has few lines: no more than the output of a command
/// that did not fail can have, and no more than are shown of one that failed.
pub proof fn law_summaries_are_short(output: Seq<char>, exit_code: Option<i32>)
    ensures
        output_summary(output, exit_code) matches Some(summary) ==> line_feeds(summary)
            < if exit_code matches Some(code) && code != 0 {
            MAX_CODEX_FAILED_OUTPUT_LINES
        } else {
            MAX_CODEX_SUCCESS_OUTPUT_LINES
        },
{
    law_shortened_text_has_few_lines(trim_of(output), MAX_CODEX_FAILED_OUTPUT_LINES as nat);
    law_shortened_text_has_few_lines(trim_of(output), MAX_CODEX_SUCCESS_OUTPUT_LINES as nat);
}

/// Messages, thoughts and errors are shown if and only if they say something. Commands, file
/// changes and plans are always shown, other work never.
pub proof fn law_what_is_shown(item: CodexItem)
    ensures
        shown_of(item) is None <==> match item {
            CodexItem::AgentMessage { text } => text@.len() == 0,
            CodexItem::Reasoning { text } => text@.len() == 0,
            CodexItem::Error { message } => message@.len() == 0,
            CodexItem::McpToolCall => true,
            CodexItem::WebSearch => true,
            _ => false,
        },
        shown_of(item) matches Some(Shown::Message(_)) ==> item is AgentMessage,
{
}

} // verus!
