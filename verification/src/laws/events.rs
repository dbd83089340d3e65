//! Laws of what is shown of the work of the Codex program.
use crate::codex_events::{
    change_lines, output_summary, shown_of, CodexFileChange, CodexItem, CodexTodoItem, PlanEntry,
    PlanEntryPriority, PlanEntryStatus, SessionUpdate, Shown,
};
use crate::laws::texts::{law_decimal_is_read_back, number_of};
use crate::text::{decimal_of, join_of, lines_of, signed_decimal_of, trim_of, truncated_lines};
use vstd::prelude::*;
use vstd::utf8::encode_utf8;

verus! {

/// What the agent says, thinks or reports as an error is shown in full, however long it is.
pub proof fn law_words_are_shown_whole(text: String)
    ensures
        text@.len() > 0 ==> shown_of(CodexItem::AgentMessage { text }) == Some(
            Shown::Message(text@),
        ),
        text@.len() > 0 ==> shown_of(CodexItem::Reasoning { text }) == Some(Shown::Thought(text@)),
        text@.len() > 0 ==> shown_of(CodexItem::Error { message: text }) == Some(
            Shown::Thought(text@),
        ),
        text@.len() == 0 ==> shown_of(CodexItem::AgentMessage { text }) is None && shown_of(
            CodexItem::Reasoning { text },
        ) is None && shown_of(CodexItem::Error { message: text }) is None,
{
}

/// A command is shown with its first characters, up to as many as are allowed, its status, its exit
/// code where it has one, and what is shown of its output.
pub proof fn law_commands_are_shown(
    command: String,
    shown_command: Seq<char>,
    aggregated_output: String,
    exit_code: Option<i32>,
    status: String,
)
    requires
        command@.len() <= 160 ==> shown_command == command@,
        command@.len() > 160 ==> shown_command == command@.take(160).push('\u{2026}'),
    ensures
        shown_of(
            (CodexItem::CommandExecution { command, aggregated_output, exit_code, status }),
        ) matches Some(Shown::Thought(report)) && report == "Command `"@ + shown_command + "` "@
            + status@ + (match exit_code {
            Some(code) => " with exit code "@ + signed_decimal_of(code as int),
            None => seq![],
        }) + (match output_summary(aggregated_output@, exit_code) {
            Some(summary) => "\n\n```text\n"@ + summary + "\n```"@,
            None => seq![],
        }),
{
}

/// Of the output of a command without the white space around it, the first lines are shown: of a
/// command that failed always, of any other only where it has at most 600 bytes and 8 lines.
pub proof fn law_output_is_shown(output: Seq<char>, exit_code: Option<i32>)
    ensures
        ({
            let trimmed = trim_of(output);
            let succeeded = exit_code is None || exit_code == Some(0i32);
            let small = encode_utf8(trimmed).len() <= 600 && lines_of(trimmed).len() <= 8;
            &&& trimmed.len() == 0 ==> output_summary(output, exit_code) is None
            &&& trimmed.len() > 0 && !succeeded ==> output_summary(output, exit_code) == Some(
                truncated_lines(trimmed, 40),
            )
            &&& trimmed.len() > 0 && succeeded && small ==> output_summary(output, exit_code)
                == Some(truncated_lines(trimmed, 8))
            &&& succeeded && !small ==> output_summary(output, exit_code) is None
        }),
{
}

/// Changed files are shown below their status, one to a line.
pub proof fn law_file_changes_are_shown(changes: Vec<CodexFileChange>, status: String)
    ensures
        shown_of((CodexItem::FileChange { changes, status })) == Some(
            Shown::Thought(
                "File changes "@ + status@ + ":\n"@ + join_of(change_lines(changes@), "\n"@),
            ),
        ),
{
}

/// Each of the first twelve changed files is shown with how it was changed and its path, of which
/// the first characters are kept where it is too long. A thirteenth line says how many more there
/// are.
pub proof fn law_changed_files_are_named(
    changes: Seq<CodexFileChange>,
    i: int,
    shown_path: Seq<char>,
)
    requires
        0 <= i < changes.len(),
        changes[i].path@.len() <= 160 ==> shown_path == changes[i].path@,
        changes[i].path@.len() > 160 ==> shown_path == changes[i].path@.take(160).push('\u{2026}'),
    ensures
        i < 12 ==> i < change_lines(changes).len() && change_lines(changes)[i] == "- "@
            + changes[i].kind@ + " "@ + shown_path,
        changes.len() <= 12 ==> change_lines(changes).len() == changes.len(),
        changes.len() > 12 ==> {
            &&& change_lines(changes).len() == 13
            &&& exists|count: Seq<char>|
                number_of(count) == changes.len() - 12 && change_lines(changes)[12]
                    == #[trigger] ("- ... and "@ + count) + " more"@
        },
{
    if changes.len() > 12 {
        let count = decimal_of((changes.len() - 12) as nat);
        law_decimal_is_read_back((changes.len() - 12) as nat);
        assert(change_lines(changes)[12] == ("- ... and "@ + count) + " more"@);
    }
}

/// Every step of a plan is shown, in full and in its order, as done if and only if it is.
pub proof fn law_plans_are_shown_whole(items: Vec<CodexTodoItem>)
    ensures
        shown_of((CodexItem::TodoList { items })) matches Some(Shown::Plan(steps)) && steps.len()
            == items@.len() && forall|i: int|
            0 <= i < items@.len() ==> {
                &&& (#[trigger] steps[i]).content == items@[i].text@
                &&& steps[i].priority == PlanEntryPriority::Medium
                &&& steps[i].status == if items@[i].completed {
                    PlanEntryStatus::Completed
                } else {
                    PlanEntryStatus::Pending
                }
            },
{
}

/// The mathematical value of an update holds all that the update does.
pub proof fn law_updates_are_whole(update: SessionUpdate, entry: PlanEntry)
    ensures
        match update {
            SessionUpdate::AgentMessageChunk(text) => update@ == Shown::Message(text@),
            SessionUpdate::AgentThoughtChunk(text) => update@ == Shown::Thought(text@),
            SessionUpdate::Plan(entries) => {
                &&& update@ matches Shown::Plan(steps)
                &&& steps.len() == entries@.len()
                &&& forall|i: int| 0 <= i < steps.len() ==> #[trigger] steps[i] == entries@[i]@
            },
        },
        entry@.content == entry.content@,
        entry@.priority == entry.priority,
        entry@.status == entry.status,
{
}

} // verus!
