//! Laws of runs of the Codex program.
use crate::codex_events::{shown_of, CodexEvent, CodexItem};
use crate::codex_run::{
    after_event, countable, exit_text, further_directory_args, reaction_to, CodexRun,
    CodexRunAction, CodexRunOutput, CodexRunState, Progress, Reaction,
};
use crate::text::{texts, trim_of};
use vstd::prelude::*;

verus! {

/// How many arguments name the model of a run.
pub open spec fn model_arg_count(run: CodexRun) -> int {
    if run.selected_model@ == "default"@ {
        0
    } else {
        2
    }
}

/// How many arguments name the directory that a run works in.
pub open spec fn directory_arg_count(run: CodexRun) -> int {
    if run.work_dirs@.len() > 0 && run.work_dirs@[0]@.len() > 0 {
        2
    } else {
        0
    }
}

/// The arguments carry the whole run: the model unless it is the default, the reasoning effort,
/// the first directory, the further ones, the thread to go on with, and the input, each in full
/// and in its place.
pub proof fn law_arguments_carry_the_run(run: CodexRun)
    ensures
        ({
            let args = run.args();
            let config = 5 + model_arg_count(run);
            let further = config + 2 + directory_arg_count(run);
            let dirs = texts(run.work_dirs@);
            let named = further_directory_args(
                if dirs.len() > 0 {
                    dirs.skip(1)
                } else {
                    dirs
                },
            );
            let end = further + named.len();
            &&& args.take(5) == seq![
                "exec"@,
                "--experimental-json"@,
                "--sandbox"@,
                "danger-full-access"@,
                "--skip-git-repo-check"@,
            ]
            &&& run.selected_model@ != "default"@ ==> args[5] == "--model"@ && args[6]
                == run.selected_model@
            &&& args[config] == "--config"@
            &&& args[config + 1] == ("model_reasoning_effort=\""@ + run.reasoning_effort@).push('"')
            &&& run.work_dirs@.len() > 0 && run.work_dirs@[0]@.len() > 0 ==> args[config + 2]
                == "--cd"@ && args[config + 3] == run.work_dirs@[0]@
            &&& args.subrange(further, end) == named
            &&& match run.codex_thread_id {
                Some(thread_id) => {
                    &&& args.len() == end + 3
                    &&& args[end] == "resume"@
                    &&& args[end + 1] == thread_id@
                },
                None => args.len() == end + 1,
            }
            &&& args[args.len() - 1] == run.input@
        }),
{
    reveal_strlit("\"");
    assert("\""@ =~= seq!['"']);
    let args = run.args();
    let config = 5 + model_arg_count(run);
    let further = config + 2 + directory_arg_count(run);
    let dirs = texts(run.work_dirs@);
    let named = further_directory_args(
        if dirs.len() > 0 {
            dirs.skip(1)
        } else {
            dirs
        },
    );
    assert(args.take(5) =~= seq![
        "exec"@,
        "--experimental-json"@,
        "--sandbox"@,
        "danger-full-access"@,
        "--skip-git-repo-check"@,
    ]);
    assert(args[config + 1] =~= ("model_reasoning_effort=\""@ + run.reasoning_effort@).push('"'));
    assert(args.subrange(further, further + named.len()) =~= named);
}

/// The further directories are named in their order, each in full, and empty ones are passed over.
pub proof fn law_further_directories_are_named(
    dir: Seq<char>,
    earlier: Seq<Seq<char>>,
    later: Seq<Seq<char>>,
)
    ensures
        dir.len() > 0 ==> further_directory_args(seq![dir]) == seq!["--add-dir"@, dir],
        dir.len() == 0 ==> further_directory_args(seq![dir]).len() == 0,
        further_directory_args(earlier + later) == further_directory_args(earlier)
            + further_directory_args(later),
    decreases later.len(),
{
    let single = seq![dir];
    assert(single.drop_last() =~= seq![]);
    assert(further_directory_args(single.drop_last()) =~= seq![]);
    assert(dir.len() > 0 ==> further_directory_args(single) =~= seq!["--add-dir"@, dir]);
    if later.len() == 0 {
        assert(earlier + later =~= earlier);
        assert(further_directory_args(earlier) + further_directory_args(later)
            =~= further_directory_args(earlier));
    } else {
        law_further_directories_are_named(dir, earlier, later.drop_last());
        assert((earlier + later).drop_last() =~= earlier + later.drop_last());
        assert((earlier + later).last() == later.last());
        assert(further_directory_args(earlier + later) =~= further_directory_args(earlier)
            + further_directory_args(later));
    }
}

/// Runs with different reasoning efforts, models or inputs have different arguments.
pub proof fn law_different_runs_have_different_arguments(a: CodexRun, b: CodexRun)
    requires
        a.reasoning_effort@ != b.reasoning_effort@ || a.selected_model@ != b.selected_model@
            || a.input@ != b.input@,
    ensures
        a.args() != b.args(),
{
    law_arguments_carry_the_run(a);
    law_arguments_carry_the_run(b);
    reveal_strlit("--model");
    reveal_strlit("--config");
    assert("--model"@.len() == 7);
    assert("--config"@.len() == 8);
    if a.args() == b.args() {
        assert(model_arg_count(a) == model_arg_count(b));
        let config = 5 + model_arg_count(a);
        let before = "model_reasoning_effort=\""@;
        let x = (before + a.reasoning_effort@).push('"');
        let y = (before + b.reasoning_effort@).push('"');
        assert(x == y);
        assert(x.len() == before.len() + a.reasoning_effort@.len() + 1);
        assert(a.reasoning_effort@ =~= x.subrange(before.len() as int, x.len() - 1));
        assert(b.reasoning_effort@ =~= y.subrange(before.len() as int, y.len() - 1));
    }
}

/// An event changes of a run what it tells and nothing else: a thread that was started, the usage
/// of a turn, and the whole text of a message that the agent completed.
pub proof fn law_events_change_what_they_tell(before: Progress, event: CodexEvent)
    ensures
        ({
            let after = after_event(before, event);
            &&& after.codex_thread_id == match event {
                CodexEvent::ThreadStarted { thread_id } => Some(thread_id@),
                _ => before.codex_thread_id,
            }
            &&& after.final_response == match event {
                CodexEvent::ItemCompleted { item: CodexItem::AgentMessage { text } } => text@,
                _ => before.final_response,
            }
            &&& match event {
                CodexEvent::TurnCompleted { usage } => {
                    &&& after.usage matches Some(told)
                    &&& usage.input_tokens + usage.output_tokens <= u64::MAX ==> told.total_tokens
                        == usage.input_tokens + usage.output_tokens
                    &&& told.input_tokens == usage.input_tokens
                    &&& told.output_tokens == usage.output_tokens
                    &&& told.thought_tokens == Some(usage.reasoning_output_tokens)
                    &&& told.cached_read_tokens == Some(usage.cached_input_tokens)
                    &&& told.cached_write_tokens is None
                },
                _ => after.usage == before.usage,
            }
        }),
{
}

/// A turn can be counted if and only if the tokens that went in and came out fit into 64 bits, and
/// every other event can.
pub proof fn law_turns_that_fit_are_counted(event: CodexEvent)
    ensures
        match event {
            CodexEvent::TurnCompleted { usage } => countable(event) <==> usage.input_tokens
                + usage.output_tokens <= u64::MAX,
            _ => countable(event),
        },
{
}

/// What is done about an event: the usage of a turn is told, a failure ends the run with its whole
/// message, completed work is shown, and nothing is done about any other event.
pub proof fn law_reactions_follow_events(event: CodexEvent)
    ensures
        match event {
            CodexEvent::TurnCompleted { usage } => {
                &&& reaction_to(event) matches Reaction::UpdateTokenUsage(told)
                &&& told.max_tokens == 258_400
                &&& usage.input_tokens + usage.output_tokens <= u64::MAX ==> told.used_tokens
                    == usage.input_tokens + usage.output_tokens
                &&& told.input_tokens == usage.input_tokens
                &&& told.output_tokens == usage.output_tokens
                &&& told.max_output_tokens is None
            },
            CodexEvent::TurnFailed { error } => reaction_to(event) == Reaction::Fail(
                error.message@,
            ),
            CodexEvent::Error { message } => reaction_to(event) == Reaction::Fail(message@),
            CodexEvent::ItemCompleted { item } => reaction_to(event) == match shown_of(item) {
                Some(shown) => Reaction::Show(shown),
                None => Reaction::Continue,
            },
            CodexEvent::ThreadStarted { .. } => reaction_to(event) == Reaction::Continue,
            CodexEvent::TurnStarted => reaction_to(event) == Reaction::Continue,
            CodexEvent::ItemStarted { .. } => reaction_to(event) == Reaction::Continue,
            CodexEvent::ItemUpdated { .. } => reaction_to(event) == Reaction::Continue,
        },
{
}

/// What is said of a program that failed names the program, how it ended, and all that it wrote to
/// its error output but for the white space around it.
pub proof fn law_failures_tell_the_error_output(
    program: Seq<char>,
    status: Seq<char>,
    stderr: Seq<char>,
)
    ensures
        trim_of(stderr).len() == 0 ==> exit_text(program, status, stderr) == program
            + " exited with "@ + status,
        trim_of(stderr).len() > 0 ==> exit_text(program, status, stderr) == program
            + " exited with "@ + status + ": "@ + trim_of(stderr),
{
}

/// The mathematical value of a run and of what is to be done about an event holds all that they
/// do.
pub proof fn law_progress_is_whole(
    state: CodexRunState,
    output: CodexRunOutput,
    action: CodexRunAction,
)
    ensures
        state.codex_thread_id matches Some(id) ==> state@.codex_thread_id == Some(id@),
        state.codex_thread_id is None ==> state@.codex_thread_id is None,
        state@.final_response == state.final_response@,
        state@.usage == state.usage,
        output.codex_thread_id matches Some(id) ==> output@.codex_thread_id == Some(id@),
        output.codex_thread_id is None ==> output@.codex_thread_id is None,
        output@.final_response == output.final_response@,
        output@.usage == output.usage,
        match action {
            CodexRunAction::Continue => action@ == Reaction::Continue,
            CodexRunAction::UpdateTokenUsage(usage) => action@ == Reaction::UpdateTokenUsage(usage),
            CodexRunAction::UpdateSession(update) => action@ == Reaction::Show(update@),
            CodexRunAction::Fail(message) => action@ == Reaction::Fail(message@),
        },
{
}

} // verus!
