use codex_terminal::codex_events::{
    item_to_session_update, summarize_codex_command_output, summarize_codex_file_changes,
    CodexError, CodexEvent, CodexFileChange, CodexItem, CodexTodoItem, CodexUsage,
    PlanEntryPriority, PlanEntryStatus, SessionUpdate, TokenUsage, Usage,
};
use codex_terminal::codex_run::{
    event_parse_message, exit_message, record_stderr_line, remote_capture_result, CodexRun,
    CodexRunAction, CodexRunState, ExitReport, CODEX_PROGRAM,
};

fn run(model: &str, dirs: &[&str], thread_id: Option<&str>) -> CodexRun {
    CodexRun {
        session_id: "s".to_string(),
        codex_thread_id: thread_id.map(str::to_string),
        input: "Do it".to_string(),
        work_dirs: dirs.iter().map(|dir| dir.to_string()).collect(),
        selected_model: model.to_string(),
        reasoning_effort: "high".to_string(),
    }
}

fn thought(update: Option<SessionUpdate>) -> String {
    match update {
        Some(SessionUpdate::AgentThoughtChunk(text)) => text,
        _ => panic!("no thought"),
    }
}

fn command(command: &str, output: &str, exit_code: Option<i32>) -> CodexItem {
    CodexItem::CommandExecution {
        command: command.to_string(),
        aggregated_output: output.to_string(),
        exit_code,
        status: "completed".to_string(),
    }
}

fn changes(count: usize) -> Vec<CodexFileChange> {
    (0..count)
        .map(|i| CodexFileChange { path: format!("f{i}"), kind: "update".to_string() })
        .collect()
}

#[test]
fn arguments_name_model_effort_directories_and_input() {
    assert_eq!(CODEX_PROGRAM, "codex");
    assert_eq!(
        run("gpt-5.5", &["/a", "", "/b"], None).codex_args(),
        vec![
            "exec",
            "--experimental-json",
            "--sandbox",
            "danger-full-access",
            "--skip-git-repo-check",
            "--model",
            "gpt-5.5",
            "--config",
            "model_reasoning_effort=\"high\"",
            "--cd",
            "/a",
            "--add-dir",
            "/b",
            "Do it",
        ]
    );
}

#[test]
fn arguments_name_the_thread_to_go_on_with() {
    assert_eq!(
        run("default", &[], Some("t1")).codex_args()[5..],
        ["--config", "model_reasoning_effort=\"high\"", "resume", "t1", "Do it"]
    );
    assert_eq!(
        run("default", &["", "/b"], None).codex_args()[7..],
        ["--add-dir", "/b", "Do it"]
    );
}

#[test]
fn last_message_is_the_answer() {
    let run = run("gpt-5.5", &[], Some("t0"));
    let mut state = CodexRunState::new(&run);
    assert_eq!(state.codex_thread_id.as_deref(), Some("t0"));
    let events = vec![
        CodexEvent::TurnStarted,
        CodexEvent::ThreadStarted { thread_id: "t1".to_string() },
        CodexEvent::ItemStarted { item: CodexItem::AgentMessage { text: "no".to_string() } },
        CodexEvent::ItemCompleted { item: CodexItem::AgentMessage { text: "one".to_string() } },
        CodexEvent::ItemUpdated { item: CodexItem::AgentMessage { text: "no".to_string() } },
        CodexEvent::ItemCompleted { item: CodexItem::AgentMessage { text: "two".to_string() } },
        CodexEvent::ItemCompleted { item: CodexItem::WebSearch },
    ];
    for event in events {
        let shown = matches!(event, CodexEvent::ItemCompleted { item: CodexItem::AgentMessage { .. } });
        match state.handle_event(event, "gpt-5.5") {
            CodexRunAction::UpdateSession(SessionUpdate::AgentMessageChunk(_)) => assert!(shown),
            CodexRunAction::Continue => assert!(!shown),
            _ => panic!("unexpected"),
        }
    }
    let output = state.finish(None).unwrap_or_else(|_| panic!("failed"));
    assert_eq!(output.codex_thread_id.as_deref(), Some("t1"));
    assert_eq!(output.final_response, "two");
    assert_eq!(output.usage, None);
}

#[test]
fn usage_is_told_and_kept() {
    let mut state = CodexRunState::new(&run("gpt-5.5", &[], None));
    let usage = CodexUsage {
        input_tokens: 100,
        cached_input_tokens: 40,
        output_tokens: 20,
        reasoning_output_tokens: 7,
    };
    let action = state.handle_event(CodexEvent::TurnCompleted { usage }, "gpt-5.5");
    assert!(matches!(
        action,
        CodexRunAction::UpdateTokenUsage(TokenUsage {
            max_tokens: 258_400,
            used_tokens: 120,
            input_tokens: 100,
            output_tokens: 20,
            max_output_tokens: None,
        })
    ));
    assert_eq!(
        state.usage,
        Some(Usage {
            total_tokens: 120,
            input_tokens: 100,
            output_tokens: 20,
            thought_tokens: Some(7),
            cached_read_tokens: Some(40),
            cached_write_tokens: None,
        })
    );
    assert_eq!(usage.to_token_usage(5).max_tokens, 5);
    assert_eq!(usage.into_acp_usage().total_tokens, 120);
}

#[test]
fn failures_end_a_run() {
    let mut state = CodexRunState::new(&run("gpt-5.5", &[], None));
    let failed = CodexEvent::TurnFailed { error: CodexError { message: "no quota".to_string() } };
    assert!(matches!(
        state.handle_event(failed, "gpt-5.5"),
        CodexRunAction::Fail(message) if message == "no quota"
    ));
    let error = CodexEvent::Error { message: "lost".to_string() };
    assert!(matches!(
        state.handle_event(error, "gpt-5.5"),
        CodexRunAction::Fail(message) if message == "lost"
    ));
    assert_eq!(state.final_response, "");
}

#[test]
fn failing_program_ends_a_run_with_what_it_wrote() {
    let report = |success: bool, stderr: &str| ExitReport {
        success,
        status: "exit status: 1".to_string(),
        stderr: stderr.to_string(),
    };
    let state = || CodexRunState::new(&run("gpt-5.5", &[], None));
    assert_eq!(
        state().finish(Some(report(false, " \n"))).err(),
        Some("Codex exited with exit status: 1".to_string())
    );
    assert_eq!(
        state().finish(Some(report(false, "\nbad\nworse\n"))).err(),
        Some("Codex exited with exit status: 1: bad\nworse".to_string())
    );
    assert!(state().finish(Some(report(true, "noise"))).is_ok());
    assert_eq!(remote_capture_result("out".to_string(), report(true, "x")), Ok("out".to_string()));
    assert_eq!(
        remote_capture_result("out".to_string(), report(false, " x ")),
        Err("remote command exited with exit status: 1: x".to_string())
    );
    assert_eq!(exit_message("p", "2", ""), "p exited with 2");
}

#[test]
fn error_output_is_kept_line_by_line() {
    let mut stderr = String::new();
    record_stderr_line(&mut stderr, "one\r\n");
    record_stderr_line(&mut stderr, "two");
    assert_eq!(stderr, "one\ntwo\n");
    assert_eq!(event_parse_message("{"), "failed to parse Codex event: {");
}

#[test]
fn empty_items_are_not_shown() {
    assert!(item_to_session_update(&CodexItem::AgentMessage { text: String::new() }).is_none());
    assert!(item_to_session_update(&CodexItem::Reasoning { text: String::new() }).is_none());
    assert!(item_to_session_update(&CodexItem::Error { message: String::new() }).is_none());
    assert!(item_to_session_update(&CodexItem::McpToolCall).is_none());
    assert!(item_to_session_update(&CodexItem::WebSearch).is_none());
    assert_eq!(thought(item_to_session_update(&CodexItem::Reasoning { text: "a".to_string() })), "a");
    assert_eq!(thought(item_to_session_update(&CodexItem::Error { message: "b".to_string() })), "b");
}

#[test]
fn commands_are_shown() {
    assert_eq!(
        thought(item_to_session_update(&command("ls", " a\nb \n", Some(0)))),
        "Command `ls` completed with exit code 0\n\n```text\na\nb\n```"
    );
    assert_eq!(
        thought(item_to_session_update(&command("ls", "  ", None))),
        "Command `ls` completed"
    );
    assert_eq!(
        thought(item_to_session_update(&command(&"x".repeat(161), "", Some(-1)))),
        format!("Command `{}…` completed with exit code -1", "x".repeat(160))
    );
}

#[test]
fn long_output_is_shown_only_of_failures() {
    let nine = "l\n".repeat(9);
    let eight = "l\n".repeat(8);
    let seven = "l\n".repeat(7);
    assert_eq!(summarize_codex_command_output(&nine, Some(0)), None);
    assert_eq!(summarize_codex_command_output(&nine, None), None);
    assert_eq!(
        summarize_codex_command_output(&nine, Some(1)),
        Some("l\n".repeat(8) + "l")
    );
    assert_eq!(
        summarize_codex_command_output(&eight, Some(0)),
        Some("l\n".repeat(7) + "…")
    );
    assert_eq!(
        summarize_codex_command_output(&seven, Some(0)),
        Some("l\n".repeat(6) + "l")
    );
    assert_eq!(
        summarize_codex_command_output(&"l\n".repeat(50), Some(2)),
        Some("l\n".repeat(39) + "…")
    );
    assert_eq!(summarize_codex_command_output(" \n ", Some(1)), None);
    assert_eq!(
        summarize_codex_command_output(&"x".repeat(600), Some(0)),
        Some("x".repeat(600))
    );
    assert_eq!(summarize_codex_command_output(&"x".repeat(601), Some(0)), None);
    assert_eq!(summarize_codex_command_output(&"é".repeat(301), Some(0)), None);
    assert_eq!(
        summarize_codex_command_output(&"é".repeat(300), Some(0)),
        Some("é".repeat(300))
    );
}

#[test]
fn few_changes_are_shown() {
    assert_eq!(summarize_codex_file_changes(&changes(0)), "");
    assert_eq!(summarize_codex_file_changes(&changes(2)), "- update f0\n- update f1");
    let twelve = summarize_codex_file_changes(&changes(12));
    assert_eq!(twelve.lines().count(), 12);
    let many = summarize_codex_file_changes(&changes(15));
    assert_eq!(many.lines().count(), 13);
    assert!(many.ends_with("- update f11\n- ... and 3 more"));
    let item = CodexItem::FileChange { changes: changes(1), status: "completed".to_string() };
    assert_eq!(
        thought(item_to_session_update(&item)),
        "File changes completed:\n- update f0"
    );
}

#[test]
fn plans_are_shown() {
    let item = CodexItem::TodoList {
        items: vec![
            CodexTodoItem { text: "a".to_string(), completed: true },
            CodexTodoItem { text: "b".to_string(), completed: false },
        ],
    };
    match item_to_session_update(&item) {
        Some(SessionUpdate::Plan(entries)) => {
            assert_eq!(entries.len(), 2);
            assert_eq!(entries[0].content, "a");
            assert_eq!(entries[0].status, PlanEntryStatus::Completed);
            assert_eq!(entries[1].status, PlanEntryStatus::Pending);
            assert_eq!(entries[1].priority, PlanEntryPriority::Medium);
        }
        _ => panic!("no plan"),
    }
}
