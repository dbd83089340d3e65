use codex_terminal::terminal_sessions::{
    session_directory, size_to_pty_size, terminal_command, CreateTerminalSession, PtySize,
    RemoteTerminalSession, TerminalExit, TerminalMessage, TerminalSessionStore, TerminalSize,
    DEFAULT_REPLAY_BUFFER_BYTES,
};
use codex_terminal::terminal_settings::{
    path_hyperlink_regex, settings_shell_to_task_shell, terminal_persistent_sessions,
    terminal_profile, AlacCursorShape, AlacCursorStyle, CursorShape, CursorShapeContent,
    PathHyperlinkRegex, ProjectTerminalSettingsContent, ScrollbarSettingsContent, SettingsValues,
    Shell, ShellContent, TerminalPersistentSessions, TerminalPersistentSessionsContent,
    TerminalProfileContent, TerminalProfileDebug, TerminalProfileDebugContent, TerminalSettings,
    TerminalSettingsContent, Toolbar, ToolbarContent,
};
use codex_terminal::text_map::TextMap;

const SIZE: TerminalSize = TerminalSize { rows: 24, columns: 80, cell_width: 8, cell_height: 16 };

fn request() -> CreateTerminalSession {
    CreateTerminalSession {
        project_id: 7,
        profile_id: "p".to_string(),
        label: "l".to_string(),
        cwd: Some("/tmp".to_string()),
        persistent: true,
        program: None,
        args: vec!["ignored".to_string()],
        env: vec![("A".to_string(), "1".to_string())],
        initial_size: Some(SIZE),
    }
}

fn store() -> TerminalSessionStore {
    let mut store = TerminalSessionStore::new(7);
    store.create_session("t".to_string(), request(), 5);
    store
}

fn session(store: &mut TerminalSessionStore) -> &mut RemoteTerminalSession {
    store.sessions.get_mut("t").unwrap()
}

fn output(message: &TerminalMessage) -> (u64, u64, Vec<u8>, bool) {
    match message {
        TerminalMessage::Output(output) => {
            assert_eq!(output.session_id, "t");
            (output.attach_id, output.sequence, output.data.clone(), output.replay)
        }
        TerminalMessage::Exited(_) => panic!("no output"),
    }
}

#[test]
fn pseudoterminals_have_rows_and_columns() {
    assert_eq!(
        size_to_pty_size(&SIZE),
        PtySize { rows: 24, cols: 80, pixel_width: 8, pixel_height: 16 }
    );
    let size = TerminalSize { rows: 0, columns: 0, cell_width: 0, cell_height: 0 };
    assert_eq!(
        size_to_pty_size(&size),
        PtySize { rows: 1, cols: 1, pixel_width: 0, pixel_height: 0 }
    );
    let size = TerminalSize { rows: 65_535, columns: 65_536, cell_width: u32::MAX, cell_height: 65_536 };
    assert_eq!(
        size_to_pty_size(&size),
        PtySize { rows: 65_535, cols: 65_535, pixel_width: 65_535, pixel_height: 65_535 }
    );
}

#[test]
fn requests_need_the_project_and_a_size() {
    let store = TerminalSessionStore::new(7);
    let mut wrong = request();
    wrong.project_id = 8;
    wrong.initial_size = None;
    let error = store.handle_create_terminal_session(&wrong, None).err().unwrap();
    assert_eq!(error.message(), "invalid remote terminal project id 8");
    let mut missing = request();
    missing.initial_size = None;
    let error = store.handle_create_terminal_session(&missing, None).err().unwrap();
    assert_eq!(error.message(), "missing terminal size");
    let error = store.handle_list_terminal_sessions(1).err().unwrap();
    assert_eq!(error.message(), "invalid remote terminal project id 1");
}

#[test]
fn plans_follow_the_request() {
    let store = TerminalSessionStore::new(7);
    let plan = store
        .handle_create_terminal_session(&request(), Some("/bin/zsh".to_string()))
        .ok()
        .unwrap();
    assert_eq!(plan.session_id.len(), 36);
    assert_eq!(plan.size, size_to_pty_size(&SIZE));
    assert_eq!(plan.command.program, "/bin/zsh");
    assert!(plan.command.args.is_empty());
    assert_eq!(plan.command.cwd.as_deref(), Some("/tmp"));
    assert_eq!(plan.command.env, vec![("A".to_string(), "1".to_string())]);
    let again = store.handle_create_terminal_session(&request(), None).ok().unwrap();
    assert_ne!(again.session_id, plan.session_id);
    assert_eq!(again.command.program, "/bin/sh");
    let mut named = request();
    named.program = Some("top".to_string());
    let command = terminal_command(&named, Some("/bin/zsh".to_string()), None);
    assert_eq!(command.program, "top");
    assert_eq!(command.args, vec!["ignored"]);
    assert_eq!(command.cwd, None);
}

#[test]
fn tilde_stands_for_the_home_directory() {
    assert_eq!(session_directory(&None), None);
    assert_eq!(session_directory(&Some(String::new())), None);
    assert_eq!(session_directory(&Some("/a/~".to_string())).as_deref(), Some("/a/~"));
    assert_eq!(session_directory(&Some("~user/x".to_string())).as_deref(), Some("~user/x"));
    let expanded = session_directory(&Some("~/x".to_string())).unwrap();
    assert_eq!(expanded, shellexpand::tilde("~/x"));
    assert!(expanded.ends_with("/x"));
}

#[test]
fn created_sessions_are_listed_until_closed() {
    let mut store = store();
    assert_eq!(store.next_attach_id, 1);
    assert_eq!(store.replay_buffer_bytes, DEFAULT_REPLAY_BUFFER_BYTES);
    assert_eq!(DEFAULT_REPLAY_BUFFER_BYTES, 10 * 1024 * 1024);
    let listed = store.handle_list_terminal_sessions(7).ok().unwrap();
    assert_eq!(listed.len(), 1);
    assert_eq!(listed[0].session_id, "t");
    assert_eq!(listed[0].profile_id, "p");
    assert_eq!(listed[0].label, "l");
    assert_eq!(listed[0].cwd.as_deref(), Some("/tmp"));
    assert!(listed[0].persistent);
    assert!(!listed[0].exited);
    assert_eq!(listed[0].exit_code, None);
    let closed = store.handle_close_terminal_session(Some("t".to_string())).ok().unwrap();
    assert_eq!(closed.unwrap().id, "t");
    assert!(store.handle_list_terminal_sessions(7).ok().unwrap().is_empty());
    assert!(store.handle_close_terminal_session(Some("t".to_string())).ok().unwrap().is_none());
    let error = store.handle_close_terminal_session(None).err().unwrap();
    assert_eq!(error.message(), "missing terminal session id");
}

#[test]
fn input_needs_a_session() {
    let store = store();
    assert_eq!(store.handle_terminal_input(Some("t".to_string())).ok().unwrap(), "t");
    let error = store.handle_terminal_input(Some("u".to_string())).err().unwrap();
    assert_eq!(error.message(), "terminal session not found: u");
    let error = store.handle_terminal_input(None).err().unwrap();
    assert_eq!(error.message(), "missing terminal session id");
}

#[test]
fn resizing_needs_a_session_and_a_size() {
    let store = store();
    let (id, size) = store
        .handle_resize_terminal_session(Some("t".to_string()), Some(SIZE))
        .ok()
        .unwrap();
    assert_eq!(id, "t");
    assert_eq!(size.rows, 24);
    for (id, size, expected) in [
        (None, Some(SIZE), "missing terminal session id"),
        (None, None, "missing terminal session id"),
        (Some("t"), None, "missing terminal size"),
        (Some("u"), None, "missing terminal size"),
        (Some("u"), Some(SIZE), "terminal session not found: u"),
    ] {
        let id = id.map(str::to_string);
        let error = store.handle_resize_terminal_session(id.clone(), size).err().unwrap();
        assert_eq!(error.message(), expected);
        let error = store.handle_attach_terminal_session(id, size).err().unwrap();
        assert_eq!(error.message(), expected);
    }
}

#[test]
fn attached_windows_are_told_the_output() {
    let mut store = store();
    assert!(store.attach_to_session("t", 1, 10).ok().unwrap().is_empty());
    assert!(store.attach_to_session("t", 2, 11).ok().unwrap().is_empty());
    assert!(store.attach_to_session("t", 1, 12).ok().unwrap().is_empty());
    assert_eq!(session(&mut store).last_attached_at, Some(12));
    assert_eq!(session(&mut store).created_at, 5);
    let messages = session(&mut store).record_output(b"ab");
    assert_eq!(messages.len(), 2);
    assert_eq!(output(&messages[0]), (1, 1, b"ab".to_vec(), false));
    assert_eq!(output(&messages[1]), (2, 1, b"ab".to_vec(), false));
    session(&mut store).record_output(b"c");
    let messages = store.attach_to_session("t", 3, 13).ok().unwrap();
    assert_eq!(messages.len(), 1);
    assert_eq!(output(&messages[0]), (3, 2, b"abc".to_vec(), true));
    let error = store.attach_to_session("u", 3, 13).err().unwrap();
    assert_eq!(error.message(), "terminal session not found: u");
}

#[test]
fn only_the_end_of_the_output_is_kept() {
    let mut store = TerminalSessionStore::new(7);
    store.replay_buffer_bytes = 4;
    store.create_session("t".to_string(), request(), 0);
    for part in ["ab", "cd", "ef", "", "ghijklm"] {
        let session = session(&mut store);
        session.record_output(part.as_bytes());
        assert!(session.output.len() <= 4);
    }
    assert_eq!(session(&mut store).output, b"jklm");
    assert_eq!(session(&mut store).sequence, 5);
    let mut whole = TerminalSessionStore::new(7);
    whole.replay_buffer_bytes = 4;
    whole.create_session("t".to_string(), request(), 0);
    session(&mut whole).record_output(b"abcdefghijklm");
    assert_eq!(session(&mut whole).output, session(&mut store).output);
}

#[test]
fn end_of_the_program_is_told() {
    let mut store = store();
    session(&mut store).record_output(b"x");
    let message = session(&mut store).set_exit(TerminalExit::with_code(3));
    assert!(matches!(
        message,
        TerminalMessage::Exited(exited)
            if exited.session_id == "t" && exited.exit_code == Some(3) && exited.signal.is_none()
    ));
    let messages = store.attach_to_session("t", 1, 0).ok().unwrap();
    assert_eq!(messages.len(), 2);
    assert!(matches!(&messages[1], TerminalMessage::Exited(exited) if exited.exit_code == Some(3)));
    let info = session(&mut store).info();
    assert!(info.exited);
    assert_eq!(info.exit_code, Some(3));
    assert_eq!(info.signal, None);
    assert_eq!(TerminalExit::with_code(u32::MAX).exit_code, Some(-1));
    assert_eq!(TerminalExit::with_code(0x8000_0000).exit_code, Some(i32::MIN));
    assert_eq!(TerminalExit::with_code(0x7fff_ffff).exit_code, Some(i32::MAX));
}

#[test]
fn cursor_shapes_are_known_to_the_emulator() {
    assert_eq!(CursorShape::default(), CursorShape::Block);
    for (content, shape, alac) in [
        (CursorShapeContent::Block, CursorShape::Block, AlacCursorShape::Block),
        (CursorShapeContent::Underline, CursorShape::Underline, AlacCursorShape::Underline),
        (CursorShapeContent::Bar, CursorShape::Bar, AlacCursorShape::Beam),
        (CursorShapeContent::Hollow, CursorShape::Hollow, AlacCursorShape::HollowBlock),
    ] {
        assert_eq!(CursorShape::from(content), shape);
        assert_eq!(AlacCursorShape::from(shape), alac);
        assert_eq!(AlacCursorStyle::from(shape), AlacCursorStyle { shape: alac, blinking: false });
    }
}

#[test]
fn persistent_sessions_have_defaults() {
    assert_eq!(
        terminal_persistent_sessions(TerminalPersistentSessionsContent {
            remote: None,
            scrollback_bytes: None,
        }),
        TerminalPersistentSessions { remote: false, scrollback_bytes: 10 * 1024 * 1024 }
    );
    assert_eq!(
        terminal_persistent_sessions(TerminalPersistentSessionsContent {
            remote: Some(true),
            scrollback_bytes: Some(0),
        }),
        TerminalPersistentSessions { remote: true, scrollback_bytes: 0 }
    );
}

fn profile(adapter: Option<&str>) -> TerminalProfileContent {
    let mut env = TextMap::new();
    env.insert("K".to_string(), "V".to_string());
    TerminalProfileContent {
        label: Some("Python".to_string()),
        shell: Some(ShellContent::Program("python".to_string())),
        cwd: None,
        env: Some(env),
        persistent: Some(true),
        debug: Some(TerminalProfileDebugContent {
            adapter: adapter.map(str::to_string),
            debug_type: Some("launch".to_string()),
        }),
    }
}

#[test]
fn profiles_can_be_debugged_with_an_adapter() {
    let with = terminal_profile(profile(Some("debugpy")));
    assert_eq!(with.label.as_deref(), Some("Python"));
    assert!(matches!(&with.shell, Some(Shell::Program(program)) if program == "python"));
    assert_eq!(with.env.get("K"), Some(&"V".to_string()));
    assert!(with.persistent);
    assert_eq!(
        with.debug,
        Some(TerminalProfileDebug {
            adapter: "debugpy".to_string(),
            debug_type: Some("launch".to_string()),
        })
    );
    assert_eq!(terminal_profile(profile(None)).debug, None);
    let bare = terminal_profile(TerminalProfileContent {
        label: None,
        shell: None,
        cwd: Some("/c".to_string()),
        env: None,
        persistent: None,
        debug: None,
    });
    assert_eq!(bare.label, None);
    assert!(bare.shell.is_none());
    assert_eq!(bare.cwd.as_deref(), Some("/c"));
    assert_eq!(bare.env.len(), 0);
    assert!(!bare.persistent);
    assert_eq!(bare.debug, None);
}

#[test]
fn shells_and_patterns_are_taken_from_the_settings() {
    assert!(matches!(settings_shell_to_task_shell(ShellContent::System), Shell::System));
    let shell = settings_shell_to_task_shell(ShellContent::WithArguments {
        program: "sh".to_string(),
        args: vec!["-l".to_string()],
        title_override: Some("T".to_string()),
    });
    assert!(matches!(
        shell,
        Shell::WithArguments { program, args, title_override: Some(title) }
            if program == "sh" && args == ["-l"] && title == "T"
    ));
    assert_eq!(path_hyperlink_regex(PathHyperlinkRegex::SingleLine("a".to_string())), "a");
    assert_eq!(
        path_hyperlink_regex(PathHyperlinkRegex::MultiLine(vec!["a".to_string(), "b".to_string()])),
        "a\nb"
    );
}

struct Values;

impl SettingsValues for Values {
    type Number = f32;
    type FontSize = f32;
    type FontFamily = String;
    type FontFeatures = ();
    type FontWeight = f32;
    type LineHeight = f32;
    type WorkingDirectory = String;
    type Blink = bool;
    type AlternateScroll = bool;
    type DockPosition = &'static str;
    type Venv = bool;
    type ShowScrollbar = u8;
    type Bell = bool;
}

#[test]
fn incomplete_contents_are_noticed() {
    let project: ProjectTerminalSettingsContent<Values> = ProjectTerminalSettingsContent {
        shell: Some(ShellContent::System),
        working_directory: Some("/project".to_string()),
        env: None,
        detect_venv: Some(true),
        path_hyperlink_regexes: Some(vec![]),
        path_hyperlink_timeout_ms: Some(9),
    };
    assert!(!project.is_complete());
}

#[test]
fn settings_follow_user_and_project() {
    let mut profiles = TextMap::new();
    profiles.insert("py".to_string(), profile(Some("debugpy")));
    profiles.insert("rb".to_string(), profile(None));
    let user: TerminalSettingsContent<Values> = TerminalSettingsContent {
        font_size: Some(14.5),
        font_family: Some("Mono".to_string()),
        font_fallbacks: Some(vec!["Sans".to_string()]),
        font_features: None,
        font_weight: None,
        line_height: Some(1.25),
        cursor_shape: Some(CursorShapeContent::Bar),
        blinking: Some(true),
        alternate_scroll: Some(false),
        option_as_meta: Some(true),
        copy_on_select: Some(false),
        keep_selection_on_copy: Some(true),
        button: Some(false),
        dock: Some("bottom"),
        flexible: Some(true),
        default_width: Some(640.0),
        default_height: Some(320.0),
        max_scroll_history_lines: Some(100),
        scroll_multiplier: Some(2.0),
        toolbar: Some(ToolbarContent { breadcrumbs: Some(true) }),
        scrollbar: Some(ScrollbarSettingsContent { show: Some(3) }),
        minimum_contrast: Some(45.0),
        show_count_badge: Some(true),
        bell: Some(false),
        persistent_sessions: Some(TerminalPersistentSessionsContent {
            remote: Some(true),
            scrollback_bytes: None,
        }),
        default_profile: Some("py".to_string()),
        profiles: Some(profiles),
    };
    let mut env = TextMap::new();
    env.insert("X".to_string(), "y".to_string());
    let project: ProjectTerminalSettingsContent<Values> = ProjectTerminalSettingsContent {
        shell: Some(ShellContent::Program("fish".to_string())),
        working_directory: Some("/project".to_string()),
        env: Some(env),
        detect_venv: Some(true),
        path_hyperlink_regexes: Some(vec![
            PathHyperlinkRegex::SingleLine("one".to_string()),
            PathHyperlinkRegex::MultiLine(vec!["two".to_string(), "three".to_string()]),
        ]),
        path_hyperlink_timeout_ms: Some(9),
    };
    assert!(user.is_complete());
    assert!(project.is_complete());
    let settings = TerminalSettings::from_settings(user, project);
    assert!(matches!(&settings.shell, Shell::Program(program) if program == "fish"));
    assert_eq!(settings.working_directory, "/project");
    assert_eq!(settings.env.get("X"), Some(&"y".to_string()));
    assert!(settings.detect_venv);
    assert_eq!(settings.path_hyperlink_regexes, vec!["one", "two\nthree"]);
    assert_eq!(settings.path_hyperlink_timeout_ms, 9);
    assert_eq!(settings.font_size, Some(14.5));
    assert_eq!(settings.font_family.as_deref(), Some("Mono"));
    assert_eq!(settings.font_fallbacks, Some(vec!["Sans".to_string()]));
    assert_eq!(settings.font_features, None);
    assert_eq!(settings.line_height, 1.25);
    assert_eq!(settings.cursor_shape, CursorShape::Bar);
    assert!(settings.blinking);
    assert!(!settings.alternate_scroll);
    assert!(settings.option_as_meta);
    assert!(!settings.copy_on_select);
    assert!(settings.keep_selection_on_copy);
    assert!(!settings.button);
    assert_eq!(settings.dock, "bottom");
    assert!(settings.flexible);
    assert_eq!(settings.default_width, 640.0);
    assert_eq!(settings.default_height, 320.0);
    assert_eq!(settings.max_scroll_history_lines, Some(100));
    assert_eq!(settings.scroll_multiplier, 2.0);
    assert_eq!(settings.toolbar, Toolbar { breadcrumbs: true });
    assert_eq!(settings.scrollbar.show, Some(3));
    assert_eq!(settings.minimum_contrast, 45.0);
    assert!(settings.show_count_badge);
    assert!(!settings.bell);
    assert_eq!(
        settings.persistent_sessions,
        TerminalPersistentSessions { remote: true, scrollback_bytes: 10_485_760 }
    );
    assert_eq!(settings.default_profile, "py");
    assert_eq!(settings.profiles.len(), 2);
    assert!(settings.profiles.get("py").unwrap().debug.is_some());
    assert!(settings.profiles.get("rb").unwrap().debug.is_none());
}
