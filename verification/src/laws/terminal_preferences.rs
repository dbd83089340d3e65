//! Laws of the settings of the terminal.
use crate::agent_settings::text_values;
use crate::terminal_settings::{
    alac_shape_of, cursor_shape_of, persistent_sessions_of, profile_of, profile_values,
    profiles_of, regex_of, regexes_of, shell_of, AlacCursorShape, AlacCursorStyle, CursorShape,
    CursorShapeContent, PathHyperlinkRegex, ProjectTerminalSettingsContent, SettingsValues, Shell,
    ShellContent, TerminalPersistentSessionsContent, TerminalProfile, TerminalProfileContent,
    TerminalSettings, TerminalSettingsContent,
};
use crate::text::{join_of, texts};
use vstd::prelude::*;
use vstd::std_specs::convert::FromSpec;

verus! {

/// The program of the settings is taken over with its arguments and its title.
pub proof fn law_shells_are_taken_over(content: ShellContent)
    ensures
        match content {
            ShellContent::System => shell_of(content) == Shell::System,
            ShellContent::Program(program) => shell_of(content) == Shell::Program(program),
            ShellContent::WithArguments { program, args, title_override } => shell_of(content) == (
            Shell::WithArguments { program, args, title_override }),
        },
{
}

/// A profile is taken over with all that the settings say of it. It is not persistent and has no
/// environment unless they say so, and can be debugged if and only if they name an adapter.
pub proof fn law_profiles_are_taken_over(content: TerminalProfileContent)
    ensures
        ({
            let profile = profile_of(content);
            &&& content.label matches Some(label) ==> profile.label == Some(label@)
            &&& content.label is None ==> profile.label is None
            &&& content.shell matches Some(shell) ==> profile.shell == Some(shell_of(shell))
            &&& content.shell is None ==> profile.shell is None
            &&& content.cwd matches Some(cwd) ==> profile.cwd == Some(cwd@)
            &&& content.cwd is None ==> profile.cwd is None
            &&& content.env matches Some(env) ==> profile.env == text_values(env@)
            &&& content.env is None ==> profile.env == Map::<Seq<char>, Seq<char>>::empty()
            &&& content.persistent matches Some(persistent) ==> profile.persistent == persistent
            &&& content.persistent is None ==> !profile.persistent
            &&& profile.debug is Some <==> content.debug is Some && content.debug->0.adapter is Some
            &&& profile.debug matches Some(debug) ==> {
                &&& debug.0 == content.debug->0.adapter->0@
                &&& content.debug->0.debug_type matches Some(kind) ==> debug.1 == Some(kind@)
                &&& content.debug->0.debug_type is None ==> debug.1 is None
            }
        }),
{
}

/// The mathematical value of a profile holds all that the profile does, and every profile of the
/// settings is taken over under its name.
pub proof fn law_profiles_are_whole(
    profile: TerminalProfile,
    profiles: Map<Seq<char>, TerminalProfile>,
    contents: Map<Seq<char>, TerminalProfileContent>,
)
    ensures
        profile.label matches Some(label) ==> profile@.label == Some(label@),
        profile.label is None ==> profile@.label is None,
        profile@.shell == profile.shell,
        profile.cwd matches Some(cwd) ==> profile@.cwd == Some(cwd@),
        profile.cwd is None ==> profile@.cwd is None,
        profile@.env == text_values(profile.env@),
        profile@.persistent == profile.persistent,
        profile.debug is Some <==> profile@.debug is Some,
        profile.debug matches Some(debug) ==> {
            &&& (profile@.debug->0).0 == debug.adapter@
            &&& debug.debug_type matches Some(kind) ==> (profile@.debug->0).1 == Some(kind@)
            &&& debug.debug_type is None ==> (profile@.debug->0).1 is None
        },
        profile_values(profiles).dom() == profiles.dom(),
        forall|id: Seq<char>| #[trigger]
            profiles.contains_key(id) ==> profile_values(profiles)[id] == profiles[id]@,
        profiles_of(contents).dom() == contents.dom(),
        forall|id: Seq<char>| #[trigger]
            contents.contains_key(id) ==> profiles_of(contents)[id] == profile_of(contents[id]),
{
    assert(profile_values(profiles).dom() =~= profiles.dom());
    assert(profiles_of(contents).dom() =~= contents.dom());
}

/// Persistent sessions are as the settings say; where they do not say it, not remote and with
/// 10 MiB of output.
pub proof fn law_persistent_sessions_are_taken_over(content: TerminalPersistentSessionsContent)
    ensures
        content.remote matches Some(remote) ==> persistent_sessions_of(content).remote == remote,
        content.remote is None ==> !persistent_sessions_of(content).remote,
        content.scrollback_bytes matches Some(bytes) ==> persistent_sessions_of(
            content,
        ).scrollback_bytes == bytes,
        content.scrollback_bytes is None ==> persistent_sessions_of(content).scrollback_bytes
            == 10 * 1024 * 1024,
{
}

/// Every pattern for paths is taken over, in its order: in full where it is on one line, and with
/// a line feed between each two of its lines where it is on several.
pub proof fn law_patterns_are_taken_over(
    regex: PathHyperlinkRegex,
    regexes: Seq<PathHyperlinkRegex>,
)
    ensures
        regex matches PathHyperlinkRegex::SingleLine(line) ==> regex_of(regex) == line@,
        regex matches PathHyperlinkRegex::MultiLine(lines) ==> regex_of(regex) == join_of(
            texts(lines@),
            "\n"@,
        ),
        regexes_of(regexes).len() == regexes.len(),
        forall|i: int|
            0 <= i < regexes.len() ==> #[trigger] regexes_of(regexes)[i] == regex_of(regexes[i]),
{
}

/// The shape of the cursor is that of the settings, and the terminal emulator is told the same
/// shape, which does not blink.
pub proof fn law_cursor_keeps_its_shape(content: CursorShapeContent)
    ensures
        match content {
            CursorShapeContent::Block => {
                &&& cursor_shape_of(content) == CursorShape::Block
                &&& alac_shape_of(cursor_shape_of(content)) == AlacCursorShape::Block
            },
            CursorShapeContent::Underline => {
                &&& cursor_shape_of(content) == CursorShape::Underline
                &&& alac_shape_of(cursor_shape_of(content)) == AlacCursorShape::Underline
            },
            CursorShapeContent::Bar => {
                &&& cursor_shape_of(content) == CursorShape::Bar
                &&& alac_shape_of(cursor_shape_of(content)) == AlacCursorShape::Beam
            },
            CursorShapeContent::Hollow => {
                &&& cursor_shape_of(content) == CursorShape::Hollow
                &&& alac_shape_of(cursor_shape_of(content)) == AlacCursorShape::HollowBlock
            },
        },
        <CursorShape as FromSpec<CursorShapeContent>>::from_spec(content) == cursor_shape_of(
            content,
        ),
        <AlacCursorStyle as FromSpec<CursorShape>>::from_spec(cursor_shape_of(content)) == (
        AlacCursorStyle { shape: alac_shape_of(cursor_shape_of(content)), blinking: false }),
{
}

/// What only the user decides is taken over from what the user says, each setting for itself.
pub proof fn law_user_decides<V: SettingsValues>(
    settings: TerminalSettings<V>,
    user: TerminalSettingsContent<V>,
)
    requires
        user.complete(),
        settings.follows_user(user),
    ensures
        settings.font_size == user.font_size,
        settings.font_family == user.font_family,
        settings.font_fallbacks == user.font_fallbacks,
        settings.font_features == user.font_features,
        settings.font_weight == user.font_weight,
        settings.line_height == user.line_height->0,
        settings.cursor_shape == cursor_shape_of(user.cursor_shape->0),
        settings.blinking == user.blinking->0,
        settings.alternate_scroll == user.alternate_scroll->0,
        settings.option_as_meta == user.option_as_meta->0,
        settings.copy_on_select == user.copy_on_select->0,
        settings.keep_selection_on_copy == user.keep_selection_on_copy->0,
        settings.button == user.button->0,
        settings.dock == user.dock->0,
        settings.flexible == user.flexible->0,
        settings.default_width == user.default_width->0,
        settings.default_height == user.default_height->0,
        settings.max_scroll_history_lines == user.max_scroll_history_lines,
        settings.scroll_multiplier == user.scroll_multiplier->0,
        settings.toolbar.breadcrumbs == user.toolbar->0.breadcrumbs->0,
        settings.scrollbar.show == user.scrollbar->0.show,
        settings.minimum_contrast == user.minimum_contrast->0,
        settings.show_count_badge == user.show_count_badge->0,
        settings.bell == user.bell->0,
        settings.persistent_sessions == persistent_sessions_of(user.persistent_sessions->0),
        settings.default_profile == user.default_profile->0,
        profile_values(settings.profiles@) == profiles_of(user.profiles->0@),
{
}

/// What a project can decide is taken over from the merged content, each setting for itself.
pub proof fn law_project_decides<V: SettingsValues>(
    settings: TerminalSettings<V>,
    project: ProjectTerminalSettingsContent<V>,
)
    requires
        project.complete(),
        settings.follows_project(project),
    ensures
        settings.shell == shell_of(project.shell->0),
        settings.working_directory == project.working_directory->0,
        settings.env == project.env->0,
        settings.detect_venv == project.detect_venv->0,
        texts(settings.path_hyperlink_regexes@) == regexes_of(project.path_hyperlink_regexes->0@),
        settings.path_hyperlink_timeout_ms == project.path_hyperlink_timeout_ms->0,
{
}

/// Contents in which everything is said are complete; nothing more is asked of them.
pub proof fn law_full_contents_are_complete<V: SettingsValues>(
    user: TerminalSettingsContent<V>,
    project: ProjectTerminalSettingsContent<V>,
)
    ensures
        user.line_height is Some && user.cursor_shape is Some && user.blinking is Some
            && user.alternate_scroll is Some && user.option_as_meta is Some
            && user.copy_on_select is Some && user.keep_selection_on_copy is Some
            && user.button is Some && user.dock is Some && user.flexible is Some
            && user.default_width is Some && user.default_height is Some
            && user.scroll_multiplier is Some && user.toolbar is Some
            && user.toolbar->0.breadcrumbs is Some && user.scrollbar is Some
            && user.minimum_contrast is Some && user.show_count_badge is Some && user.bell is Some
            && user.persistent_sessions is Some && user.default_profile is Some
            && user.profiles is Some ==> user.complete(),
        project.shell is Some && project.working_directory is Some && project.env is Some
            && project.detect_venv is Some && project.path_hyperlink_regexes is Some
            && project.path_hyperlink_timeout_ms is Some ==> project.complete(),
{
}

} // verus!
