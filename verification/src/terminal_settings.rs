//! The settings of the terminal.
use crate::agent_settings::{lemma_push_contains, text_values};
use crate::text::{join, join_of, optional_text, texts};
use crate::text_map::TextMap;
use vstd::prelude::*;

verus! {

/// How many bytes of output a persistent session keeps where the settings do not say it.
pub const DEFAULT_SCROLLBACK_BYTES: usize = 10_485_760;

/// The kinds of values that settings hold and that are handed on as they are.
pub trait SettingsValues {
    /// A length, a factor or a ratio.
    type Number;

    type FontSize;

    type FontFamily;

    type FontFeatures;

    type FontWeight;

    type LineHeight;

    type WorkingDirectory;

    type Blink;

    type AlternateScroll;

    type DockPosition;

    type Venv;

    type ShowScrollbar;

    type Bell;
}

#[derive(Copy, Clone, Debug, PartialEq, Eq, Structural)]
pub struct Toolbar {
    pub breadcrumbs: bool,
}

/// The program that a terminal runs.
pub enum Shell {
    /// The shell of the system.
    System,
    Program(String),
    WithArguments { program: String, args: Vec<String>, title_override: Option<String> },
}

/// The program that a terminal runs, as the settings write it.
pub enum ShellContent {
    System,
    Program(String),
    WithArguments { program: String, args: Vec<String>, title_override: Option<String> },
}

/// A pattern for paths, on one line or on several.
pub enum PathHyperlinkRegex {
    SingleLine(String),
    MultiLine(Vec<String>),
}

#[derive(Clone, Debug, PartialEq, Eq, Structural)]
pub struct TerminalPersistentSessions {
    pub remote: bool,
    pub scrollback_bytes: usize,
}

#[derive(Clone, Copy, Debug, PartialEq, Eq, Structural)]
pub struct TerminalPersistentSessionsContent {
    pub remote: Option<bool>,
    pub scrollback_bytes: Option<usize>,
}

pub struct TerminalProfile {
    pub label: Option<String>,
    pub shell: Option<Shell>,
    pub cwd: Option<String>,
    pub env: TextMap<String>,
    pub persistent: bool,
    pub debug: Option<TerminalProfileDebug>,
}

pub struct TerminalProfileContent {
    pub label: Option<String>,
    pub shell: Option<ShellContent>,
    pub cwd: Option<String>,
    pub env: Option<TextMap<String>>,
    pub persistent: Option<bool>,
    pub debug: Option<TerminalProfileDebugContent>,
}

#[derive(Clone, Debug, PartialEq, Eq)]
pub struct TerminalProfileDebug {
    pub adapter: String,
    pub debug_type: Option<String>,
}

pub struct TerminalProfileDebugContent {
    pub adapter: Option<String>,
    pub debug_type: Option<String>,
}

#[derive(Copy, Clone, Debug, PartialEq, Eq)]
pub struct ScrollbarSettings<ShowScrollbar> {
    /// When to show the scrollbar in the terminal.
    ///
    /// Default: inherits editor scrollbar settings
    pub show: Option<ShowScrollbar>,
}

pub struct ToolbarContent {
    pub breadcrumbs: Option<bool>,
}

pub struct ScrollbarSettingsContent<ShowScrollbar> {
    pub show: Option<ShowScrollbar>,
}

/// The shape of the cursor.
#[derive(Clone, Copy, Debug, PartialEq, Eq, Structural)]
pub enum CursorShape {
    /// Cursor is a block like `█`.
    Block,
    /// Cursor is an underscore like `_`.
    Underline,
    /// Cursor is a vertical bar like `⎸`.
    Bar,
    /// Cursor is a hollow box like `▯`.
    Hollow,
}

/// The shape of the cursor, as the settings write it.
#[derive(Clone, Copy, Debug, PartialEq, Eq, Structural)]
pub enum CursorShapeContent {
    Block,
    Underline,
    Bar,
    Hollow,
}

/// The shape of the cursor, as the terminal emulator knows it.
#[derive(Clone, Copy, Debug, PartialEq, Eq, Structural)]
pub enum AlacCursorShape {
    Block,
    Underline,
    Beam,
    HollowBlock,
    Hidden,
}

/// The look of the cursor, as the terminal emulator knows it.
#[derive(Clone, Copy, Debug, PartialEq, Eq, Structural)]
pub struct AlacCursorStyle {
    pub shape: AlacCursorShape,
    pub blinking: bool,
}

/// The settings of the terminal that are in effect.
pub struct TerminalSettings<V: SettingsValues> {
    pub shell: Shell,
    pub working_directory: V::WorkingDirectory,
    pub font_size: Option<V::FontSize>,
    pub font_family: Option<V::FontFamily>,
    pub font_fallbacks: Option<Vec<V::FontFamily>>,
    pub font_features: Option<V::FontFeatures>,
    pub font_weight: Option<V::FontWeight>,
    pub line_height: V::LineHeight,
    pub env: TextMap<String>,
    pub cursor_shape: CursorShape,
    pub blinking: V::Blink,
    pub alternate_scroll: V::AlternateScroll,
    pub option_as_meta: bool,
    pub copy_on_select: bool,
    pub keep_selection_on_copy: bool,
    pub button: bool,
    pub dock: V::DockPosition,
    pub flexible: bool,
    pub default_width: V::Number,
    pub default_height: V::Number,
    pub detect_venv: V::Venv,
    pub max_scroll_history_lines: Option<usize>,
    pub scroll_multiplier: V::Number,
    pub toolbar: Toolbar,
    pub scrollbar: ScrollbarSettings<V::ShowScrollbar>,
    pub minimum_contrast: V::Number,
    pub path_hyperlink_regexes: Vec<String>,
    pub path_hyperlink_timeout_ms: u64,
    pub show_count_badge: bool,
    pub bell: V::Bell,
    pub persistent_sessions: TerminalPersistentSessions,
    pub default_profile: String,
    pub profiles: TextMap<TerminalProfile>,
}

/// What the user's settings say of the terminal.
pub struct TerminalSettingsContent<V: SettingsValues> {
    pub font_size: Option<V::FontSize>,
    pub font_family: Option<V::FontFamily>,
    pub font_fallbacks: Option<Vec<V::FontFamily>>,
    pub font_features: Option<V::FontFeatures>,
    pub font_weight: Option<V::FontWeight>,
    pub line_height: Option<V::LineHeight>,
    pub cursor_shape: Option<CursorShapeContent>,
    pub blinking: Option<V::Blink>,
    pub alternate_scroll: Option<V::AlternateScroll>,
    pub option_as_meta: Option<bool>,
    pub copy_on_select: Option<bool>,
    pub keep_selection_on_copy: Option<bool>,
    pub button: Option<bool>,
    pub dock: Option<V::DockPosition>,
    pub flexible: Option<bool>,
    pub default_width: Option<V::Number>,
    pub default_height: Option<V::Number>,
    pub max_scroll_history_lines: Option<usize>,
    pub scroll_multiplier: Option<V::Number>,
    pub toolbar: Option<ToolbarContent>,
    pub scrollbar: Option<ScrollbarSettingsContent<V::ShowScrollbar>>,
    pub minimum_contrast: Option<V::Number>,
    pub show_count_badge: Option<bool>,
    pub bell: Option<V::Bell>,
    pub persistent_sessions: Option<TerminalPersistentSessionsContent>,
    pub default_profile: Option<String>,
    pub profiles: Option<TextMap<TerminalProfileContent>>,
}

/// What the settings say of the terminal that a project can say too. What a project says is
/// already merged in.
pub struct ProjectTerminalSettingsContent<V: SettingsValues> {
    pub shell: Option<ShellContent>,
    pub working_directory: Option<V::WorkingDirectory>,
    pub env: Option<TextMap<String>>,
    pub detect_venv: Option<V::Venv>,
    pub path_hyperlink_regexes: Option<Vec<PathHyperlinkRegex>>,
    pub path_hyperlink_timeout_ms: Option<u64>,
}

/// A profile as a mathematical value.
pub struct Profile {
    pub label: Option<Seq<char>>,
    pub shell: Option<Shell>,
    pub cwd: Option<Seq<char>>,
    pub env: Map<Seq<char>, Seq<char>>,
    pub persistent: bool,
    pub debug: Option<(Seq<char>, Option<Seq<char>>)>,
}

impl View for TerminalProfile {
    type V = Profile;

    open spec fn view(&self) -> Profile {
        Profile {
            label: optional_text(self.label),
            shell: self.shell,
            cwd: optional_text(self.cwd),
            env: text_values(self.env@),
            persistent: self.persistent,
            debug: match self.debug {
                Some(debug) => Some((debug.adapter@, optional_text(debug.debug_type))),
                None => None,
            },
        }
    }
}

/// The program that the settings write.
pub open spec fn shell_of(shell: ShellContent) -> Shell {
    match shell {
        ShellContent::System => Shell::System,
        ShellContent::Program(program) => Shell::Program(program),
        ShellContent::WithArguments { program, args, title_override } => Shell::WithArguments {
            program,
            args,
            title_override,
        },
    }
}

/// The profile that the settings write. It can be debugged where they name an adapter.
pub open spec fn profile_of(content: TerminalProfileContent) -> Profile {
    Profile {
        label: optional_text(content.label),
        shell: match content.shell {
            Some(shell) => Some(shell_of(shell)),
            None => None,
        },
        cwd: optional_text(content.cwd),
        env: match content.env {
            Some(env) => text_values(env@),
            None => Map::empty(),
        },
        persistent: content.persistent == Some(true),
        debug: match content.debug {
            Some(TerminalProfileDebugContent { adapter: Some(adapter), debug_type }) => Some(
                (adapter@, optional_text(debug_type)),
            ),
            _ => None,
        },
    }
}

/// What the settings write of persistent sessions.
pub open spec fn persistent_sessions_of(
    content: TerminalPersistentSessionsContent,
) -> TerminalPersistentSessions {
    TerminalPersistentSessions {
        remote: content.remote == Some(true),
        scrollback_bytes: match content.scrollback_bytes {
            Some(bytes) => bytes,
            None => DEFAULT_SCROLLBACK_BYTES,
        },
    }
}

/// A pattern for paths, with the lines of which it is made one below the other.
pub open spec fn regex_of(regex: PathHyperlinkRegex) -> Seq<char> {
    match regex {
        PathHyperlinkRegex::SingleLine(regex) => regex@,
        PathHyperlinkRegex::MultiLine(lines) => join_of(texts(lines@), "\n"@),
    }
}

/// The shape that the settings write.
pub open spec fn cursor_shape_of(shape: CursorShapeContent) -> CursorShape {
    match shape {
        CursorShapeContent::Block => CursorShape::Block,
        CursorShapeContent::Underline => CursorShape::Underline,
        CursorShapeContent::Bar => CursorShape::Bar,
        CursorShapeContent::Hollow => CursorShape::Hollow,
    }
}

/// The shape as the terminal emulator knows it.
pub open spec fn alac_shape_of(shape: CursorShape) -> AlacCursorShape {
    match shape {
        CursorShape::Block => AlacCursorShape::Block,
        CursorShape::Underline => AlacCursorShape::Underline,
        CursorShape::Bar => AlacCursorShape::Beam,
        CursorShape::Hollow => AlacCursorShape::HollowBlock,
    }
}

impl Default for CursorShape {
    fn default() -> (shape: Self)
        ensures
            shape == CursorShape::Block,
    {
        CursorShape::Block
    }
}

impl vstd::std_specs::convert::FromSpecImpl<CursorShapeContent> for CursorShape {
    open spec fn obeys_from_spec() -> bool {
        true
    }

    open spec fn from_spec(value: CursorShapeContent) -> CursorShape {
        cursor_shape_of(value)
    }
}

impl From<CursorShapeContent> for CursorShape {
    fn from(value: CursorShapeContent) -> (shape: Self) {
        match value {
            CursorShapeContent::Block => CursorShape::Block,
            CursorShapeContent::Underline => CursorShape::Underline,
            CursorShapeContent::Bar => CursorShape::Bar,
            CursorShapeContent::Hollow => CursorShape::Hollow,
        }
    }
}

impl vstd::std_specs::convert::FromSpecImpl<CursorShape> for AlacCursorShape {
    open spec fn obeys_from_spec() -> bool {
        true
    }

    open spec fn from_spec(value: CursorShape) -> AlacCursorShape {
        alac_shape_of(value)
    }
}

impl From<CursorShape> for AlacCursorShape {
    fn from(value: CursorShape) -> (shape: Self) {
        match value {
            CursorShape::Block => AlacCursorShape::Block,
            CursorShape::Underline => AlacCursorShape::Underline,
            CursorShape::Bar => AlacCursorShape::Beam,
            CursorShape::Hollow => AlacCursorShape::HollowBlock,
        }
    }
}

impl vstd::std_specs::convert::FromSpecImpl<CursorShape> for AlacCursorStyle {
    open spec fn obeys_from_spec() -> bool {
        true
    }

    open spec fn from_spec(value: CursorShape) -> AlacCursorStyle {
        AlacCursorStyle { shape: alac_shape_of(value), blinking: false }
    }
}

impl From<CursorShape> for AlacCursorStyle {
    fn from(value: CursorShape) -> (style: Self) {
        AlacCursorStyle { shape: AlacCursorShape::from(value), blinking: false }
    }
}

/// The program that the settings write.
pub fn settings_shell_to_task_shell(shell: ShellContent) -> (task_shell: Shell)
    ensures
        task_shell == shell_of(shell),
{
    match shell {
        ShellContent::System => Shell::System,
        ShellContent::Program(program) => Shell::Program(program),
        ShellContent::WithArguments { program, args, title_override } => Shell::WithArguments {
            program,
            args,
            title_override,
        },
    }
}

/// What the settings write of persistent sessions.
pub fn terminal_persistent_sessions(content: TerminalPersistentSessionsContent) -> (sessions:
    TerminalPersistentSessions)
    ensures
        sessions == persistent_sessions_of(content),
{
    TerminalPersistentSessions {
        remote: content.remote.unwrap_or(false),
        scrollback_bytes: content.scrollback_bytes.unwrap_or(DEFAULT_SCROLLBACK_BYTES),
    }
}

/// The profile that the settings write.
pub fn terminal_profile(content: TerminalProfileContent) -> (profile: TerminalProfile)
    ensures
        profile@ == profile_of(content),
{
    let env = match content.env {
        Some(env) => env,
        None => {
            let env: TextMap<String> = TextMap::new();
            assert(text_values(env@) =~= Map::empty());
            env
        },
    };
    let shell = match content.shell {
        Some(shell) => Some(settings_shell_to_task_shell(shell)),
        None => None,
    };
    let debug = match content.debug {
        Some(debug) => match debug.adapter {
            Some(adapter) => Some(TerminalProfileDebug { adapter, debug_type: debug.debug_type }),
            None => None,
        },
        None => None,
    };
    TerminalProfile {
        label: content.label,
        shell,
        cwd: content.cwd,
        env,
        persistent: content.persistent.unwrap_or(false),
        debug,
    }
}

/// A pattern for paths, with the lines of which it is made one below the other.
pub fn path_hyperlink_regex(regex: PathHyperlinkRegex) -> (pattern: String)
    ensures
        pattern@ == regex_of(regex),
{
    match regex {
        PathHyperlinkRegex::SingleLine(regex) => regex,
        PathHyperlinkRegex::MultiLine(lines) => join(&lines, "\n"),
    }
}

/// The patterns of a list.
pub open spec fn regexes_of(regexes: Seq<PathHyperlinkRegex>) -> Seq<Seq<char>> {
    Seq::new(regexes.len(), |i: int| regex_of(regexes[i]))
}

fn path_hyperlink_regexes(regexes: Vec<PathHyperlinkRegex>) -> (patterns: Vec<String>)
    ensures
        texts(patterns@) == regexes_of(regexes@),
{
    let ghost all = regexes@;
    let mut patterns: Vec<String> = Vec::new();
    for regex in it: regexes
        invariant
            it.seq() == all,
            patterns@.len() == it.index(),
            forall|i: int|
                0 <= i < patterns@.len() ==> (#[trigger] patterns@[i])@ == regex_of(all[i]),
    {
        patterns.push(path_hyperlink_regex(regex));
    }
    assert(texts(patterns@) =~= regexes_of(all));
    patterns
}

/// The profiles of a map.
pub open spec fn profile_values(map: Map<Seq<char>, TerminalProfile>) -> Map<Seq<char>, Profile> {
    map.map_values(|profile: TerminalProfile| profile@)
}

/// The profiles that the settings write.
pub open spec fn profiles_of(map: Map<Seq<char>, TerminalProfileContent>) -> Map<
    Seq<char>,
    Profile,
> {
    map.map_values(|content: TerminalProfileContent| profile_of(content))
}

fn terminal_profiles(contents: TextMap<TerminalProfileContent>) -> (profiles: TextMap<
    TerminalProfile,
>)
    ensures
        profile_values(profiles@) == profiles_of(contents@),
{
    let ghost map = contents@;
    let ghost order = contents.order();
    let entries = contents.into_entries();
    let ghost all = entries@;
    let mut profiles: TextMap<TerminalProfile> = TextMap::new();
    for entry in it: entries
        invariant
            it.seq() == all,
            all.len() == order.len(),
            forall|i: int|
                #![trigger all[i]]
                0 <= i < all.len() ==> all[i].0@ == order[i] && all[i].1 == map[order[i]],
            forall|key: Seq<char>| #[trigger]
                profiles@.contains_key(key) <==> order.take(it.index() as int).contains(key),
            forall|key: Seq<char>| #[trigger]
                profiles@.contains_key(key) ==> profiles@[key]@ == profile_of(map[key]),
    {
        let ghost i = it.index() as int;
        let ghost before = profiles@;
        let (id, content) = entry;
        let profile = terminal_profile(content);
        profiles.insert(id, profile);
        proof {
            let taken = order.take(i);
            assert(order.take(i + 1) =~= taken.push(order[i]));
            assert forall|key: Seq<char>| #[trigger]
                profiles@.contains_key(key) <==> order.take(i + 1).contains(key) by {
                lemma_push_contains(taken, order[i], key);
                assert(before.contains_key(key) <==> taken.contains(key));
            }
            assert forall|key: Seq<char>| #[trigger]
                profiles@.contains_key(key) implies profiles@[key]@ == profile_of(map[key]) by {
                if key != order[i] {
                    assert(before.contains_key(key));
                }
            }
        }
    }
    proof {
        assert(order.take(order.len() as int) =~= order);
        assert forall|key: Seq<char>| #[trigger] profiles@.contains_key(key) <==> map.contains_key(
            key,
        ) by {
            assert(order.contains(key) <==> map.contains_key(key));
        }
        assert(profile_values(profiles@) =~= profiles_of(map));
    }
    profiles
}

impl<V: SettingsValues> TerminalSettingsContent<V> {
    /// Everything is said that has no default.
    pub open spec fn complete(self) -> bool {
        &&& self.line_height is Some
        &&& self.cursor_shape is Some
        &&& self.blinking is Some
        &&& self.alternate_scroll is Some
        &&& self.option_as_meta is Some
        &&& self.copy_on_select is Some
        &&& self.keep_selection_on_copy is Some
        &&& self.button is Some
        &&& self.dock is Some
        &&& self.flexible is Some
        &&& self.default_width is Some
        &&& self.default_height is Some
        &&& self.scroll_multiplier is Some
        &&& self.toolbar matches Some(toolbar) && toolbar.breadcrumbs is Some
        &&& self.scrollbar is Some
        &&& self.minimum_contrast is Some
        &&& self.show_count_badge is Some
        &&& self.bell is Some
        &&& self.persistent_sessions is Some
        &&& self.default_profile is Some
        &&& self.profiles is Some
    }

    /// Whether everything is said that has no default.
    pub fn is_complete(&self) -> (complete: bool)
        ensures
            complete == self.complete(),
    {
        let breadcrumbs = match &self.toolbar {
            Some(toolbar) => toolbar.breadcrumbs.is_some(),
            None => false,
        };
        breadcrumbs && self.line_height.is_some() && self.cursor_shape.is_some()
            && self.blinking.is_some() && self.alternate_scroll.is_some()
            && self.option_as_meta.is_some() && self.copy_on_select.is_some()
            && self.keep_selection_on_copy.is_some() && self.button.is_some()
            && self.dock.is_some() && self.flexible.is_some() && self.default_width.is_some()
            && self.default_height.is_some() && self.scroll_multiplier.is_some()
            && self.scrollbar.is_some() && self.minimum_contrast.is_some()
            && self.show_count_badge.is_some() && self.bell.is_some()
            && self.persistent_sessions.is_some() && self.default_profile.is_some()
            && self.profiles.is_some()
    }
}

impl<V: SettingsValues> ProjectTerminalSettingsContent<V> {
    /// Everything is said that has no default.
    pub open spec fn complete(self) -> bool {
        &&& self.shell is Some
        &&& self.working_directory is Some
        &&& self.env is Some
        &&& self.detect_venv is Some
        &&& self.path_hyperlink_regexes is Some
        &&& self.path_hyperlink_timeout_ms is Some
    }

    /// Whether everything is said that has no default.
    pub fn is_complete(&self) -> (complete: bool)
        ensures
            complete == self.complete(),
    {
        self.shell.is_some() && self.working_directory.is_some() && self.env.is_some()
            && self.detect_venv.is_some() && self.path_hyperlink_regexes.is_some()
            && self.path_hyperlink_timeout_ms.is_some()
    }
}

impl<V: SettingsValues> TerminalSettings<V> {
    /// The settings that only the user makes are those of the user.
    pub open spec fn follows_user(self, user: TerminalSettingsContent<V>) -> bool {
        &&& self.font_size == user.font_size
        &&& self.font_family == user.font_family
        &&& self.font_fallbacks == user.font_fallbacks
        &&& self.font_features == user.font_features
        &&& self.font_weight == user.font_weight
        &&& Some(self.line_height) == user.line_height
        &&& self.cursor_shape == cursor_shape_of(user.cursor_shape->0)
        &&& Some(self.blinking) == user.blinking
        &&& Some(self.alternate_scroll) == user.alternate_scroll
        &&& Some(self.option_as_meta) == user.option_as_meta
        &&& Some(self.copy_on_select) == user.copy_on_select
        &&& Some(self.keep_selection_on_copy) == user.keep_selection_on_copy
        &&& Some(self.button) == user.button
        &&& Some(self.dock) == user.dock
        &&& Some(self.flexible) == user.flexible
        &&& Some(self.default_width) == user.default_width
        &&& Some(self.default_height) == user.default_height
        &&& self.max_scroll_history_lines == user.max_scroll_history_lines
        &&& Some(self.scroll_multiplier) == user.scroll_multiplier
        &&& Some(self.toolbar.breadcrumbs) == user.toolbar->0.breadcrumbs
        &&& self.scrollbar.show == user.scrollbar->0.show
        &&& Some(self.minimum_contrast) == user.minimum_contrast
        &&& Some(self.show_count_badge) == user.show_count_badge
        &&& Some(self.bell) == user.bell
        &&& self.persistent_sessions == persistent_sessions_of(user.persistent_sessions->0)
        &&& Some(self.default_profile) == user.default_profile
        &&& profile_values(self.profiles@) == profiles_of(user.profiles->0@)
    }

    /// The settings that a project can make too are those of the merged content.
    pub open spec fn follows_project(self, project: ProjectTerminalSettingsContent<V>) -> bool {
        &&& self.shell == shell_of(project.shell->0)
        &&& Some(self.working_directory) == project.working_directory
        &&& Some(self.env) == project.env
        &&& Some(self.detect_venv) == project.detect_venv
        &&& texts(self.path_hyperlink_regexes@) == regexes_of(project.path_hyperlink_regexes->0@)
        &&& Some(self.path_hyperlink_timeout_ms) == project.path_hyperlink_timeout_ms
    }

    /// The settings that are in effect.
    pub fn from_settings(
        user: TerminalSettingsContent<V>,
        project: ProjectTerminalSettingsContent<V>,
    ) -> (settings: Self)
        requires
            user.complete(),
            project.complete(),
        ensures
            settings.follows_user(user),
            settings.follows_project(project),
    {
        TerminalSettings {
            shell: settings_shell_to_task_shell(project.shell.unwrap()),
            working_directory: project.working_directory.unwrap(),
            font_size: user.font_size,
            font_family: user.font_family,
            font_fallbacks: user.font_fallbacks,
            font_features: user.font_features,
            font_weight: user.font_weight,
            line_height: user.line_height.unwrap(),
            env: project.env.unwrap(),
            cursor_shape: CursorShape::from(user.cursor_shape.unwrap()),
            blinking: user.blinking.unwrap(),
            alternate_scroll: user.alternate_scroll.unwrap(),
            option_as_meta: user.option_as_meta.unwrap(),
            copy_on_select: user.copy_on_select.unwrap(),
            keep_selection_on_copy: user.keep_selection_on_copy.unwrap(),
            button: user.button.unwrap(),
            dock: user.dock.unwrap(),
            flexible: user.flexible.unwrap(),
            default_width: user.default_width.unwrap(),
            default_height: user.default_height.unwrap(),
            detect_venv: project.detect_venv.unwrap(),
            max_scroll_history_lines: user.max_scroll_history_lines,
            scroll_multiplier: user.scroll_multiplier.unwrap(),
            toolbar: Toolbar { breadcrumbs: user.toolbar.unwrap().breadcrumbs.unwrap() },
            scrollbar: ScrollbarSettings { show: user.scrollbar.unwrap().show },
            minimum_contrast: user.minimum_contrast.unwrap(),
            path_hyperlink_regexes: path_hyperlink_regexes(
                project.path_hyperlink_regexes.unwrap(),
            ),
            path_hyperlink_timeout_ms: project.path_hyperlink_timeout_ms.unwrap(),
            show_count_badge: user.show_count_badge.unwrap(),
            bell: user.bell.unwrap(),
            persistent_sessions: terminal_persistent_sessions(user.persistent_sessions.unwrap()),
            default_profile: user.default_profile.unwrap(),
            profiles: terminal_profiles(user.profiles.unwrap()),
        }
    }
}

/// The settings can write every shape of the cursor, and different shapes are different for the
/// terminal emulator too. None of them is hidden or blinks.
pub proof fn law_cursor_shapes_stay_different(a: CursorShape, b: CursorShape)
    ensures
        alac_shape_of(a) == alac_shape_of(b) ==> a == b,
        !(alac_shape_of(a) is Hidden),
        exists|content: CursorShapeContent| cursor_shape_of(content) == a,
        forall|x: CursorShapeContent, y: CursorShapeContent|
            cursor_shape_of(x) == cursor_shape_of(y) ==> x == y,
{
    let content = match a {
        CursorShape::Block => CursorShapeContent::Block,
        CursorShape::Underline => CursorShapeContent::Underline,
        CursorShape::Bar => CursorShapeContent::Bar,
        CursorShape::Hollow => CursorShapeContent::Hollow,
    };
    assert(cursor_shape_of(content) == a);
}

/// A project decides only what it may: settings for one user and different projects agree in
/// everything that only the user decides.
pub proof fn law_projects_decide_only_what_they_may<V: SettingsValues>(
    user: TerminalSettingsContent<V>,
    a: TerminalSettings<V>,
    b: TerminalSettings<V>,
)
    requires
        user.complete(),
        a.follows_user(user),
        b.follows_user(user),
    ensures
        a.font_size == b.font_size,
        a.font_family == b.font_family,
        a.font_fallbacks == b.font_fallbacks,
        a.font_features == b.font_features,
        a.font_weight == b.font_weight,
        a.line_height == b.line_height,
        a.cursor_shape == b.cursor_shape,
        a.blinking == b.blinking,
        a.alternate_scroll == b.alternate_scroll,
        a.option_as_meta == b.option_as_meta,
        a.copy_on_select == b.copy_on_select,
        a.keep_selection_on_copy == b.keep_selection_on_copy,
        a.button == b.button,
        a.dock == b.dock,
        a.flexible == b.flexible,
        a.default_width == b.default_width,
        a.default_height == b.default_height,
        a.max_scroll_history_lines == b.max_scroll_history_lines,
        a.scroll_multiplier == b.scroll_multiplier,
        a.toolbar == b.toolbar,
        a.scrollbar == b.scrollbar,
        a.minimum_contrast == b.minimum_contrast,
        a.show_count_badge == b.show_count_badge,
        a.bell == b.bell,
        a.persistent_sessions == b.persistent_sessions,
        a.default_profile == b.default_profile,
        profile_values(a.profiles@) == profile_values(b.profiles@),
{
}

} // verus!
