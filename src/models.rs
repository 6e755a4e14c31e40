use vstd::prelude::*;

verus! {

/// The views of a list of strings.
pub open spec fn strings_view(v: Seq<String>) -> Seq<Seq<char>> {
    v.map_values(|s: String| s@)
}

/// Copies a list of strings.
pub fn copy_strings(v: &Vec<String>) -> (r: Vec<String>)
    ensures
        strings_view(r@) == strings_view(v@),
{
    let mut r: Vec<String> = Vec::new();
    let mut i: usize = 0;
    while i < v.len()
        invariant
            i <= v.len(),
            r@.len() == i,
            forall|j: int| 0 <= j < i ==> #[trigger] r@[j]@ == v@[j]@,
        decreases v.len() - i,
    {
        r.push(v[i].clone());
        i = i + 1;
    }
    assert(strings_view(r@) =~= strings_view(v@));
    r
}

/// Copies an optional string.
pub fn copy_opt(o: &Option<String>) -> (r: Option<String>)
    ensures
        crate::text::opt_view(r) == crate::text::opt_view(*o),
{
    match o {
        None => None,
        Some(s) => Some(s.clone()),
    }
}

/// A workspace: an isolated, named collection of projects with a store of
/// its own. Times are microseconds since the Unix epoch.
#[derive(Debug, Clone)]
pub struct WorkspaceRecord {
    pub id: u128,
    pub name: String,
    pub description: Option<String>,
    pub database_path: String,
    pub created_at: i64,
    pub updated_at: i64,
}

pub struct WorkspaceView {
    pub id: u128,
    pub name: Seq<char>,
    pub description: Option<Seq<char>>,
    pub database_path: Seq<char>,
    pub created_at: i64,
    pub updated_at: i64,
}

impl View for WorkspaceRecord {
    type V = WorkspaceView;

    open spec fn view(&self) -> WorkspaceView {
        WorkspaceView {
            id: self.id,
            name: self.name@,
            description: crate::text::opt_view(self.description),
            database_path: self.database_path@,
            created_at: self.created_at,
            updated_at: self.updated_at,
        }
    }
}

impl WorkspaceRecord {
    pub fn copy(&self) -> (r: Self)
        ensures
            r@ == self@,
    {
        WorkspaceRecord {
            id: self.id,
            name: self.name.clone(),
            description: copy_opt(&self.description),
            database_path: self.database_path.clone(),
            created_at: self.created_at,
            updated_at: self.updated_at,
        }
    }
}

/// What a caller gives to create a workspace.
#[derive(Debug, Clone)]
pub struct WorkspaceInput {
    pub name: String,
    pub description: Option<String>,
    pub database_path: Option<String>,
}

/// A choice of workspace.
#[derive(Debug, Clone)]
pub struct WorkspaceSelection {
    pub workspace_id: u128,
}

/// How a project is opened.
#[derive(Debug, Clone)]
pub enum OpenConfig {
    /// With the host's default handler for the path.
    SystemDefault,
    /// With a program, given the path as its last argument.
    CustomApp { executable: String, args: Vec<String> },
    /// With a command run in the path's directory.
    CustomCommand { command: String, args: Vec<String> },
}

pub enum OpenConfigView {
    SystemDefault,
    CustomApp { executable: Seq<char>, args: Seq<Seq<char>> },
    CustomCommand { command: Seq<char>, args: Seq<Seq<char>> },
}

impl View for OpenConfig {
    type V = OpenConfigView;

    open spec fn view(&self) -> OpenConfigView {
        match self {
            OpenConfig::SystemDefault => OpenConfigView::SystemDefault,
            OpenConfig::CustomApp { executable, args } => OpenConfigView::CustomApp {
                executable: executable@,
                args: strings_view(args@),
            },
            OpenConfig::CustomCommand { command, args } => OpenConfigView::CustomCommand {
                command: command@,
                args: strings_view(args@),
            },
        }
    }
}

impl OpenConfig {
    pub fn copy(&self) -> (r: Self)
        ensures
            r@ == self@,
    {
        match self {
            OpenConfig::SystemDefault => OpenConfig::SystemDefault,
            OpenConfig::CustomApp { executable, args } => OpenConfig::CustomApp {
                executable: executable.clone(),
                args: copy_strings(args),
            },
            OpenConfig::CustomCommand { command, args } => OpenConfig::CustomCommand {
                command: command.clone(),
                args: copy_strings(args),
            },
        }
    }
}

impl Default for OpenConfig {
    fn default() -> (r: Self)
        ensures
            r@ == OpenConfigView::SystemDefault,
    {
        OpenConfig::SystemDefault
    }
}

/// A project: a named place on disk and the way it is opened.
#[derive(Debug, Clone)]
pub struct Project {
    pub id: u128,
    pub name: String,
    pub path: String,
    pub description: Option<String>,
    pub open_config: OpenConfig,
    pub created_at: i64,
    pub updated_at: i64,
}

/// What a caller gives to create (no id) or update (an id) a project.
#[derive(Debug, Clone)]
pub struct ProjectInput {
    pub id: Option<u128>,
    pub name: String,
    pub path: String,
    pub description: Option<String>,
    pub open_config: OpenConfig,
}

/// A project as its store holds it: all text.
#[derive(Debug, Clone)]
pub struct ProjectRow {
    pub id: String,
    pub name: String,
    pub path: String,
    pub description: Option<String>,
    pub open_config: String,
    pub created_at: String,
    pub updated_at: String,
}

pub const DEFAULT_FONT_SIZE: u8 = 16;

pub const DEFAULT_ZOOM_LEVEL: u8 = 100;

pub fn default_font_size() -> (r: u8)
    ensures
        r == DEFAULT_FONT_SIZE,
{
    DEFAULT_FONT_SIZE
}

pub fn default_accent_color() -> (r: String)
    ensures
        r@ == "#3b82f6"@,
{
    String::from_str("#3b82f6")
}

pub fn default_zoom_level() -> (r: u8)
    ensures
        r == DEFAULT_ZOOM_LEVEL,
{
    DEFAULT_ZOOM_LEVEL
}

#[derive(PartialEq, Eq, Structural, Clone, Copy, Debug)]
pub enum ThemePreference {
    Light,
    Dark,
    System,
}

impl Default for ThemePreference {
    fn default() -> (r: Self)
        ensures
            r == ThemePreference::Light,
    {
        ThemePreference::Light
    }
}

/// A named, reusable way of opening projects.
#[derive(Debug, Clone)]
pub struct LaunchPreset {
    pub id: u128,
    pub name: String,
    pub description: Option<String>,
    pub config: OpenConfig,
}

pub struct PresetView {
    pub id: u128,
    pub name: Seq<char>,
    pub description: Option<Seq<char>>,
    pub config: OpenConfigView,
}

impl View for LaunchPreset {
    type V = PresetView;

    open spec fn view(&self) -> PresetView {
        PresetView {
            id: self.id,
            name: self.name@,
            description: crate::text::opt_view(self.description),
            config: self.config@,
        }
    }
}

impl LaunchPreset {
    pub fn copy(&self) -> (r: Self)
        ensures
            r@ == self@,
    {
        LaunchPreset {
            id: self.id,
            name: self.name.clone(),
            description: copy_opt(&self.description),
            config: self.config.copy(),
        }
    }
}

/// A preset as a caller gives it; one without an id gets a new one.
#[derive(Debug, Clone)]
pub struct LaunchPresetInput {
    pub id: Option<u128>,
    pub name: String,
    pub description: Option<String>,
    pub config: OpenConfig,
}

/// The views of a list of presets.
pub open spec fn presets_view(v: Seq<LaunchPreset>) -> Seq<PresetView> {
    v.map_values(|p: LaunchPreset| p@)
}

/// The user's settings.
#[derive(Debug, Clone)]
pub struct AppSettings {
    pub theme: ThemePreference,
    pub accent_color: String,
    pub zoom_level: u8,
    pub font_family: Option<String>,
    pub font_size: u8,
    pub launch_presets: Vec<LaunchPreset>,
}

pub struct SettingsView {
    pub theme: ThemePreference,
    pub accent_color: Seq<char>,
    pub zoom_level: u8,
    pub font_family: Option<Seq<char>>,
    pub font_size: u8,
    pub launch_presets: Seq<PresetView>,
}

impl View for AppSettings {
    type V = SettingsView;

    open spec fn view(&self) -> SettingsView {
        SettingsView {
            theme: self.theme,
            accent_color: self.accent_color@,
            zoom_level: self.zoom_level,
            font_family: crate::text::opt_view(self.font_family),
            font_size: self.font_size,
            launch_presets: presets_view(self.launch_presets@),
        }
    }
}

impl AppSettings {
    pub fn copy(&self) -> (r: Self)
        ensures
            r@ == self@,
    {
        let mut presets: Vec<LaunchPreset> = Vec::new();
        let mut i: usize = 0;
        while i < self.launch_presets.len()
            invariant
                i <= self.launch_presets.len(),
                presets@.len() == i,
                forall|j: int| 0 <= j < i ==> #[trigger] presets@[j]@ == self.launch_presets@[j]@,
            decreases self.launch_presets.len() - i,
        {
            presets.push(self.launch_presets[i].copy());
            i = i + 1;
        }
        assert(presets_view(presets@) =~= presets_view(self.launch_presets@));
        AppSettings {
            theme: self.theme,
            accent_color: self.accent_color.clone(),
            zoom_level: self.zoom_level,
            font_family: copy_opt(&self.font_family),
            font_size: self.font_size,
            launch_presets: presets,
        }
    }
}

impl AppSettings {
    /// The settings of a first run.
    pub open spec fn default_view() -> SettingsView {
        SettingsView {
            theme: ThemePreference::Light,
            accent_color: "#3b82f6"@,
            zoom_level: DEFAULT_ZOOM_LEVEL,
            font_family: None,
            font_size: DEFAULT_FONT_SIZE,
            launch_presets: Seq::empty(),
        }
    }
}

impl Default for AppSettings {
    fn default() -> (r: Self)
        ensures
            r@ == AppSettings::default_view(),
    {
        let r = AppSettings {
            theme: ThemePreference::Light,
            accent_color: default_accent_color(),
            zoom_level: default_zoom_level(),
            font_family: None,
            font_size: default_font_size(),
            launch_presets: Vec::new(),
        };
        assert(presets_view(r.launch_presets@) =~= Seq::empty());
        r
    }
}

/// A settings update: it replaces the settings whole.
#[derive(Debug, Clone)]
pub struct AppSettingsUpdate {
    pub theme: ThemePreference,
    pub accent_color: String,
    pub zoom_level: u8,
    pub font_family: Option<String>,
    pub font_size: u8,
    pub launch_presets: Vec<LaunchPresetInput>,
}

/// Launches on one day (`YYYY-MM-DD`).
#[derive(Debug, Clone)]
pub struct ActivityPoint {
    pub date: String,
    pub count: u32,
}

/// Launches of one project.
#[derive(Debug, Clone)]
pub struct ProjectCount {
    pub name: String,
    pub count: i64,
}

} // verus!
