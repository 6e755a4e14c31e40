use vstd::prelude::*;
use crate::ids::{fresh_id, id_text, uuid_text};
use crate::clock::now_micros;
use crate::models::{
    AppSettings, LaunchPreset, PresetView, SettingsView, WorkspaceRecord, copy_opt, presets_view,
    DEFAULT_FONT_SIZE,
};
use crate::text::{
    contains, contains_seq, eq_ignore_ascii_case, eq_ignoring_ascii_case, opt_view, trim,
    trim_opt, trim_optional, trimmed,
};

verus! {

/// `part` appended to `base` as `Path::join` does on Unix for a relative
/// part: with a separator unless `base` is empty or already ends in one.
pub open spec fn joined(base: Seq<char>, part: Seq<char>) -> Seq<char> {
    if base.len() == 0 || base.last() == '/' {
        base + part
    } else {
        base + seq!['/'] + part
    }
}

/// The directory that holds the store of a workspace by default.
pub open spec fn workspace_dir_of(base: Seq<char>, id: u128) -> Seq<char> {
    joined(joined(base, "workspaces"@), uuid_text(id))
}

/// The store file of a workspace by default.
pub open spec fn default_db_path_of(base: Seq<char>, id: u128) -> Seq<char> {
    joined(workspace_dir_of(base, id), "projects.sqlite"@)
}

/// The configuration document under a base directory.
pub open spec fn config_path_of(base: Seq<char>) -> Seq<char> {
    joined(base, "workspaces.json"@)
}

/// Joins a relative path part onto a base path.
pub fn join_path(base: &str, part: &str) -> (r: String)
    ensures
        r@ == joined(base@, part@),
{
    let n = base.unicode_len();
    if n == 0 || base.get_char(n - 1) == '/' {
        String::from_str(base).concat(part)
    } else {
        proof { reveal_strlit("/"); }
        String::from_str(base).concat("/").concat(part)
    }
}

/// The directory that holds the store of workspace `id` by default.
pub fn workspace_dir(base_dir: &str, id: u128) -> (r: String)
    ensures
        r@ == workspace_dir_of(base_dir@, id),
{
    let w = join_path(base_dir, "workspaces");
    let t = id_text(id);
    join_path(w.as_str(), t.as_str())
}

/// The store file of workspace `id` by default.
pub fn default_workspace_db_path(base_dir: &str, id: u128) -> (r: String)
    ensures
        r@ == default_db_path_of(base_dir@, id),
{
    let d = workspace_dir(base_dir, id);
    join_path(d.as_str(), "projects.sqlite")
}

/// The configuration document under `base_dir`.
pub fn config_file_path(base_dir: &str) -> (r: String)
    ensures
        r@ == config_path_of(base_dir@),
{
    join_path(base_dir, "workspaces.json")
}

/// Whether a configuration document predates the settings section: its
/// text never names the `settings` key.
pub fn settings_section_missing(text: &str) -> (r: bool)
    ensures
        r == !contains_seq(text@, "\"settings\""@),
{
    !contains(text, "\"settings\"")
}

pub open spec fn has_workspace(ws: Seq<WorkspaceRecord>, id: u128) -> bool {
    exists|i: int| 0 <= i < ws.len() && (#[trigger] ws[i]).id == id
}

/// No two workspaces share an id.
pub open spec fn ids_unique(ws: Seq<WorkspaceRecord>) -> bool {
    forall|i: int, j: int|
        0 <= i < ws.len() && 0 <= j < ws.len() && i != j ==> (#[trigger] ws[i]).id != (#[trigger] ws[j]).id
}

/// No two workspaces share a name, ignoring ASCII case.
pub open spec fn names_unique(ws: Seq<WorkspaceRecord>) -> bool {
    forall|i: int, j: int|
        0 <= i < ws.len() && 0 <= j < ws.len() && i != j
            ==> !eq_ignoring_ascii_case((#[trigger] ws[i]).name@, (#[trigger] ws[j]).name@)
}

/// Some workspace already has `name`, ignoring ASCII case.
pub open spec fn name_taken(ws: Seq<WorkspaceRecord>, name: Seq<char>) -> bool {
    exists|i: int| 0 <= i < ws.len() && eq_ignoring_ascii_case((#[trigger] ws[i]).name@, name)
}

/// Whether the active id needs healing: there is a workspace, and the id is
/// missing or names none of them.
pub open spec fn active_id_needs_healing(ws: Seq<WorkspaceRecord>, active: Option<u128>) -> bool {
    ws.len() > 0 && !(active matches Some(id) && has_workspace(ws, id))
}

/// The active id after self-healing: one that is missing or names no
/// workspace becomes the first workspace's id, when there is a workspace.
pub open spec fn healed_active_id(ws: Seq<WorkspaceRecord>, active: Option<u128>) -> Option<u128> {
    if active_id_needs_healing(ws, active) {
        Some(ws[0].id)
    } else {
        active
    }
}

/// Index `i` holds the first workspace with id `id`.
pub open spec fn first_with_id(ws: Seq<WorkspaceRecord>, i: int, id: u128) -> bool {
    0 <= i < ws.len() && ws[i].id == id && forall|j: int| 0 <= j < i ==> (#[trigger] ws[j]).id != id
}

/// A font size outside the range that settings allow.
pub open spec fn font_size_out_of_range(size: u8) -> bool {
    size < 10 || size > 28
}

/// A preset with its name and description trimmed.
pub open spec fn repaired_preset(p: PresetView) -> PresetView {
    PresetView {
        id: p.id,
        name: trimmed(p.name),
        description: trim_opt(p.description),
        config: p.config,
    }
}

/// Settings as the load-time repair leaves them: an out-of-range font
/// size is reset to the default, texts are trimmed, blank ones dropped.
pub open spec fn repaired_settings(s: SettingsView) -> SettingsView {
    SettingsView {
        theme: s.theme,
        accent_color: s.accent_color,
        zoom_level: s.zoom_level,
        font_family: trim_opt(s.font_family),
        font_size: if font_size_out_of_range(s.font_size) {
            DEFAULT_FONT_SIZE
        } else {
            s.font_size
        },
        launch_presets: s.launch_presets.map_values(|p: PresetView| repaired_preset(p)),
    }
}

/// Whether two optional strings hold the same text.
pub fn opt_eq(a: &Option<String>, b: &Option<String>) -> (r: bool)
    ensures
        r == (opt_view(*a) == opt_view(*b)),
{
    match (a, b) {
        (None, None) => true,
        (Some(x), Some(y)) => *x == *y,
        _ => false,
    }
}

/// The root document: the workspaces in order, the active one, and the
/// user's settings.
#[derive(Debug, Clone)]
pub struct AppConfig {
    pub workspaces: Vec<WorkspaceRecord>,
    pub active_workspace_id: Option<u128>,
    pub settings: AppSettings,
}

impl AppConfig {
    /// The registry holds distinct ids and distinct names.
    pub open spec fn registry_unique(&self) -> bool {
        ids_unique(self.workspaces@) && names_unique(self.workspaces@)
    }

    /// When there is a workspace, the active id names one of them.
    pub open spec fn active_valid(&self) -> bool {
        self.workspaces@.len() > 0 ==> (self.active_workspace_id matches Some(id) && has_workspace(
            self.workspaces@,
            id,
        ))
    }

    /// The active id names a workspace, and is missing only when there is
    /// no workspace.
    pub open spec fn active_sound(&self) -> bool {
        match self.active_workspace_id {
            Some(id) => has_workspace(self.workspaces@, id),
            None => self.workspaces@.len() == 0,
        }
    }

    /// The document of a first run: one workspace, "Default Workspace",
    /// with a fresh id and its store in its own directory; it is active,
    /// and the settings are the defaults.
    pub fn bootstrap(base_dir: &str) -> (r: AppConfig)
        ensures
            r.workspaces@.len() == 1,
            r.workspaces@[0].name@ == "Default Workspace"@,
            opt_view(r.workspaces@[0].description) == Some("Initial workspace"@),
            r.workspaces@[0].database_path@ == default_db_path_of(base_dir@, r.workspaces@[0].id),
            r.workspaces@[0].created_at == r.workspaces@[0].updated_at,
            r.active_workspace_id == Some(r.workspaces@[0].id),
            r.settings@ == AppSettings::default_view(),
            r.registry_unique(),
            r.active_sound(),
    {
        let id = fresh_id();
        let now = now_micros();
        let database_path = default_workspace_db_path(base_dir, id);
        let record = WorkspaceRecord {
            id,
            name: String::from_str("Default Workspace"),
            description: Some(String::from_str("Initial workspace")),
            database_path,
            created_at: now,
            updated_at: now,
        };
        let workspaces = vec![record];
        let r = AppConfig {
            workspaces,
            active_workspace_id: Some(id),
            settings: AppSettings::default(),
        };
        assert(r.workspaces@[0].id == id);
        r
    }

    /// Sets an active id that is missing, or names no workspace, to the
    /// first workspace's; reports whether it did.
    pub fn ensure_active_id(self) -> (r: (AppConfig, bool))
        ensures
            r.1 == active_id_needs_healing(self.workspaces@, self.active_workspace_id),
            r.0.active_workspace_id == healed_active_id(self.workspaces@, self.active_workspace_id),
            r.0.active_valid(),
            r.0.workspaces == self.workspaces,
            r.0.settings == self.settings,
    {
        proof {
            if self.workspaces@.len() > 0 {
                healed_active_id_names_a_workspace(self.workspaces@, self.active_workspace_id);
            }
        }
        let valid = match self.active_workspace_id {
            Some(id) => self.find_workspace(id).is_some(),
            None => false,
        };
        if valid || self.workspaces.len() == 0 {
            return (self, false);
        }
        let mut c = self;
        c.active_workspace_id = Some(c.workspaces[0].id);
        (c, true)
    }

    /// Repairs the settings as a load requires; reports whether anything
    /// changed, or the settings were missing from the document.
    pub fn ensure_settings(&mut self, was_missing: bool) -> (r: bool)
        ensures
            final(self).settings@ == repaired_settings(old(self).settings@),
            r == (was_missing || repaired_settings(old(self).settings@) != old(self).settings@),
            final(self).workspaces == old(self).workspaces,
            final(self).active_workspace_id == old(self).active_workspace_id,
    {
        let ghost s0 = self.settings@;
        let mut changed = was_missing;
        let mut size_changed = false;
        if self.settings.font_size < 10 || self.settings.font_size > 28 {
            self.settings.font_size = DEFAULT_FONT_SIZE;
            size_changed = true;
        }
        let family = trim_optional(copy_opt(&self.settings.font_family));
        let family_changed = !opt_eq(&family, &self.settings.font_family);
        self.settings.font_family = family;

        let mut presets: Vec<LaunchPreset> = Vec::new();
        let mut presets_changed = false;
        let mut i: usize = 0;
        while i < self.settings.launch_presets.len()
            invariant
                i <= self.settings.launch_presets@.len(),
                presets@.len() == i,
                presets_view(self.settings.launch_presets@) == s0.launch_presets,
                forall|j: int| 0 <= j < i ==> #[trigger] presets@[j]@ == repaired_preset(s0.launch_presets[j]),
                presets_changed == exists|j: int| 0 <= j < i && #[trigger] repaired_preset(s0.launch_presets[j]) != s0.launch_presets[j],
            decreases self.settings.launch_presets.len() - i,
        {
            let p = &self.settings.launch_presets[i];
            assert(p@ == s0.launch_presets[i as int]);
            let name = trim(p.name.as_str());
            let description = trim_optional(copy_opt(&p.description));
            if name != p.name || !opt_eq(&description, &p.description) {
                presets_changed = true;
                assert(repaired_preset(s0.launch_presets[i as int]) != s0.launch_presets[i as int]);
            } else {
                assert(repaired_preset(s0.launch_presets[i as int]) == s0.launch_presets[i as int]);
            }
            let q = LaunchPreset { id: p.id, name, description, config: p.config.copy() };
            presets.push(q);
            i = i + 1;
        }
        self.settings.launch_presets = presets;
        let ghost rep = repaired_settings(s0);
        assert(presets_view(self.settings.launch_presets@) =~= rep.launch_presets);
        assert(self.settings@ == rep);
        if size_changed || family_changed || presets_changed {
            changed = true;
            proof {
                if presets_changed {
                    let j = choose|j: int| 0 <= j < i && #[trigger] repaired_preset(s0.launch_presets[j]) != s0.launch_presets[j];
                    assert(rep.launch_presets[j] != s0.launch_presets[j]);
                }
            }
            assert(rep != s0);
        } else {
            assert(rep.launch_presets =~= s0.launch_presets);
            assert(rep == s0);
        }
        changed
    }

    /// Both load-time repairs, in order: the active id, then the settings.
    /// Reports whether either changed anything, or the settings were
    /// missing from the document.
    pub fn repair(self, settings_missing_in_file: bool) -> (r: (AppConfig, bool))
        ensures
            r.0.workspaces == self.workspaces,
            r.0.active_workspace_id == healed_active_id(self.workspaces@, self.active_workspace_id),
            r.0.active_valid(),
            r.0.settings@ == repaired_settings(self.settings@),
            r.1 == (settings_missing_in_file || active_id_needs_healing(
                self.workspaces@,
                self.active_workspace_id,
            ) || repaired_settings(self.settings@) != self.settings@),
    {
        let (mut config, active_changed) = self.ensure_active_id();
        let settings_changed = config.ensure_settings(settings_missing_in_file);
        (config, active_changed || settings_changed)
    }

    /// The first workspace with id `id`.
    pub fn find_workspace(&self, id: u128) -> (r: Option<&WorkspaceRecord>)
        ensures
            r.is_some() == has_workspace(self.workspaces@, id),
            r matches Some(w) ==> exists|i: int|
                first_with_id(self.workspaces@, i, id) && #[trigger] self.workspaces@[i] == *w,
    {
        let mut i: usize = 0;
        while i < self.workspaces.len()
            invariant
                i <= self.workspaces@.len(),
                forall|j: int| 0 <= j < i ==> (#[trigger] self.workspaces@[j]).id != id,
            decreases self.workspaces.len() - i,
        {
            if self.workspaces[i].id == id {
                assert(first_with_id(self.workspaces@, i as int, id));
                return Some(&self.workspaces[i]);
            }
            i = i + 1;
        }
        None
    }

    /// Whether some workspace already has `name`, ignoring ASCII case.
    pub fn name_in_use(&self, name: &str) -> (r: bool)
        ensures
            r == name_taken(self.workspaces@, name@),
    {
        let mut i: usize = 0;
        while i < self.workspaces.len()
            invariant
                i <= self.workspaces@.len(),
                forall|j: int| 0 <= j < i ==> !eq_ignoring_ascii_case((#[trigger] self.workspaces@[j]).name@, name@),
            decreases self.workspaces.len() - i,
        {
            if eq_ignore_ascii_case(self.workspaces[i].name.as_str(), name) {
                return true;
            }
            i = i + 1;
        }
        false
    }
}

/// Workspaces created one after another keep distinct ids and distinct
/// names: adding to such a registry a workspace whose id is new and whose
/// name no workspace has, ignoring ASCII case, keeps both distinct.
pub proof fn adding_a_new_workspace_keeps_registry_unique(ws: Seq<WorkspaceRecord>, w: WorkspaceRecord)
    requires
        ids_unique(ws),
        names_unique(ws),
        !has_workspace(ws, w.id),
        !name_taken(ws, w.name@),
    ensures
        ids_unique(ws.push(w)),
        names_unique(ws.push(w)),
{
    let all = ws.push(w);
    let n = ws.len() as int;
    assert forall|i: int| 0 <= i < n implies (#[trigger] all[i]) == ws[i] by {}
    assert forall|i: int, j: int| 0 <= i < all.len() && 0 <= j < all.len() && i != j
        implies (#[trigger] all[i]).id != (#[trigger] all[j]).id by {
        if i == n {
            assert(ws[j].id == all[j].id);
        } else if j == n {
            assert(ws[i].id == all[i].id);
        }
    }
    assert forall|a: int| 0 <= a < n implies !eq_ignoring_ascii_case((#[trigger] all[a]).name@, w.name@)
        && !eq_ignoring_ascii_case(w.name@, all[a].name@) by {
        if eq_ignoring_ascii_case(w.name@, ws[a].name@) {
            assert forall|k: int| 0 <= k < ws[a].name@.len() implies crate::text::ascii_fold(#[trigger] ws[a].name@[k])
                == crate::text::ascii_fold(w.name@[k]) by {
                assert(crate::text::ascii_fold(w.name@[k]) == crate::text::ascii_fold(ws[a].name@[k]));
            }
            assert(eq_ignoring_ascii_case(ws[a].name@, w.name@));
        }
    }
    assert(all[n] == w);
}

/// After the load-time repair, whenever there is a workspace, the active id
/// names one of them.
pub proof fn healed_active_id_names_a_workspace(ws: Seq<WorkspaceRecord>, active: Option<u128>)
    requires
        ws.len() > 0,
    ensures
        healed_active_id(ws, active) matches Some(id) && has_workspace(ws, id),
{
    if active_id_needs_healing(ws, active) {
        assert(ws[0].id == ws[0].id);
    }
}

} // verus!
