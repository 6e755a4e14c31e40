use vstd::prelude::*;
use crate::clock::now_micros;
use crate::config::{
    AppConfig, config_file_path, config_path_of, default_db_path_of, default_workspace_db_path,
    first_with_id, has_workspace, name_taken,
};
use crate::error::{AppError, AppResult};
use crate::id_map::IdMap;
use crate::ids::{id_text, uuid_text};
use crate::launch::ProcessRegistry;
use crate::models::{
    AppSettings, AppSettingsUpdate, WorkspaceInput, WorkspaceRecord, WorkspaceView,
};
use crate::project::{settings_from_update, settings_match_update, update_rejected};
use crate::text::{blank, is_blank, opt_view};

verus! {

/// A workspace as collaborators get it: its record and its store's pool.
#[derive(Debug, Clone)]
pub struct WorkspaceHandle<P> {
    pub meta: WorkspaceRecord,
    pub pool: P,
}

/// What a new workspace is given before its store is opened: its id, its
/// store file, and its creation time.
#[derive(Debug, Clone)]
pub struct WorkspacePlan {
    pub id: u128,
    pub database_path: String,
    pub created_at: i64,
}

/// The store file that a workspace input asks for: its own, or the default
/// one for the workspace's id.
pub open spec fn planned_db_path(base: Seq<char>, requested: Option<String>, id: u128) -> Seq<char> {
    match requested {
        Some(p) => p@,
        None => default_db_path_of(base, id),
    }
}

/// The coordinator's state: the configuration document, the pool of each
/// workspace's store (`P`), and the handles of running processes (`H`).
#[derive(Debug)]
pub struct AppStateInner<P, H> {
    pub base_dir: String,
    pub config_path: String,
    pub config: AppConfig,
    pub workspace_pools: IdMap<P>,
    pub running_processes: ProcessRegistry<H>,
}

impl<P, H> AppStateInner<P, H> {
    pub open spec fn wf(&self) -> bool {
        self.workspace_pools.wf() && self.running_processes.wf()
    }

    /// A state over a loaded document, with no pool yet and no process.
    pub fn new(base_dir: String, config: AppConfig) -> (r: Self)
        ensures
            r.wf(),
            r.base_dir@ == base_dir@,
            r.config_path@ == config_path_of(base_dir@),
            r.config == config,
            r.workspace_pools.view() == Map::<u128, P>::empty(),
            r.running_processes@ == Map::<u128, H>::empty(),
    {
        let config_path = config_file_path(base_dir.as_str());
        AppStateInner {
            base_dir,
            config_path,
            config,
            workspace_pools: IdMap::new(),
            running_processes: ProcessRegistry::new(),
        }
    }

    /// Keeps the pool of workspace `id`.
    pub fn register_pool(&mut self, id: u128, pool: P)
        requires
            old(self).wf(),
        ensures
            final(self).wf(),
            final(self).workspace_pools.view() == old(self).workspace_pools.view().insert(id, pool),
            final(self).config == old(self).config,
            final(self).running_processes == old(self).running_processes,
    {
        self.workspace_pools.insert(id, pool);
    }

    /// The workspaces, in order.
    pub fn list_workspaces(&self) -> (r: Vec<WorkspaceRecord>)
        ensures
            r@.len() == self.config.workspaces@.len(),
            forall|i: int| 0 <= i < r@.len() ==> (#[trigger] r@[i])@ == self.config.workspaces@[i]@,
    {
        let mut r: Vec<WorkspaceRecord> = Vec::new();
        let mut i: usize = 0;
        while i < self.config.workspaces.len()
            invariant
                i <= self.config.workspaces@.len(),
                r@.len() == i,
                forall|j: int| 0 <= j < i ==> (#[trigger] r@[j])@ == self.config.workspaces@[j]@,
            decreases self.config.workspaces.len() - i,
        {
            r.push(self.config.workspaces[i].copy());
            i = i + 1;
        }
        r
    }

    /// The active workspace, if the active id names one.
    pub fn get_active_workspace(&self) -> (r: Option<WorkspaceRecord>)
        ensures
            r.is_some() == (self.config.active_workspace_id matches Some(id) && has_workspace(
                self.config.workspaces@,
                id,
            )),
            r matches Some(w) ==> Some(w.id) == self.config.active_workspace_id && exists|i: int|
                first_with_id(self.config.workspaces@, i, w.id) && (#[trigger] self.config.workspaces@[i])@ == w@,
    {
        match self.config.active_workspace_id {
            None => None,
            Some(id) => match self.config.find_workspace(id) {
                None => None,
                Some(w) => Some(w.copy()),
            },
        }
    }

    /// Makes workspace `workspace_id` the active one.
    pub fn set_active_workspace(&mut self, workspace_id: u128) -> (r: AppResult<WorkspaceRecord>)
        ensures
            r.is_err() == !has_workspace(old(self).config.workspaces@, workspace_id),
            r matches Err(e) ==> (e matches AppError::WorkspaceNotFound(m) && m@ == uuid_text(workspace_id)),
            r.is_err() ==> *final(self) == *old(self),
            r matches Ok(w) ==> {
                &&& w.id == workspace_id
                &&& final(self).config.active_workspace_id == Some(workspace_id)
                &&& final(self).config.workspaces == old(self).config.workspaces
                &&& final(self).config.settings == old(self).config.settings
                &&& final(self).workspace_pools == old(self).workspace_pools
                &&& final(self).running_processes == old(self).running_processes
                &&& exists|i: int| first_with_id(old(self).config.workspaces@, i, workspace_id) && (#[trigger] old(self).config.workspaces@[i])@ == w@
            },
    {
        let record = match self.config.find_workspace(workspace_id) {
            None => {
                return Err(AppError::WorkspaceNotFound(id_text(workspace_id)));
            },
            Some(w) => w.copy(),
        };
        self.config.active_workspace_id = Some(workspace_id);
        Ok(record)
    }

    /// Checks a workspace input and gives the new workspace its id, its
    /// store file and its creation time. The name must not be blank nor
    /// taken, ignoring ASCII case.
    pub fn prepare_workspace(&self, payload: &WorkspaceInput) -> (r: AppResult<WorkspacePlan>)
        ensures
            r.is_ok() == (!is_blank(payload.name@) && !name_taken(self.config.workspaces@, payload.name@)),
            r matches Err(e) ==> e is Validation,
            is_blank(payload.name@) ==> (r matches Err(e) && e matches AppError::Validation(m)
                && m@ == "workspace name cannot be empty"@),
            !is_blank(payload.name@) && name_taken(self.config.workspaces@, payload.name@) ==> (r matches Err(e)
                && e matches AppError::Validation(m) && m@ == "workspace name '"@ + payload.name@ + "' already exists"@),
            r matches Ok(plan) ==> plan.database_path@ == planned_db_path(
                self.base_dir@,
                payload.database_path,
                plan.id,
            ),
    {
        if blank(payload.name.as_str()) {
            return Err(AppError::Validation(String::from_str("workspace name cannot be empty")));
        }
        if self.config.name_in_use(payload.name.as_str()) {
            return Err(
                AppError::Validation(
                    String::from_str("workspace name '").concat(payload.name.as_str()).concat(
                        "' already exists",
                    ),
                ),
            );
        }
        let id = crate::ids::fresh_id();
        let created_at = now_micros();
        let database_path = match &payload.database_path {
            Some(path) => path.clone(),
            None => default_workspace_db_path(self.base_dir.as_str(), id),
        };
        Ok(WorkspacePlan { id, database_path, created_at })
    }

    /// Adds a workspace, with its store's pool, as `plan` says. Fails, and
    /// leaves the state as it was, when the name is blank or taken (ignoring
    /// ASCII case) or the id is in use. The first workspace becomes active.
    pub fn create_workspace(&mut self, payload: WorkspaceInput, plan: WorkspacePlan, pool: P) -> (r:
        AppResult<WorkspaceRecord>)
        requires
            old(self).wf(),
        ensures
            final(self).wf(),
            r.is_err() == (is_blank(payload.name@) || name_taken(old(self).config.workspaces@, payload.name@)
                || has_workspace(old(self).config.workspaces@, plan.id)),
            r matches Err(e) ==> e is Validation,
            is_blank(payload.name@) ==> (r matches Err(e) && e matches AppError::Validation(m)
                && m@ == "workspace name cannot be empty"@),
            !is_blank(payload.name@) && name_taken(old(self).config.workspaces@, payload.name@) ==> (r matches Err(e)
                && e matches AppError::Validation(m) && m@ == "workspace name '"@ + payload.name@ + "' already exists"@),
            !is_blank(payload.name@) && !name_taken(old(self).config.workspaces@, payload.name@)
                && has_workspace(old(self).config.workspaces@, plan.id) ==> (r matches Err(e)
                && e matches AppError::Validation(m) && m@ == "workspace id is already in use"@),
            r.is_err() ==> *final(self) == *old(self),
            r matches Ok(w) ==> {
                &&& w@ == (WorkspaceView {
                    id: plan.id,
                    name: payload.name@,
                    description: opt_view(payload.description),
                    database_path: plan.database_path@,
                    created_at: plan.created_at,
                    updated_at: plan.created_at,
                })
                &&& final(self).config.workspaces@.len() == old(self).config.workspaces@.len() + 1
                &&& final(self).config.workspaces@.drop_last() == old(self).config.workspaces@
                &&& final(self).config.workspaces@.last()@ == w@
                &&& final(self).config.active_workspace_id == (if old(self).config.active_workspace_id.is_none() {
                    Some(plan.id)
                } else {
                    old(self).config.active_workspace_id
                })
                &&& final(self).config.settings == old(self).config.settings
                &&& final(self).workspace_pools.view() == old(self).workspace_pools.view().insert(plan.id, pool)
                &&& final(self).running_processes == old(self).running_processes
            },
            old(self).config.registry_unique() ==> final(self).config.registry_unique(),
            old(self).config.active_sound() ==> final(self).config.active_sound(),
    {
        if blank(payload.name.as_str()) {
            return Err(AppError::Validation(String::from_str("workspace name cannot be empty")));
        }
        if self.config.name_in_use(payload.name.as_str()) {
            return Err(
                AppError::Validation(
                    String::from_str("workspace name '").concat(payload.name.as_str()).concat(
                        "' already exists",
                    ),
                ),
            );
        }
        if self.config.find_workspace(plan.id).is_some() {
            return Err(AppError::Validation(String::from_str("workspace id is already in use")));
        }
        let ghost old_ws = self.config.workspaces@;
        let record = WorkspaceRecord {
            id: plan.id,
            name: payload.name,
            description: payload.description,
            database_path: plan.database_path,
            created_at: plan.created_at,
            updated_at: plan.created_at,
        };
        let result = record.copy();
        self.config.workspaces.push(record);
        self.workspace_pools.insert(plan.id, pool);
        if self.config.active_workspace_id.is_none() {
            self.config.active_workspace_id = Some(plan.id);
        }
        proof {
            let ws = self.config.workspaces@;
            let n = old_ws.len() as int;
            assert(ws.drop_last() =~= old_ws);
            assert forall|i: int| 0 <= i < n implies (#[trigger] ws[i]) == old_ws[i] by {}
            assert(ws[n].id == plan.id);
            if old(self).config.registry_unique() {
                crate::config::adding_a_new_workspace_keeps_registry_unique(old_ws, ws[n]);
                assert(ws =~= old_ws.push(ws[n]));
            }
            if let Some(act) = self.config.active_workspace_id {
                if act == plan.id {
                    assert(has_workspace(ws, act));
                } else if has_workspace(old_ws, act) {
                    let i = choose|i: int| 0 <= i < old_ws.len() && (#[trigger] old_ws[i]).id == act;
                    assert(ws[i].id == act);
                }
            }
        }
        Ok(result)
    }

    /// The handle of workspace `workspace_id`, or of the active workspace.
    pub fn workspace_handle(&self, workspace_id: Option<u128>) -> (r: AppResult<WorkspaceHandle<P>>)
        where
            P: Clone,
        requires
            self.wf(),
        ensures
            workspace_id.is_none() && self.config.active_workspace_id.is_none() ==> (r matches Err(e)
                && e matches AppError::Validation(m) && m@ == "no active workspace selected"@),
            ({
                let target = if workspace_id.is_some() {
                    workspace_id
                } else {
                    self.config.active_workspace_id
                };
                target matches Some(id) ==> {
                    &&& r.is_ok() == (has_workspace(self.config.workspaces@, id)
                        && self.workspace_pools.view().contains_key(id))
                    &&& r matches Err(e) ==> (e matches AppError::WorkspaceNotFound(m) && m@ == uuid_text(id))
                    &&& r matches Ok(h) ==> h.meta.id == id && vstd::pervasive::cloned(self.workspace_pools.view()[id], h.pool)
                        && exists|i: int| first_with_id(self.config.workspaces@, i, id) && (#[trigger] self.config.workspaces@[i])@ == h.meta@
                }
            }),
    {
        let id = match workspace_id {
            Some(id) => id,
            None => match self.config.active_workspace_id {
                Some(id) => id,
                None => {
                    return Err(AppError::Validation(String::from_str("no active workspace selected")));
                },
            },
        };
        let meta = match self.config.find_workspace(id) {
            Some(w) => w.copy(),
            None => {
                return Err(AppError::WorkspaceNotFound(id_text(id)));
            },
        };
        let pool = match self.workspace_pools.get(id) {
            Some(p) => p.clone(),
            None => {
                return Err(AppError::WorkspaceNotFound(id_text(id)));
            },
        };
        Ok(WorkspaceHandle { meta, pool })
    }

    /// The settings.
    pub fn get_settings(&self) -> (r: AppSettings)
        ensures
            r@ == self.config.settings@,
    {
        self.config.settings.copy()
    }

    /// Replaces the settings whole with those an update asks for (see
    /// `settings_from_update`); a refused update changes nothing.
    pub fn update_settings(&mut self, payload: AppSettingsUpdate, executable_exists: &Vec<bool>) -> (r:
        AppResult<AppSettings>)
        requires
            executable_exists@.len() == payload.launch_presets@.len(),
        ensures
            r.is_err() == update_rejected(payload, executable_exists@),
            r matches Err(e) ==> e is Validation,
            r.is_err() ==> *final(self) == *old(self),
            r matches Ok(s) ==> {
                &&& settings_match_update(s, payload)
                &&& final(self).config.settings@ == s@
                &&& final(self).config.workspaces == old(self).config.workspaces
                &&& final(self).config.active_workspace_id == old(self).config.active_workspace_id
                &&& final(self).workspace_pools == old(self).workspace_pools
                &&& final(self).running_processes == old(self).running_processes
            },
    {
        let settings = settings_from_update(&payload, executable_exists)?;
        self.config.settings = settings.copy();
        Ok(settings)
    }

    /// The default store file of workspace `id`.
    pub fn default_workspace_db_path(&self, id: u128) -> (r: String)
        ensures
            r@ == default_db_path_of(self.base_dir@, id),
    {
        default_workspace_db_path(self.base_dir.as_str(), id)
    }
}

} // verus!
