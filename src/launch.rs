use vstd::prelude::*;
use crate::error::{AppError, AppResult};
use crate::id_map::IdMap;
use crate::models::{OpenConfig, OpenConfigView, copy_strings, strings_view};

verus! {

/// The host platforms that have a default "open" handler.
#[derive(PartialEq, Eq, Structural, Clone, Copy, Debug)]
pub enum HostOs {
    Windows,
    MacOs,
    Linux,
    Other,
}

/// The program that opens a path with the host's default handler.
pub open spec fn opener_of(os: HostOs) -> Option<Seq<char>> {
    match os {
        HostOs::Windows => Some("explorer"@),
        HostOs::MacOs => Some("open"@),
        HostOs::Linux => Some("xdg-open"@),
        HostOs::Other => None,
    }
}

/// A process to start: the program, its arguments, its working directory
/// (the caller's when `None`), whether its handle is to be kept in the
/// process table, and
/// the label that spawn failures carry.
#[derive(Debug, Clone)]
pub struct LaunchCommand {
    pub program: String,
    pub args: Vec<String>,
    pub current_dir: Option<String>,
    pub kept: bool,
    pub label: String,
}

/// Opening `path` with the host's default handler: a detached process
/// that is not kept. Fails on a host without such a handler.
pub fn open_with_system(path: &str, os: HostOs) -> (r: AppResult<LaunchCommand>)
    ensures
        r.is_err() == opener_of(os).is_none(),
        r matches Err(e) ==> e is Launch,
        r matches Ok(c) ==> {
            &&& Some(c.program@) == opener_of(os)
            &&& c.label@ == c.program@
            &&& strings_view(c.args@) == seq![path@]
            &&& c.current_dir.is_none()
            &&& !c.kept
        },
{
    let opener = match os {
        HostOs::Windows => "explorer",
        HostOs::MacOs => "open",
        HostOs::Linux => "xdg-open",
        HostOs::Other => {
            return Err(AppError::Launch(String::from_str("system open is not supported on this platform")));
        },
    };
    let args = vec![String::from_str(path)];
    assert(strings_view(args@) =~= seq![path@]);
    Ok(LaunchCommand {
        program: String::from_str(opener),
        args,
        current_dir: None,
        kept: false,
        label: String::from_str(opener),
    })
}

/// Starting a program on a project: its arguments, then the project path
/// as the last one, in the caller's working directory.
pub fn spawn_with_program(executable: &str, args: &Vec<String>, project_path: &str) -> (r: LaunchCommand)
    ensures
        r.program@ == executable@,
        strings_view(r.args@) == strings_view(args@).push(project_path@),
        r.current_dir.is_none(),
        r.kept,
        r.label@ == "program "@ + executable@,
{
    let mut all = copy_strings(args);
    all.push(String::from_str(project_path));
    assert(strings_view(all@) =~= strings_view(args@).push(project_path@));
    LaunchCommand {
        program: String::from_str(executable),
        args: all,
        current_dir: None,
        kept: true,
        label: String::from_str("program ").concat(executable),
    }
}

/// Running a command for a project: its arguments, in the project's
/// directory.
pub fn spawn_with_command(command_name: &str, args: &Vec<String>, project_path: &str) -> (r: LaunchCommand)
    ensures
        r.program@ == command_name@,
        strings_view(r.args@) == strings_view(args@),
        opt_view_is(r.current_dir, project_path@),
        r.kept,
        r.label@ == command_name@,
{
    LaunchCommand {
        program: String::from_str(command_name),
        args: copy_strings(args),
        current_dir: Some(String::from_str(project_path)),
        kept: true,
        label: String::from_str(command_name),
    }
}

pub open spec fn opt_view_is(o: Option<String>, s: Seq<char>) -> bool {
    o matches Some(x) && x@ == s
}

/// The process that opens a project with its open configuration.
pub fn launch_command(config: &OpenConfig, project_path: &str, os: HostOs) -> (r: AppResult<LaunchCommand>)
    ensures
        r.is_err() == (config@ is SystemDefault && opener_of(os).is_none()),
        r matches Err(e) ==> e is Launch,
        r matches Ok(c) ==> match config@ {
            OpenConfigView::SystemDefault => {
                &&& Some(c.program@) == opener_of(os)
                &&& strings_view(c.args@) == seq![project_path@]
                &&& c.current_dir.is_none()
                &&& !c.kept
            },
            OpenConfigView::CustomApp { executable, args } => {
                &&& c.program@ == executable
                &&& strings_view(c.args@) == args.push(project_path@)
                &&& c.current_dir.is_none()
                &&& c.kept
            },
            OpenConfigView::CustomCommand { command, args } => {
                &&& c.program@ == command
                &&& strings_view(c.args@) == args
                &&& opt_view_is(c.current_dir, project_path@)
                &&& c.kept
            },
        },
{
    match config {
        OpenConfig::SystemDefault => open_with_system(project_path, os),
        OpenConfig::CustomApp { executable, args } => Ok(spawn_with_program(executable.as_str(), args, project_path)),
        OpenConfig::CustomCommand { command, args } => Ok(spawn_with_command(command.as_str(), args, project_path)),
    }
}

/// The error of a failed spawn: the command's label and the cause.
pub fn launch_error(label: &str, cause: &str) -> (r: AppError)
    ensures
        r matches AppError::Launch(m) && m@ == label@ + ": "@ + cause@,
{
    AppError::Launch(String::from_str(label).concat(": ").concat(cause))
}

/// What polling a child process tells.
#[derive(PartialEq, Eq, Structural, Clone, Copy, Debug)]
pub enum ProcStatus {
    /// It has not exited yet.
    Running,
    /// It has exited.
    Exited,
    /// Its state could not be read.
    Unknown,
}

/// The table of running child processes, by project id: at most one
/// handle per project.
#[derive(Debug)]
pub struct ProcessRegistry<H> {
    handles: IdMap<H>,
}

/// The ids of the entries that are still running, in order.
pub open spec fn running_ids<H>(polled: Seq<(u128, H, ProcStatus)>) -> Seq<u128>
    decreases polled.len(),
{
    if polled.len() == 0 {
        Seq::empty()
    } else {
        let rest = running_ids(polled.drop_last());
        if polled.last().2 == ProcStatus::Running {
            rest.push(polled.last().0)
        } else {
            rest
        }
    }
}

impl<H> ProcessRegistry<H> {
    pub closed spec fn wf(&self) -> bool {
        self.handles.wf()
    }

    /// The handles, by project id.
    pub closed spec fn view(&self) -> Map<u128, H> {
        self.handles.view()
    }

    pub fn new() -> (r: Self)
        ensures
            r.wf(),
            r@ == Map::<u128, H>::empty(),
    {
        ProcessRegistry { handles: IdMap::new() }
    }

    /// Whether a handle is kept for `project_id`.
    pub fn has_handle(&self, project_id: u128) -> (r: bool)
        requires
            self.wf(),
        ensures
            r == self@.contains_key(project_id),
    {
        self.handles.contains(project_id)
    }

    /// The number of handles kept.
    pub fn len(&self) -> (r: usize)
        requires
            self.wf(),
        ensures
            r == self@.len(),
    {
        self.handles.len()
    }

    /// Takes the handle of `project_id` out to poll or stop it.
    pub fn check_out(&mut self, project_id: u128) -> (r: Option<H>)
        requires
            old(self).wf(),
        ensures
            final(self).wf(),
            final(self)@ == old(self)@.remove(project_id),
            r.is_some() == old(self)@.contains_key(project_id),
            r matches Some(h) ==> h == old(self)@[project_id],
    {
        self.handles.remove(project_id)
    }

    /// Decides a launch of `project_id`, given its checked-out handle and
    /// what polling it told. A process still running is kept and nothing is
    /// started (`false`); a process that exited, or whose state is unknown,
    /// is dropped, and so is the way open for a new one (`true`), as it is
    /// when no handle was kept.
    pub fn settle_launch(&mut self, project_id: u128, polled: Option<(H, ProcStatus)>) -> (r: bool)
        requires
            old(self).wf(),
            !old(self)@.contains_key(project_id),
        ensures
            final(self).wf(),
            r == !(polled matches Some(t) && t.1 == ProcStatus::Running),
            r ==> final(self)@ == old(self)@,
            !r ==> final(self)@ == old(self)@.insert(project_id, polled.unwrap().0),
    {
        match polled {
            Some((handle, ProcStatus::Running)) => {
                self.handles.insert(project_id, handle);
                false
            },
            _ => true,
        }
    }

    /// Keeps the handle of a process just started for `project_id`.
    pub fn record_spawn(&mut self, project_id: u128, handle: H)
        requires
            old(self).wf(),
        ensures
            final(self).wf(),
            final(self)@ == old(self)@.insert(project_id, handle),
    {
        self.handles.insert(project_id, handle);
    }

    /// Ends a stop of `project_id`, given its checked-out handle and the
    /// outcome of killing it. No handle: nothing to stop, success. A failed
    /// kill keeps the handle and reports a launch error.
    pub fn finish_stop(&mut self, project_id: u128, stopped: Option<(H, Result<(), String>)>) -> (r: AppResult<()>)
        requires
            old(self).wf(),
            !old(self)@.contains_key(project_id),
        ensures
            final(self).wf(),
            r.is_ok() == !(stopped matches Some(s) && s.1.is_err()),
            r matches Err(e) ==> e is Launch,
            r.is_ok() ==> final(self)@ == old(self)@,
            r.is_err() ==> final(self)@ == old(self)@.insert(project_id, stopped.unwrap().0),
    {
        match stopped {
            None => Ok(()),
            Some((_, Ok(()))) => Ok(()),
            Some((handle, Err(cause))) => {
                self.handles.insert(project_id, handle);
                Err(AppError::Launch(String::from_str("failed to kill process: ").concat(cause.as_str())))
            },
        }
    }

    /// Takes every handle out, to poll them all.
    pub fn check_out_all(&mut self) -> (r: Vec<(u128, H)>)
        requires
            old(self).wf(),
        ensures
            final(self).wf(),
            final(self)@ == Map::<u128, H>::empty(),
            r@.len() == old(self)@.len(),
            forall|i: int, j: int| 0 <= i < r@.len() && 0 <= j < r@.len() && i != j ==> #[trigger] r@[i].0 != #[trigger] r@[j].0,
            forall|i: int| 0 <= i < r@.len() ==> old(self)@.contains_key(#[trigger] r@[i].0) && old(self)@[r@[i].0] == r@[i].1,
            forall|k: u128| old(self)@.contains_key(k) ==> exists|i: int| 0 <= i < r@.len() && (#[trigger] r@[i]).0 == k,
    {
        let ghost before = self@;
        let ids = self.handles.ids();
        let mut r: Vec<(u128, H)> = Vec::new();
        let mut i: usize = 0;
        proof { ids@.unique_seq_to_set(); }
        while i < ids.len()
            invariant
                self.wf(),
                i <= ids@.len(),
                ids@.no_duplicates(),
                ids@.to_set() == before.dom(),
                r@.len() == i,
                forall|j: int| 0 <= j < i ==> (#[trigger] r@[j]).0 == ids@[j],
                forall|j: int| 0 <= j < i ==> before[(#[trigger] r@[j]).0] == r@[j].1,
                forall|k: u128| self@.contains_key(k) <==> (before.contains_key(k) && !ids@.subrange(0, i as int).contains(k)),
                forall|k: u128| self@.contains_key(k) ==> self@[k] == before[k],
            decreases ids.len() - i,
        {
            let id = ids[i];
            assert(ids@.to_set().contains(id));
            assert(!ids@.subrange(0, i as int).contains(id));
            let ghost prev = self@;
            let h = self.handles.remove(id);
            match h {
                Some(h) => {
                    r.push((id, h));
                },
                None => {
                    assert(false);
                },
            }
            proof {
                let s0 = ids@.subrange(0, i as int);
                let s1 = ids@.subrange(0, i + 1);
                assert(s1 =~= s0.push(id));
                assert forall|k: u128| self@.contains_key(k) <==> (before.contains_key(k) && !s1.contains(k)) by {
                    assert(prev.contains_key(k) <==> (before.contains_key(k) && !s0.contains(k)));
                    assert(self@.contains_key(k) <==> (prev.contains_key(k) && k != id));
                    if s1.contains(k) && k != id {
                        let j = choose|j: int| 0 <= j < s1.len() && s1[j] == k;
                        assert(s0[j] == k);
                    }
                    if s0.contains(k) {
                        let j = choose|j: int| 0 <= j < s0.len() && s0[j] == k;
                        assert(s1[j] == k);
                    }
                    if k == id {
                        assert(s1[i as int] == id);
                    }
                }
            }
            i = i + 1;
        }
        proof {
            assert(ids@.subrange(0, i as int) =~= ids@);
            assert forall|k: u128| !self@.contains_key(k) by {
                if before.contains_key(k) {
                    assert(ids@.to_set().contains(k));
                }
            }
            assert(self@ =~= Map::<u128, H>::empty());
            assert(ids@.len() == before.dom().len());
            assert forall|k: u128| before.contains_key(k) implies exists|j: int| 0 <= j < r@.len() && (#[trigger] r@[j]).0 == k by {
                assert(ids@.to_set().contains(k));
                let j = choose|j: int| 0 <= j < ids@.len() && ids@[j] == k;
                assert(r@[j].0 == k);
            }
        }
        r
    }

    /// Puts back the polled handles of processes still running and drops
    /// the others; returns the ids still running, in order.
    pub fn readmit(&mut self, polled: Vec<(u128, H, ProcStatus)>) -> (r: Vec<u128>)
        requires
            old(self).wf(),
            forall|i: int, j: int| 0 <= i < polled@.len() && 0 <= j < polled@.len() && i != j ==> #[trigger] polled@[i].0 != #[trigger] polled@[j].0,
        ensures
            final(self).wf(),
            r@ == running_ids(polled@),
            forall|k: u128| #[trigger] final(self)@.contains_key(k) <==> (old(self)@.contains_key(k) || exists|i: int|
                0 <= i < polled@.len() && (#[trigger] polled@[i]).0 == k && polled@[i].2 == ProcStatus::Running),
            forall|i: int| 0 <= i < polled@.len() && (#[trigger] polled@[i]).2 == ProcStatus::Running
                ==> final(self)@[polled@[i].0] == polled@[i].1,
            forall|k: u128| old(self)@.contains_key(k) && !running_ids(polled@).contains(k)
                ==> #[trigger] final(self)@[k] == old(self)@[k],
    {
        let ghost before = self@;
        let ghost all = polled@;
        let mut r: Vec<u128> = Vec::new();
        let mut rest = polled;
        let ghost mut i: int = 0;
        assert(all.subrange(0, 0) =~= Seq::<(u128, H, ProcStatus)>::empty());
        while rest.len() > 0
            invariant
                self.wf(),
                0 <= i <= all.len(),
                rest@ == all.subrange(i, all.len() as int),
                r@ == running_ids(all.subrange(0, i)),
                forall|k: u128| #[trigger] self@.contains_key(k) <==> (before.contains_key(k) || exists|j: int|
                    0 <= j < i && (#[trigger] all[j]).0 == k && all[j].2 == ProcStatus::Running),
                forall|j: int| 0 <= j < i && (#[trigger] all[j]).2 == ProcStatus::Running ==> self@[all[j].0] == all[j].1,
                forall|k: u128| before.contains_key(k) && !r@.contains(k) ==> #[trigger] self@[k] == before[k],
                forall|a: int, b: int| 0 <= a < all.len() && 0 <= b < all.len() && a != b ==> #[trigger] all[a].0 != #[trigger] all[b].0,
                forall|k: u128| r@.contains(k) ==> exists|j: int| 0 <= j < i && (#[trigger] all[j]).0 == k,
            decreases rest.len(),
        {
            let (id, h, status) = rest.remove(0);
            assert(all[i] == (id, h, status));
            let ghost prev = self@;
            let ghost prev_r = r@;
            if status == ProcStatus::Running {
                self.handles.insert(id, h);
                r.push(id);
            }
            proof {
                assert forall|k: u128| r@.contains(k) implies exists|j: int| 0 <= j < i + 1 && (#[trigger] all[j]).0 == k by {
                    if prev_r.contains(k) {
                        let j = choose|j: int| 0 <= j < i && (#[trigger] all[j]).0 == k;
                        assert(all[j].0 == k);
                    } else {
                        let t = choose|t: int| 0 <= t < r@.len() && r@[t] == k;
                        assert(t == prev_r.len());
                        assert(all[i].0 == k);
                    }
                }
                assert forall|j: int| 0 <= j < i + 1 && (#[trigger] all[j]).2 == ProcStatus::Running implies self@[all[j].0] == all[j].1 by {
                    if j < i {
                        assert(all[j].0 != all[i].0);
                    }
                }
                assert forall|k: u128| before.contains_key(k) && !r@.contains(k) implies #[trigger] self@[k] == before[k] by {
                    if status == ProcStatus::Running {
                        assert(r@[r@.len() - 1] == id);
                        assert(k != id);
                        assert(!prev_r.contains(k)) by {
                            if prev_r.contains(k) {
                                let t = choose|t: int| 0 <= t < prev_r.len() && prev_r[t] == k;
                                assert(r@[t] == k);
                            }
                        }
                    }
                }
                assert(all.subrange(0, i + 1).drop_last() =~= all.subrange(0, i));
                assert(all.subrange(0, i + 1).last() == all[i]);
                assert forall|k: u128| #[trigger] self@.contains_key(k) <==> (before.contains_key(k) || exists|j: int|
                    0 <= j < i + 1 && (#[trigger] all[j]).0 == k && all[j].2 == ProcStatus::Running) by {
                    if k == id && status == ProcStatus::Running {
                        assert(all[i].0 == k);
                    }
                    if exists|j: int| 0 <= j < i + 1 && (#[trigger] all[j]).0 == k && all[j].2 == ProcStatus::Running {
                        let j = choose|j: int| 0 <= j < i + 1 && (#[trigger] all[j]).0 == k && all[j].2 == ProcStatus::Running;
                        if j < i {
                            assert(prev.contains_key(k));
                        }
                    }
                }
                assert(rest@ =~= all.subrange(i + 1, all.len() as int));
                i = i + 1;
            }
        }
        assert(all.subrange(0, i) =~= all);
        r
    }
}


/// Launching a project a second time while its first process still runs
/// leaves exactly one handle for it: the first launch records the handle,
/// the second checks it out, finds it running and puts it back. Stopping
/// it then, with a successful kill, leaves no handle for it.
pub proof fn relaunch_keeps_one_handle<H>(before: Map<u128, H>, project_id: u128, handle: H)
    requires
        before.dom().finite(),
        !before.contains_key(project_id),
    ensures
        ({
            let first = before.insert(project_id, handle);
            let checked_out = first.remove(project_id);
            let second = checked_out.insert(project_id, first[project_id]);
            let stopped = second.remove(project_id);
            &&& second == first
            &&& second.dom().len() == before.dom().len() + 1
            &&& second.dom().filter(|k: u128| k == project_id) == set![project_id]
            &&& !stopped.contains_key(project_id)
            &&& stopped == before
        }),
{
    let first = before.insert(project_id, handle);
    let checked_out = first.remove(project_id);
    let second = checked_out.insert(project_id, first[project_id]);
    assert(checked_out =~= before);
    assert(second =~= first);
    assert(first.dom() =~= before.dom().insert(project_id));
    assert(second.dom().filter(|k: u128| k == project_id) =~= set![project_id]);
    assert(second.remove(project_id) =~= before);
}

} // verus!
