//! The supervisor's runtime information: lifecycle state and the table of
//! tracked processes, kept compacted (live entries first, at most four).
use vstd::prelude::*;
use crate::version::Version;

verus! {

/// Number of process slots in the shared runtime information.
pub const PROCESS_SLOTS: usize = 4;

/// Lifecycle state of the supervisor.
#[derive(Debug, Clone, Copy, PartialEq, Eq, Structural)]
pub enum State {
    Idle,
    Update,
    Rollback,
}

/// Which binary role a tracked process plays.
#[derive(Debug, Clone, Copy, PartialEq, Eq, Structural)]
pub enum FeatType {
    Agent,
    Controller,
}

/// Signals the supervisor sends to processes.
#[derive(Debug, Clone, Copy, PartialEq, Eq, Structural)]
pub enum MiaxSignal {
    Terminate,
    SendFd,
}

/// A tracked process.
#[derive(Debug, Clone, PartialEq, Eq)]
pub struct ProcessInfo {
    pub process_id: u32,
    /// Launch time, RFC 3339 text.
    pub executed_at: String,
    pub version: Version,
    pub feat_type: FeatType,
}

impl ProcessInfo {
    pub fn new(process_id: u32, feat_type: FeatType, executed_at: String, version: Version) -> (r:
        ProcessInfo)
        ensures
            r.process_id == process_id,
            r.feat_type == feat_type,
            r.executed_at@ == executed_at@,
            r.version == version,
    {
        ProcessInfo { process_id, executed_at, version, feat_type }
    }
}

/// Failure of a process operation, as reported by a process manager.
#[derive(Debug, Clone, PartialEq, Eq)]
pub struct ProcessError {
    pub message: String,
}

/// Errors of the runtime table.
#[derive(Debug, Clone, PartialEq, Eq)]
pub enum RuntimeError {
    /// All process slots are occupied.
    StorageFull,
    /// No tracked process has the given id.
    ProcessNotFound,
    /// A controller is already tracked.
    AlreadyExistController,
    /// Signalling a process failed.
    Kill(ProcessError),
    /// Signalling some of the processes failed.
    Kills(Vec<ProcessError>),
    /// Starting a process failed.
    Fork(ProcessError),
}

/// Spawns, signals and probes operating-system processes.
pub trait ProcessManager {
    fn is_running(&self, process_id: u32) -> bool;

    fn spawn_process(&self, cmd: &str, args: &[&str]) -> Result<u32, ProcessError>;

    fn kill_process(&self, process_id: u32, signal: MiaxSignal) -> Result<(), ProcessError>;
}

/// Runtime information shared between supervisor and agents.
#[derive(Debug, Clone)]
pub struct RuntimeInfo {
    pub state: State,
    /// Live entries, in slot order; the remaining slots are empty.
    pub process_infos: Vec<ProcessInfo>,
    pub exec_path: String,
}

/// The four-slot layout of a compacted entry list.
pub open spec fn slots_of(entries: Seq<ProcessInfo>) -> Seq<Option<ProcessInfo>> {
    Seq::new(
        PROCESS_SLOTS as nat,
        |i: int|
            if i < entries.len() {
                Some(entries[i])
            } else {
                None
            },
    )
}

/// Slots hold no gap followed by a used slot.
pub open spec fn is_compacted(slots: Seq<Option<ProcessInfo>>) -> bool {
    forall|i: int, j: int| 0 <= i < j < slots.len() && slots[i] is None ==> slots[j] is None
}

/// No two entries are controllers.
pub open spec fn at_most_one_controller(entries: Seq<ProcessInfo>) -> bool {
    forall|i: int, j: int|
        0 <= i < j < entries.len() && #[trigger] entries[i].feat_type == FeatType::Controller
            ==> #[trigger] entries[j].feat_type != FeatType::Controller
}

/// Some entry is a controller.
pub open spec fn has_controller(entries: Seq<ProcessInfo>) -> bool {
    exists|i: int| 0 <= i < entries.len() && entries[i].feat_type == FeatType::Controller
}

proof fn lemma_remove_keeps_one_controller(entries: Seq<ProcessInfo>, k: int)
    requires
        at_most_one_controller(entries),
        0 <= k < entries.len(),
    ensures
        at_most_one_controller(entries.remove(k)),
{
    let r = entries.remove(k);
    assert forall|i: int, j: int|
        0 <= i < j < r.len() && #[trigger] r[i].feat_type == FeatType::Controller implies #[trigger] r[j].feat_type
            != FeatType::Controller by {
        let i2 = if i < k { i } else { i + 1 };
        let j2 = if j < k { j } else { j + 1 };
        assert(r[i] == entries[i2]);
        assert(r[j] == entries[j2]);
        assert(entries[i2].feat_type == FeatType::Controller);
    }
}

proof fn lemma_push_keeps_one_controller(entries: Seq<ProcessInfo>, p: ProcessInfo)
    requires
        at_most_one_controller(entries),
        p.feat_type == FeatType::Controller ==> !has_controller(entries),
    ensures
        at_most_one_controller(entries.push(p)),
{
    let r = entries.push(p);
    assert forall|i: int, j: int|
        0 <= i < j < r.len() && #[trigger] r[i].feat_type == FeatType::Controller implies #[trigger] r[j].feat_type
            != FeatType::Controller by {
        if j == entries.len() {
            assert(r[i] == entries[i]);
        } else {
            assert(r[i] == entries[i] && r[j] == entries[j]);
        }
    }
}

/// Entry list without its first entry for process `pid`.
pub open spec fn without_first(entries: Seq<ProcessInfo>, pid: u32) -> Seq<ProcessInfo> {
    entries.remove(first_index_of(entries, pid))
}

/// Some entry has process id `pid`.
pub open spec fn tracks(entries: Seq<ProcessInfo>, pid: u32) -> bool {
    exists|i: int| 0 <= i < entries.len() && entries[i].process_id == pid
}

/// Index of the first entry with process id `pid`.
pub open spec fn first_index_of(entries: Seq<ProcessInfo>, pid: u32) -> int {
    choose|i: int|
        0 <= i < entries.len() && entries[i].process_id == pid && forall|k: int|
            0 <= k < i ==> entries[k].process_id != pid
}

/// Entry is an agent other than `keep`.
pub open spec fn is_other_agent(p: ProcessInfo, keep: u32) -> bool {
    p.feat_type == FeatType::Agent && p.process_id != keep
}

/// Some entry is an agent.
pub open spec fn has_agent(entries: Seq<ProcessInfo>) -> bool {
    exists|i: int| 0 <= i < entries.len() && entries[i].feat_type == FeatType::Agent
}

impl RuntimeInfo {
    /// Well-formed: no more entries than slots.
    pub open spec fn wf(&self) -> bool {
        self.process_infos@.len() <= PROCESS_SLOTS && at_most_one_controller(self.process_infos@)
    }

    /// Whether the table is well formed: at most four entries, at most one
    /// of them a controller.
    pub fn is_well_formed(&self) -> (r: bool)
        ensures
            r == self.wf(),
    {
        if self.process_infos.len() > PROCESS_SLOTS {
            return false;
        }
        let mut seen = false;
        let mut i: usize = 0;
        while i < self.process_infos.len()
            invariant
                i <= self.process_infos@.len(),
                self.process_infos@.len() <= PROCESS_SLOTS,
                at_most_one_controller(self.process_infos@.subrange(0, i as int)),
                seen <==> exists|k: int|
                    0 <= k < i && #[trigger] self.process_infos@[k].feat_type == FeatType::Controller,
            decreases self.process_infos@.len() - i,
        {
            if self.process_infos[i].feat_type == FeatType::Controller {
                if seen {
                    let ghost k = choose|k: int|
                        0 <= k < i && #[trigger] self.process_infos@[k].feat_type
                            == FeatType::Controller;
                    assert(self.process_infos@[k].feat_type == FeatType::Controller);
                    return false;
                }
                seen = true;
            }
            proof {
                let t = self.process_infos@.subrange(0, i + 1);
                assert forall|a: int, b: int|
                    0 <= a < b < t.len() && #[trigger] t[a].feat_type == FeatType::Controller implies #[trigger] t[b].feat_type
                        != FeatType::Controller by {
                    assert(t[a] == self.process_infos@[a] && t[b] == self.process_infos@[b]);
                    if b < i {
                        assert(self.process_infos@.subrange(0, i as int)[a] == t[a]);
                        assert(self.process_infos@.subrange(0, i as int)[b] == t[b]);
                    }
                }
            }
            i += 1;
        }
        assert(self.process_infos@.subrange(0, i as int) == self.process_infos@);
        true
    }

    /// The four-slot layout of the table.
    pub open spec fn slots(&self) -> Seq<Option<ProcessInfo>> {
        slots_of(self.process_infos@)
    }

    /// Information with nothing recorded yet: idle and no processes.
    pub fn initial(exec_path: String) -> (r: RuntimeInfo)
        ensures
            r.wf(),
            r.state == State::Idle,
            r.process_infos@.len() == 0,
            r.exec_path@ == exec_path@,
    {
        RuntimeInfo { state: State::Idle, process_infos: Vec::new(), exec_path }
    }

    /// Records a process in the first free slot.
    pub fn add_process_info(&mut self, process_info: ProcessInfo) -> (r: Result<(), RuntimeError>)
        requires
            old(self).wf(),
        ensures
            final(self).wf(),
            final(self).state == old(self).state,
            final(self).exec_path == old(self).exec_path,
            old(self).process_infos@.len() < PROCESS_SLOTS && !(process_info.feat_type
                == FeatType::Controller && has_controller(old(self).process_infos@)) ==> r is Ok
                && final(self).process_infos@ == old(self).process_infos@.push(process_info),
            old(self).process_infos@.len() == PROCESS_SLOTS ==> r == Err::<(), RuntimeError>(
                RuntimeError::StorageFull) && final(self).process_infos@ == old(
                self).process_infos@,
            old(self).process_infos@.len() < PROCESS_SLOTS && process_info.feat_type
                == FeatType::Controller && has_controller(old(self).process_infos@) ==> r == Err::<
                (),
                RuntimeError,
            >(RuntimeError::AlreadyExistController) && final(self).process_infos@ == old(
                self,
            ).process_infos@,
    {
        if self.process_infos.len() >= PROCESS_SLOTS {
            return Err(RuntimeError::StorageFull);
        }
        if process_info.feat_type == FeatType::Controller && self.first_by_feat(
            FeatType::Controller,
        ).is_some() {
            return Err(RuntimeError::AlreadyExistController);
        }
        proof {
            lemma_push_keeps_one_controller(self.process_infos@, process_info);
        }
        self.process_infos.push(process_info);
        Ok(())
    }

    /// Removes the first entry of process `process_id`; later entries move one
    /// slot to the left.
    pub fn remove_process_info(&mut self, process_id: u32) -> (r: Result<(), RuntimeError>)
        requires
            old(self).wf(),
        ensures
            final(self).wf(),
            final(self).state == old(self).state,
            final(self).exec_path == old(self).exec_path,
            tracks(old(self).process_infos@, process_id) ==> r is Ok && final(self).process_infos@
                == without_first(old(self).process_infos@, process_id),
            !tracks(old(self).process_infos@, process_id) ==> r == Err::<(), RuntimeError>(
                RuntimeError::ProcessNotFound) && final(self).process_infos@ == old(
                self).process_infos@,
    {
        let mut i: usize = 0;
        while i < self.process_infos.len()
            invariant
                i <= self.process_infos@.len(),
                forall|k: int| 0 <= k < i ==> self.process_infos@[k].process_id != process_id,
                *self == *old(self),
                self.wf(),
            decreases self.process_infos@.len() - i,
        {
            if self.process_infos[i].process_id == process_id {
                let ghost before = self.process_infos@;
                proof {
                    let j = first_index_of(before, process_id);
                    assert(0 <= i < before.len() && before[i as int].process_id == process_id
                        && forall|k: int| 0 <= k < i ==> before[k].process_id != process_id);
                    assert(j == i as int) by {
                        if j < i {
                        } else if j > i {
                        }
                    }
                }
                proof {
                    lemma_remove_keeps_one_controller(before, i as int);
                }
                self.process_infos.remove(i);
                return Ok(());
            }
            i += 1;
        }
        Err(RuntimeError::ProcessNotFound)
    }

    /// Finds the entry of process `process_id`.
    pub fn find_process_info(&self, process_id: u32) -> (r: Option<&ProcessInfo>)
        ensures
            r is None <==> !tracks(self.process_infos@, process_id),
            r matches Some(p) ==> *p == self.process_infos@[first_index_of(
                self.process_infos@,
                process_id,
            )],
    {
        let mut i: usize = 0;
        while i < self.process_infos.len()
            invariant
                i <= self.process_infos@.len(),
                forall|k: int| 0 <= k < i ==> self.process_infos@[k].process_id != process_id,
            decreases self.process_infos@.len() - i,
        {
            if self.process_infos[i].process_id == process_id {
                proof {
                    let j = first_index_of(self.process_infos@, process_id);
                    assert(j == i as int) by {
                        if j < i {
                        } else if j > i {
                        }
                    }
                }
                return Some(&self.process_infos[i]);
            }
            i += 1;
        }
        None
    }

    /// Whether an agent is tracked.
    pub fn is_agent_running(&self) -> (r: bool)
        ensures
            r == has_agent(self.process_infos@),
    {
        let mut i: usize = 0;
        while i < self.process_infos.len()
            invariant
                i <= self.process_infos@.len(),
                forall|k: int|
                    0 <= k < i ==> self.process_infos@[k].feat_type != FeatType::Agent,
            decreases self.process_infos@.len() - i,
        {
            if self.process_infos[i].feat_type == FeatType::Agent {
                return true;
            }
            i += 1;
        }
        false
    }

    /// The first tracked entry of the given role.
    pub fn first_by_feat(&self, feat_type: FeatType) -> (r: Option<&ProcessInfo>)
        ensures
            r is None <==> forall|k: int|
                0 <= k < self.process_infos@.len() ==> self.process_infos@[k].feat_type
                    != feat_type,
            r matches Some(p) ==> exists|k: int|
                0 <= k < self.process_infos@.len() && *p == self.process_infos@[k] && p.feat_type
                    == feat_type && forall|m: int|
                    0 <= m < k ==> self.process_infos@[m].feat_type != feat_type,
    {
        let mut i: usize = 0;
        while i < self.process_infos.len()
            invariant
                i <= self.process_infos@.len(),
                forall|k: int| 0 <= k < i ==> self.process_infos@[k].feat_type != feat_type,
            decreases self.process_infos@.len() - i,
        {
            if self.process_infos[i].feat_type == feat_type {
                return Some(&self.process_infos[i]);
            }
            i += 1;
        }
        None
    }

    /// Whether a new supervisor may be launched: at most one is tracked.
    pub fn check_controller_slot(&self) -> (r: Result<(), RuntimeError>)
        ensures
            r is Ok <==> forall|k: int|
                0 <= k < self.process_infos@.len() ==> self.process_infos@[k].feat_type
                    != FeatType::Controller,
            r is Err ==> r == Err::<(), RuntimeError>(RuntimeError::AlreadyExistController),
    {
        match self.first_by_feat(FeatType::Controller) {
            Some(_) => Err(RuntimeError::AlreadyExistController),
            None => Ok(()),
        }
    }

    /// Signals process `process_info` to terminate, then drops its entry.
    pub fn kill_process<P: ProcessManager>(&mut self, process_manager: &P, process_info:
        &ProcessInfo) -> (r: Result<(), RuntimeError>)
        requires
            old(self).wf(),
        ensures
            final(self).wf(),
            final(self).state == old(self).state,
            r is Ok ==> final(self).process_infos@ == without_first(
                old(self).process_infos@,
                process_info.process_id,
            ),
            r matches Err(RuntimeError::ProcessNotFound) ==> final(self).process_infos@ == old(
                self).process_infos@,
    {
        match process_manager.kill_process(process_info.process_id, MiaxSignal::Terminate) {
            Ok(()) => self.remove_process_info(process_info.process_id),
            Err(e) => Err(RuntimeError::Kill(e)),
        }
    }

    /// The ids of all tracked processes, in slot order.
    pub fn tracked_pids(&self) -> (r: Vec<u32>)
        ensures
            r@ == self.process_infos@.map_values(|p: ProcessInfo| p.process_id),
    {
        let mut out: Vec<u32> = Vec::new();
        let mut i: usize = 0;
        while i < self.process_infos.len()
            invariant
                i <= self.process_infos@.len(),
                out@ == self.process_infos@.subrange(0, i as int).map_values(
                    |p: ProcessInfo| p.process_id,
                ),
            decreases self.process_infos@.len() - i,
        {
            out.push(self.process_infos[i].process_id);
            i += 1;
            assert(self.process_infos@.subrange(0, i as int).map_values(|p: ProcessInfo| p.process_id)
                =~= out@);
        }
        assert(self.process_infos@.subrange(0, i as int) == self.process_infos@);
        out
    }

    /// The ids of the agents other than `keep`, in slot order.
    pub fn other_agent_pids(&self, keep: u32) -> (r: Vec<u32>)
        ensures
            r@ == self.process_infos@.filter(|p: ProcessInfo| is_other_agent(p, keep)).map_values(
                |p: ProcessInfo| p.process_id,
            ),
    {
        let ghost pred = |p: ProcessInfo| is_other_agent(p, keep);
        let mut out: Vec<u32> = Vec::new();
        let mut i: usize = 0;
        while i < self.process_infos.len()
            invariant
                i <= self.process_infos@.len(),
                pred == (|p: ProcessInfo| is_other_agent(p, keep)),
                out@ == self.process_infos@.subrange(0, i as int).filter(pred).map_values(
                    |p: ProcessInfo| p.process_id,
                ),
            decreases self.process_infos@.len() - i,
        {
            let ghost pre = self.process_infos@.subrange(0, i as int);
            proof {
                assert(self.process_infos@.subrange(0, i + 1).drop_last() == pre);
                reveal(Seq::filter);
            }
            if self.process_infos[i].feat_type == FeatType::Agent && self.process_infos[i].process_id
                != keep {
                out.push(self.process_infos[i].process_id);
            }
            i += 1;
            assert(self.process_infos@.subrange(0, i as int).filter(pred).map_values(
                |p: ProcessInfo| p.process_id,
            ) =~= out@);
        }
        assert(self.process_infos@.subrange(0, i as int) == self.process_infos@);
        out
    }

    /// Drops every agent other than `keep`, keeping the order of the rest.
    fn drop_other_agents(&mut self, keep: u32)
        requires
            old(self).wf(),
        ensures
            final(self).wf(),
            final(self).state == old(self).state,
            final(self).exec_path == old(self).exec_path,
            final(self).process_infos@ == old(self).process_infos@.filter(
                |p: ProcessInfo| !is_other_agent(p, keep),
            ),
    {
        let ghost orig = self.process_infos@;
        let ghost pred = |p: ProcessInfo| !is_other_agent(p, keep);
        let mut i: usize = 0;
        let mut j: usize = 0;
        while i < self.process_infos.len()
            invariant
                j <= orig.len(),
                i == orig.subrange(0, j as int).filter(pred).len(),
                self.process_infos@ == orig.subrange(0, j as int).filter(pred) + orig.subrange(
                    j as int,
                    orig.len() as int,
                ),
                orig == old(self).process_infos@,
                self.state == old(self).state,
                self.exec_path == old(self).exec_path,
                old(self).wf(),
                self.wf(),
                pred == (|p: ProcessInfo| !is_other_agent(p, keep)),
            decreases orig.len() - j,
        {
            let ghost pre = orig.subrange(0, j as int);
            proof {
                orig.subrange(0, j as int).lemma_filter_len(pred);
                assert(self.process_infos@[i as int] == orig[j as int]);
                assert(orig.subrange(0, j + 1).drop_last() == pre);
                reveal(Seq::filter);
            }
            if self.process_infos[i].feat_type == FeatType::Agent && self.process_infos[i].process_id
                != keep {
                proof {
                    lemma_remove_keeps_one_controller(self.process_infos@, i as int);
                }
                self.process_infos.remove(i);
                assert(self.process_infos@ == orig.subrange(0, j + 1).filter(pred)
                    + orig.subrange(j + 1, orig.len() as int));
            } else {
                assert(self.process_infos@ == orig.subrange(0, j + 1).filter(pred)
                    + orig.subrange(j + 1, orig.len() as int));
                i += 1;
            }
            j += 1;
        }
        proof {
            orig.subrange(0, j as int).lemma_filter_len(pred);
            assert(orig.subrange(0, j as int) == orig);
            orig.lemma_filter_len(pred);
        }
    }

    /// Signals every agent other than `keep` to terminate, in slot order, and
    /// then drops their entries. The first failed signal stops it and leaves
    /// the table as it was.
    pub fn kill_other_agents<P: ProcessManager>(&mut self, process_manager: &P, keep: u32) -> (r:
        Result<(), RuntimeError>)
        requires
            old(self).wf(),
        ensures
            final(self).wf(),
            final(self).state == old(self).state,
            final(self).exec_path == old(self).exec_path,
            r is Ok ==> final(self).process_infos@ == old(self).process_infos@.filter(
                |p: ProcessInfo| !is_other_agent(p, keep),
            ),
            r is Err ==> (r matches Err(RuntimeError::Kill(_)) && final(self).process_infos@ == old(
                self,
            ).process_infos@),
            (forall|k: int|
                0 <= k < old(self).process_infos@.len() ==> !is_other_agent(
                    #[trigger] old(self).process_infos@[k],
                    keep,
                )) ==> (r is Ok && final(self).process_infos@ == old(self).process_infos@),
    {
        let pids = self.other_agent_pids(keep);
        proof {
            if forall|k: int|
                0 <= k < self.process_infos@.len() ==> !is_other_agent(
                    #[trigger] self.process_infos@[k],
                    keep,
                ) {
                lemma_filter_none(self.process_infos@, keep);
                lemma_filter_all(self.process_infos@, keep);
            }
        }
        let mut i: usize = 0;
        while i < pids.len()
            invariant
                i <= pids@.len(),
                *self == *old(self),
                old(self).wf(),
                pids@ == old(self).process_infos@.filter(|p: ProcessInfo| is_other_agent(p, keep)).map_values(
                    |p: ProcessInfo| p.process_id,
                ),
                (forall|k: int|
                    0 <= k < old(self).process_infos@.len() ==> !is_other_agent(
                        #[trigger] old(self).process_infos@[k],
                        keep,
                    )) ==> pids@.len() == 0,
            decreases pids@.len() - i,
        {
            if let Err(e) = process_manager.kill_process(pids[i], MiaxSignal::Terminate) {
                return Err(RuntimeError::Kill(e));
            }
            i += 1;
        }
        self.drop_other_agents(keep);
        Ok(())
    }

    /// Signals every tracked process to terminate, empties the table and
    /// returns to idle; fails listing the signals that could not be sent.
    pub fn cleanup_all<P: ProcessManager>(&mut self, process_manager: &P) -> (r: Result<
        (),
        RuntimeError,
    >)
        requires
            old(self).wf(),
        ensures
            final(self).wf(),
            final(self).process_infos@.len() == 0,
            final(self).state == State::Idle,
            final(self).exec_path == old(self).exec_path,
            r matches Err(e) ==> e matches RuntimeError::Kills(errs) && errs@.len() > 0,
            old(self).process_infos@.len() == 0 ==> r is Ok,
    {
        let pids = self.tracked_pids();
        let mut errs: Vec<ProcessError> = Vec::new();
        let mut i: usize = 0;
        while i < pids.len()
            invariant
                i <= pids@.len(),
                errs@.len() <= i,
            decreases pids@.len() - i,
        {
            if let Err(e) = process_manager.kill_process(pids[i], MiaxSignal::Terminate) {
                errs.push(e);
            }
            i += 1;
        }
        self.process_infos = Vec::new();
        self.state = State::Idle;
        if errs.len() == 0 {
            Ok(())
        } else {
            Err(RuntimeError::Kills(errs))
        }
    }
}

proof fn lemma_filter_none(s: Seq<ProcessInfo>, keep: u32)
    requires
        forall|k: int| 0 <= k < s.len() ==> !is_other_agent(#[trigger] s[k], keep),
    ensures
        s.filter(|p: ProcessInfo| is_other_agent(p, keep)).len() == 0,
    decreases s.len(),
{
    reveal(Seq::filter);
    if s.len() > 0 {
        lemma_filter_none(s.drop_last(), keep);
    }
}

proof fn lemma_filter_all(s: Seq<ProcessInfo>, keep: u32)
    requires
        forall|k: int| 0 <= k < s.len() ==> !is_other_agent(#[trigger] s[k], keep),
    ensures
        s.filter(|p: ProcessInfo| !is_other_agent(p, keep)) == s,
    decreases s.len(),
{
    reveal(Seq::filter);
    if s.len() > 0 {
        lemma_filter_all(s.drop_last(), keep);
        assert(s.drop_last().push(s.last()) == s);
    }
}

/// Adding a process that is not yet tracked and then removing it by its id
/// leaves the table as it was.
pub proof fn lemma_add_then_remove(entries: Seq<ProcessInfo>, p: ProcessInfo)
    requires
        entries.len() < PROCESS_SLOTS,
        !tracks(entries, p.process_id),
    ensures
        tracks(entries.push(p), p.process_id),
        without_first(entries.push(p), p.process_id) == entries,
{
    let e = entries.push(p);
    let n = entries.len() as int;
    assert(e[n].process_id == p.process_id);
    let j = first_index_of(e, p.process_id);
    assert(j == n) by {
        if j < n {
            assert(entries[j].process_id == p.process_id);
        }
    }
    assert(e.remove(n) == entries);
}

/// The slot layout of any table is compacted: used slots first, then empty
/// ones, and the used slots hold the entries in order.
pub proof fn lemma_slots_compacted(entries: Seq<ProcessInfo>)
    requires
        entries.len() <= PROCESS_SLOTS,
    ensures
        is_compacted(slots_of(entries)),
        forall|i: int| 0 <= i < entries.len() ==> slots_of(entries)[i] == Some(entries[i]),
        forall|i: int| entries.len() <= i < PROCESS_SLOTS ==> slots_of(entries)[i] is None,
{
}

/// Removing a process keeps the table compacted: the entries after it move one
/// slot to the left and an empty slot appears at the end.
pub proof fn lemma_remove_shifts_left(entries: Seq<ProcessInfo>, pid: u32)
    requires
        entries.len() <= PROCESS_SLOTS,
        tracks(entries, pid),
    ensures
        ({
            let j = first_index_of(entries, pid);
            let after = slots_of(without_first(entries, pid));
            &&& is_compacted(after)
            &&& forall|i: int| 0 <= i < j ==> after[i] == slots_of(entries)[i]
            &&& forall|i: int| j <= i < PROCESS_SLOTS - 1 ==> after[i] == slots_of(entries)[i + 1]
            &&& after[PROCESS_SLOTS - 1] is None
        }),
{
    let j = first_index_of(entries, pid);
    assert(0 <= j < entries.len());
}

/// With only the kept agent tracked, killing the other agents changes nothing.
pub proof fn lemma_kill_others_lone_agent(entries: Seq<ProcessInfo>, keep: u32)
    requires
        entries.len() == 1,
        entries[0].process_id == keep,
    ensures
        entries.filter(|p: ProcessInfo| !is_other_agent(p, keep)) == entries,
{
    reveal_with_fuel(Seq::filter, 2);
    assert(entries.drop_last().len() == 0);
    assert(entries == seq![entries[0]]);
}


} // verus!
