//! Decisions of the supervisor's update procedure: which bundles apply, when
//! to stop waiting for the new agent, and which state follows a failure.
use vstd::prelude::*;
use crate::runtime::{FeatType, RuntimeError, RuntimeInfo, State, has_agent};
use crate::version::{Version, same_version, semver_cmp, semver_parts};

verus! {

/// Seconds that the new agent has to report the expected version.
pub const VERSION_CHECK_TIMEOUT_SECS: u64 = 180;

/// Seconds between two version queries.
pub const VERSION_CHECK_INTERVAL_SECS: u64 = 3;

/// Failures of resource handling (download, unpack, backup, restore).
#[derive(Debug, Clone, PartialEq, Eq)]
pub enum ResourceError {
    DownloadFailed(String),
    IoError(String),
    ZipError(String),
    TarError(String),
    RemoveFailed(String),
    RollbackFailed(String),
}

/// Failures of the update procedure.
#[derive(Debug, Clone, PartialEq, Eq)]
pub enum UpdateError {
    BundleNotFound,
    InvalidVersionFormat,
    UpdateActionFailed(String),
    YamlReadFailed(String),
    YamlParseFailed(String),
    UpdateStateFailed(RuntimeError),
    AgentVersionCheckFailed(String),
    RuntimeError(RuntimeError),
    ResourceError(ResourceError),
    AgentNotRunning,
}

impl UpdateError {
    /// Whether the state is to be changed after this failure: all but a
    /// missing agent.
    pub fn required_restore_state(&self) -> (r: bool)
        ensures
            r == !(self is AgentNotRunning),
    {
        !matches!(self, UpdateError::AgentNotRunning)
    }

    /// Whether this failure calls for a rollback: all but a failed cleanup of
    /// staged files.
    pub fn requires_rollback(&self) -> (r: bool)
        ensures
            r == !(self matches UpdateError::ResourceError(ResourceError::RemoveFailed(_))),
    {
        !matches!(self, UpdateError::ResourceError(ResourceError::RemoveFailed(_)))
    }
}

/// The state that follows a failed update: none when no agent runs (the
/// state is left as it is), idle when only the cleanup of staged files
/// failed, rollback otherwise.
pub open spec fn target_state_of(e: UpdateError) -> Option<State> {
    if e is AgentNotRunning {
        None
    } else if e matches UpdateError::ResourceError(ResourceError::RemoveFailed(_)) {
        Some(State::Idle)
    } else {
        Some(State::Rollback)
    }
}

/// The state to enter after a failed update, if any.
pub fn get_target_state(update_error: &UpdateError) -> (r: Option<State>)
    ensures
        r == target_state_of(*update_error),
{
    if !update_error.required_restore_state() {
        None
    } else if !update_error.requires_rollback() {
        Some(State::Idle)
    } else {
        Some(State::Rollback)
    }
}

/// The state to enter once the update procedure has ended.
pub fn state_after_update(outcome: &Result<(), UpdateError>) -> (r: Option<State>)
    ensures
        outcome is Ok ==> r == Some(State::Idle),
        outcome matches Err(e) ==> r == target_state_of(*e),
{
    match outcome {
        Ok(()) => Some(State::Idle),
        Err(e) => get_target_state(e),
    }
}

/// A bundle of version text `v` is pending: newer than the running agent and
/// not newer than the controller.
pub open spec fn is_pending(v: Seq<char>, controller: Version, agent: Version) -> bool {
    match semver_parts(v) {
        Some(t) => semver_cmp(agent.parts(), t) < 0 && semver_cmp(t, controller.parts()) <= 0,
        None => false,
    }
}

/// The positions of the pending bundles among `versions`, in order.
pub fn extract_pending_update_actions(
    versions: &Vec<String>,
    current_controller_version: &Version,
    current_agent_version: &Version,
) -> (r: Vec<usize>)
    ensures
        forall|k: int|
            0 <= k < r@.len() ==> r@[k] < versions@.len() && is_pending(
                versions@[r@[k] as int]@,
                *current_controller_version,
                *current_agent_version,
            ),
        forall|k: int, m: int| 0 <= k < m < r@.len() ==> r@[k] < r@[m],
        forall|i: int|
            0 <= i < versions@.len() && is_pending(
                versions@[i]@,
                *current_controller_version,
                *current_agent_version,
            ) ==> r@.contains(i as usize),
{
    let mut out: Vec<usize> = Vec::new();
    let mut i: usize = 0;
    while i < versions.len()
        invariant
            i <= versions@.len(),
            forall|k: int|
                0 <= k < out@.len() ==> out@[k] < i && is_pending(
                    versions@[out@[k] as int]@,
                    *current_controller_version,
                    *current_agent_version,
                ),
            forall|k: int, m: int| 0 <= k < m < out@.len() ==> out@[k] < out@[m],
            forall|j: int|
                0 <= j < i && is_pending(
                    versions@[j]@,
                    *current_controller_version,
                    *current_agent_version,
                ) ==> out@.contains(j as usize),
        decreases versions@.len() - i,
    {
        if let Some(target) = Version::parse(versions[i].as_str()) {
            if current_agent_version.lt(&target) && target.le(current_controller_version) {
                let ghost prev = out@;
                out.push(i);
                assert(out@[out@.len() - 1] == i);
                assert forall|x: usize| prev.contains(x) implies out@.contains(x) by {
                    let w = choose|w: int| 0 <= w < prev.len() && prev[w] == x;
                    assert(out@[w] == x);
                }
            }
        }
        i += 1;
    }
    out
}

/// What the version monitor does next.
#[derive(Debug, Clone, Copy, PartialEq, Eq, Structural)]
pub enum PollAction {
    /// The expected version was reported.
    Finish,
    /// Wait one interval and query again.
    Poll,
    /// The time budget is spent.
    TimedOut,
}

/// The monitor's next step, `elapsed_secs` after it started, with the last
/// version reported (none before the first query).
pub open spec fn poll_step(elapsed_secs: u64, last: Option<Version>, expected: Version) -> PollAction {
    if last matches Some(v) && same_version(v, expected) {
        PollAction::Finish
    } else if elapsed_secs < VERSION_CHECK_TIMEOUT_SECS {
        PollAction::Poll
    } else {
        PollAction::TimedOut
    }
}

/// Decides the monitor's next step.
pub fn monitor_agent_version_step(elapsed_secs: u64, last: &Option<Version>, expected: &Version) -> (r:
    PollAction)
    ensures
        r == poll_step(elapsed_secs, *last, *expected),
{
    let finished = match last {
        Some(v) => v.same(expected),
        None => false,
    };
    if finished {
        PollAction::Finish
    } else if elapsed_secs < VERSION_CHECK_TIMEOUT_SECS {
        PollAction::Poll
    } else {
        PollAction::TimedOut
    }
}

/// When the agent never reports the expected version, the monitor keeps
/// polling before 180 s and gives up from 180 s on.
pub proof fn lemma_poll_times_out_at_limit(elapsed_secs: u64, last: Option<Version>, expected: Version)
    requires
        !(last matches Some(v) && same_version(v, expected)),
    ensures
        poll_step(elapsed_secs, last, expected) == PollAction::TimedOut <==> elapsed_secs >= 180,
        poll_step(elapsed_secs, last, expected) == PollAction::Poll <==> elapsed_secs < 180,
{
}

/// Whether the idle state has to launch an agent: none is tracked.
pub fn idle_requires_launch(info: &RuntimeInfo) -> (r: bool)
    ensures
        r == !has_agent(info.process_infos@),
{
    !info.is_agent_running()
}

/// Checks that an update can start: the controller's own version text parses
/// and an agent runs. Returns the controller version and that of the first
/// running agent.
pub fn update_preflight(controller_version: &str, info: &RuntimeInfo) -> (r: Result<
    (Version, Version),
    UpdateError,
>)
    ensures
        semver_parts(controller_version@) is None ==> r == Err::<(Version, Version), UpdateError>(
            UpdateError::InvalidVersionFormat),
        semver_parts(controller_version@) is Some && !has_agent(info.process_infos@) ==> r == Err::<
            (Version, Version),
            UpdateError,
        >(UpdateError::AgentNotRunning),
        r matches Ok((c, a)) ==> (Some(c.parts()) == semver_parts(controller_version@) && exists|k: int|
            0 <= k < info.process_infos@.len() && info.process_infos@[k].feat_type
                == FeatType::Agent && info.process_infos@[k].version.parts() == a.parts() && forall|m: int|
                0 <= m < k ==> info.process_infos@[m].feat_type != FeatType::Agent),
        semver_parts(controller_version@) is Some && has_agent(info.process_infos@) ==> r is Ok,
{
    let current = match Version::parse(controller_version) {
        Some(v) => v,
        None => return Err(UpdateError::InvalidVersionFormat),
    };
    match info.first_by_feat(FeatType::Agent) {
        Some(agent) => Ok((current, agent.version.duplicate())),
        None => Err(UpdateError::AgentNotRunning),
    }
}

/// What launching an agent involves besides starting it.
#[derive(Debug, Clone, Copy, PartialEq, Eq, Structural)]
pub struct LaunchPlan {
    /// Remove a stale agent socket before starting.
    pub remove_socket: bool,
    /// Remove a stale meta socket before starting.
    pub remove_meta_socket: bool,
    /// Take the listening descriptor that systemd passed.
    pub take_systemd_fd: bool,
    /// Wait for the agent's meta socket and hand the listener over.
    pub hand_over_listener: bool,
}

/// The plan for launching an agent: a first launch clears stale sockets
/// (the agent socket only when systemd does not own it) and hands the
/// listener over, taking it from systemd when the supervisor runs under
/// systemd with socket activation; later launches only start the agent.
pub fn launch_plan(
    is_first: bool,
    managed_by_systemd: bool,
    socket_activation: bool,
    socket_exists: bool,
    meta_socket_exists: bool,
) -> (r: LaunchPlan)
    ensures
        r.remove_socket == (is_first && !socket_activation && socket_exists),
        r.remove_meta_socket == (is_first && meta_socket_exists),
        r.take_systemd_fd == (is_first && managed_by_systemd && socket_activation),
        r.hand_over_listener == is_first,
{
    LaunchPlan {
        remove_socket: is_first && !socket_activation && socket_exists,
        remove_meta_socket: is_first && meta_socket_exists,
        take_systemd_fd: is_first && managed_by_systemd && socket_activation,
        hand_over_listener: is_first,
    }
}

} // verus!
