use std::sync::{Arc, Mutex};
use vstd::prelude::*;

use crate::error::ProcessError;
use crate::policy::{StdioPolicy, StdioSelection};
use crate::status::LuaExitStatus;

verus! {

#[verifier::external_type_specification]
#[verifier::external_body]
#[verifier::reject_recursive_types(T)]
pub struct ExMutex<T: ?Sized>(std::sync::Mutex<T>);

/// Relies on Mutex::new: it wraps the value for exclusive access.
pub assume_specification<T>[ std::sync::Mutex::<T>::new ](t: T) -> std::sync::Mutex<T>;

/// Relies on Arc::clone: the new pointer shares the allocation of the old one.
#[verifier::external_body]
fn share<T>(a: &Arc<T>) -> (r: Arc<T>)
    ensures
        r == *a,
{
    Arc::clone(a)
}

fn share_slot<T>(slot: &Option<Arc<Mutex<T>>>) -> (r: Option<Arc<Mutex<T>>>)
    ensures
        r == *slot,
{
    match slot {
        Some(a) => Some(share(a)),
        None => None,
    }
}

/// The piped standard streams of a child. Each present stream is shared by
/// reference counting and guarded by its own lock, so clones of a bundle
/// reach the same pipes and one caller's read or write is never interleaved
/// with another's.
#[verifier::reject_recursive_types(I)]
#[verifier::reject_recursive_types(O)]
#[verifier::reject_recursive_types(E)]
pub struct StdioBundle<I, O, E> {
    pub stdin: Option<Arc<Mutex<I>>>,
    pub stdout: Option<Arc<Mutex<O>>>,
    pub stderr: Option<Arc<Mutex<E>>>,
}

impl<I, O, E> StdioBundle<I, O, E> {
    /// Another handle on the same streams; no pipe is duplicated.
    pub fn share(&self) -> (r: Self)
        ensures
            r.stdin == self.stdin,
            r.stdout == self.stdout,
            r.stderr == self.stderr,
    {
        StdioBundle {
            stdin: share_slot(&self.stdin),
            stdout: share_slot(&self.stdout),
            stderr: share_slot(&self.stderr),
        }
    }

    pub fn stdin(&self) -> (r: Result<Arc<Mutex<I>>, ProcessError>)
        ensures
            match self.stdin {
                Some(a) => r == Ok::<Arc<Mutex<I>>, ProcessError>(a),
                None => r == Err::<Arc<Mutex<I>>, ProcessError>(ProcessError::StreamUnavailable),
            },
    {
        match &self.stdin {
            Some(a) => Ok(share(a)),
            None => Err(ProcessError::StreamUnavailable),
        }
    }

    pub fn stdout(&self) -> (r: Result<Arc<Mutex<O>>, ProcessError>)
        ensures
            match self.stdout {
                Some(a) => r == Ok::<Arc<Mutex<O>>, ProcessError>(a),
                None => r == Err::<Arc<Mutex<O>>, ProcessError>(ProcessError::StreamUnavailable),
            },
    {
        match &self.stdout {
            Some(a) => Ok(share(a)),
            None => Err(ProcessError::StreamUnavailable),
        }
    }

    pub fn stderr(&self) -> (r: Result<Arc<Mutex<E>>, ProcessError>)
        ensures
            match self.stderr {
                Some(a) => r == Ok::<Arc<Mutex<E>>, ProcessError>(a),
                None => r == Err::<Arc<Mutex<E>>, ProcessError>(ProcessError::StreamUnavailable),
            },
    {
        match &self.stderr {
            Some(a) => Ok(share(a)),
            None => Err(ProcessError::StreamUnavailable),
        }
    }
}

/// Where a child stands in its life, as far as its handle has seen.
#[derive(Clone, Copy, Debug, PartialEq, Eq, Structural)]
pub enum Lifecycle {
    Running,
    /// A termination request was accepted.
    Killed,
    /// The child was waited on and ended so.
    Exited(LuaExitStatus),
}

/// A termination request is sent only to a child still running: one that
/// was killed or waited on has exited.
pub open spec fn kill_allowed(s: Lifecycle) -> bool {
    s is Running
}

pub open spec fn state_after_kill(s: Lifecycle, accepted: bool) -> Lifecycle {
    if kill_allowed(s) && accepted {
        Lifecycle::Killed
    } else {
        s
    }
}

/// The first exit status seen is kept: once a child has exited, later waits
/// return the same status.
pub open spec fn status_after_wait(s: Lifecycle, reported: LuaExitStatus) -> LuaExitStatus {
    match s {
        Lifecycle::Exited(x) => x,
        _ => reported,
    }
}

pub open spec fn state_after_wait(s: Lifecycle, reported: LuaExitStatus) -> Lifecycle {
    Lifecycle::Exited(status_after_wait(s, reported))
}

/// What the operating system handed back from a successful spawn: the
/// process id and whichever pipe ends it opened.
pub struct SpawnedProcess<I, O, E> {
    pub pid: u32,
    pub stdin: Option<I>,
    pub stdout: Option<O>,
    pub stderr: Option<E>,
}

/// Some stream was selected as piped but came back without a pipe.
pub open spec fn pipes_missing<I, O, E>(stdio: StdioSelection, p: SpawnedProcess<I, O, E>) -> bool {
    (stdio.stdin == StdioPolicy::Piped && p.stdin is None) || (stdio.stdout == StdioPolicy::Piped
        && p.stdout is None) || (stdio.stderr == StdioPolicy::Piped && p.stderr is None)
}

/// A bundle holds a stream exactly when its policy pipes it.
pub open spec fn slots_match<I, O, E>(stdio: StdioSelection, b: StdioBundle<I, O, E>) -> bool {
    &&& (b.stdin is Some <==> stdio.stdin == StdioPolicy::Piped)
    &&& (b.stdout is Some <==> stdio.stdout == StdioPolicy::Piped)
    &&& (b.stderr is Some <==> stdio.stderr == StdioPolicy::Piped)
}

fn wrap_slot<T>(policy: StdioPolicy, end: Option<T>) -> (r: Result<
    Option<Arc<Mutex<T>>>,
    ProcessError,
>)
    ensures
        r is Err <==> (policy == StdioPolicy::Piped && end is None),
        r is Err ==> r == Err::<Option<Arc<Mutex<T>>>, ProcessError>(ProcessError::InternalError),
        r matches Ok(slot) ==> (slot is Some <==> policy == StdioPolicy::Piped),
{
    if policy.is_piped() {
        match end {
            Some(e) => Ok(Some(Arc::new(Mutex::new(e)))),
            None => Err(ProcessError::InternalError),
        }
    } else {
        Ok(None)
    }
}

/// The handle of one spawned child. It alone holds the authority to wait on
/// and kill that child, and it holds the child's piped streams.
#[verifier::reject_recursive_types(I)]
#[verifier::reject_recursive_types(O)]
#[verifier::reject_recursive_types(E)]
pub struct LuaChild<I, O, E> {
    pid: u32,
    state: Lifecycle,
    policies: StdioSelection,
    stdio: StdioBundle<I, O, E>,
}

impl<I, O, E> LuaChild<I, O, E> {
    pub closed spec fn spec_pid(&self) -> u32 {
        self.pid
    }

    pub closed spec fn spec_state(&self) -> Lifecycle {
        self.state
    }

    pub closed spec fn spec_policies(&self) -> StdioSelection {
        self.policies
    }

    pub closed spec fn spec_stdio(&self) -> StdioBundle<I, O, E> {
        self.stdio
    }

    pub open spec fn wf(&self) -> bool {
        slots_match(self.spec_policies(), self.spec_stdio())
    }

    /// The handle for what a spawn with the given stream policies produced.
    /// A refused spawn gives `SpawnFailed` with the system's message; a
    /// piped stream without its pipe gives `InternalError`, and no handle.
    pub fn from_spawn(stdio: StdioSelection, spawned: Result<SpawnedProcess<I, O, E>, String>) -> (r:
        Result<Self, ProcessError>)
        ensures
            match spawned {
                Err(m) => r == Err::<Self, ProcessError>((ProcessError::SpawnFailed { detail: m })),
                Ok(p) => if pipes_missing(stdio, p) {
                    r == Err::<Self, ProcessError>(ProcessError::InternalError)
                } else {
                    &&& r is Ok
                    &&& r->Ok_0.wf()
                    &&& r->Ok_0.spec_pid() == p.pid
                    &&& r->Ok_0.spec_state() == Lifecycle::Running
                    &&& r->Ok_0.spec_policies() == stdio
                },
            },
    {
        match spawned {
            Err(m) => Err(ProcessError::SpawnFailed { detail: m }),
            Ok(p) => {
                let stdin = match wrap_slot(stdio.stdin, p.stdin) {
                    Ok(s) => s,
                    Err(e) => return Err(e),
                };
                let stdout = match wrap_slot(stdio.stdout, p.stdout) {
                    Ok(s) => s,
                    Err(e) => return Err(e),
                };
                let stderr = match wrap_slot(stdio.stderr, p.stderr) {
                    Ok(s) => s,
                    Err(e) => return Err(e),
                };
                Ok(LuaChild {
                    pid: p.pid,
                    state: Lifecycle::Running,
                    policies: stdio,
                    stdio: StdioBundle { stdin, stdout, stderr },
                })
            },
        }
    }

    pub fn id(&self) -> (r: u32)
        ensures
            r == self.spec_pid(),
    {
        self.pid
    }

    pub fn state(&self) -> (r: Lifecycle)
        ensures
            r == self.spec_state(),
    {
        self.state
    }

    /// Shared access to the child's piped streams.
    pub fn stdio(&self) -> (r: StdioBundle<I, O, E>)
        ensures
            r.stdin == self.spec_stdio().stdin,
            r.stdout == self.spec_stdio().stdout,
            r.stderr == self.spec_stdio().stderr,
    {
        self.stdio.share()
    }

    /// The exit status, when the child is already known to have exited; a
    /// wait then returns at once.
    pub fn known_status(&self) -> (r: Option<LuaExitStatus>)
        ensures
            match self.spec_state() {
                Lifecycle::Exited(s) => r == Some(s),
                _ => r is None,
            },
    {
        match self.state {
            Lifecycle::Exited(s) => Some(s),
            _ => None,
        }
    }

    /// Takes note of the status a wait reported, and returns the child's
    /// terminal status.
    pub fn record_exit(&mut self, reported: LuaExitStatus) -> (r: LuaExitStatus)
        ensures
            r == status_after_wait(old(self).spec_state(), reported),
            final(self).spec_state() == state_after_wait(old(self).spec_state(), reported),
            final(self).spec_pid() == old(self).spec_pid(),
            final(self).spec_policies() == old(self).spec_policies(),
            final(self).spec_stdio() == old(self).spec_stdio(),
    {
        let status = match self.state {
            Lifecycle::Exited(s) => s,
            _ => reported,
        };
        self.state = Lifecycle::Exited(status);
        status
    }

    /// Whether a termination request may go to the system: `KillFailed`
    /// once the child has exited.
    pub fn check_kill(&self) -> (r: Result<(), ProcessError>)
        ensures
            r is Ok <==> kill_allowed(self.spec_state()),
            r matches Err(e) ==> e is KillFailed,
    {
        match self.state {
            Lifecycle::Running => Ok(()),
            _ => Err(ProcessError::KillFailed { detail: "process has already exited".to_owned() }),
        }
    }

    /// Takes note of what the system answered to a termination request. The
    /// answer counts only while the child runs: otherwise the request is
    /// refused as `check_kill` refuses it.
    pub fn record_kill(&mut self, outcome: Result<(), String>) -> (r: Result<(), ProcessError>)
        ensures
            r is Ok <==> (kill_allowed(old(self).spec_state()) && outcome is Ok),
            r matches Err(e) ==> e is KillFailed,
            (kill_allowed(old(self).spec_state()) && outcome is Err) ==> r == Err::<
                (),
                ProcessError,
            >((ProcessError::KillFailed { detail: outcome->Err_0 })),
            final(self).spec_state() == state_after_kill(old(self).spec_state(), outcome is Ok),
            final(self).spec_pid() == old(self).spec_pid(),
            final(self).spec_policies() == old(self).spec_policies(),
            final(self).spec_stdio() == old(self).spec_stdio(),
    {
        match self.check_kill() {
            Err(e) => Err(e),
            Ok(()) => match outcome {
                Ok(()) => {
                    self.state = Lifecycle::Killed;
                    Ok(())
                },
                Err(m) => Err(ProcessError::KillFailed { detail: m }),
            },
        }
    }
}

/// Once a termination request has been accepted, a second one is refused.
pub proof fn lemma_second_kill_refused(s: Lifecycle)
    requires
        kill_allowed(s),
    ensures
        !kill_allowed(state_after_kill(s, true)),
{
}

/// Once a child has been waited on, no termination request is sent to it.
pub proof fn lemma_no_kill_after_wait(s: Lifecycle, reported: LuaExitStatus)
    ensures
        !kill_allowed(state_after_wait(s, reported)),
{
}

/// Waiting again returns the status the first wait returned, whatever the
/// system reports the second time.
pub proof fn lemma_wait_idempotent(s: Lifecycle, first: LuaExitStatus, second: LuaExitStatus)
    ensures
        status_after_wait(state_after_wait(s, first), second) == status_after_wait(s, first),
        state_after_wait(state_after_wait(s, first), second) == state_after_wait(s, first),
{
}

/// A well-formed handle holds no stream its policy did not pipe, so asking
/// for such a stream fails with `StreamUnavailable`.
pub proof fn lemma_unpiped_streams_absent<I, O, E>(c: LuaChild<I, O, E>)
    requires
        c.wf(),
    ensures
        c.spec_policies().stdin != StdioPolicy::Piped ==> c.spec_stdio().stdin is None,
        c.spec_policies().stdout != StdioPolicy::Piped ==> c.spec_stdio().stdout is None,
        c.spec_policies().stderr != StdioPolicy::Piped ==> c.spec_stdio().stderr is None,
{
}

} // verus!
