//! Process actions: signal-name mapping, the error taxonomy, the
//! system-process safety guard, and dispatch against a process manager.

use vstd::prelude::*;
use vstd::string::*;
use crate::search;

verus! {

/// The signal actually delivered for a kill request.
#[derive(Clone, Copy, Debug, PartialEq, Eq, Structural)]
pub enum SignalKind {
    Terminate,
    ForceKill,
    Interrupt,
}

/// Why a process action failed. `SystemProcess` is the safety rejection
/// raised before the provider is reached; the others report provider
/// outcomes.
#[derive(Clone, Copy, Debug, PartialEq, Eq, Structural)]
pub enum ActionError {
    SystemProcess,
    NotFound,
    PermissionDenied,
    Unsupported,
    Failed,
}

/// The human-readable description of an action error.
pub open spec fn error_message_spec(e: ActionError) -> Seq<char> {
    match e {
        ActionError::SystemProcess => "refusing to act on a system process"@,
        ActionError::NotFound => "process not found"@,
        ActionError::PermissionDenied => "permission denied"@,
        ActionError::Unsupported => "not supported on this platform"@,
        ActionError::Failed => "the operation failed"@,
    }
}

impl ActionError {
    /// Renders the error as a short human-readable message.
    pub fn message(&self) -> (r: String)
        ensures
            r@ == error_message_spec(*self),
    {
        match self {
            ActionError::SystemProcess => String::from_str("refusing to act on a system process"),
            ActionError::NotFound => String::from_str("process not found"),
            ActionError::PermissionDenied => String::from_str("permission denied"),
            ActionError::Unsupported => String::from_str("not supported on this platform"),
            ActionError::Failed => String::from_str("the operation failed"),
        }
    }
}

/// The signal chosen for a request name, compared ASCII
/// case-insensitively: `SIGTERM`/`TERM` terminate, `SIGKILL`/`KILL`
/// kill forcibly, `SIGINT`/`INT` interrupt, and anything else falls
/// back to the safe default of terminating.
pub open spec fn signal_spec(name: Seq<char>) -> SignalKind {
    if search::seq_ieq(name, "SIGTERM"@) || search::seq_ieq(name, "TERM"@) {
        SignalKind::Terminate
    } else if search::seq_ieq(name, "SIGKILL"@) || search::seq_ieq(name, "KILL"@) {
        SignalKind::ForceKill
    } else if search::seq_ieq(name, "SIGINT"@) || search::seq_ieq(name, "INT"@) {
        SignalKind::Interrupt
    } else {
        SignalKind::Terminate
    }
}

/// Maps a signal name to the signal delivered, case-insensitively;
/// unrecognized names fall back to terminate.
pub fn map_signal(name: &str) -> (r: SignalKind)
    ensures
        r == signal_spec(name@),
{
    if search::eq_ignore_case(name, "SIGTERM") || search::eq_ignore_case(name, "TERM") {
        SignalKind::Terminate
    } else if search::eq_ignore_case(name, "SIGKILL") || search::eq_ignore_case(name, "KILL") {
        SignalKind::ForceKill
    } else if search::eq_ignore_case(name, "SIGINT") || search::eq_ignore_case(name, "INT") {
        SignalKind::Interrupt
    } else {
        SignalKind::Terminate
    }
}

/// The capability through which destructive process actions reach the
/// operating system. The dashboard holds exactly one implementation at a
/// time; a deterministic fake serves the state-machine tests. No
/// contract is assumed of an implementation: callers state what holds
/// whatever an implementation returns.
pub trait ProcessManager {
    /// Delivers the signal named `signal` to process `pid`.
    fn kill_process(&self, pid: u32, signal: &str) -> Result<(), ActionError>;

    /// Pauses process `pid`.
    fn suspend_process(&self, pid: u32) -> Result<(), ActionError>;

    /// Resumes a previously suspended process `pid`.
    fn resume_process(&self, pid: u32) -> Result<(), ActionError>;
}

/// Whether a kill request passes the safety guard: a target with
/// `pid <= 1` is refused unless the override flag is set.
pub open spec fn kill_allowed(pid: u32, force: bool) -> bool {
    pid > 1 || force
}

/// The safety guard on kill requests, checked before the provider is
/// reached: rejects a system process (`pid <= 1`) without the override.
pub fn guard_kill(pid: u32, force: bool) -> (r: Result<(), ActionError>)
    ensures
        r is Ok <==> kill_allowed(pid, force),
        !kill_allowed(pid, force) ==> r == Result::<(), ActionError>::Err(
            ActionError::SystemProcess,
        ),
{
    if pid <= 1 && !force {
        Err(ActionError::SystemProcess)
    } else {
        Ok(())
    }
}

/// Dispatches a kill request: the safety guard runs first, and only a
/// request it allows reaches the provider. What the provider returns is
/// passed through unchanged.
pub fn dispatch_kill<M: ProcessManager>(mgr: &M, pid: u32, signal: &str, force: bool) -> (r:
    Result<(), ActionError>)
    ensures
        !kill_allowed(pid, force) ==> r == Result::<(), ActionError>::Err(
            ActionError::SystemProcess,
        ),
{
    match guard_kill(pid, force) {
        Err(e) => Err(e),
        Ok(_) => mgr.kill_process(pid, signal),
    }
}

} // verus!
