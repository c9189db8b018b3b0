use vstd::prelude::*;

verus! {

/// A process identifier, as the C library defines it.
pub type Pid = libc::pid_t;

/// What a caller of `fork` does once the system call has returned.
#[derive(PartialEq, Eq, Structural, Debug, Clone, Copy)]
pub enum ForkOutcome {
    /// The system call failed (it returned -1): the caller panics with the OS error.
    Failed,
    /// This is the new child process: run the child's work, then exit the
    /// process with `exit_code`.
    Child { exit_code: i32 },
    /// This is the parent: the value handed back is the child's identifier.
    Parent { child: Pid },
}

/// The outcome that a return value of `fork` stands for.
pub open spec fn spec_fork_outcome(ret: Pid) -> ForkOutcome {
    if ret == -1 {
        ForkOutcome::Failed
    } else if ret == 0 {
        ForkOutcome::Child { exit_code: 0 }
    } else {
        ForkOutcome::Parent { child: ret }
    }
}

/// Interprets the value returned by the `fork` system call: -1 is a failure,
/// 0 means the caller is the child, which runs its work and exits with status 0,
/// and any other value is the child's identifier, handed back to the parent.
pub fn fork_outcome(ret: Pid) -> (outcome: ForkOutcome)
    ensures
        outcome == spec_fork_outcome(ret),
{
    if ret == -1 {
        ForkOutcome::Failed
    } else if ret == 0 {
        ForkOutcome::Child { exit_code: 0 }
    } else {
        ForkOutcome::Parent { child: ret }
    }
}

/// The arguments of a `waitpid` call that a parent makes for one child.
#[derive(PartialEq, Eq, Structural, Debug, Clone, Copy)]
pub struct WaitRequest {
    /// The process waited for.
    pub pid: Pid,
    /// The option flags; 0 blocks until the process changes state.
    pub options: libc::c_int,
    /// Whether the exit status is read back (a null status pointer when not).
    pub collect_status: bool,
}

/// The arguments of a `kill` call: which process gets which signal.
#[derive(PartialEq, Eq, Structural, Debug, Clone, Copy)]
pub struct SignalRequest {
    /// The process signalled.
    pub pid: Pid,
    /// The signal number.
    pub signal: libc::c_int,
}

/// The number of the hangup signal.
pub open spec fn hangup() -> libc::c_int {
    1
}

/// The wait that `Wait::wait` asks for: block until `pid` changes state,
/// without reading its status back.
pub open spec fn spec_wait_request(pid: Pid) -> WaitRequest {
    WaitRequest { pid, options: 0, collect_status: false }
}

/// The signal that `Kill::kill` asks for: the hangup signal, sent to `pid`.
pub open spec fn spec_kill_request(pid: Pid) -> SignalRequest {
    SignalRequest { pid, signal: hangup() }
}

/// `libc::SIGHUP`, the constant the C library defines for the hangup signal.
/// The contract claims its value is 1, which is what the libc crate's source
/// defines on every target that has it.
#[verifier::external_body]
fn hangup_signal() -> (signal: libc::c_int)
    ensures
        signal == hangup(),
{
    libc::SIGHUP
}

/// Waiting for a process to finish.
pub trait Wait {
    /// The `waitpid` call that waits for this process.
    fn wait(self) -> WaitRequest;
}

/// Asking a process to stop.
pub trait Kill {
    /// The `kill` call that asks this process to stop.
    fn kill(self) -> SignalRequest;
}

impl Wait for Pid {
    /// Blocks (no option flags) until exactly this process changes state; the
    /// status is not collected.
    fn wait(self) -> (request: WaitRequest)
        ensures
            request == spec_wait_request(self),
    {
        WaitRequest { pid: self, options: 0, collect_status: false }
    }
}

impl Kill for Pid {
    /// Sends the hangup signal to exactly this process.
    fn kill(self) -> (request: SignalRequest)
        ensures
            request == spec_kill_request(self),
    {
        SignalRequest { pid: self, signal: hangup_signal() }
    }
}

/// The identifier that `fork` hands back to the parent is the value the system
/// call returned, and it is never 0 nor -1: a parent can never mistake itself
/// for the child or for a failure. Conversely every other value reaches the parent.
pub proof fn lemma_parent_gets_child_pid(ret: Pid)
    ensures
        spec_fork_outcome(ret) is Parent <==> (ret != 0 && ret != -1),
        spec_fork_outcome(ret) matches ForkOutcome::Parent { child } ==> child == ret
            && child != 0 && child != -1,
        spec_fork_outcome(ret) is Failed <==> ret == -1,
        spec_fork_outcome(ret) is Child <==> ret == 0,
        spec_fork_outcome(ret) matches ForkOutcome::Child { exit_code } ==> exit_code == 0,
{
}

/// A parent that waits for, or stops, the child that `fork` handed it addresses
/// the very process that the system call created: the wait blocks on that
/// identifier without collecting a status, and the stop request sends it the
/// hangup signal.
pub proof fn lemma_parent_addresses_its_child(ret: Pid)
    requires
        spec_fork_outcome(ret) is Parent,
    ensures
        ({
            let child = spec_fork_outcome(ret)->child;
            &&& spec_wait_request(child).pid == ret
            &&& spec_wait_request(child).options == 0
            &&& !spec_wait_request(child).collect_status
            &&& spec_kill_request(child).pid == ret
            &&& spec_kill_request(child).signal == hangup()
        }),
{
}

} // verus!
