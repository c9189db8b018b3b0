use ipc_bench::process::{fork_outcome, ForkOutcome, Kill, Pid, SignalRequest, Wait, WaitRequest};

#[test]
fn fork_failure_is_reported() {
    assert_eq!(fork_outcome(-1), ForkOutcome::Failed);
}

#[test]
fn fork_child_runs_then_exits_with_zero() {
    assert_eq!(fork_outcome(0), ForkOutcome::Child { exit_code: 0 });
}

#[test]
fn fork_parent_gets_child_pid() {
    assert_eq!(fork_outcome(1234), ForkOutcome::Parent { child: 1234 });
    assert_eq!(fork_outcome(1), ForkOutcome::Parent { child: 1 });
    assert_eq!(fork_outcome(i32::MAX), ForkOutcome::Parent { child: i32::MAX });
}

#[test]
fn fork_other_negative_values_go_to_parent() {
    assert_eq!(fork_outcome(-2), ForkOutcome::Parent { child: -2 });
    assert_eq!(fork_outcome(i32::MIN), ForkOutcome::Parent { child: i32::MIN });
}

#[test]
fn wait_blocks_on_the_given_pid_without_status() {
    let pid: Pid = 4321;
    assert_eq!(
        pid.wait(),
        WaitRequest { pid: 4321, options: 0, collect_status: false }
    );
}

#[test]
fn kill_sends_hangup_to_the_given_pid() {
    let pid: Pid = 4321;
    let request = pid.kill();
    assert_eq!(request, SignalRequest { pid: 4321, signal: 1 });
    assert_eq!(request.signal, libc::SIGHUP);
}

#[test]
fn parent_addresses_the_child_it_forked() {
    match fork_outcome(777) {
        ForkOutcome::Parent { child } => {
            assert_eq!(child.wait().pid, 777);
            assert_eq!(child.kill().pid, 777);
        }
        other => panic!("unexpected outcome {:?}", other),
    }
}
