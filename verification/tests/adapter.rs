use command_group::adapter::{
    poll_answer, probe_of, probe_of_port, AdapterAction, AdapterPhase, Probe, WaitAdapter,
    MAX_RETRY_ATTEMPT,
};
use command_group::child::windows::PortStep;
use command_group::error::GroupError;
use command_group::reaper::ReapStep;
use command_group::status::ExitStatus;

#[test]
fn retry_limit() {
    assert_eq!(MAX_RETRY_ATTEMPT, 10);
}

#[test]
fn first_step_is_a_poll() {
    let adapter = WaitAdapter::new();
    assert_eq!(adapter.phase(), AdapterPhase::Polling { polls: 0 });
    assert_eq!(adapter.pending(), AdapterAction::Poll);
}

#[test]
fn fast_exit_needs_no_worker() {
    let mut adapter = WaitAdapter::new();
    adapter.advance(Probe::Emptied);
    assert_eq!(adapter.pending(), AdapterAction::Finish);
    let mut adapter = WaitAdapter::new();
    adapter.advance(Probe::Pending);
    adapter.advance(Probe::Pending);
    assert_eq!(adapter.phase(), AdapterPhase::Polling { polls: 2 });
    adapter.advance(Probe::Emptied);
    assert_eq!(adapter.pending(), AdapterAction::Finish);
}

#[test]
fn tenth_running_poll_offloads() {
    let mut adapter = WaitAdapter::new();
    for polls in 1..10 {
        adapter.advance(Probe::Pending);
        assert_eq!(adapter.phase(), AdapterPhase::Polling { polls });
        assert_eq!(adapter.pending(), AdapterAction::Poll);
    }
    adapter.advance(Probe::Pending);
    assert_eq!(adapter.phase(), AdapterPhase::Offloaded);
    assert_eq!(adapter.pending(), AdapterAction::Offload);
    adapter.advance(Probe::Emptied);
    assert_eq!(adapter.pending(), AdapterAction::Finish);
}

#[test]
fn offloaded_reap_must_not_come_back_empty_handed() {
    let mut adapter = WaitAdapter::new();
    for _ in 0..10 {
        adapter.advance(Probe::Pending);
    }
    adapter.advance(Probe::Pending);
    assert_eq!(adapter.pending(), AdapterAction::Fail { error: GroupError::Internal });
}

#[test]
fn failure_ends_the_wait() {
    let mut adapter = WaitAdapter::new();
    adapter.advance(Probe::Pending);
    adapter.advance(Probe::Failed { error: GroupError::Wait { code: 4 } });
    assert_eq!(adapter.pending(), AdapterAction::Fail { error: GroupError::Wait { code: 4 } });
    adapter.advance(Probe::Emptied);
    assert_eq!(adapter.pending(), AdapterAction::Fail { error: GroupError::Wait { code: 4 } });
    let mut adapter = WaitAdapter::new();
    for _ in 0..10 {
        adapter.advance(Probe::Pending);
    }
    adapter.advance(Probe::Failed { error: GroupError::Wait { code: 5 } });
    assert_eq!(adapter.pending(), AdapterAction::Fail { error: GroupError::Wait { code: 5 } });
}

#[test]
fn finished_wait_stays_finished() {
    let mut adapter = WaitAdapter::new();
    adapter.advance(Probe::Emptied);
    adapter.advance(Probe::Pending);
    adapter.advance(Probe::Failed { error: GroupError::Internal });
    assert_eq!(adapter.phase(), AdapterPhase::Finished);
}

#[test]
fn verdicts_as_probes() {
    let status = ExitStatus::Exited { code: 0 };
    assert_eq!(probe_of(ReapStep::Emptied { leader: Some(status) }), Probe::Emptied);
    assert_eq!(probe_of(ReapStep::Emptied { leader: None }), Probe::Emptied);
    assert_eq!(probe_of(ReapStep::Running), Probe::Pending);
    assert_eq!(probe_of(ReapStep::Continue), Probe::Pending);
    assert_eq!(
        probe_of(ReapStep::Failed { error: GroupError::Wait { code: 1 } }),
        Probe::Failed { error: GroupError::Wait { code: 1 } }
    );
}

#[test]
fn cooperative_poll_answers() {
    let status = ExitStatus::Exited { code: 0 };
    assert_eq!(poll_answer(ReapStep::Emptied { leader: Some(status) }), Some(Ok(Some(status))));
    assert_eq!(poll_answer(ReapStep::Emptied { leader: None }), Some(Ok(None)));
    assert_eq!(poll_answer(ReapStep::Running), None);
    assert_eq!(poll_answer(ReapStep::Continue), None);
    assert_eq!(
        poll_answer(ReapStep::Failed { error: GroupError::Wait { code: 3 } }),
        Some(Err(GroupError::Wait { code: 3 }))
    );
}

#[test]
fn port_verdicts_as_probes() {
    assert_eq!(probe_of_port(PortStep::Emptied), Probe::Emptied);
    assert_eq!(probe_of_port(PortStep::Running), Probe::Pending);
    assert_eq!(probe_of_port(PortStep::Continue), Probe::Pending);
    assert_eq!(
        probe_of_port(PortStep::Failed { error: GroupError::Wait { code: 1 } }),
        Probe::Failed { error: GroupError::Wait { code: 1 } }
    );
}
