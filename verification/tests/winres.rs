use command_group::error::GroupError;
use command_group::winres::{
    limit_flags, res_bool, res_neg, res_null, spawn_flags, threads_of, Establisher, JobPort,
    Release, SetupAction, SetupEvent, ThreadEntry, CREATE_SUSPENDED,
    JOB_OBJECT_LIMIT_KILL_ON_JOB_CLOSE, THREAD_SUSPEND_RESUME,
};

const JOB: usize = 0x1a0;
const PORT: usize = 0x1b4;
const PROCESS: usize = 0x2c8;
const PID: u32 = 7300;

fn entry(thread_id: u32, owner_process_id: u32) -> ThreadEntry {
    ThreadEntry { thread_id, owner_process_id }
}

fn ok() -> SetupEvent {
    SetupEvent::Flag { ret: 1, last_error: 0 }
}

#[test]
fn constants() {
    assert_eq!(CREATE_SUSPENDED, 0x4);
    assert_eq!(JOB_OBJECT_LIMIT_KILL_ON_JOB_CLOSE, 0x2000);
    assert_eq!(THREAD_SUSPEND_RESUME, 0x2);
}

#[test]
fn null_handle_is_a_failure() {
    assert_eq!(res_null(0, 6), Err(6));
    assert_eq!(res_null(0x40, 6), Ok(0x40));
    assert_eq!(res_null(usize::MAX, 6), Ok(usize::MAX));
}

#[test]
fn false_is_a_failure() {
    assert_eq!(res_bool(0, 5), Err(5));
    assert_eq!(res_bool(1, 5), Ok(()));
    assert_eq!(res_bool(-1, 5), Ok(()));
}

#[test]
fn all_ones_count_is_a_failure() {
    assert_eq!(res_neg(u32::MAX, 87), Err(87));
    assert_eq!(res_neg(0, 87), Ok(0));
    assert_eq!(res_neg(1, 87), Ok(1));
}

#[test]
fn limits_follow_kill_on_drop() {
    assert_eq!(limit_flags(true), 0x2000);
    assert_eq!(limit_flags(false), 0);
}

#[test]
fn leader_is_always_spawned_suspended() {
    assert_eq!(spawn_flags(0), 0x4);
    assert_eq!(spawn_flags(0x0800_0000), 0x0800_0004);
    assert_eq!(spawn_flags(0x4), 0x4);
    assert_eq!(spawn_flags(u32::MAX), u32::MAX);
}

#[test]
fn threads_are_picked_by_owner() {
    let entries = vec![
        entry(11, 100),
        entry(12, PID),
        entry(13, 100),
        entry(14, PID),
        entry(15, PID),
        entry(16, 7301),
    ];
    assert_eq!(threads_of(&entries, PID), vec![12, 14, 15]);
    assert_eq!(threads_of(&entries, 100), vec![11, 13]);
    assert_eq!(threads_of(&entries, 5), Vec::<u32>::new());
    assert_eq!(threads_of(&Vec::new(), PID), Vec::<u32>::new());
}

fn spawned(kill_on_drop: bool, creation_flags: u32) -> Establisher {
    let mut setup = Establisher::new(kill_on_drop, creation_flags);
    setup.advance(SetupEvent::Handle { handle: JOB, last_error: 0 });
    setup.advance(SetupEvent::Handle { handle: PORT, last_error: 0 });
    setup.advance(ok());
    setup.advance(ok());
    setup.advance(SetupEvent::Spawned { process: PROCESS, pid: PID });
    setup
}

#[test]
fn setup_runs_in_order() {
    let mut setup = Establisher::new(true, 0x0800_0000);
    assert_eq!(setup.pending(), SetupAction::CreateJob);
    setup.advance(SetupEvent::Handle { handle: JOB, last_error: 0 });
    assert_eq!(setup.pending(), SetupAction::CreatePort);
    setup.advance(SetupEvent::Handle { handle: PORT, last_error: 0 });
    assert_eq!(setup.pending(), SetupAction::Associate { job: JOB, completion_port: PORT });
    setup.advance(ok());
    assert_eq!(setup.pending(), SetupAction::SetLimits { job: JOB, limit_flags: 0x2000 });
    setup.advance(ok());
    assert_eq!(setup.pending(), SetupAction::Spawn { creation_flags: 0x0800_0004 });
    setup.advance(SetupEvent::Spawned { process: PROCESS, pid: PID });
    assert_eq!(setup.pending(), SetupAction::Assign { job: JOB, process: PROCESS });
    setup.advance(ok());
    assert_eq!(setup.pending(), SetupAction::ListThreads);
    setup.advance(SetupEvent::Threads {
        entries: vec![entry(1, 4), entry(21, PID), entry(2, 4), entry(22, PID)],
    });
    assert_eq!(setup.pending(), SetupAction::Resume { thread: 21 });
    setup.advance(SetupEvent::Resumed);
    assert_eq!(setup.pending(), SetupAction::Resume { thread: 22 });
    setup.advance(SetupEvent::Resumed);
    assert_eq!(
        setup.pending(),
        SetupAction::Finish { handles: JobPort { job: JOB, completion_port: PORT } }
    );
    setup.advance(SetupEvent::Failed { code: 1 });
    assert_eq!(
        setup.pending(),
        SetupAction::Finish { handles: JobPort { job: JOB, completion_port: PORT } }
    );
}

#[test]
fn group_without_kill_on_drop_has_no_limit() {
    let mut setup = Establisher::new(false, 0);
    setup.advance(SetupEvent::Handle { handle: JOB, last_error: 0 });
    setup.advance(SetupEvent::Handle { handle: PORT, last_error: 0 });
    setup.advance(ok());
    assert_eq!(setup.pending(), SetupAction::SetLimits { job: JOB, limit_flags: 0 });
    setup.advance(ok());
    assert_eq!(setup.pending(), SetupAction::Spawn { creation_flags: 0x4 });
}

#[test]
fn failed_job_creation_leaves_nothing_to_release() {
    let mut setup = Establisher::new(true, 0);
    setup.advance(SetupEvent::Handle { handle: 0, last_error: 8 });
    assert_eq!(
        setup.pending(),
        SetupAction::Abort {
            error: GroupError::Setup { code: 8 },
            release: Release { job: None, completion_port: None, process: None },
        }
    );
}

#[test]
fn failed_port_creation_releases_the_job() {
    let mut setup = Establisher::new(true, 0);
    setup.advance(SetupEvent::Handle { handle: JOB, last_error: 0 });
    setup.advance(SetupEvent::Handle { handle: 0, last_error: 8 });
    assert_eq!(
        setup.pending(),
        SetupAction::Abort {
            error: GroupError::Setup { code: 8 },
            release: Release { job: Some(JOB), completion_port: None, process: None },
        }
    );
}

#[test]
fn failure_before_spawn_releases_job_and_port() {
    let both = Release { job: Some(JOB), completion_port: Some(PORT), process: None };
    let mut setup = Establisher::new(true, 0);
    setup.advance(SetupEvent::Handle { handle: JOB, last_error: 0 });
    setup.advance(SetupEvent::Handle { handle: PORT, last_error: 0 });
    setup.advance(SetupEvent::Flag { ret: 0, last_error: 5 });
    assert_eq!(
        setup.pending(),
        SetupAction::Abort { error: GroupError::Setup { code: 5 }, release: both }
    );
    let mut setup = Establisher::new(true, 0);
    setup.advance(SetupEvent::Handle { handle: JOB, last_error: 0 });
    setup.advance(SetupEvent::Handle { handle: PORT, last_error: 0 });
    setup.advance(ok());
    setup.advance(SetupEvent::Flag { ret: 0, last_error: 87 });
    assert_eq!(
        setup.pending(),
        SetupAction::Abort { error: GroupError::Setup { code: 87 }, release: both }
    );
    let mut setup = Establisher::new(true, 0);
    setup.advance(SetupEvent::Handle { handle: JOB, last_error: 0 });
    setup.advance(SetupEvent::Handle { handle: PORT, last_error: 0 });
    setup.advance(ok());
    setup.advance(ok());
    setup.advance(SetupEvent::Failed { code: 2 });
    assert_eq!(
        setup.pending(),
        SetupAction::Abort { error: GroupError::Setup { code: 2 }, release: both }
    );
}

#[test]
fn failed_assignment_never_resumes_and_releases_the_process() {
    let all = Release { job: Some(JOB), completion_port: Some(PORT), process: Some(PROCESS) };
    let mut setup = spawned(false, 0);
    setup.advance(SetupEvent::Flag { ret: 0, last_error: 5 });
    assert_eq!(
        setup.pending(),
        SetupAction::Abort { error: GroupError::Setup { code: 5 }, release: all }
    );
    setup.advance(SetupEvent::Threads { entries: vec![entry(21, PID)] });
    setup.advance(SetupEvent::Resumed);
    assert_eq!(
        setup.pending(),
        SetupAction::Abort { error: GroupError::Setup { code: 5 }, release: all }
    );
}

#[test]
fn failed_listing_and_failed_resume_release_everything() {
    let all = Release { job: Some(JOB), completion_port: Some(PORT), process: Some(PROCESS) };
    let mut setup = spawned(false, 0);
    setup.advance(ok());
    setup.advance(SetupEvent::Failed { code: 24 });
    assert_eq!(
        setup.pending(),
        SetupAction::Abort { error: GroupError::Setup { code: 24 }, release: all }
    );
    let mut setup = spawned(false, 0);
    setup.advance(ok());
    setup.advance(SetupEvent::Threads { entries: vec![entry(21, PID), entry(22, PID)] });
    setup.advance(SetupEvent::Resumed);
    setup.advance(SetupEvent::Failed { code: 5 });
    assert_eq!(
        setup.pending(),
        SetupAction::Abort { error: GroupError::Setup { code: 5 }, release: all }
    );
}

#[test]
fn process_without_listed_threads_is_established() {
    let mut setup = spawned(false, 0);
    setup.advance(ok());
    setup.advance(SetupEvent::Threads { entries: vec![entry(1, 4)] });
    assert_eq!(
        setup.pending(),
        SetupAction::Finish { handles: JobPort { job: JOB, completion_port: PORT } }
    );
}

#[test]
fn answer_that_does_not_fit_abandons_the_setup() {
    let mut setup = Establisher::new(false, 0);
    setup.advance(SetupEvent::Resumed);
    assert_eq!(
        setup.pending(),
        SetupAction::Abort {
            error: GroupError::Internal,
            release: Release { job: None, completion_port: None, process: None },
        }
    );
    let mut setup = spawned(false, 0);
    setup.advance(SetupEvent::Handle { handle: 0x99, last_error: 0 });
    assert_eq!(
        setup.pending(),
        SetupAction::Abort {
            error: GroupError::Internal,
            release: Release {
                job: Some(JOB),
                completion_port: Some(PORT),
                process: Some(PROCESS),
            },
        }
    );
}
