//! Groups of real processes, spawned as leaders of new process groups.

use command_group::child::unix::ChildImp;
use command_group::child::{GroupChild, WaitPlan};
use command_group::drain::{DrainAction, DrainEvent, Drainer, ReadEnd, Strategy, Stream};
use command_group::error::GroupError;
use command_group::status::ExitStatus;
use command_group::unix_ext::{is_process, signal_child, signal_unreaped, UnixChildExt};
use nix::errno::Errno;
use nix::fcntl::{fcntl, open, FcntlArg, OFlag};
use nix::poll::{poll, PollFd, PollFlags};
use nix::sys::signal::{kill, Signal};
use nix::sys::stat::Mode;
use nix::unistd::{close, getpgid, pipe, read, unlink, Pid};
use std::time::{Duration, Instant};

const SIGCONT: i32 = Signal::SIGCONT as i32;
const SIGTERM: i32 = Signal::SIGTERM as i32;
const SIGKILL: i32 = Signal::SIGKILL as i32;

fn runtime() -> tokio::runtime::Runtime {
    tokio::runtime::Builder::new_current_thread().enable_all().build().unwrap()
}

fn pause(millis: i32) {
    let _ = poll(&mut [], millis);
}

/// Spawns `program` as the leader of a new process group.
fn spawn(program: &str, args: &[&str]) -> (tokio::process::Child, u32) {
    let child = tokio::process::Command::new(program).args(args).process_group(0).spawn().unwrap();
    let pid = child.id().unwrap();
    (child, pid)
}

fn shell(script: &str) -> (tokio::process::Child, u32) {
    spawn("sh", &["-c", script])
}

fn read_all(fd: i32) -> Vec<u8> {
    let mut all = Vec::new();
    let mut buf = [0u8; 256];
    loop {
        match read(fd, &mut buf) {
            Ok(0) => return all,
            Ok(n) => all.extend_from_slice(&buf[..n]),
            Err(Errno::EINTR) => {},
            Err(errno) => panic!("read failed: {errno}"),
        }
    }
}

fn read_file(path: &str) -> Option<Vec<u8>> {
    let fd = open(path, OFlag::O_RDONLY, Mode::empty()).ok()?;
    let all = read_all(fd);
    close(fd).unwrap();
    Some(all)
}

/// The process is no more, or is only a corpse that waits to be collected.
fn gone(pid: i32) -> bool {
    if kill(Pid::from_raw(pid), None) == Err(Errno::ESRCH) {
        return true;
    }
    match read_file(&format!("/proc/{pid}/stat")) {
        None => true,
        Some(stat) => {
            let text = String::from_utf8_lossy(&stat).into_owned();
            match text.rfind(')') {
                Some(at) => text[at + 1..].trim_start().starts_with('Z'),
                None => false,
            }
        },
    }
}

/// Gives a process that was told to end the time to do so.
fn let_die(pid: u32) {
    pause(100);
    for _ in 0..100 {
        if gone(pid as i32) {
            return;
        }
        pause(50);
    }
}

fn killed(signal: i32) -> ExitStatus {
    ExitStatus::Signaled { signal, core_dumped: false }
}

#[test]
fn kill_then_wait_reports_sigkill() {
    let rt = runtime();
    let _guard = rt.enter();
    let (_child, pid) = spawn("sleep", &["30"]);
    let mut imp = ChildImp::new(pid);
    assert_eq!(imp.id(), pid);
    assert_eq!(imp.signal_request(9).group, pid as i32);
    assert_eq!(imp.try_wait(), Ok(None));
    assert_eq!(imp.kill(), Ok(()));
    assert_eq!(imp.wait(), Ok(killed(9)));
    assert_eq!(imp.candidate(), Some(killed(9)));
    assert_eq!(imp.kill(), Err(GroupError::InvalidOperation));
}

#[test]
fn polling_before_exit_reports_not_yet_exited() {
    let rt = runtime();
    let _guard = rt.enter();
    let (_child, pid) = spawn("sleep", &["30"]);
    let mut child = GroupChild::new(pid);
    let started = Instant::now();
    for _ in 0..5 {
        assert_eq!(child.try_wait(), Ok(None));
        assert_eq!(child.exit_status(), None);
        assert_eq!(child.plan(), WaitPlan::Reap);
    }
    assert!(started.elapsed() < Duration::from_secs(5));
    assert_eq!(child.kill(), Ok(()));
    assert_eq!(child.wait(), Ok(killed(SIGKILL)));
}

#[test]
fn wait_twice_returns_the_identical_status() {
    let rt = runtime();
    let _guard = rt.enter();
    let (_child, pid) = shell("exit 7");
    let mut child = GroupChild::new(pid);
    assert_eq!(child.plan(), WaitPlan::Reap);
    let first = child.wait();
    assert_eq!(first, Ok(ExitStatus::Exited { code: 7 }));
    assert_eq!(child.plan(), WaitPlan::Return { status: ExitStatus::Exited { code: 7 } });
    assert_eq!(child.wait(), first);
    assert_eq!(child.try_wait(), Ok(Some(ExitStatus::Exited { code: 7 })));
    assert_eq!(child.exit_status(), Some(ExitStatus::Exited { code: 7 }));
    // The group is gone: a second reap would have found nothing to report.
    let mut again = ChildImp::new(pid);
    assert_eq!(again.wait(), Err(GroupError::Internal));
    assert_eq!(again.try_wait(), Ok(None));
}

#[test]
fn kill_reaches_the_descendants() {
    let rt = runtime();
    let _guard = rt.enter();
    let note = format!("/tmp/command_group_{}.pid", nix::unistd::getpid());
    let _ = unlink(note.as_str());
    let (_child, pid) = shell(&format!("sleep 60 & echo $! > {note}; wait"));
    let mut child = GroupChild::new(pid);
    let mut descendant = None;
    for _ in 0..100 {
        let text = read_file(&note).map(|bytes| String::from_utf8_lossy(&bytes).into_owned());
        descendant = text.and_then(|text| text.trim().parse::<i32>().ok());
        if descendant.is_some() {
            break;
        }
        pause(50);
    }
    let descendant = descendant.expect("the leader did not report its descendant");
    unlink(note.as_str()).unwrap();
    assert_ne!(descendant, pid as i32);
    assert_eq!(getpgid(Some(Pid::from_raw(descendant))), Ok(Pid::from_raw(pid as i32)));
    assert!(!gone(descendant));
    assert_eq!(child.try_wait(), Ok(None));

    assert_eq!(child.kill(), Ok(()));
    assert_eq!(child.wait(), Ok(killed(SIGKILL)));
    let mut left = true;
    for _ in 0..100 {
        if gone(descendant) {
            left = false;
            break;
        }
        pause(50);
    }
    assert!(!left, "the descendant outlived the kill of its group");
}

#[test]
fn wait_returns_once_the_group_is_reaped() {
    let rt = runtime();
    let _guard = rt.enter();
    let (_child, pid) = shell("sleep 0.2 & sleep 0.1 & sleep 0.3 & sleep 0.1 & exit 3");
    let mut child = GroupChild::new(pid);
    let started = Instant::now();
    assert_eq!(child.wait(), Ok(ExitStatus::Exited { code: 3 }));
    assert!(started.elapsed() < Duration::from_secs(5));
    assert_eq!(child.wait(), Ok(ExitStatus::Exited { code: 3 }));
}

#[test]
fn detached_group_keeps_running() {
    let rt = runtime();
    let _guard = rt.enter();
    let (_child, pid) = spawn("sleep", &["30"]);
    let child = GroupChild::new(pid);
    let detached = child.into_inner();
    assert_eq!(detached, pid);
    pause(100);
    assert_eq!(kill(Pid::from_raw(pid as i32), None), Ok(()));
    assert!(!gone(pid as i32));
    // Clean up through a new handle of the same group.
    let mut child = GroupChild::new(detached);
    assert_eq!(child.try_wait(), Ok(None));
    assert_eq!(child.kill(), Ok(()));
    assert_eq!(child.wait(), Ok(killed(SIGKILL)));
}

fn set_nonblocking(fd: i32, on: bool) -> Result<(), Errno> {
    let mut flags = OFlag::from_bits_truncate(fcntl(fd, FcntlArg::F_GETFL)?);
    flags.set(OFlag::O_NONBLOCK, on);
    fcntl(fd, FcntlArg::F_SETFL(flags)).map(drop)
}

fn read_step(fd: i32) -> DrainEvent {
    let mut data = Vec::new();
    let mut buf = [0u8; 4096];
    loop {
        match read(fd, &mut buf) {
            Ok(0) => return DrainEvent::Chunk { data, end: ReadEnd::Eof },
            Ok(n) => data.extend_from_slice(&buf[..n]),
            Err(Errno::EAGAIN) => return DrainEvent::Chunk { data, end: ReadEnd::WouldBlock },
            Err(Errno::EINTR) => {},
            Err(errno) => return DrainEvent::Failed { code: errno as i32 },
        }
    }
}

/// Performs the steps that the drainer asks for on two real pipes.
fn drain(out_fd: i32, err_fd: i32) -> Result<(Vec<u8>, Vec<u8>), GroupError> {
    let fd_of = |stream: Stream| match stream {
        Stream::Stdout => out_fd,
        Stream::Stderr => err_fd,
    };
    let mut drainer = Drainer::new(Strategy::Multiplexed, true, true);
    loop {
        let event = match drainer.pending() {
            DrainAction::Finish | DrainAction::Abort { .. } => return drainer.into_output(),
            DrainAction::SetNonblocking { stream, on } => match set_nonblocking(fd_of(stream), on) {
                Ok(()) => DrainEvent::ModeSet,
                Err(errno) => DrainEvent::Failed { code: errno as i32 },
            },
            DrainAction::Poll => {
                let mut fds = [
                    PollFd::new(out_fd, PollFlags::POLLIN),
                    PollFd::new(err_fd, PollFlags::POLLIN),
                ];
                match poll(&mut fds, -1) {
                    Ok(_) => DrainEvent::Ready {
                        out: fds[0].revents().map_or(false, |events| !events.is_empty()),
                        err: fds[1].revents().map_or(false, |events| !events.is_empty()),
                    },
                    Err(errno) => DrainEvent::Failed { code: errno as i32 },
                }
            },
            DrainAction::Read { stream } => read_step(fd_of(stream)),
        };
        drainer.advance(event);
    }
}

#[test]
fn echo_hello_is_captured() {
    let rt = runtime();
    let _guard = rt.enter();
    let (out_r, out_w) = pipe().unwrap();
    let (err_r, err_w) = pipe().unwrap();
    let (_child, pid) = shell(&format!("exec echo hello > /dev/fd/{out_w} 2> /dev/fd/{err_w}"));
    close(out_w).unwrap();
    close(err_w).unwrap();
    let child = GroupChild::new(pid);
    let drained = drain(out_r, err_r);
    let output = child.wait_with_output(drained).unwrap();
    assert!(output.status.success());
    assert_eq!(output.stdout, b"hello\n".to_vec());
    assert_eq!(output.stderr, Vec::<u8>::new());
    close(out_r).unwrap();
    close(err_r).unwrap();
}

#[test]
fn both_streams_are_drained_whatever_their_size() {
    let rt = runtime();
    let _guard = rt.enter();
    let (out_r, out_w) = pipe().unwrap();
    let (err_r, err_w) = pipe().unwrap();
    // More than a pipe holds on each stream, written in turns: reading one
    // stream to its end before the other would block for ever.
    let script = format!(
        "exec 3> /dev/fd/{out_w} 4> /dev/fd/{err_w}; i=0; while [ $i -lt 300 ]; do \
         printf '%01000d' 1 >&3; printf '%01000d' 2 >&4; i=$((i+1)); done; exit 4"
    );
    let (_child, pid) = shell(&script);
    close(out_w).unwrap();
    close(err_w).unwrap();
    let child = GroupChild::new(pid);
    let drained = drain(out_r, err_r);
    let output = child.wait_with_output(drained).unwrap();
    assert_eq!(output.status, ExitStatus::Exited { code: 4 });
    assert_eq!(output.stdout.len(), 300_000);
    assert_eq!(output.stderr.len(), 300_000);
    assert!(output.stdout.iter().all(|byte| *byte == b'0' || *byte == b'1'));
    assert!(output.stderr.iter().all(|byte| *byte == b'0' || *byte == b'2'));
    assert_eq!(output.stdout.iter().filter(|byte| **byte == b'1').count(), 300);
    assert_eq!(output.stderr.iter().filter(|byte| **byte == b'2').count(), 300);
    close(out_r).unwrap();
    close(err_r).unwrap();
}

#[test]
fn failed_drain_is_passed_on_without_waiting() {
    let rt = runtime();
    let _guard = rt.enter();
    let (_child, pid) = spawn("sleep", &["30"]);
    let child = GroupChild::new(pid);
    let output = child.wait_with_output(Err(GroupError::Drain { code: 5 }));
    assert_eq!(output.unwrap_err(), GroupError::Drain { code: 5 });
    let mut child = GroupChild::new(pid);
    assert_eq!(child.try_wait(), Ok(None));
    assert_eq!(child.kill(), Ok(()));
    assert_eq!(child.wait(), Ok(killed(SIGKILL)));
}

#[test]
fn mild_signal_then_termination() {
    let rt = runtime();
    let _guard = rt.enter();
    let (_child, pid) = spawn("sleep", &["30"]);
    let mut child = GroupChild::new(pid);
    assert_eq!(child.signal(SIGCONT), Ok(()));
    assert_eq!(child.try_wait(), Ok(None));
    assert_eq!(child.signal(SIGTERM), Ok(()));
    let status = child.wait().unwrap();
    assert_eq!(status, killed(SIGTERM));
    assert_eq!(status.signal(), Some(SIGTERM));
    assert_eq!(child.wait(), Ok(killed(SIGTERM)));
    assert_eq!(child.signal(SIGTERM), Err(GroupError::InvalidOperation));
    assert_eq!(child.kill(), Err(GroupError::InvalidOperation));
}

#[test]
fn unknown_signal_number_is_refused() {
    let rt = runtime();
    let _guard = rt.enter();
    let (_child, pid) = spawn("sleep", &["30"]);
    let mut child = GroupChild::new(pid);
    assert_eq!(child.signal(0), Err(GroupError::Signal { code: Errno::EINVAL as i32 }));
    assert_eq!(child.signal(-3), Err(GroupError::Signal { code: Errno::EINVAL as i32 }));
    assert_eq!(child.signal(4000), Err(GroupError::Signal { code: Errno::EINVAL as i32 }));
    assert_eq!(child.try_wait(), Ok(None));
    assert_eq!(child.kill(), Ok(()));
    assert_eq!(child.wait(), Ok(killed(SIGKILL)));
}

#[test]
fn signal_to_a_group_that_never_was() {
    // No process has this identifier: the kernel hands out far smaller ones.
    let mut imp = ChildImp::new(0x7fff_fff0);
    assert_eq!(imp.kill(), Err(GroupError::InvalidOperation));
    assert_eq!(imp.signal(SIGTERM), Err(GroupError::InvalidOperation));
    assert_eq!(imp.try_wait(), Ok(None));
    assert_eq!(imp.wait(), Err(GroupError::Internal));
    assert_eq!(signal_child(0x7fff_fff0, SIGTERM), Err(GroupError::InvalidOperation));
}

#[test]
fn signal_reaches_only_the_one_process() {
    let rt = runtime();
    let _guard = rt.enter();
    let note = format!("/tmp/command_group_{}.pid", nix::unistd::getpid());
    let _ = unlink(note.as_str());
    let (_child, pid) = shell(&format!("sleep 60 & echo $! > {note}; wait"));
    let mut descendant = None;
    for _ in 0..100 {
        let text = read_file(&note).map(|bytes| String::from_utf8_lossy(&bytes).into_owned());
        descendant = text.and_then(|text| text.trim().parse::<i32>().ok());
        if descendant.is_some() {
            break;
        }
        pause(50);
    }
    let descendant = descendant.expect("the leader did not report its descendant");
    unlink(note.as_str()).unwrap();
    let mut child = GroupChild::new(pid);
    assert_eq!(signal_child(pid, SIGKILL), Ok(()));
    let_die(pid);
    // The leader is dead and its descendant is not. If the descendant has
    // become a child of this process, the group is not empty yet.
    let polled = child.try_wait().unwrap();
    assert!(polled.is_none() || polled == Some(killed(SIGKILL)));
    assert!(!gone(descendant));
    assert_eq!(signal_child(descendant as u32, SIGKILL), Ok(()));
    // Whenever the leader was reaped, its status is what the wait hands out.
    assert_eq!(child.wait(), Ok(killed(SIGKILL)));
}

#[test]
fn reaped_child_is_not_signalled() {
    assert!(!is_process(0));
    assert!(is_process(1));
    assert!(is_process(0x7fff_ffff));
    assert!(!is_process(0x8000_0000));
    assert_eq!(signal_unreaped(None, SIGKILL), Ok(()));
    assert_eq!(signal_unreaped(Some(0x7fff_fff0), SIGKILL), Err(GroupError::InvalidOperation));
}

// The group scenarios of the session-based backend.

#[test]
fn unix_kill_and_try_wait_group() {
    let rt = runtime();
    let _guard = rt.enter();
    let (_child, pid) = spawn("sleep", &["30"]);
    let mut child = GroupChild::new(pid);
    assert!(child.try_wait().unwrap().is_none());
    child.kill().unwrap();
    let_die(pid);
    assert!(child.try_wait().unwrap().is_some());
    pause(100);
    assert!(child.try_wait().unwrap().is_some());
}

#[test]
fn unix_try_wait_twice_after_sigterm_group() {
    let rt = runtime();
    let _guard = rt.enter();
    let (_child, pid) = spawn("sleep", &["30"]);
    let mut child = GroupChild::new(pid);
    assert!(child.try_wait().unwrap().is_none(), "pre try_wait");
    child.signal(SIGTERM).unwrap();
    let_die(pid);
    assert!(child.try_wait().unwrap().is_some(), "first try_wait");
    pause(100);
    assert!(child.try_wait().unwrap().is_some(), "second try_wait");
}

#[test]
fn unix_wait_twice_after_sigterm_group() {
    let rt = runtime();
    let _guard = rt.enter();
    let (_child, pid) = spawn("sleep", &["30"]);
    let mut child = GroupChild::new(pid);
    assert!(child.try_wait().unwrap().is_none(), "pre try_wait");
    child.signal(SIGTERM).unwrap();
    let status = child.wait().unwrap();
    assert_eq!(status.signal(), Some(Signal::SIGTERM as i32), "first wait status");
    let status = child.wait().unwrap();
    assert_eq!(status.signal(), Some(Signal::SIGTERM as i32), "second wait status");
}

#[test]
fn unix_wait_after_die_group() {
    let rt = runtime();
    let _guard = rt.enter();
    let (_child, pid) = shell("exit 0");
    let mut child = GroupChild::new(pid);
    let_die(pid);
    let status = child.wait().unwrap();
    assert!(status.success());
}

#[test]
fn unix_try_wait_after_die_group() {
    let rt = runtime();
    let _guard = rt.enter();
    let (_child, pid) = shell("exit 0");
    let mut child = GroupChild::new(pid);
    let_die(pid);
    let status = child.try_wait().unwrap();
    assert!(status.is_some());
    assert!(status.unwrap().success());
}

#[test]
fn unix_wait_group() {
    let rt = runtime();
    let _guard = rt.enter();
    let (_child, pid) = shell("exit 0");
    let mut child = GroupChild::new(pid);
    let status = child.wait().unwrap();
    assert!(status.success());
    let status = child.wait().unwrap();
    assert!(status.success());
}

#[test]
fn unix_wait_with_output_group() {
    let rt = runtime();
    let _guard = rt.enter();
    let (out_r, out_w) = pipe().unwrap();
    let (_child, pid) = shell(&format!("exec echo hello > /dev/fd/{out_w}"));
    close(out_w).unwrap();
    let child = GroupChild::new(pid);
    let mut drainer = Drainer::new(Strategy::Multiplexed, true, false);
    assert_eq!(drainer.pending(), DrainAction::Read { stream: Stream::Stdout });
    drainer.advance(read_step(out_r));
    let output = child.wait_with_output(drainer.into_output()).unwrap();
    assert!(output.status.success());
    assert_eq!(output.stdout, b"hello\n".to_vec());
    assert_eq!(output.stderr, Vec::new());
    close(out_r).unwrap();
}

#[test]
fn unix_id_same_as_inner_group() {
    let rt = runtime();
    let _guard = rt.enter();
    let (inner, pid) = shell("exit 0");
    let mut child = GroupChild::new(pid);
    assert_eq!(Some(child.id()), inner.id());
    child.wait().unwrap();
}

#[test]
fn unix_signal_group() {
    let rt = runtime();
    let _guard = rt.enter();
    let (_child, pid) = spawn("sleep", &["30"]);
    let mut child = GroupChild::new(pid);
    child.signal(SIGCONT).unwrap();
    pause(100);
    assert!(child.try_wait().unwrap().is_none(), "not exited with sigcont");
    child.signal(SIGTERM).unwrap();
    let_die(pid);
    assert!(child.try_wait().unwrap().is_some(), "exited with sigterm");
}

#[test]
fn unix_signal_normal() {
    let rt = runtime();
    let _guard = rt.enter();
    let (mut child, pid) = spawn("sleep", &["30"]);
    signal_child(pid, SIGCONT).unwrap();
    pause(100);
    assert!(child.try_wait().unwrap().is_none(), "not exited with sigcont");
    signal_child(pid, SIGTERM).unwrap();
    let_die(pid);
    assert!(child.try_wait().unwrap().is_some(), "exited with sigterm");
}

#[test]
fn unix_try_wait_twice_after_sigterm_normal() {
    let rt = runtime();
    let _guard = rt.enter();
    let (mut child, pid) = spawn("sleep", &["30"]);
    assert!(child.try_wait().unwrap().is_none(), "pre try_wait");
    signal_child(pid, SIGTERM).unwrap();
    let_die(pid);
    assert!(child.try_wait().unwrap().is_some(), "first try_wait");
    pause(100);
    assert!(child.try_wait().unwrap().is_some(), "second try_wait");
}
