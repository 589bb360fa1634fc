use procwait::status::WaitStatus;
use procwait::wait::{interpret_outcome, wait, waitpid, Error, WaitPidFlag};

// None of the tests in this file creates a child process, so every wait in
// it finds no eligible children and must report the system error for that
// (ECHILD), without blocking or panicking.

#[test]
fn wait_for_nonexistent_pid_is_an_error() {
    let r = waitpid(999999, None);
    assert_eq!(r, Err(Error::Sys(libc::ECHILD)));
}

#[test]
fn wait_any_without_children_is_an_error() {
    let r = wait();
    assert_eq!(r, Err(Error::Sys(libc::ECHILD)));
}

#[test]
fn nonblocking_wait_without_children_is_an_error() {
    let r = waitpid(-1, Some(WaitPidFlag::no_hang()));
    assert_eq!(r, Err(Error::Sys(libc::ECHILD)));
}

#[test]
fn wait_own_group_without_children_is_an_error() {
    let r = waitpid(0, None);
    assert_eq!(r, Err(Error::Sys(libc::ECHILD)));
}

#[test]
fn wait_group_without_children_is_an_error() {
    let r = waitpid(-54321, None);
    assert_eq!(r, Err(Error::Sys(libc::ECHILD)));
}

#[test]
fn outcome_regimes() {
    assert_eq!(interpret_outcome(Err(libc::EINTR)), Err(Error::Sys(libc::EINTR)));
    assert_eq!(interpret_outcome(Ok(None)), Ok(WaitStatus::StillAlive));
    assert_eq!(
        interpret_outcome(Ok(Some((5, 12 << 8)))),
        Ok(WaitStatus::Exited(5, 12))
    );
    assert_eq!(
        interpret_outcome(Ok(Some((5, 0x8b)))),
        Ok(WaitStatus::Signaled(5, 11, true))
    );
    // A status word outside the encoding is reported, not assumed away.
    assert_eq!(
        interpret_outcome(Ok(Some((5, 0xff)))),
        Err(Error::UnknownStatus)
    );
}

#[test]
fn flag_bits_compose_by_union() {
    assert_eq!(WaitPidFlag::empty().bits, 0);
    assert_eq!(WaitPidFlag::no_hang().bits, 1);
    assert_eq!(WaitPidFlag::empty().or(WaitPidFlag::no_hang()).bits, 1);
    assert_eq!(WaitPidFlag::no_hang().or(WaitPidFlag::no_hang()).bits, 1);
}
