//! Invoking the OS wait primitive and typing its result.
//!
//! The underlying call has three return regimes: an error, a "no child has
//! changed state yet" answer that only a non-blocking poll produces, and a
//! reaped child together with its raw status word.  [`interpret_outcome`] is
//! the verified translation of those regimes into `Result<WaitStatus, Error>`;
//! [`waitpid`] drives the actual call and is proved to return exactly the
//! interpretation of some well-formed call outcome.
//!
//! The call itself is made through `rustix`, whose safe wrappers hand the
//! error back as a value rather than through a process-wide error register.

use vstd::prelude::*;

use crate::status::{
    continued, decode, exited, is_decodable, signaled, spec_decode, stopped, WaitStatus,
};

verus! {

/// An error surfaced by a wait call.
#[derive(PartialEq, Eq, Structural, Clone, Copy, Debug)]
pub enum Error {
    /// The OS primitive failed; the payload is the positive errno value it
    /// reported (for example "no eligible children" or "interrupted").
    Sys(i32),
    /// The kernel handed back a status word that matches no classification
    /// of the wait-status encoding.  The encoding is a closed contract, so
    /// this signals a violated invariant rather than a recoverable state,
    /// but it is reported explicitly instead of being assumed away.
    UnknownStatus,
}

/// A set of options for a wait call, combined by bitwise or.  An empty set
/// asks for a blocking wait.
#[derive(PartialEq, Eq, Structural, Clone, Copy, Debug)]
pub struct WaitPidFlag {
    pub bits: u32,
}

impl WaitPidFlag {
    /// The empty option set: block until a child changes state.
    pub fn empty() -> (r: WaitPidFlag)
        ensures
            r.bits == 0,
    {
        WaitPidFlag { bits: 0 }
    }

    /// The `WNOHANG` option: do not block; if no child has changed state,
    /// report [`WaitStatus::StillAlive`] instead of waiting.
    pub fn no_hang() -> (r: WaitPidFlag)
        ensures
            r.bits == 1,
    {
        WaitPidFlag { bits: 1 }
    }

    /// The union of two option sets.
    pub fn or(self, other: WaitPidFlag) -> (r: WaitPidFlag)
        ensures
            r.bits == self.bits | other.bits,
    {
        WaitPidFlag { bits: self.bits | other.bits }
    }
}

/// What one call of the OS primitive came back with: the reported errno on
/// failure, `Ok(None)` when a non-blocking poll found no state change, and
/// otherwise the reaped child's pid with its raw status word.
pub open spec fn outcome_wf(outcome: Result<Option<(i32, i32)>, i32>) -> bool {
    &&& (outcome matches Ok(Some((p, s))) ==> p > 0)
    &&& (outcome matches Err(e) ==> 0 < e)
}

/// What every result of a wait call looks like: the reported pid is
/// positive, a terminating signal lies strictly between zero and the stop
/// sentinel `0x7f`, a stopping signal fits in a byte, and a system error
/// carries a positive errno.
pub open spec fn result_wf(r: Result<WaitStatus, Error>) -> bool {
    &&& (r matches Ok(WaitStatus::Exited(p, _)) ==> p > 0)
    &&& (r matches Ok(WaitStatus::Signaled(p, sig, _)) ==> p > 0 && 0 < sig < 0x7f)
    &&& (r matches Ok(WaitStatus::Stopped(p, sig)) ==> p > 0 && 0 <= sig <= 0xff)
    &&& (r matches Ok(WaitStatus::Continued(p)) ==> p > 0)
    &&& (r matches Err(Error::Sys(e)) ==> 0 < e)
}

/// What [`interpret_outcome`] returns for each call outcome.
pub open spec fn spec_interpret(outcome: Result<Option<(i32, i32)>, i32>) -> Result<
    WaitStatus,
    Error,
> {
    match outcome {
        Err(e) => Err(Error::Sys(e)),
        Ok(None) => Ok(WaitStatus::StillAlive),
        Ok(Some((p, s))) => if is_decodable(s) {
            Ok(spec_decode(p, s))
        } else {
            Err(Error::UnknownStatus)
        },
    }
}

/// Relies on rustix::process::wait: waits for any child of the calling
/// process (the `-1` form of the primitive).  `Ok(Some)` carries the reaped
/// child's pid — positive, since rustix builds it from a nonzero
/// nonnegative return — and its raw status word; `Ok(None)` is the
/// non-blocking "no change" answer; `Err` is the errno, which rustix keeps
/// in `1..4096`.
#[verifier::external_body]
fn sys_wait_any(options: u32) -> (r: Result<Option<(i32, i32)>, i32>)
    ensures
        outcome_wf(r),
{
    match rustix::process::wait(rustix::process::WaitOptions::from_bits_retain(options)) {
        Ok(Some((p, st))) => Ok(Some((p.as_raw_nonzero().get(), st.as_raw()))),
        Ok(None) => Ok(None),
        Err(e) => Err(e.raw_os_error()),
    }
}

/// Relies on rustix::process::waitpid: waits for the child with the given
/// pid, or — given zero, which rustix's `Pid::from_raw` turns into `None` —
/// for any child in the caller's process group.  The outcome is shaped as
/// in [`sys_wait_any`].
#[verifier::external_body]
fn sys_wait_pid(pid: i32, options: u32) -> (r: Result<Option<(i32, i32)>, i32>)
    requires
        pid >= 0,
    ensures
        outcome_wf(r),
{
    match rustix::process::waitpid(
        rustix::process::Pid::from_raw(pid),
        rustix::process::WaitOptions::from_bits_retain(options),
    ) {
        Ok(Some((p, st))) => Ok(Some((p.as_raw_nonzero().get(), st.as_raw()))),
        Ok(None) => Ok(None),
        Err(e) => Err(e.raw_os_error()),
    }
}

/// Relies on rustix::process::waitpgid: waits for any child in the process
/// group with the given positive id (the `< -1` form of the primitive).
/// The outcome is shaped as in [`sys_wait_any`].
#[verifier::external_body]
fn sys_wait_group(pgid: i32, options: u32) -> (r: Result<Option<(i32, i32)>, i32>)
    requires
        pgid > 0,
    ensures
        outcome_wf(r),
{
    match rustix::process::waitpgid(
        rustix::process::Pid::from_raw(pgid).unwrap(),
        rustix::process::WaitOptions::from_bits_retain(options),
    ) {
        Ok(Some((p, st))) => Ok(Some((p.as_raw_nonzero().get(), st.as_raw()))),
        Ok(None) => Ok(None),
        Err(e) => Err(e.raw_os_error()),
    }
}

/// Types the outcome of one call of the OS primitive: an error becomes
/// [`Error::Sys`] with the reported errno, a "no change" answer becomes
/// [`WaitStatus::StillAlive`], and a reaped child's status word is decoded —
/// or, should it match no classification, reported as
/// [`Error::UnknownStatus`].
pub fn interpret_outcome(outcome: Result<Option<(i32, i32)>, i32>) -> (r: Result<
    WaitStatus,
    Error,
>)
    ensures
        r == spec_interpret(outcome),
{
    match outcome {
        Err(e) => Err(Error::Sys(e)),
        Ok(None) => Ok(WaitStatus::StillAlive),
        Ok(Some((p, s))) => {
            if exited(s) || signaled(s) || stopped(s) || continued(s) {
                Ok(decode(p, s))
            } else {
                Err(Error::UnknownStatus)
            }
        },
    }
}

/// Waits for a state change in the children selected by `pid`: a positive
/// value names one child, `-1` any child, `0` the caller's process group and
/// a value below `-1` the process group `-pid`, as with the OS primitive.
/// An empty or absent option set blocks until a state change occurs;
/// [`WaitPidFlag::no_hang`] polls instead.
///
/// The result is exactly the typed interpretation of some well-formed
/// outcome of the primitive: which outcome occurs depends on the state of
/// the caller's children.  A successful wait reaps the reported child,
/// irreversibly consuming its process-table entry — a second wait for the
/// same pid will not see the same answer again.
///
/// `i32::MIN` is excluded: it names no process group, as its negation is
/// not representable.
pub fn waitpid(pid: i32, options: Option<WaitPidFlag>) -> (r: Result<WaitStatus, Error>)
    requires
        pid != i32::MIN,
    ensures
        exists|outcome: Result<Option<(i32, i32)>, i32>|
            #[trigger] spec_interpret(outcome) == r && outcome_wf(outcome),
        result_wf(r),
{
    let option_bits: u32 = match options {
        Some(flags) => flags.bits,
        None => 0,
    };
    let outcome = if pid == -1 {
        sys_wait_any(option_bits)
    } else if pid >= 0 {
        sys_wait_pid(pid, option_bits)
    } else {
        sys_wait_group(-pid, option_bits)
    };
    let r = interpret_outcome(outcome);
    proof {
        assert(spec_interpret(outcome) == r && outcome_wf(outcome));
        if let Ok(Some((p, s))) = outcome {
            assert(0 <= s & 0x7f <= 0x7f && 0 <= (s & 0xff00) >> 8 <= 0xff) by (bit_vector);
        }
        assert(result_wf(r));
    }
    r
}

/// Waits, blocking, for any child of the calling process: the same call as
/// [`waitpid`] with pid `-1` and no options, reaping included.
pub fn wait() -> (r: Result<WaitStatus, Error>)
    ensures
        exists|outcome: Result<Option<(i32, i32)>, i32>|
            #[trigger] spec_interpret(outcome) == r && outcome_wf(outcome),
        result_wf(r),
{
    waitpid(-1, None)
}

} // verus!
