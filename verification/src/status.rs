//! Decoding the raw wait-status word.
//!
//! The kernel packs the reason for a child's state change into one integer.
//! On Linux the low seven bits carry the discriminant: all zero for a normal
//! exit, the sentinel `0x7f` (together with a clear bit 7) for a stop, any
//! other value for death by signal; the single pattern `0xffff` reports that a
//! stopped child has resumed.  The payload — exit code or signal number —
//! sits in bits 8..16, and bit 7 flags a core dump after a fatal signal.
//!
//! The classification predicates below state that grammar; [`decode`] is
//! proved to map every classifiable status word to exactly one variant of
//! [`WaitStatus`].

use vstd::prelude::*;

verus! {

/// The decoded outcome of one wait call.
///
/// The first field of each carrying variant is the pid of the child the
/// kernel reported on — not the (possibly `-1` or group-wide) pid that was
/// asked for.  `StillAlive` arises only from a non-blocking poll that found
/// no child with a new state to report, so it carries no pid.
#[derive(PartialEq, Eq, Structural, Clone, Copy, Debug)]
pub enum WaitStatus {
    /// The child terminated normally with the given exit code, the 8-bit
    /// value it returned read as a signed byte.
    Exited(i32, i8),
    /// The child was terminated by the given signal; the flag tells whether
    /// a core image was produced.
    Signaled(i32, i32, bool),
    /// The child is suspended by the given signal.
    Stopped(i32, i32),
    /// The child, previously stopped, has resumed execution.
    Continued(i32),
    /// Nothing to report yet: only a non-blocking wait produces this.
    StillAlive,
}

/// The child exited normally: the low seven bits are all zero.
pub open spec fn is_exited(status: i32) -> bool {
    status & 0x7f == 0
}

/// The child was killed by a signal: the low seven bits are neither zero
/// nor the stop sentinel `0x7f`.
pub open spec fn is_signaled(status: i32) -> bool {
    status & 0x7f != 0 && status & 0x7f != 0x7f
}

/// The child is stopped: the low byte is exactly the sentinel `0x7f`.
pub open spec fn is_stopped(status: i32) -> bool {
    status & 0xff == 0x7f
}

/// The child resumed after a stop: the status is exactly the sentinel
/// `0xffff`.
pub open spec fn is_continued(status: i32) -> bool {
    status == 0xffff
}

/// The status word falls under one of the four classifications.  The one
/// family of patterns left out — a low byte of `0xff` anywhere but in the
/// continue sentinel itself — is not produced by the wait-status encoding.
pub open spec fn is_decodable(status: i32) -> bool {
    is_exited(status) || is_signaled(status) || is_stopped(status) || is_continued(status)
}

/// The exit code of a normal exit: bits 8..16 read as a signed byte.
pub open spec fn spec_exit_code(status: i32) -> i8 {
    let b = (status >> 8) & 0xff;
    if b < 0x80 {
        b as i8
    } else {
        (b - 0x100) as i8
    }
}

/// The signal that terminated the child: the low seven bits.
pub open spec fn spec_term_signal(status: i32) -> i32 {
    status & 0x7f
}

/// Whether a fatal signal produced a core image: bit 7.
pub open spec fn spec_dumped_core(status: i32) -> bool {
    status & 0x80 != 0
}

/// The signal that stopped the child: bits 8..16.
pub open spec fn spec_stop_signal(status: i32) -> i32 {
    (status & 0xff00) >> 8
}

/// What [`decode`] returns for each classifiable status word.
pub open spec fn spec_decode(pid: i32, status: i32) -> WaitStatus {
    if is_exited(status) {
        WaitStatus::Exited(pid, spec_exit_code(status))
    } else if is_signaled(status) {
        WaitStatus::Signaled(pid, spec_term_signal(status), spec_dumped_core(status))
    } else if is_stopped(status) {
        WaitStatus::Stopped(pid, spec_stop_signal(status))
    } else {
        WaitStatus::Continued(pid)
    }
}

/// At most one of the four classifications holds of any status word.
pub proof fn lemma_classification_exclusive(status: i32)
    by (bit_vector)
    ensures
        is_exited(status) ==> !is_signaled(status) && !is_stopped(status) && !is_continued(
            status,
        ),
        is_signaled(status) ==> !is_exited(status) && !is_stopped(status) && !is_continued(
            status,
        ),
        is_stopped(status) ==> !is_exited(status) && !is_signaled(status) && !is_continued(
            status,
        ),
        is_continued(status) ==> !is_exited(status) && !is_signaled(status) && !is_stopped(
            status,
        ),
{
}

/// At least one of the four classifications holds of any status word other
/// than the unclassified family: a low byte of `0xff` in anything but the
/// continue sentinel `0xffff` matches no classification, and the
/// precondition leaves exactly those words out.
pub proof fn lemma_classification_exhaustive(status: i32)
    by (bit_vector)
    requires
        status & 0xff != 0xff || status == 0xffff,
    ensures
        is_decodable(status),
{
}

/// Whether the child exited normally.
pub fn exited(status: i32) -> (r: bool)
    ensures
        r == is_exited(status),
{
    (status & 0x7f) == 0
}

/// The exit code of a child that exited normally: bits 8..16 as a signed
/// byte.
pub fn exit_status(status: i32) -> (r: i8)
    ensures
        r == spec_exit_code(status),
{
    proof {
        assert((((status & 0xff00) >> 8) as i8) == spec_exit_code(status)) by (bit_vector);
    }
    #[verifier::truncate] (((status & 0xff00) >> 8) as i8)
}

/// Whether the child was terminated by a signal.
pub fn signaled(status: i32) -> (r: bool)
    ensures
        r == is_signaled(status),
{
    let low7: i32 = status & 0x7f;
    low7 != 0 && low7 != 0x7f
}

/// The signal that terminated the child.
pub fn term_signal(status: i32) -> (r: i32)
    ensures
        r == spec_term_signal(status),
        0 <= r <= 0x7f,
{
    proof {
        assert(0 <= (status & 0x7f) <= 0x7f) by (bit_vector);
    }
    status & 0x7f
}

/// Whether a terminating signal produced a core image.
pub fn dumped_core(status: i32) -> (r: bool)
    ensures
        r == spec_dumped_core(status),
{
    (status & 0x80) != 0
}

/// Whether the child is stopped.
pub fn stopped(status: i32) -> (r: bool)
    ensures
        r == is_stopped(status),
{
    (status & 0xff) == 0x7f
}

/// The signal that stopped the child.
pub fn stop_signal(status: i32) -> (r: i32)
    ensures
        r == spec_stop_signal(status),
        0 <= r <= 0xff,
{
    proof {
        assert(0 <= ((status & 0xff00) >> 8) <= 0xff) by (bit_vector);
    }
    (status & 0xff00) >> 8
}

/// Whether the child resumed after a stop.
pub fn continued(status: i32) -> (r: bool)
    ensures
        r == is_continued(status),
{
    status == 0xffff
}

/// Classifies a raw status word reported for the child `pid` into exactly
/// one [`WaitStatus`] variant.
///
/// The precondition admits every word the wait-status encoding produces; by
/// [`lemma_classification_exclusive`] the chosen variant is the only one
/// whose classification holds.
pub fn decode(pid: i32, status: i32) -> (r: WaitStatus)
    requires
        is_decodable(status),
    ensures
        r == spec_decode(pid, status),
        is_exited(status) ==> r == WaitStatus::Exited(pid, spec_exit_code(status)),
        is_signaled(status) ==> r == WaitStatus::Signaled(
            pid,
            spec_term_signal(status),
            spec_dumped_core(status),
        ),
        is_stopped(status) ==> r == WaitStatus::Stopped(pid, spec_stop_signal(status)),
        is_continued(status) ==> r == WaitStatus::Continued(pid),
{
    proof {
        lemma_classification_exclusive(status);
    }
    if exited(status) {
        WaitStatus::Exited(pid, exit_status(status))
    } else if signaled(status) {
        WaitStatus::Signaled(pid, term_signal(status), dumped_core(status))
    } else if stopped(status) {
        WaitStatus::Stopped(pid, stop_signal(status))
    } else {
        WaitStatus::Continued(pid)
    }
}

} // verus!
