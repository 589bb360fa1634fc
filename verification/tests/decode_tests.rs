use procwait::status::{
    continued, decode, dumped_core, exit_status, exited, signaled, stop_signal, stopped,
    term_signal, WaitStatus,
};

#[test]
fn decode_exit_code() {
    // Low seven bits zero: a normal exit, code in bits 8..16.
    assert_eq!(decode(5, 12 << 8), WaitStatus::Exited(5, 12));
    assert_eq!(decode(1, 0), WaitStatus::Exited(1, 0));
}

#[test]
fn decode_exit_code_signed() {
    // 0xff in bits 8..16 reads as -1: the code is a signed byte.
    assert_eq!(decode(2, 0xff00), WaitStatus::Exited(2, -1));
    assert_eq!(exit_status(0x8000), -128);
    assert_eq!(exit_status(0x7f00), 127);
}

#[test]
fn decode_signal_without_core() {
    // Low seven bits carry the signal; bit 7 clear: no core dump.
    assert_eq!(decode(7, 9), WaitStatus::Signaled(7, 9, false));
    assert_eq!(decode(7, 15), WaitStatus::Signaled(7, 15, false));
}

#[test]
fn decode_signal_with_core() {
    // 0x8b = signal 11 with bit 7 set: core dumped.
    assert_eq!(decode(7, 0x8b), WaitStatus::Signaled(7, 11, true));
}

#[test]
fn decode_stop_signal() {
    // Low byte 0x7f: stopped; the stopping signal sits in bits 8..16.
    assert_eq!(decode(9, 0x137f), WaitStatus::Stopped(9, 19));
    assert_eq!(decode(4, 0x7f), WaitStatus::Stopped(4, 0));
}

#[test]
fn decode_continue_sentinel() {
    assert_eq!(decode(3, 0xffff), WaitStatus::Continued(3));
}

#[test]
fn predicate_values() {
    assert!(exited(0));
    assert!(exited(12 << 8));
    assert!(!exited(9));
    assert_eq!(exit_status(12 << 8), 12);

    assert!(signaled(9));
    assert!(signaled(0x8b));
    assert!(!signaled(0));
    assert!(!signaled(0x7f));
    assert_eq!(term_signal(0x8b), 11);
    assert!(dumped_core(0x8b));
    assert!(!dumped_core(9));

    assert!(stopped(0x137f));
    assert!(!stopped(0xff));
    assert_eq!(stop_signal(0x137f), 19);

    assert!(continued(0xffff));
    assert!(!continued(0x7f));
}

#[test]
fn classification_is_a_partition() {
    // Over the whole 16-bit status range the four classifications never
    // overlap, and exactly one holds wherever the low byte is not the
    // reserved 0xff pattern (the continue sentinel being the one status
    // word that carries it).
    for s in 0..=0xffff_i32 {
        let mut count = 0;
        if exited(s) {
            count += 1;
        }
        if signaled(s) {
            count += 1;
        }
        if stopped(s) {
            count += 1;
        }
        if continued(s) {
            count += 1;
        }
        assert!(count <= 1);
        let classified = (s & 0xff) != 0xff || s == 0xffff;
        assert_eq!(count == 1, classified);
    }
}
