use ptyview::render::RenderError;
use ptyview::report::{
    classify_read_error, classify_write_error, compose_failure_report, decimal_text,
    describe_colour_error, describe_io_failure, describe_os_error, describe_stalled_write, describe_unhandled_input, farewell, IoClass,
    IoFailure, IoKind, OS_IO_ERROR,
};

fn failure(kind: IoKind, os_error: Option<i32>, kind_text: &str, message: &str) -> IoFailure {
    IoFailure { kind, os_error, kind_text: kind_text.to_string(), message: message.to_string() }
}

#[test]
fn the_designated_error_number_is_five() {
    assert_eq!(OS_IO_ERROR, 5);
}

#[test]
fn read_error_with_the_designated_number_means_the_child_exited() {
    assert_eq!(classify_read_error(IoKind::Unlisted, Some(5)), IoClass::ChildExited);
    assert_eq!(classify_read_error(IoKind::Interrupted, Some(5)), IoClass::ChildExited);
    assert_eq!(classify_read_error(IoKind::WouldBlock, Some(5)), IoClass::ChildExited);
}

#[test]
fn interrupted_and_would_block_reads_are_transient() {
    assert_eq!(classify_read_error(IoKind::Interrupted, Some(4)), IoClass::Transient);
    assert_eq!(classify_read_error(IoKind::Interrupted, None), IoClass::Transient);
    assert_eq!(classify_read_error(IoKind::WouldBlock, Some(11)), IoClass::Transient);
    assert_eq!(classify_read_error(IoKind::WouldBlock, None), IoClass::Transient);
}

#[test]
fn other_read_errors_are_fatal() {
    assert_eq!(classify_read_error(IoKind::Unlisted, None), IoClass::Fatal);
    assert_eq!(classify_read_error(IoKind::Unlisted, Some(13)), IoClass::Fatal);
    assert_eq!(classify_read_error(IoKind::Unlisted, Some(-5)), IoClass::Fatal);
    assert_eq!(classify_read_error(IoKind::Unlisted, Some(4)), IoClass::Fatal);
}

#[test]
fn write_errors_are_transient_or_fatal() {
    assert_eq!(classify_write_error(IoKind::Interrupted), IoClass::Transient);
    assert_eq!(classify_write_error(IoKind::WouldBlock), IoClass::Transient);
    assert_eq!(classify_write_error(IoKind::Unlisted), IoClass::Fatal);
}

#[test]
fn colour_reports() {
    assert_eq!(
        describe_colour_error(RenderError::ColourSpecFound),
        "encountered a colour specification, which isn't currently supported"
    );
    assert_eq!(
        describe_colour_error(RenderError::ColourIndexFound),
        "encountered a colour index, which isn't currently supported"
    );
}

#[test]
fn failure_report_from_its_parts() {
    assert_eq!(
        compose_failure_report("TimedOut", "Some(110)", "timed out"),
        "couldn't read from PTY (error kind: TimedOut, os error: Some(110)): timed out"
    );
    assert_eq!(compose_failure_report("", "", ""), "couldn't read from PTY (error kind: , os error: ): ");
}

#[test]
fn failure_report_prints_the_error_number() {
    let f = failure(IoKind::Unlisted, Some(13), "PermissionDenied", "Permission denied (os error 13)");
    assert_eq!(
        describe_io_failure(&f),
        "couldn't read from PTY (error kind: PermissionDenied, os error: Some(13)): Permission denied (os error 13)"
    );
    let g = failure(IoKind::Unlisted, Some(-7), "Other", "odd");
    assert_eq!(
        describe_io_failure(&g),
        "couldn't read from PTY (error kind: Other, os error: Some(-7)): odd"
    );
}

#[test]
fn failure_report_without_an_error_number() {
    let f = failure(IoKind::Unlisted, None, "UnexpectedEof", "early end");
    assert_eq!(
        describe_io_failure(&f),
        "couldn't read from PTY (error kind: UnexpectedEof, os error: None): early end"
    );
}

#[test]
fn stalled_write_report() {
    assert_eq!(describe_stalled_write(), "PTY is unable to accept bytes");
}

#[test]
fn unhandled_input_report() {
    assert_eq!(describe_unhandled_input("KeyF1"), "unhandled input: KeyF1");
    assert_eq!(describe_unhandled_input(""), "unhandled input: ");
}

#[test]
fn farewell_line() {
    assert_eq!(farewell("unhandled input: KeyF1"), "process exited: unhandled input: KeyF1");
}

#[test]
fn decimal_text_of_small_and_large_numbers() {
    assert_eq!(decimal_text(0), "0");
    assert_eq!(decimal_text(7), "7");
    assert_eq!(decimal_text(9), "9");
    assert_eq!(decimal_text(10), "10");
    assert_eq!(decimal_text(105), "105");
    assert_eq!(decimal_text(2147483648), "2147483648");
    assert_eq!(decimal_text(u32::MAX), "4294967295");
}

#[test]
fn decimal_text_agrees_with_the_standard_formatter() {
    let mut n: u32 = 0;
    loop {
        assert_eq!(decimal_text(n), format!("{}", n));
        match n.checked_add(n / 3 + 1) {
            Some(next) => n = next,
            None => break,
        }
    }
}

#[test]
fn os_error_in_words() {
    assert_eq!(describe_os_error(None), "None");
    assert_eq!(describe_os_error(Some(0)), "Some(0)");
    assert_eq!(describe_os_error(Some(5)), "Some(5)");
    assert_eq!(describe_os_error(Some(-1)), "Some(-1)");
    assert_eq!(describe_os_error(Some(i32::MAX)), "Some(2147483647)");
    assert_eq!(describe_os_error(Some(i32::MIN)), "Some(-2147483648)");
}

#[test]
fn os_error_in_words_agrees_with_the_standard_formatter() {
    for code in [None, Some(1), Some(11), Some(-40), Some(32767), Some(i32::MIN), Some(i32::MAX)] {
        assert_eq!(describe_os_error(code), format!("{:?}", code));
    }
}
