use posix_tty::capability::{is_unsupported_term, same_ignoring_case};
use posix_tty::codepoint::CharBuffer;
use posix_tty::error::ReadlineError;
use posix_tty::mode::{ApplyWhen, FlagBits, Mode, RestoreAction};
use posix_tty::reader::{Reply, Request};
use posix_tty::resize::ResizeMonitor;
use posix_tty::stdin::{ReadFailure, ReadStep, StdinRaw};
use posix_tty::terminal::{
    get_win_size, ClearAction, ClearStep, PosixTerminal, RawModeAction, RawModeStep,
};

fn linux_bits() -> FlagBits {
    FlagBits {
        brkint: 0o2,
        icrnl: 0o400,
        inpck: 0o20,
        istrip: 0o40,
        ixon: 0o2000,
        cs8: 0o60,
        echo: 0o10,
        icanon: 0o2,
        iexten: 0o100000,
        isig: 0o1,
    }
}

fn cooked() -> Mode {
    Mode {
        input_flags: 0o42402,
        output_flags: 0o5,
        control_flags: 0o2277,
        local_flags: 0o105073,
        min_bytes: 4,
        read_timeout: 7,
    }
}

#[test]
fn test_unsupported_term() {
    assert_eq!(false, is_unsupported_term(Some("xterm")));
    assert_eq!(true, is_unsupported_term(Some("dumb")));
}

#[test]
fn unsupported_term_ignores_case() {
    assert!(is_unsupported_term(Some("DUMB")));
    assert!(is_unsupported_term(Some("Dumb")));
    assert!(is_unsupported_term(Some("dumb")));
    assert!(is_unsupported_term(Some("cons25")));
    assert!(is_unsupported_term(Some("CONS25")));
    assert!(is_unsupported_term(Some("emacs")));
    assert!(is_unsupported_term(Some("eMaCs")));
    assert!(!is_unsupported_term(Some("xterm")));
    assert!(!is_unsupported_term(Some("xterm-256color")));
    assert!(!is_unsupported_term(Some("dumb ")));
    assert!(!is_unsupported_term(Some("dum")));
    assert!(!is_unsupported_term(Some("cons26")));
}

#[test]
fn unset_or_empty_term_is_supported() {
    assert!(!is_unsupported_term(None));
    assert!(!is_unsupported_term(Some("")));
}

#[test]
fn comparison_folds_ascii_letters_only() {
    assert!(same_ignoring_case("AbC", "aBc"));
    assert!(same_ignoring_case("", ""));
    assert!(!same_ignoring_case("abc", "abcd"));
    assert!(!same_ignoring_case("@", "`"));
    assert!(!same_ignoring_case("[", "{"));
    assert!(!same_ignoring_case("\u{c9}", "\u{e9}"));
}

#[test]
fn window_size_falls_back_to_80_by_24() {
    assert_eq!(get_win_size(None), (80, 24));
    assert_eq!(get_win_size(Some((132, 43))), (132, 43));
    assert_eq!(get_win_size(Some((0, 0))), (0, 0));
    let mut monitor = ResizeMonitor::new();
    let term = PosixTerminal::new(Some("xterm"), true, true, &mut monitor);
    assert_eq!(term.get_columns(None), 80);
    assert_eq!(term.get_rows(None), 24);
    assert_eq!(term.get_columns(Some((100, 30))), 100);
    assert_eq!(term.get_rows(Some((100, 30))), 30);
}

#[test]
fn terminal_records_what_it_was_told() {
    let mut monitor = ResizeMonitor::new();
    let term = PosixTerminal::new(Some("xterm"), true, true, &mut monitor);
    assert!(!term.is_unsupported());
    assert!(term.is_stdin_tty());
    assert!(monitor.is_installed());

    let mut monitor = ResizeMonitor::new();
    let term = PosixTerminal::new(Some("Emacs"), true, true, &mut monitor);
    assert!(term.is_unsupported());
    assert!(term.is_stdin_tty());
    assert!(!monitor.is_installed());

    let mut monitor = ResizeMonitor::new();
    let term = PosixTerminal::new(None, false, true, &mut monitor);
    assert!(!term.is_unsupported());
    assert!(!term.is_stdin_tty());
    assert!(!monitor.is_installed());

    let mut monitor = ResizeMonitor::new();
    let _ = PosixTerminal::new(None, true, false, &mut monitor);
    assert!(!monitor.is_installed());
}

#[test]
fn handler_is_installed_once() {
    let mut monitor = ResizeMonitor::new();
    assert!(!monitor.is_installed());
    assert!(monitor.install_sigwinch_handler());
    assert!(monitor.is_installed());
    assert!(!monitor.install_sigwinch_handler());
    assert!(monitor.is_installed());
    let _ = PosixTerminal::new(Some("xterm"), true, true, &mut monitor);
    assert!(monitor.is_installed());
    assert!(!monitor.install_sigwinch_handler());
}

#[test]
fn resize_is_reported_exactly_once() {
    let mut monitor = ResizeMonitor::new();
    let term = PosixTerminal::new(Some("xterm"), true, true, &mut monitor);
    assert!(!term.sigwinch(&mut monitor));
    monitor.sigwinch_handler();
    assert!(term.sigwinch(&mut monitor));
    assert!(!term.sigwinch(&mut monitor));
    assert!(!term.sigwinch(&mut monitor));
    monitor.sigwinch_handler();
    monitor.sigwinch_handler();
    monitor.sigwinch_handler();
    assert!(term.sigwinch(&mut monitor));
    assert!(!term.sigwinch(&mut monitor));
    assert!(monitor.is_installed());
    monitor.sigwinch_handler();
    assert!(monitor.poll_and_clear());
    assert!(!monitor.poll_and_clear());
}

#[test]
fn raw_mode_on_a_non_terminal_is_refused() {
    let mut monitor = ResizeMonitor::new();
    let term = PosixTerminal::new(Some("xterm"), false, true, &mut monitor);
    let bits = linux_bits();
    let refused = RawModeAction::Failed(ReadlineError::NotATerminal);
    assert_eq!(term.enable_raw_mode(RawModeStep::Begin, &bits), refused);
    assert_eq!(term.enable_raw_mode(RawModeStep::Captured(Ok(cooked())), &bits), refused);
    assert_eq!(term.enable_raw_mode(RawModeStep::Captured(Err(25)), &bits), refused);
    assert_eq!(term.enable_raw_mode(RawModeStep::Applied(cooked(), Ok(())), &bits), refused);
}

#[test]
fn raw_mode_on_a_terminal() {
    let mut monitor = ResizeMonitor::new();
    let term = PosixTerminal::new(Some("xterm"), true, true, &mut monitor);
    let bits = linux_bits();
    assert_eq!(term.enable_raw_mode(RawModeStep::Begin, &bits), RawModeAction::Capture);
    let saved = cooked();
    let raw = Mode {
        input_flags: 0o40000,
        output_flags: 0o5,
        control_flags: 0o2277,
        local_flags: 0o5060,
        min_bytes: 1,
        read_timeout: 0,
    };
    assert_eq!(
        term.enable_raw_mode(RawModeStep::Captured(Ok(saved)), &bits),
        RawModeAction::Apply { raw, when: ApplyWhen::Drain, saved }
    );
    assert_eq!(
        term.enable_raw_mode(RawModeStep::Applied(saved, Ok(())), &bits),
        RawModeAction::Entered(saved)
    );
    assert_eq!(saved.disable_raw_mode(None), RestoreAction::Apply(saved, ApplyWhen::Drain));
    assert_eq!(saved.disable_raw_mode(Some(Ok(()))), RestoreAction::Restored);
    assert_eq!(
        saved.disable_raw_mode(Some(Err(5))),
        RestoreAction::Failed(ReadlineError::Os(5))
    );
}

#[test]
fn raw_mode_failures_carry_the_error_number() {
    let mut monitor = ResizeMonitor::new();
    let term = PosixTerminal::new(None, true, true, &mut monitor);
    let bits = linux_bits();
    assert_eq!(
        term.enable_raw_mode(RawModeStep::Captured(Err(9)), &bits),
        RawModeAction::Failed(ReadlineError::Os(9))
    );
    assert_eq!(
        term.enable_raw_mode(RawModeStep::Applied(cooked(), Err(5)), &bits),
        RawModeAction::Failed(ReadlineError::Os(5))
    );
}

#[test]
fn raw_discipline_is_derived_from_the_current_one() {
    let bits = linux_bits();
    let zero = Mode {
        input_flags: 0,
        output_flags: 0,
        control_flags: 0,
        local_flags: 0,
        min_bytes: 0,
        read_timeout: 0,
    };
    let raw = zero.raw(&bits);
    assert_eq!(raw.input_flags, 0);
    assert_eq!(raw.output_flags, 0);
    assert_eq!(raw.control_flags, 0o60);
    assert_eq!(raw.local_flags, 0);
    assert_eq!(raw.min_bytes, 1);
    assert_eq!(raw.read_timeout, 0);

    let full = Mode {
        input_flags: u64::MAX,
        output_flags: u64::MAX,
        control_flags: u64::MAX,
        local_flags: u64::MAX,
        min_bytes: 255,
        read_timeout: 255,
    };
    let raw = full.raw(&bits);
    assert_eq!(raw.input_flags, u64::MAX & !0o2462);
    assert_eq!(raw.output_flags, u64::MAX);
    assert_eq!(raw.control_flags, u64::MAX);
    assert_eq!(raw.local_flags, u64::MAX & !0o100013);
    assert_eq!(raw.min_bytes, 1);
    assert_eq!(raw.read_timeout, 0);
    assert_eq!(raw.raw(&bits), raw);
}

#[test]
fn clear_screen_homes_and_clears() {
    let mut monitor = ResizeMonitor::new();
    let mut term = PosixTerminal::new(Some("xterm"), true, true, &mut monitor);
    assert_eq!(term.clear_screen(ClearStep::Begin), ClearAction::Write(b"\x1b[H\x1b[2J".to_vec()));
    assert_eq!(term.clear_screen(ClearStep::Written(Ok(()))), ClearAction::Flush);
    assert_eq!(term.clear_screen(ClearStep::Flushed(Ok(()))), ClearAction::Cleared);
    assert_eq!(
        term.clear_screen(ClearStep::Written(Err(32))),
        ClearAction::Failed(ReadlineError::Io(32))
    );
    assert_eq!(
        term.clear_screen(ClearStep::Flushed(Err(28))),
        ClearAction::Failed(ReadlineError::Io(28))
    );
}

#[test]
fn created_reader_starts_with_a_read() {
    let mut monitor = ResizeMonitor::new();
    let term = PosixTerminal::new(Some("xterm"), true, true, &mut monitor);
    let mut reader = term.create_reader().unwrap();
    assert_eq!(reader.request(10), Request::Char);
    assert!(reader.next_key(Reply::Read(Ok(Some('q')))).is_some());
}

#[test]
fn interrupted_reads_are_retried() {
    let stdin = StdinRaw {};
    assert_eq!(stdin.read(Ok(0)), ReadStep::Eof);
    assert_eq!(stdin.read(Ok(1)), ReadStep::Done(1));
    assert_eq!(stdin.read(Ok(3)), ReadStep::Done(3));
    assert_eq!(stdin.read(Err(ReadFailure { errno: 4, interrupted: true })), ReadStep::Retry);
    assert_eq!(stdin.read(Err(ReadFailure { errno: 5, interrupted: false })), ReadStep::Failed(5));
}

#[test]
fn bytes_are_assembled_into_replies() {
    let stdin = StdinRaw {};
    let mut buffer = CharBuffer::new();
    let interrupted = Err(ReadFailure { errno: 4, interrupted: true });
    let failed = Err(ReadFailure { errno: 5, interrupted: false });
    assert_eq!(stdin.next_reply(&mut buffer, Ok(1), b'a', 84), Some(Reply::Read(Ok(Some('a')))));
    assert_eq!(stdin.next_reply(&mut buffer, interrupted, 0, 84), None);
    assert_eq!(stdin.next_reply(&mut buffer, Ok(1), 0xe2, 84), None);
    assert_eq!(stdin.next_reply(&mut buffer, interrupted, 0, 84), None);
    assert_eq!(stdin.next_reply(&mut buffer, Ok(1), 0x82, 84), None);
    assert_eq!(
        stdin.next_reply(&mut buffer, Ok(1), 0xac, 84),
        Some(Reply::Read(Ok(Some('\u{20ac}'))))
    );
    assert_eq!(stdin.next_reply(&mut buffer, Ok(0), 0, 84), Some(Reply::Read(Ok(None))));
    assert_eq!(stdin.next_reply(&mut buffer, Ok(1), 0xc3, 84), None);
    assert_eq!(stdin.next_reply(&mut buffer, Ok(0), 0, 84), Some(Reply::Read(Err(84))));
    assert!(!buffer.is_partial());
    assert_eq!(stdin.next_reply(&mut buffer, Ok(1), 0xc3, 84), None);
    assert_eq!(stdin.next_reply(&mut buffer, failed, 0, 84), Some(Reply::Read(Err(5))));
    assert!(!buffer.is_partial());
    assert_eq!(stdin.next_reply(&mut buffer, Ok(1), 0xff, 84), Some(Reply::Read(Err(84))));
    assert_eq!(stdin.next_reply(&mut buffer, Ok(1), 0x1b, 84), Some(Reply::Read(Ok(Some('\x1b')))));
}
