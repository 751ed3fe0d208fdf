use codemelted::process::{
    decode_output, request_stream, PumpAction, PumpRead, PumpStream, ProcessState,
    BACKOFF_PAUSE_MS,
};

#[test]
fn process_echo_round_trip() {
    let mut p = ProcessState::new();
    for b in "hello\n".bytes() {
        assert_eq!(p.pump(PumpStream::Stdout, PumpRead::Byte(b)), PumpAction::Read(PumpStream::Stdout));
    }
    assert_eq!(p.get_message(None), "hello\n");
    assert_eq!(p.get_message(None), "");
}

#[test]
fn process_separates_error_stream() {
    let mut p = ProcessState::new();
    p.pump(PumpStream::Stdout, PumpRead::Byte(b'o'));
    p.pump(PumpStream::Stderr, PumpRead::Byte(b'e'));
    assert_eq!(p.get_message(Some("error")), "e");
    assert_eq!(p.get_message(Some("output")), "o");
}

#[test]
fn process_invalid_utf8_is_dropped() {
    let mut p = ProcessState::new();
    p.pump(PumpStream::Stdout, PumpRead::Byte(0xff));
    assert_eq!(p.get_message(None), "");
    p.pump(PumpStream::Stdout, PumpRead::Byte(b'k'));
    assert_eq!(p.get_message(None), "k");
}

#[test]
fn process_decodes_multibyte_text() {
    assert_eq!(decode_output(vec![0xc3, 0xa9]), "\u{e9}");
    assert_eq!(decode_output(vec![0x68, 0x69]), "hi");
    assert_eq!(decode_output(vec![0xc3]), "");
    assert_eq!(decode_output(Vec::new()), "");
}

#[test]
fn process_request_selects_stream() {
    assert_eq!(request_stream(Some("error")), PumpStream::Stderr);
    assert_eq!(request_stream(Some("errors")), PumpStream::Stdout);
    assert_eq!(request_stream(None), PumpStream::Stdout);
}

#[test]
fn process_backs_off_after_empty_reads() {
    let mut p = ProcessState::new();
    let mut pauses = 0;
    for _ in 0..5 {
        assert_eq!(p.pump(PumpStream::Stdout, PumpRead::Empty), PumpAction::Read(PumpStream::Stderr));
        if p.pump(PumpStream::Stderr, PumpRead::Empty) == PumpAction::Pause(BACKOFF_PAUSE_MS) {
            pauses += 1;
        }
    }
    assert_eq!(pauses, 1);
    p.pump(PumpStream::Stdout, PumpRead::Byte(b'x'));
    assert_eq!(p.pump(PumpStream::Stdout, PumpRead::Empty), PumpAction::Read(PumpStream::Stderr));
    assert_eq!(p.pump(PumpStream::Stderr, PumpRead::Empty), PumpAction::Read(PumpStream::Stdout));
}

#[test]
fn process_terminate_exits_at_idle_round() {
    let mut p = ProcessState::new();
    p.terminate();
    assert_eq!(p.pump(PumpStream::Stdout, PumpRead::Byte(b'a')), PumpAction::Read(PumpStream::Stdout));
    assert!(p.is_running());
    assert_eq!(p.pump(PumpStream::Stdout, PumpRead::Empty), PumpAction::Read(PumpStream::Stderr));
    assert_eq!(p.pump(PumpStream::Stderr, PumpRead::Empty), PumpAction::Exit);
    assert!(!p.is_running());
    p.terminate();
    assert_eq!(p.pump(PumpStream::Stdout, PumpRead::Byte(b'b')), PumpAction::Exit);
    assert!(!p.is_running());
    assert_eq!(p.get_message(None), "a");
}

#[test]
fn process_failed_read_restarts_round() {
    let mut p = ProcessState::new();
    assert_eq!(p.pump(PumpStream::Stderr, PumpRead::Failed), PumpAction::Read(PumpStream::Stdout));
    assert!(p.is_running());
}

#[test]
fn process_failed_read_after_terminate_exits() {
    let mut p = ProcessState::new();
    p.terminate();
    assert_eq!(p.pump(PumpStream::Stdout, PumpRead::Failed), PumpAction::Exit);
    assert!(!p.is_running());
}

#[test]
fn process_failed_reads_back_off() {
    let mut p = ProcessState::new();
    let mut pauses = 0;
    for _ in 0..10 {
        if p.pump(PumpStream::Stdout, PumpRead::Failed) == PumpAction::Pause(BACKOFF_PAUSE_MS) {
            pauses += 1;
        }
    }
    assert_eq!(pauses, 1);
    assert!(p.is_running());
}
