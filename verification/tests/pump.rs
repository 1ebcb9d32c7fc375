use telnet_client::pump::{
    inbound_step, input_error_message, input_finished_message, outbound_step, outcome_exit_code,
    outcome_message, shutdown_error_message, InboundAction, InboundEvent, OutboundAction,
    OutboundEvent, SessionOutcome,
};

fn sent_bytes(lines: Vec<Vec<u8>>) -> Vec<u8> {
    let mut sent: Vec<u8> = Vec::new();
    for line in lines {
        match outbound_step(OutboundEvent::Line(line)) {
            OutboundAction::Send(d) => sent.extend_from_slice(&d),
            OutboundAction::Shutdown => break,
            OutboundAction::ReportAndShutdown => break,
        }
    }
    sent
}

fn printed_bytes(chunks: Vec<Vec<u8>>) -> Vec<u8> {
    let mut printed: Vec<u8> = Vec::new();
    for chunk in chunks {
        match inbound_step(InboundEvent::Bytes(chunk)) {
            InboundAction::Output(d) => printed.extend_from_slice(&d),
            InboundAction::Exit(_) => break,
        }
    }
    printed
}

#[test]
fn server_hello_then_close() {
    // The peer sends one line and closes: the bytes are relayed verbatim,
    // then the zero-length read exits with success and the close message.
    let hello = b"hello\n".to_vec();
    match inbound_step(InboundEvent::Bytes(hello.clone())) {
        InboundAction::Output(d) => assert_eq!(d, hello),
        InboundAction::Exit(_) => panic!("a non-empty read must not exit"),
    }
    match inbound_step(InboundEvent::Bytes(Vec::new())) {
        InboundAction::Exit(o) => {
            assert_eq!(o, SessionOutcome::PeerClosed);
            assert_eq!(outcome_message(o), "Connection closed by server.");
            assert_eq!(outcome_exit_code(o), 0);
        }
        InboundAction::Output(_) => panic!("a zero-length read must exit"),
    }
}

#[test]
fn reset_exits_with_success() {
    match inbound_step(InboundEvent::Reset) {
        InboundAction::Exit(o) => {
            assert_eq!(o, SessionOutcome::ConnectionReset);
            assert_eq!(outcome_message(o), "Connection was reset by the server.");
            assert_eq!(outcome_exit_code(o), 0);
        }
        InboundAction::Output(_) => panic!("a reset must exit"),
    }
}

#[test]
fn read_error_exits_with_success() {
    match inbound_step(InboundEvent::Failed) {
        InboundAction::Exit(o) => {
            assert_eq!(o, SessionOutcome::ReadError);
            assert_eq!(outcome_message(o), "Error reading from socket");
            assert_eq!(outcome_exit_code(o), 0);
        }
        InboundAction::Output(_) => panic!("a failed read must exit"),
    }
}

#[test]
fn input_line_then_eof_shuts_down() {
    // The user types one line and closes standard input: the line goes to
    // the connection verbatim, then the zero-length read shuts down.
    let line = b"abc\n".to_vec();
    match outbound_step(OutboundEvent::Line(line.clone())) {
        OutboundAction::Send(d) => assert_eq!(d, line),
        _ => panic!("a non-empty line must be sent"),
    }
    assert!(matches!(
        outbound_step(OutboundEvent::Line(Vec::new())),
        OutboundAction::Shutdown
    ));
    assert_eq!(input_finished_message(), "Input finished, shutting down socket.");
}

#[test]
fn input_error_reports_then_shuts_down() {
    assert!(matches!(
        outbound_step(OutboundEvent::Failed),
        OutboundAction::ReportAndShutdown
    ));
    assert_eq!(input_error_message(), "Error reading from stdin");
    assert_eq!(shutdown_error_message(), "Error shutting down socket");
}

#[test]
fn lone_newline_is_a_line_not_eof() {
    // A line of one newline byte is non-empty and is sent; only a
    // zero-length read means end of input, so nothing empty is ever sent.
    match outbound_step(OutboundEvent::Line(b"\n".to_vec())) {
        OutboundAction::Send(d) => assert_eq!(d, b"\n".to_vec()),
        _ => panic!("a lone newline must be sent"),
    }
}

#[test]
fn outbound_round_trip_preserves_bytes_and_order() {
    // One line longer than the 512-byte inbound chunk, then two short
    // lines, then end of input: everything before the end is transmitted
    // byte for byte, newlines included, in order.
    let mut long_line: Vec<u8> = vec![b'x'; 599];
    long_line.push(b'\n');
    let lines = vec![long_line.clone(), b"abc\n".to_vec(), b"\n".to_vec(), Vec::new()];

    let mut expected: Vec<u8> = Vec::new();
    expected.extend_from_slice(&long_line);
    expected.extend_from_slice(b"abc\n");
    expected.extend_from_slice(b"\n");

    assert_eq!(sent_bytes(lines), expected);
}

#[test]
fn outbound_stops_at_end_of_input() {
    // Lines after the zero-length read are never sent.
    let lines = vec![b"one\n".to_vec(), Vec::new(), b"two\n".to_vec()];
    assert_eq!(sent_bytes(lines), b"one\n".to_vec());
}

#[test]
fn inbound_chunks_reassemble_verbatim() {
    // 600 bytes arriving as a full 512-byte chunk and an 88-byte chunk
    // are printed as exactly those 600 bytes, in order.
    let payload: Vec<u8> = (0..600u32).map(|i| (i % 251) as u8).collect();
    let chunks = vec![
        payload[..512].to_vec(),
        payload[512..].to_vec(),
        Vec::new(),
    ];
    assert_eq!(printed_bytes(chunks), payload);
}
