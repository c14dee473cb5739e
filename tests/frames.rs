use zachtek::{
    all_codes, decode_stream, lookup, poll_order, process_line, split_frame, strip_line,
    write_code, ErrorKind, FrameError, LineAssembler, Mode, Response, ResponseKind,
};

#[test]
fn reader_absorbs_repeated_terminators() {
    let results = decode_stream(b"\n\n{CCM}_S\n");
    assert_eq!(results.len(), 1);
    match &results[0] {
        Ok(Response::CurrentModeCommand(c)) => assert_eq!(c.mode, Mode::Sig),
        other => panic!("{:?}", other),
    }
}

#[test]
fn carriage_returns_are_dropped() {
    let results = decode_stream(b"\r\n{CCM}_W\r\n\r\n");
    assert_eq!(results.len(), 1);
    match &results[0] {
        Ok(Response::CurrentModeCommand(c)) => assert_eq!(c.mode, Mode::Wspr),
        other => panic!("{:?}", other),
    }
}

#[test]
fn short_line_is_too_short() {
    let r = process_line(b"{CC}\r\n".to_vec());
    assert_eq!(
        r,
        Err(FrameError { kind: ErrorKind::FrameTooShort, line: b"{CC}".to_vec() })
    );
    let r = process_line(b"\r\n".to_vec());
    assert_eq!(r, Err(FrameError { kind: ErrorKind::FrameTooShort, line: Vec::new() }));
    let results = decode_stream(b"{AB\n{CCM}_N\n");
    assert_eq!(results.len(), 2);
    assert!(matches!(&results[0], Err(e) if e.kind == ErrorKind::FrameTooShort));
    assert!(matches!(&results[1], Ok(Response::CurrentModeCommand(_))));
}

#[test]
fn unknown_code_leaves_stream_decodable() {
    let results = decode_stream(b"{ZZZ}_S\n{CCM}_S\n");
    assert_eq!(results.len(), 2);
    assert_eq!(
        results[0],
        Err(FrameError { kind: ErrorKind::UnknownCode, line: b"{ZZZ}_S".to_vec() })
    );
    match &results[1] {
        Ok(Response::CurrentModeCommand(c)) => assert_eq!(c.mode, Mode::Sig),
        other => panic!("{:?}", other),
    }
}

#[test]
fn payload_error_carries_line() {
    let r = process_line(b"{CCM}_Q\n".to_vec());
    assert_eq!(
        r,
        Err(FrameError { kind: ErrorKind::UnrecognizedEnumValue, line: b"{CCM}_Q".to_vec() })
    );
}

#[test]
fn header_without_payload() {
    assert!(matches!(
        process_line(b"{TCC}".to_vec()),
        Ok(Response::TransmitterBandCycleComplete(_))
    ));
    assert!(matches!(
        process_line(b"{TCC} ".to_vec()),
        Ok(Response::TransmitterBandCycleComplete(_))
    ));
}

#[test]
fn query_round_trips_through_header() {
    let mut out = Vec::new();
    write_code(&mut out, b"CCM");
    assert_eq!(out, b"\n[CCM]\n".to_vec());
    let line = strip_line(&out);
    assert_eq!(line, b"[CCM]".to_vec());
    let (code, payload) = split_frame(&line).unwrap();
    assert_eq!(code, b"CCM");
    assert!(payload.is_empty());
    assert_eq!(lookup(code), Some(ResponseKind::CurrentModeCommand));
}

#[test]
fn write_code_appends() {
    let mut out = b"x".to_vec();
    write_code(&mut out, b"OTP");
    write_code(&mut out, b"FLP");
    assert_eq!(out, b"x\n[OTP]\n\n[FLP]\n".to_vec());
}

#[test]
fn split_frame_offsets() {
    assert!(split_frame(b"{CCM").is_none());
    let (code, payload) = split_frame(b"{DNM}_hello").unwrap();
    assert_eq!(code, b"DNM");
    assert_eq!(payload, b"hello");
}

#[test]
fn assembler_steps() {
    let mut a = LineAssembler::new();
    assert!(a.push_byte(b'\n').is_none());
    assert!(a.push_byte(b'\r').is_none());
    for b in b"{GLC}_T".iter() {
        assert!(a.push_byte(*b).is_none());
    }
    assert!(a.push_byte(b'\r').is_none());
    match a.push_byte(b'\n') {
        Some(Ok(Response::LockStatusGPS(_))) => {}
        other => panic!("{:?}", other),
    }
    assert!(a.push_byte(b'\n').is_none());
}

#[test]
fn every_kind_found_by_code() {
    let kinds = [
        ResponseKind::CurrentModeCommand,
        ResponseKind::TxPauseOption,
        ResponseKind::LowPassFilterFactory,
        ResponseKind::TransmitterBandCycleComplete,
        ResponseKind::SatelliteInfoGPS,
    ];
    for k in kinds.iter() {
        assert_eq!(lookup(&k.code()), Some(*k));
    }
    assert_eq!(lookup(b"ZZZ"), None);
    assert_eq!(lookup(b"CCMX"), None);
}

#[test]
fn polling_order() {
    let order = poll_order();
    assert_eq!(order.len(), 26);
    assert_eq!(order[0], ResponseKind::CurrentModeCommand);
    assert_eq!(order[11], ResponseKind::SuffixData);
    assert_eq!(order[25], ResponseKind::LowPassFilterFactory);
    let codes = all_codes();
    assert_eq!(codes.len(), 26);
    assert_eq!(&codes[0], b"CCM");
    assert_eq!(&codes[2], b"OTP");
    assert_eq!(&codes[25], b"FLP");
    for (k, c) in order.iter().zip(codes.iter()) {
        assert_eq!(lookup(c), Some(*k));
    }
}

#[test]
fn poll_cycle_walks_order_and_wraps() {
    let mut cycle = zachtek::PollCycle::new();
    let (first, last) = cycle.next_query();
    assert_eq!(first, b"\n[CCM]\n".to_vec());
    assert!(!last);
    let mut frames = vec![first];
    for _ in 1..25 {
        let (frame, last) = cycle.next_query();
        assert!(!last);
        frames.push(frame);
    }
    let (frame, last) = cycle.next_query();
    assert_eq!(frame, b"\n[FLP]\n".to_vec());
    assert!(last);
    frames.push(frame);
    let (again, last) = cycle.next_query();
    assert_eq!(again, b"\n[CCM]\n".to_vec());
    assert!(!last);
    for (frame, code) in frames.iter().zip(all_codes().iter()) {
        let mut expected = Vec::new();
        write_code(&mut expected, code);
        assert_eq!(frame, &expected);
    }
}
