use humility::errors::Error;
use humility::backend::CORE_MAX_READSIZE;
use humility::openocd::{
    check_read_size, check_version, classify_response, frame_command, mem2array_command,
    mrw_command, mww_command, parse_curstate, parse_mem2array, parse_mrw_response,
    parse_reg_response, parse_swv_frame, reg_command, OpenOCDCore, OPENOCD_COMMAND_DELIMITER,
};

#[test]
fn array_parse_accepts_pairs() {
    // The response names each index once; values may be hexadecimal.
    assert_eq!(parse_mem2array(b"0 0x41 1 0x42", 2), Ok(vec![0x41, 0x42]));
    // Indices arrive in no particular order.
    assert_eq!(parse_mem2array(b"1 0x42 0 65", 2), Ok(vec![0x41, 0x42]));
}

#[test]
fn array_parse_missing_index_fails() {
    // A response missing index 1 must fail, never zero-fill.
    assert_eq!(parse_mem2array(b"0 0x41", 2), Err(Error::MissingIndex(1)));
}

#[test]
fn array_parse_duplicate_index_fails() {
    assert_eq!(
        parse_mem2array(b"0 0x41 0 0x42", 2),
        Err(Error::DuplicateIndex(0))
    );
}

#[test]
fn array_parse_out_of_range_index_fails() {
    assert_eq!(parse_mem2array(b"2 0x41", 2), Err(Error::IllegalIndex(2)));
}

#[test]
fn array_parse_malformed_tokens_fail() {
    assert_eq!(parse_mem2array(b"zero 0x41", 1), Err(Error::BadInteger));
    assert_eq!(parse_mem2array(b"0 what", 1), Err(Error::BadInteger));
    // An unpaired trailing index is malformed, not accepted.
    assert_eq!(parse_mem2array(b"0 0x41 1", 2), Err(Error::BadResponse));
}

#[test]
fn array_parse_unset_variable_fails() {
    assert_eq!(
        parse_mem2array(b"no such variable output", 2),
        Err(Error::CommandFailed)
    );
}

#[test]
fn response_markers() {
    assert_eq!(classify_response(b"all fine"), Ok(()));
    assert_eq!(
        classify_response(b"Error: target not halted"),
        Err(Error::CommandFailed)
    );
    assert_eq!(
        classify_response(b"invalid command name \"mrw\""),
        Err(Error::InvalidCommand)
    );
}

#[test]
fn version_banner() {
    assert_eq!(check_version(b"Open On-Chip Debugger 0.11.0"), Ok(()));
    assert_eq!(check_version(b"telnet"), Err(Error::BadResponse));
}

#[test]
fn curstate_probe() {
    assert!(parse_curstate("halted"));
    assert!(!parse_curstate("running"));
    assert!(!parse_curstate("reset"));
}

#[test]
fn ocd_command_builders() {
    assert_eq!(mrw_command(0x4100), b"mrw 0x4100".to_vec());
    assert_eq!(mem2array_command(0x20000000, 16), b"mem2array output 8 0x20000000 16".to_vec());
    assert_eq!(reg_command(33), b"reg 33".to_vec());
    assert_eq!(mww_command(0x100, 0xff), b"mww 0x100 0xff".to_vec());
    let framed = frame_command(b"halt");
    assert_eq!(&framed[..4], b"halt");
    assert_eq!(framed[4], OPENOCD_COMMAND_DELIMITER);
}

#[test]
fn word_read_reply() {
    assert_eq!(parse_mrw_response(b"65"), Ok(65));
    assert_eq!(parse_mrw_response(b"0x41"), Err(Error::BadInteger));
    assert_eq!(parse_mrw_response(b""), Err(Error::BadInteger));
}

#[test]
fn register_read_reply() {
    // The value is the last token of the first line.
    assert_eq!(
        parse_reg_response(b"pc (/32): 0xdeadbeef\nmore noise"),
        Ok(0xdeadbeef)
    );
    assert_eq!(parse_reg_response(b"42\n"), Ok(42));
    assert_eq!(parse_reg_response(b"   \n"), Err(Error::BadResponse));
    assert_eq!(parse_reg_response(b"pc: junk\n"), Err(Error::BadResponse));
}

#[test]
fn trace_frames() {
    let mut msg = b"type target_trace data 0a0b\r\n".to_vec();
    msg.push(OPENOCD_COMMAND_DELIMITER);
    assert_eq!(parse_swv_frame(&msg), Ok(vec![0x0a, 0x0b]));
    // A doubled sentinel may open the message.
    let mut doubled = vec![OPENOCD_COMMAND_DELIMITER];
    doubled.extend_from_slice(&msg);
    assert_eq!(parse_swv_frame(&doubled), Ok(vec![0x0a, 0x0b]));
    // A bare sentinel is an empty read.
    assert_eq!(parse_swv_frame(&[OPENOCD_COMMAND_DELIMITER]), Ok(vec![]));
    assert_eq!(parse_swv_frame(b"no delimiter"), Err(Error::BadResponse));
    let mut bad = b"bogus 0a0b\r\n".to_vec();
    bad.push(OPENOCD_COMMAND_DELIMITER);
    assert_eq!(parse_swv_frame(&bad), Err(Error::BadResponse));
}

#[test]
fn session_brackets_restore_run_state() {
    // Attached to a running target: the outermost bracket halts once and
    // the outermost release resumes once.
    let mut s = OpenOCDCore::new(false);
    assert!(s.op_start());
    assert!(s.halted);
    assert!(!s.op_start());
    assert!(!s.op_done());
    assert!(s.op_done());
    assert!(!s.halted);
    // Attached to a halted target: nothing is ever resumed.
    let mut s = OpenOCDCore::new(true);
    assert!(!s.op_start());
    assert!(!s.op_done());
    assert!(s.halted);
}

#[test]
fn session_notes() {
    let mut s = OpenOCDCore::new(false);
    s.note_halted();
    assert!(s.halted);
    s.note_running();
    assert!(!s.halted);
    s.note_swv();
    assert!(s.swv);
}

#[test]
fn array_parse_empty_tokens_fail() {
    // Doubled separators make empty tokens, which parse as nothing.
    assert_eq!(parse_mem2array(b"0  0x41", 1), Err(Error::BadInteger));
    assert_eq!(parse_mem2array(b"", 1), Err(Error::BadInteger));
}

#[test]
fn bracket_restores_state_at_entry_not_at_attach() {
    // Attached to a running target, then explicitly halted by the caller:
    // a bracket opened on the now-halted target must leave it halted, not
    // resume it with the attach-time state.
    let mut s = OpenOCDCore::new(false);
    s.note_halted();
    assert!(!s.op_start());
    assert!(!s.op_done());
    assert!(s.halted);
    // And the other way round: halted at attach, resumed by the caller,
    // the bracket halts for the read and resumes on the way out.
    let mut s = OpenOCDCore::new(true);
    s.note_running();
    assert!(s.op_start());
    assert!(s.op_done());
    assert!(!s.halted);
}

#[test]
fn ocd_read_size_bounded() {
    assert_eq!(check_read_size(CORE_MAX_READSIZE), Ok(()));
    assert_eq!(
        check_read_size(CORE_MAX_READSIZE + 1),
        Err(Error::ReadTooLarge(CORE_MAX_READSIZE + 1))
    );
}
