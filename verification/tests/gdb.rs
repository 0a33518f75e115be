use humility::errors::Error;
use humility::gdb::{
    extract_payload, is_error_reply, is_stop_reply, m_command, p_command, parse_read8_response,
    parse_reg_reply, prepcmd, qxfer_command, resolve_reg_id, response_complete, ChunkAssembly,
    GDBCore, GDBServer, RegTable,
};
use humility::regs::Register;
use humility::regs_arm::ARMRegister;
use humility::regs_rv::RVRegister;

#[test]
fn packet_checksum() {
    // For payload "m0,4" the byte sum is 109+48+44+52 = 253, checksum fd.
    assert_eq!(prepcmd(b"m0,4"), b"$m0,4#fd".to_vec());
    assert_eq!(prepcmd(b""), b"$#00".to_vec());
    assert_eq!(prepcmd(b"c"), b"$c#63".to_vec());
}

#[test]
fn reply_completeness() {
    assert!(response_complete(b"$OK#9a"));
    assert!(!response_complete(b"$OK#9"));
    assert!(!response_complete(b"$OK"));
    assert!(!response_complete(b""));
}

#[test]
fn payload_extraction() {
    assert_eq!(extract_payload(b"+$OK#9a"), Ok(b"OK".to_vec()));
    assert_eq!(extract_payload(b"$#00"), Ok(vec![]));
    assert_eq!(extract_payload(b"no start"), Err(Error::BadResponse));
    assert_eq!(extract_payload(b"#oops$"), Err(Error::BadResponse));
}

#[test]
fn stop_and_error_replies() {
    assert!(is_stop_reply(b"T02thread:01;"));
    assert!(!is_stop_reply(b"OK"));
    assert!(is_error_reply(b"E01"));
    assert!(!is_error_reply(b"OK"));
    assert!(!is_error_reply(b"E0"));
}

#[test]
fn server_ports() {
    assert_eq!(GDBServer::OpenOCD.port(), 3333);
    assert_eq!(GDBServer::JLink.port(), 2331);
    assert_eq!(GDBServer::Qemu.port(), 3333);
    assert_eq!(GDBServer::JLink.name(), "JLink");
}

#[test]
fn register_id_resolution() {
    let empty = RegTable::new();
    // An empty table always uses the architecture's numbering.
    assert_eq!(
        resolve_reg_id(&empty, Register::RiscV(RVRegister::MSTATUS)),
        Ok(0x341)
    );
    let mut table = RegTable::new();
    table.insert(String::from("mstatus"), 900);
    // The table overrides special registers...
    assert_eq!(
        resolve_reg_id(&table, Register::RiscV(RVRegister::MSTATUS)),
        Ok(900)
    );
    // ...but never general-purpose registers or the program counter.
    assert_eq!(resolve_reg_id(&table, Register::RiscV(RVRegister::SP)), Ok(2));
    assert_eq!(resolve_reg_id(&table, Register::RiscV(RVRegister::PC)), Ok(32));
    assert_eq!(resolve_reg_id(&table, Register::Arm(ARMRegister::R3)), Ok(3));
    // An absent name is a hard failure, never silently defaulted.
    assert_eq!(
        resolve_reg_id(&table, Register::RiscV(RVRegister::MCAUSE)),
        Err(Error::RegisterNotInTable)
    );
}

#[test]
fn gdb_command_builders() {
    assert_eq!(m_command(0x20000000, 4), b"m20000000,4".to_vec());
    assert_eq!(p_command(5), b"p05".to_vec());
    assert_eq!(p_command(0x341), b"p341".to_vec());
    assert_eq!(
        qxfer_command(b"target.xml", 0),
        b"qXfer:features:read:target.xml:0,ffb".to_vec()
    );
    assert_eq!(
        qxfer_command(b"riscv-csr.xml", 0xffa),
        b"qXfer:features:read:riscv-csr.xml:ffa,ffb".to_vec()
    );
}

#[test]
fn memory_read_replies() {
    assert_eq!(parse_read8_response(b"deadbeef", 4), Ok(vec![0xde, 0xad, 0xbe, 0xef]));
    // The server may answer with fewer bytes than asked.
    assert_eq!(parse_read8_response(b"de", 4), Ok(vec![0xde]));
    assert_eq!(parse_read8_response(b"deadbeefaa", 4), Err(Error::BadResponse));
    assert_eq!(parse_read8_response(b"zz", 4), Err(Error::BadInteger));
}

#[test]
fn register_read_replies() {
    // Register values come little-endian, four or eight bytes wide.
    assert_eq!(parse_reg_reply(b"efbeadde"), Ok(0xdeadbeef));
    assert_eq!(parse_reg_reply(b"efbeadde00000000"), Ok(0xdeadbeef));
    assert_eq!(parse_reg_reply(b"aabb"), Err(Error::BadRegisterWidth(4)));
    assert_eq!(parse_reg_reply(b"zzzzzzzz"), Err(Error::BadInteger));
}

#[test]
fn chunked_fetch() {
    let mut assembly = ChunkAssembly::new();
    assert_eq!(assembly.feed(b"m<target>"), Ok(false));
    assert_eq!(assembly.next_offset(), 8);
    assert_eq!(assembly.feed(b"l</target>"), Ok(true));
    assert_eq!(assembly.acc, b"<target></target>".to_vec());
    assert_eq!(assembly.feed(b""), Err(Error::BadResponse));
}

#[test]
fn connect_probe_transitions() {
    // No reply: the target was already halted; nothing to resume.
    let mut core = GDBCore::new(GDBServer::OpenOCD);
    assert_eq!(core.on_connect_probe(None), Ok(false));
    assert!(core.was_halted);
    // A stop reply: the server halted a running target; resume it.
    let mut core = GDBCore::new(GDBServer::OpenOCD);
    assert_eq!(core.on_connect_probe(Some(b"T02thread:01;")), Ok(true));
    assert!(!core.was_halted);
    assert!(!core.halted);
    // Anything else is a protocol failure.
    let mut core = GDBCore::new(GDBServer::OpenOCD);
    assert_eq!(core.on_connect_probe(Some(b"OK")), Err(Error::BadResponse));
}

#[test]
fn stop_reply_cycle() {
    let mut core = GDBCore::new(GDBServer::Qemu);
    core.note_running();
    assert!(!core.run_needed());
    core.note_stopped();
    assert!(core.run_needed());
    core.note_running();
    assert!(!core.halted);
    assert_eq!(core.check_reply(b"E01"), Err(Error::ErrorCode));
    assert_eq!(core.check_reply(b"OK"), Ok(()));
}

#[test]
fn feature_table_loading() {
    let mut core = GDBCore::new(GDBServer::Qemu);
    assert!(core.reg_table.is_empty());
    let entries = vec![
        (String::from("mstatus"), 833u32),
        (String::from("mcause"), 898u32),
    ];
    core.load_reg_entries(&entries);
    assert_eq!(core.reg_table.get("mstatus"), Some(833));
    assert_eq!(core.reg_table.get("mcause"), Some(898));
    assert_eq!(core.reg_table.get("misa"), None);
    assert!(!core.reg_table.is_empty());
}
