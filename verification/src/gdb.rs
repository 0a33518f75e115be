//! The GDB remote-serial backend.
//!
//! Packets are framed `$<payload>#<checksum>`, the checksum being the sum
//! of the payload bytes modulo 256 in lowercase hexadecimal.  The server
//! may halt the target on its own and send an unsolicited stop-reply
//! mid-cycle; the session records it, retransmits, and restores the run
//! state afterwards.  At connect the target's feature description is
//! fetched in chunks and its register elements build a name-to-id table
//! that overrides the architecture's numbering for special registers.
//! The socket lives with the caller; this module frames, parses, decides.

use crate::errors::Error;
use crate::regs::Register;
use crate::util::{
    decode_hex_pairs,
    dec_value,
    find_byte,
    hex_digit,
    hex_digit_upper,
    hex_pairs_ok,
    hex_pairs_val,
    hex_seq,
    hex_seq_upper,
    is_dec_token,
    push_hex2,
    push_hex2_upper_u32,
    push_hex_u64,
    str_eq,
    contains_sub,
    contains_bytes,
}; 
use vstd::prelude::*;

verus! {

/// The byte opening a packet: `$`.
pub const GDB_PACKET_START: u8 = 0x24;

/// The byte closing a packet, before the checksum: `#`.
pub const GDB_PACKET_END: u8 = 0x23;

/// The acknowledgement byte: `+`.
pub const GDB_PACKET_ACK: u8 = 0x2b;

/// The kind of server behind the connection; each listens on its own
/// default port.
#[derive(Copy, Clone, Debug, PartialEq, Eq, Structural)]
pub enum GDBServer {
    OpenOCD,
    JLink,
    Qemu,
}

impl GDBServer {
    /// The default port the server listens on.
    pub fn port(&self) -> (r: u16)
        ensures
            r == (match self {
                GDBServer::OpenOCD => 3333u16,
                GDBServer::JLink => 2331u16,
                GDBServer::Qemu => 3333u16,
            }),
    {
        match self {
            GDBServer::OpenOCD => 3333,
            GDBServer::JLink => 2331,
            GDBServer::Qemu => 3333,
        }
    }

    /// The server's name, for messages.
    pub fn name(&self) -> (r: &'static str)
        ensures
            r@ == (match self {
                GDBServer::OpenOCD => "OpenOCD"@,
                GDBServer::JLink => "JLink"@,
                GDBServer::Qemu => "QEMU"@,
            }),
    {
        match self {
            GDBServer::OpenOCD => "OpenOCD",
            GDBServer::JLink => "JLink",
            GDBServer::Qemu => "QEMU",
        }
    }
}

/// The sum of the payload bytes.
pub open spec fn byte_sum(s: Seq<u8>) -> nat
    decreases s.len(),
{
    if s.len() == 0 {
        0
    } else {
        byte_sum(s.drop_last()) + s.last() as nat
    }
}

/// The framed form of a command: start byte, payload, end byte, and the
/// checksum in two lowercase hexadecimal digits.
pub open spec fn packet_spec(cmd: Seq<u8>) -> Seq<u8> {
    seq![GDB_PACKET_START] + cmd + seq![GDB_PACKET_END] + seq![
        hex_digit(((byte_sum(cmd) % 256) / 16) as u8),
        hex_digit(((byte_sum(cmd) % 256) % 16) as u8),
    ]
}

/// Frames a command into a packet.
pub fn prepcmd(cmd: &[u8]) -> (r: Vec<u8>)
    ensures
        r@ == packet_spec(cmd@),
{
    let mut payload: Vec<u8> = Vec::new();
    payload.push(GDB_PACKET_START);
    let mut cksum: u32 = 0;
    let mut i: usize = 0;
    proof {
        assert(cmd@.take(0) =~= Seq::<u8>::empty());
    }
    while i < cmd.len()
        invariant
            i <= cmd@.len(),
            cksum == byte_sum(cmd@.take(i as int)) % 256,
            payload@ == seq![GDB_PACKET_START] + cmd@.take(i as int),
        decreases cmd@.len() - i,
    {
        proof {
            assert(cmd@.take(i + 1).drop_last() =~= cmd@.take(i as int));
            assert(cmd@.take(i + 1).last() == cmd@[i as int]);
            vstd::arithmetic::div_mod::lemma_add_mod_noop(
                byte_sum(cmd@.take(i as int)) as int,
                cmd@[i as int] as int,
                256,
            );
            assert((cmd@[i as int] as int) % 256 == cmd@[i as int] as int);
        }
        payload.push(cmd[i]);
        cksum = (cksum + cmd[i] as u32) % 256;
        i = i + 1;
        proof {
            assert(payload@ =~= seq![GDB_PACKET_START] + cmd@.take(i as int));
        }
    }
    proof {
        assert(cmd@.take(cmd@.len() as int) =~= cmd@);
    }
    payload.push(GDB_PACKET_END);
    push_hex2(&mut payload, cksum as u8);
    proof {
        assert(payload@ =~= packet_spec(cmd@));
    }
    payload
}

/// Whether a received stretch holds one complete reply packet: the first
/// end byte stands exactly before the two checksum digits.
pub fn response_complete(resp: &[u8]) -> (r: bool)
    ensures
        r <==> (resp@.len() >= 3 && resp@[resp@.len() - 3] == GDB_PACKET_END && forall|j: int|
            0 <= j < resp@.len() - 3 ==> resp@[j] != GDB_PACKET_END),
{
    match find_byte(resp, GDB_PACKET_END) {
        Some(i) => {
            let n = resp.len();
            n >= 3 && i == n - 3
        },
        None => false,
    }
}

/// Whether `start` and `end` bound the payload of a reply: the first
/// start byte and the first end byte.
pub open spec fn payload_bounds(s: Seq<u8>, start: int, end: int) -> bool {
    &&& 0 <= start < s.len()
    &&& s[start] == GDB_PACKET_START
    &&& (forall|j: int| 0 <= j < start ==> s[j] != GDB_PACKET_START)
    &&& 0 <= end < s.len()
    &&& s[end] == GDB_PACKET_END
    &&& (forall|j: int| 0 <= j < end ==> s[j] != GDB_PACKET_END)
}

/// Extracts the payload of a reply: what stands between the first start
/// byte and the first end byte.  A reply without both delimiters in that
/// order is malformed.
pub fn extract_payload(resp: &[u8]) -> (r: Result<Vec<u8>, Error>)
    ensures
        match r {
            Ok(v) => exists|start: int, end: int|
                #[trigger] payload_bounds(resp@, start, end) && start < end && v@ == resp@.subrange(
                    start + 1,
                    end,
                ),
            Err(e) => e == Error::BadResponse && forall|start: int, end: int|
                #[trigger] payload_bounds(resp@, start, end) ==> start >= end,
        },
{
    let start = match find_byte(resp, GDB_PACKET_START) {
        Some(i) => i,
        None => {
            return Err(Error::BadResponse);
        },
    };
    let end = match find_byte(resp, GDB_PACKET_END) {
        Some(i) => i,
        None => {
            return Err(Error::BadResponse);
        },
    };
    if end < start {
        proof {
            assert forall|s2: int, e2: int|
                #[trigger] payload_bounds(resp@, s2, e2) implies s2 >= e2 by {
                assert(s2 == start) by {
                    if s2 < start {
                        assert(resp@[s2] != GDB_PACKET_START);
                    } else if s2 > start {
                        assert(resp@[start as int] != GDB_PACKET_START);
                    }
                }
                assert(e2 == end) by {
                    if e2 < end {
                        assert(resp@[e2] != GDB_PACKET_END);
                    } else if e2 > end {
                        assert(resp@[end as int] != GDB_PACKET_END);
                    }
                }
            }
        }
        return Err(Error::BadResponse);
    }
    if end == start {
        proof {
            assert(resp@[start as int] == GDB_PACKET_START);
        }
        return Err(Error::BadResponse);
    }
    let v = vstd::slice::slice_to_vec(vstd::slice::slice_subrange(resp, start + 1, end));
    proof {
        assert(payload_bounds(resp@, start as int, end as int));
        assert(v@ =~= resp@.subrange(start + 1, end as int));
    }
    Ok(v)
}

/// The marker of an unsolicited stop-reply packet: thread stopped on signal 2.  The bytes spell `"T02thread"`.
pub open spec fn stop_reply_marker() -> Seq<u8> {
    seq![0x54u8, 0x30, 0x32, 0x74, 0x68, 0x72, 0x65, 0x61, 0x64]
}

/// Builds the bytes of `"T02thread"`.
fn stop_reply_marker_vec() -> (v: Vec<u8>)
    ensures
        v@ == stop_reply_marker(),
{
    let mut v: Vec<u8> = Vec::new();
    v.push(0x54);
    v.push(0x30);
    v.push(0x32);
    v.push(0x74);
    v.push(0x68);
    v.push(0x72);
    v.push(0x65);
    v.push(0x61);
    v.push(0x64);
    proof {
        assert(v@ =~= stop_reply_marker());
    }
    v
}

/// The chunked feature-description read command verb.  The bytes spell `"qXfer:features:read:"`.
pub open spec fn qxfer_prefix() -> Seq<u8> {
    seq![0x71u8, 0x58, 0x66, 0x65, 0x72, 0x3a, 0x66, 0x65, 0x61, 0x74, 0x75, 0x72, 0x65, 0x73, 0x3a, 0x72, 0x65, 0x61, 0x64, 0x3a]
}

/// Builds the bytes of `"qXfer:features:read:"`.
fn qxfer_prefix_vec() -> (v: Vec<u8>)
    ensures
        v@ == qxfer_prefix(),
{
    let mut v: Vec<u8> = Vec::new();
    v.push(0x71);
    v.push(0x58);
    v.push(0x66);
    v.push(0x65);
    v.push(0x72);
    v.push(0x3a);
    v.push(0x66);
    v.push(0x65);
    v.push(0x61);
    v.push(0x74);
    v.push(0x75);
    v.push(0x72);
    v.push(0x65);
    v.push(0x73);
    v.push(0x3a);
    v.push(0x72);
    v.push(0x65);
    v.push(0x61);
    v.push(0x64);
    v.push(0x3a);
    proof {
        assert(v@ =~= qxfer_prefix());
    }
    v
}

/// The chunk-length suffix of a feature-description read.  The bytes spell `",ffb"`.
pub open spec fn qxfer_suffix() -> Seq<u8> {
    seq![0x2cu8, 0x66, 0x66, 0x62]
}

/// Builds the bytes of `",ffb"`.
fn qxfer_suffix_vec() -> (v: Vec<u8>)
    ensures
        v@ == qxfer_suffix(),
{
    let mut v: Vec<u8> = Vec::new();
    v.push(0x2c);
    v.push(0x66);
    v.push(0x66);
    v.push(0x62);
    proof {
        assert(v@ =~= qxfer_suffix());
    }
    v
}

/// Whether a reply is an unsolicited stop-reply packet.
pub fn is_stop_reply(data: &[u8]) -> (r: bool)
    ensures
        r == contains_sub(data@, stop_reply_marker()),
{
    let m = stop_reply_marker_vec();
    contains_bytes(data, m.as_slice())
}

/// Whether a reply is an error-code packet: `E` and two digits.
pub fn is_error_reply(data: &[u8]) -> (r: bool)
    ensures
        r == (data@.len() == 3 && data@[0] == 0x45),
{
    data.len() == 3 && data[0] == 0x45
}

/// A register-name-to-protocol-id table, built from the target's feature
/// description.  A later entry for the same name overrides an earlier
/// one.
#[derive(Clone, Debug)]
pub struct RegTable {
    entries: Vec<(String, u32)>,
}

/// The map an entry list denotes; later entries win.
pub open spec fn reg_table_of(s: Seq<(String, u32)>) -> Map<Seq<char>, u32>
    decreases s.len(),
{
    if s.len() == 0 {
        Map::empty()
    } else {
        reg_table_of(s.drop_last()).insert(s.last().0@, s.last().1)
    }
}

impl View for RegTable {
    type V = Map<Seq<char>, u32>;

    closed spec fn view(&self) -> Map<Seq<char>, u32> {
        reg_table_of(self.entries@)
    }
}

impl RegTable {
    /// An empty table.
    pub fn new() -> (r: Self)
        ensures
            r@ == Map::<Seq<char>, u32>::empty(),
            r.spec_is_empty(),
    {
        Self { entries: Vec::new() }
    }

    /// Whether the table holds no entry at all.
    pub closed spec fn spec_is_empty(&self) -> bool {
        self.entries@.len() == 0
    }

    /// Tests whether the table holds no entry at all.
    pub fn is_empty(&self) -> (r: bool)
        ensures
            r == self.spec_is_empty(),
    {
        self.entries.len() == 0
    }

    /// Binds a register name to its protocol id, overriding any earlier
    /// binding.
    pub fn insert(&mut self, name: String, id: u32)
        ensures
            final(self)@ == old(self)@.insert(name@, id),
            !final(self).spec_is_empty(),
    {
        self.entries.push((name, id));
        proof {
            assert(self.entries@.drop_last() =~= old(self).entries@);
        }
    }

    /// The protocol id bound to `name`, if any.
    pub fn get(&self, name: &str) -> (r: Option<u32>)
        ensures
            match r {
                Some(id) => self@.contains_key(name@) && self@[name@] == id,
                None => !self@.contains_key(name@),
            },
    {
        let mut i: usize = self.entries.len();
        proof {
            assert(self.entries@.take(i as int) =~= self.entries@);
        }
        while i > 0
            invariant
                i <= self.entries@.len(),
                reg_table_of(self.entries@).contains_key(name@) == reg_table_of(
                    self.entries@.take(i as int),
                ).contains_key(name@),
                reg_table_of(self.entries@).contains_key(name@) ==> reg_table_of(
                    self.entries@,
                )[name@] == reg_table_of(self.entries@.take(i as int))[name@],
            decreases i,
        {
            i = i - 1;
            proof {
                assert(self.entries@.take(i + 1).drop_last() =~= self.entries@.take(i as int));
                assert(self.entries@.take(i + 1).last() == self.entries@[i as int]);
            }
            if str_eq(self.entries[i].0.as_str(), name) {
                return Some(self.entries[i].1);
            }
        }
        proof {
            assert(self.entries@.take(0) =~= Seq::<(String, u32)>::empty());
        }
        None
    }
}

/// The protocol id a register is read under: an empty table, a
/// general-purpose register and the program counter use the
/// architecture's fixed numbering; any other register must be found in
/// the table under its name, and an absent name is a hard failure, never
/// silently defaulted.
pub fn resolve_reg_id(table: &RegTable, reg: Register) -> (r: Result<u32, Error>)
    ensures
        match r {
            Ok(id) => {
                if table.spec_is_empty() || reg.spec_is_general_purpose() || reg.spec_is_pc() {
                    id == reg.spec_gdb_id()
                } else {
                    table@.contains_key(reg.spec_name()) && id == table@[reg.spec_name()]
                }
            },
            Err(e) => {
                &&& e == Error::RegisterNotInTable
                &&& !table.spec_is_empty()
                &&& !reg.spec_is_general_purpose()
                &&& !reg.spec_is_pc()
                &&& !table@.contains_key(reg.spec_name())
            },
        },
{
    if table.is_empty() || reg.is_general_purpose() || reg.is_pc() {
        return Ok(reg.to_gdb_id());
    }
    match table.get(reg.name()) {
        Some(id) => Ok(id),
        None => Err(Error::RegisterNotInTable),
    }
}

/// Builds the memory-read command for an address and length:
/// `m<addr>,<len>`, both in hexadecimal.
pub fn m_command(addr: u32, len: usize) -> (r: Vec<u8>)
    ensures
        r@ == seq![0x6du8] + hex_seq(addr as nat) + seq![0x2cu8] + hex_seq(len as nat),
{
    let mut v: Vec<u8> = Vec::new();
    v.push(0x6d);
    push_hex_u64(&mut v, addr as u64);
    v.push(0x2c);
    push_hex_u64(&mut v, len as u64);
    proof {
        assert(v@ =~= seq![0x6du8] + hex_seq(addr as nat) + seq![0x2cu8] + hex_seq(len as nat));
    }
    v
}

/// Builds the register-read command for a protocol id: `p<id>`, in
/// uppercase hexadecimal padded to two digits.
pub fn p_command(reg_id: u32) -> (r: Vec<u8>)
    ensures
        r@ == seq![0x70u8] + (if reg_id < 16 {
            seq![0x30u8, hex_digit_upper(reg_id as u8)]
        } else {
            hex_seq_upper(reg_id as nat)
        }),
{
    let mut v: Vec<u8> = Vec::new();
    v.push(0x70);
    push_hex2_upper_u32(&mut v, reg_id);
    v
}

/// Builds the chunked feature-description read command for an annex and
/// offset.
pub fn qxfer_command(annex: &[u8], offset: usize) -> (r: Vec<u8>)
    ensures
        r@ == qxfer_prefix() + annex@ + seq![0x3au8] + hex_seq(offset as nat) + qxfer_suffix(),
{
    let mut v = qxfer_prefix_vec();
    let mut i: usize = 0;
    while i < annex.len()
        invariant
            i <= annex@.len(),
            v@ == qxfer_prefix() + annex@.take(i as int),
        decreases annex@.len() - i,
    {
        v.push(annex[i]);
        proof {
            assert(v@ =~= qxfer_prefix() + annex@.take(i + 1));
        }
        i = i + 1;
    }
    proof {
        assert(annex@.take(annex@.len() as int) =~= annex@);
    }
    v.push(0x3a);
    push_hex_u64(&mut v, offset as u64);
    let suf = qxfer_suffix_vec();
    let mut k: usize = 0;
    while k < suf.len()
        invariant
            k <= suf@.len(),
            suf@ == qxfer_suffix(),
            v@ == qxfer_prefix() + annex@ + seq![0x3au8] + hex_seq(offset as nat) + suf@.take(
                k as int,
            ),
        decreases suf@.len() - k,
    {
        v.push(suf[k]);
        proof {
            assert(v@ =~= qxfer_prefix() + annex@ + seq![0x3au8] + hex_seq(offset as nat)
                + suf@.take(k + 1));
        }
        k = k + 1;
    }
    proof {
        assert(suf@.take(suf@.len() as int) =~= suf@);
    }
    v
}

/// Decodes a memory-read reply: hexadecimal digit pairs, at most `len`
/// bytes' worth; the server may answer with fewer.
pub fn parse_read8_response(resp: &[u8], len: usize) -> (r: Result<Vec<u8>, Error>)
    requires
        len <= usize::MAX / 2,
    ensures
        match r {
            Ok(v) => resp@.len() <= 2 * len && hex_pairs_ok(resp@) && v@ == hex_pairs_val(resp@),
            Err(e) => {
                &&& (resp@.len() > 2 * len || !hex_pairs_ok(resp@))
                &&& e == (if resp@.len() > 2 * len || resp@.len() % 2 != 0 {
                    Error::BadResponse
                } else {
                    Error::BadInteger
                })
            },
        },
{
    if resp.len() > 2 * len {
        return Err(Error::BadResponse);
    }
    decode_hex_pairs(resp)
}

/// Decodes a register-read reply: a little-endian value of four or eight
/// bytes in hexadecimal digit pairs; any other width is a protocol
/// error.
pub fn parse_reg_reply(resp: &[u8]) -> (r: Result<u64, Error>)
    ensures
        match r {
            Ok(v) => hex_pairs_ok(resp@) && (resp@.len() == 8 || resp@.len() == 16) && v == (
            if resp@.len() == 8 {
                vstd::bytes::spec_u32_from_le_bytes(hex_pairs_val(resp@)) as u64
            } else {
                vstd::bytes::spec_u64_from_le_bytes(hex_pairs_val(resp@))
            }),
            Err(e) => {
                &&& !(hex_pairs_ok(resp@) && (resp@.len() == 8 || resp@.len() == 16))
                &&& e == (if !hex_pairs_ok(resp@) {
                    if resp@.len() % 2 != 0 {
                        Error::BadResponse
                    } else {
                        Error::BadInteger
                    }
                } else {
                    Error::BadRegisterWidth(resp@.len() as usize)
                })
            },
        },
{
    let n = resp.len();
    let buf = match decode_hex_pairs(resp) {
        Ok(v) => v,
        Err(e) => {
            return Err(e);
        },
    };
    if n == 8 {
        Ok(vstd::bytes::u32_from_le_bytes(buf.as_slice()) as u64)
    } else if n == 16 {
        Ok(vstd::bytes::u64_from_le_bytes(buf.as_slice()))
    } else {
        Err(Error::BadRegisterWidth(n))
    }
}

/// Assembles a feature description fetched in chunks: each reply opens
/// with a marker byte, `l` for the last chunk, anything else meaning more
/// follows; the rest of the reply is appended.
#[derive(Clone, Debug)]
pub struct ChunkAssembly {
    /// The document text assembled so far.
    pub acc: Vec<u8>,
}

impl ChunkAssembly {
    /// An empty assembly.
    pub fn new() -> (r: Self)
        ensures
            r.acc@ == Seq::<u8>::empty(),
    {
        Self { acc: Vec::new() }
    }

    /// The offset the next chunk must be requested at.
    pub fn next_offset(&self) -> (r: usize)
        ensures
            r == self.acc@.len(),
    {
        self.acc.len()
    }

    /// Folds one chunk reply in; returns whether the document is
    /// complete.  An empty reply is malformed.
    pub fn feed(&mut self, data: &[u8]) -> (r: Result<bool, Error>)
        ensures
            match r {
                Ok(done) => data@.len() > 0 && final(self).acc@ == old(self).acc@ + data@.skip(1)
                    && done == (data@[0] == 0x6c),
                Err(e) => data@.len() == 0 && e == Error::BadResponse && final(self).acc@ == old(
                    self,
                ).acc@,
            },
    {
        if data.len() == 0 {
            return Err(Error::BadResponse);
        }
        let rest = vstd::slice::slice_subrange(data, 1, data.len());
        let mut i: usize = 0;
        proof {
            assert(rest@ =~= data@.skip(1));
            assert(self.acc@ + rest@.take(0) =~= self.acc@);
        }
        let ghost acc0 = self.acc@;
        while i < rest.len()
            invariant
                i <= rest@.len(),
                self.acc@ == acc0 + rest@.take(i as int),
            decreases rest@.len() - i,
        {
            self.acc.push(rest[i]);
            proof {
                assert(self.acc@ =~= acc0 + rest@.take(i + 1));
            }
            i = i + 1;
        }
        proof {
            assert(rest@.take(rest@.len() as int) =~= rest@);
        }
        Ok(data[0] == 0x6c)
    }
}

/// The per-session state of a GDB remote-serial connection.
#[derive(Clone, Debug)]
pub struct GDBCore {
    /// Which server the session speaks to.
    pub server: GDBServer,
    /// Whether the target is halted, as far as the session has tracked
    /// it.
    pub halted: bool,
    /// Whether the target was halted before the session connected;
    /// detaching restores that state.
    pub was_halted: bool,
    /// The register-name-to-protocol-id table from the target's feature
    /// description.
    pub reg_table: RegTable,
}

impl GDBCore {
    /// The session state right after the socket opens.  The server halts
    /// the target upon connection, so the session starts halted, and is
    /// taken to have been halted before until the connect probe shows
    /// otherwise.
    pub fn new(server: GDBServer) -> (r: Self)
        ensures
            r.server == server,
            r.halted,
            r.was_halted,
            r.reg_table@ == Map::<Seq<char>, u32>::empty(),
            r.reg_table.spec_is_empty(),
    {
        Self { server, halted: true, was_halted: true, reg_table: RegTable::new() }
    }

    /// Folds in what the connect probe showed.  No reply means the target
    /// was already halted.  A stop reply means the server just halted a
    /// running target: the session records that it was running and must
    /// resume it, so the caller is told to send a continue command.  Any
    /// other reply is a protocol failure.
    pub fn on_connect_probe(&mut self, reply: Option<&[u8]>) -> (r: Result<bool, Error>)
        ensures
            match r {
                Ok(send_continue) => match reply {
                    None => !send_continue && final(self).was_halted && final(self).halted
                        && final(self).server == old(self).server
                        && final(self).reg_table == old(self).reg_table,
                    Some(d) => contains_sub(d@, stop_reply_marker()) && send_continue
                        && !final(self).was_halted && !final(self).halted
                        && final(self).server == old(self).server
                        && final(self).reg_table == old(self).reg_table,
                },
                Err(e) => (reply matches Some(d) && !contains_sub(d@, stop_reply_marker())) && e
                    == Error::BadResponse && *final(self) == *old(self),
            },
    {
        match reply {
            None => {
                self.was_halted = true;
                self.halted = true;
                Ok(false)
            },
            Some(d) => {
                if !is_stop_reply(d) {
                    return Err(Error::BadResponse);
                }
                self.was_halted = false;
                self.halted = false;
                Ok(true)
            },
        }
    }

    /// Records that the server reported a mid-cycle stop: the target is
    /// halted, the in-flight command must be retransmitted, and the
    /// session owes a resume afterwards.
    pub fn note_stopped(&mut self)
        ensures
            *final(self) == (GDBCore { halted: true, ..*old(self) }),
    {
        self.halted = true;
    }

    /// Whether a resume is owed: the target is halted.  The server loses
    /// its mind if told to continue while already running, so a continue
    /// is only ever sent to a halted target.
    pub fn run_needed(&self) -> (r: bool)
        ensures
            r == self.halted,
    {
        self.halted
    }

    /// Records that a continue command was sent.
    pub fn note_running(&mut self)
        ensures
            *final(self) == (GDBCore { halted: false, ..*old(self) }),
    {
        self.halted = false;
    }

    /// Checks a command reply for an error-code packet.
    pub fn check_reply(&self, data: &[u8]) -> (r: Result<(), Error>)
        ensures
            match r {
                Ok(()) => !(data@.len() == 3 && data@[0] == 0x45),
                Err(e) => data@.len() == 3 && data@[0] == 0x45 && e == Error::ErrorCode,
            },
    {
        if is_error_reply(data) {
            Err(Error::ErrorCode)
        } else {
            Ok(())
        }
    }

    /// Folds the register elements of a feature description into the
    /// name table.
    pub fn load_reg_entries(&mut self, entries: &Vec<(String, u32)>)
        ensures
            final(self).reg_table@ == table_after(old(self).reg_table@, entries@),
            final(self).server == old(self).server,
            final(self).halted == old(self).halted,
            final(self).was_halted == old(self).was_halted,
    {
        let mut i: usize = 0;
        proof {
            assert(entries@.take(0) =~= Seq::<(String, u32)>::empty());
        }
        while i < entries.len()
            invariant
                i <= entries@.len(),
                self.reg_table@ == table_after(old(self).reg_table@, entries@.take(i as int)),
                self.server == old(self).server,
                self.halted == old(self).halted,
                self.was_halted == old(self).was_halted,
            decreases entries@.len() - i,
        {
            proof {
                assert(entries@.take(i + 1).drop_last() =~= entries@.take(i as int));
                assert(entries@.take(i + 1).last() == entries@[i as int]);
            }
            let name = entries[i].0.clone();
            let id = entries[i].1;
            self.reg_table.insert(name, id);
            i = i + 1;
        }
        proof {
            assert(entries@.take(entries@.len() as int) =~= entries@);
        }
    }
}

/// The table after folding in a run of name/id entries.
pub open spec fn table_after(m: Map<Seq<char>, u32>, entries: Seq<(String, u32)>) -> Map<
    Seq<char>,
    u32,
>
    decreases entries.len(),
{
    if entries.len() == 0 {
        m
    } else {
        table_after(m, entries.drop_last()).insert(entries.last().0@, entries.last().1)
    }
}

} // verus!
