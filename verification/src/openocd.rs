//! The OpenOCD Tcl-RPC backend.
//!
//! The server speaks a line-oriented command/response protocol in which
//! every message ends in a single sentinel byte, and it has no structured
//! error channel: failure is detected by scanning the response text for
//! error markers.  Reading a byte array yields an undelimited sequence of
//! (index, value) pairs in no particular order; the parser accepts it only
//! when every index below the requested length appears exactly once.  The
//! socket itself lives with the caller; this module frames commands,
//! parses responses, and tracks the halt/run state.

use crate::errors::Error;
use crate::session::{spec_run, HaltTracker};
use crate::util::{
    contains_sub,
    decode_hex_pairs,
    hex_pairs_ok,
    hex_pairs_val,
    contains_bytes,
    dec_value,
    hex_seq,
    dec_seq,
    is_dec_token,
    is_uint_token,
    push_dec_u64,
    push_hex_u64,
    str_eq,
    uint_token_value,
};
use vstd::prelude::*;

verus! {

/// The sentinel byte ending every command and response.
pub const OPENOCD_COMMAND_DELIMITER: u8 = 0x1a;

/// The failure marker the server embeds in a reply.  The bytes spell `"Error: "`.
pub open spec fn error_marker() -> Seq<u8> {
    seq![0x45u8, 0x72, 0x72, 0x6f, 0x72, 0x3a, 0x20]
}

/// Builds the bytes of `"Error: "`.
fn error_marker_vec() -> (v: Vec<u8>)
    ensures
        v@ == error_marker(),
{
    let mut v: Vec<u8> = Vec::new();
    v.push(0x45);
    v.push(0x72);
    v.push(0x72);
    v.push(0x6f);
    v.push(0x72);
    v.push(0x3a);
    v.push(0x20);
    proof {
        assert(v@ =~= error_marker());
    }
    v
}

/// The unknown-command marker the server embeds in a reply.  The bytes spell `"invalid command name "`.
pub open spec fn invalid_marker() -> Seq<u8> {
    seq![0x69u8, 0x6e, 0x76, 0x61, 0x6c, 0x69, 0x64, 0x20, 0x63, 0x6f, 0x6d, 0x6d, 0x61, 0x6e, 0x64, 0x20, 0x6e, 0x61, 0x6d, 0x65, 0x20]
}

/// Builds the bytes of `"invalid command name "`.
fn invalid_marker_vec() -> (v: Vec<u8>)
    ensures
        v@ == invalid_marker(),
{
    let mut v: Vec<u8> = Vec::new();
    v.push(0x69);
    v.push(0x6e);
    v.push(0x76);
    v.push(0x61);
    v.push(0x6c);
    v.push(0x69);
    v.push(0x64);
    v.push(0x20);
    v.push(0x63);
    v.push(0x6f);
    v.push(0x6d);
    v.push(0x6d);
    v.push(0x61);
    v.push(0x6e);
    v.push(0x64);
    v.push(0x20);
    v.push(0x6e);
    v.push(0x61);
    v.push(0x6d);
    v.push(0x65);
    v.push(0x20);
    proof {
        assert(v@ =~= invalid_marker());
    }
    v
}

/// The reply marker showing the array variable was never set.  The bytes spell `"no such variable"`.
pub open spec fn missing_output_marker() -> Seq<u8> {
    seq![0x6eu8, 0x6f, 0x20, 0x73, 0x75, 0x63, 0x68, 0x20, 0x76, 0x61, 0x72, 0x69, 0x61, 0x62, 0x6c, 0x65]
}

/// Builds the bytes of `"no such variable"`.
fn missing_output_marker_vec() -> (v: Vec<u8>)
    ensures
        v@ == missing_output_marker(),
{
    let mut v: Vec<u8> = Vec::new();
    v.push(0x6e);
    v.push(0x6f);
    v.push(0x20);
    v.push(0x73);
    v.push(0x75);
    v.push(0x63);
    v.push(0x68);
    v.push(0x20);
    v.push(0x76);
    v.push(0x61);
    v.push(0x72);
    v.push(0x69);
    v.push(0x61);
    v.push(0x62);
    v.push(0x6c);
    v.push(0x65);
    proof {
        assert(v@ =~= missing_output_marker());
    }
    v
}

/// The banner a genuine server's version reply carries.  The bytes spell `"Open On-Chip Debugger"`.
pub open spec fn version_marker() -> Seq<u8> {
    seq![0x4fu8, 0x70, 0x65, 0x6e, 0x20, 0x4f, 0x6e, 0x2d, 0x43, 0x68, 0x69, 0x70, 0x20, 0x44, 0x65, 0x62, 0x75, 0x67, 0x67, 0x65, 0x72]
}

/// Builds the bytes of `"Open On-Chip Debugger"`.
fn version_marker_vec() -> (v: Vec<u8>)
    ensures
        v@ == version_marker(),
{
    let mut v: Vec<u8> = Vec::new();
    v.push(0x4f);
    v.push(0x70);
    v.push(0x65);
    v.push(0x6e);
    v.push(0x20);
    v.push(0x4f);
    v.push(0x6e);
    v.push(0x2d);
    v.push(0x43);
    v.push(0x68);
    v.push(0x69);
    v.push(0x70);
    v.push(0x20);
    v.push(0x44);
    v.push(0x65);
    v.push(0x62);
    v.push(0x75);
    v.push(0x67);
    v.push(0x67);
    v.push(0x65);
    v.push(0x72);
    proof {
        assert(v@ =~= version_marker());
    }
    v
}

/// The framing prefix of a trace-data message.  The bytes spell `"type target_trace data "`.
pub open spec fn trace_prefix() -> Seq<u8> {
    seq![0x74u8, 0x79, 0x70, 0x65, 0x20, 0x74, 0x61, 0x72, 0x67, 0x65, 0x74, 0x5f, 0x74, 0x72, 0x61, 0x63, 0x65, 0x20, 0x64, 0x61, 0x74, 0x61, 0x20]
}

/// Builds the bytes of `"type target_trace data "`.
fn trace_prefix_vec() -> (v: Vec<u8>)
    ensures
        v@ == trace_prefix(),
{
    let mut v: Vec<u8> = Vec::new();
    v.push(0x74);
    v.push(0x79);
    v.push(0x70);
    v.push(0x65);
    v.push(0x20);
    v.push(0x74);
    v.push(0x61);
    v.push(0x72);
    v.push(0x67);
    v.push(0x65);
    v.push(0x74);
    v.push(0x5f);
    v.push(0x74);
    v.push(0x72);
    v.push(0x61);
    v.push(0x63);
    v.push(0x65);
    v.push(0x20);
    v.push(0x64);
    v.push(0x61);
    v.push(0x74);
    v.push(0x61);
    v.push(0x20);
    proof {
        assert(v@ =~= trace_prefix());
    }
    v
}

/// The framing suffix of a trace-data message.  The bytes spell `"\r\n"`.
pub open spec fn trace_suffix() -> Seq<u8> {
    seq![0x0du8, 0x0a]
}

/// Builds the bytes of `"\r\n"`.
fn trace_suffix_vec() -> (v: Vec<u8>)
    ensures
        v@ == trace_suffix(),
{
    let mut v: Vec<u8> = Vec::new();
    v.push(0x0d);
    v.push(0x0a);
    proof {
        assert(v@ =~= trace_suffix());
    }
    v
}

/// The word-read command verb.  The bytes spell `"mrw 0x"`.
pub open spec fn mrw_prefix() -> Seq<u8> {
    seq![0x6du8, 0x72, 0x77, 0x20, 0x30, 0x78]
}

/// Builds the bytes of `"mrw 0x"`.
fn mrw_prefix_vec() -> (v: Vec<u8>)
    ensures
        v@ == mrw_prefix(),
{
    let mut v: Vec<u8> = Vec::new();
    v.push(0x6d);
    v.push(0x72);
    v.push(0x77);
    v.push(0x20);
    v.push(0x30);
    v.push(0x78);
    proof {
        assert(v@ =~= mrw_prefix());
    }
    v
}

/// The array-read command verb, reading bytes into the output variable.  The bytes spell `"mem2array output 8 0x"`.
pub open spec fn mem2array_prefix() -> Seq<u8> {
    seq![0x6du8, 0x65, 0x6d, 0x32, 0x61, 0x72, 0x72, 0x61, 0x79, 0x20, 0x6f, 0x75, 0x74, 0x70, 0x75, 0x74, 0x20, 0x38, 0x20, 0x30, 0x78]
}

/// Builds the bytes of `"mem2array output 8 0x"`.
fn mem2array_prefix_vec() -> (v: Vec<u8>)
    ensures
        v@ == mem2array_prefix(),
{
    let mut v: Vec<u8> = Vec::new();
    v.push(0x6d);
    v.push(0x65);
    v.push(0x6d);
    v.push(0x32);
    v.push(0x61);
    v.push(0x72);
    v.push(0x72);
    v.push(0x61);
    v.push(0x79);
    v.push(0x20);
    v.push(0x6f);
    v.push(0x75);
    v.push(0x74);
    v.push(0x70);
    v.push(0x75);
    v.push(0x74);
    v.push(0x20);
    v.push(0x38);
    v.push(0x20);
    v.push(0x30);
    v.push(0x78);
    proof {
        assert(v@ =~= mem2array_prefix());
    }
    v
}

/// The register-read command verb.  The bytes spell `"reg "`.
pub open spec fn reg_prefix() -> Seq<u8> {
    seq![0x72u8, 0x65, 0x67, 0x20]
}

/// Builds the bytes of `"reg "`.
fn reg_prefix_vec() -> (v: Vec<u8>)
    ensures
        v@ == reg_prefix(),
{
    let mut v: Vec<u8> = Vec::new();
    v.push(0x72);
    v.push(0x65);
    v.push(0x67);
    v.push(0x20);
    proof {
        assert(v@ =~= reg_prefix());
    }
    v
}

/// The word-write command verb.  The bytes spell `"mww 0x"`.
pub open spec fn mww_prefix() -> Seq<u8> {
    seq![0x6du8, 0x77, 0x77, 0x20, 0x30, 0x78]
}

/// Builds the bytes of `"mww 0x"`.
fn mww_prefix_vec() -> (v: Vec<u8>)
    ensures
        v@ == mww_prefix(),
{
    let mut v: Vec<u8> = Vec::new();
    v.push(0x6d);
    v.push(0x77);
    v.push(0x77);
    v.push(0x20);
    v.push(0x30);
    v.push(0x78);
    proof {
        assert(v@ =~= mww_prefix());
    }
    v
}

/// A separator introducing a hexadecimal argument.  The bytes spell `" 0x"`.
pub open spec fn space_0x() -> Seq<u8> {
    seq![0x20u8, 0x30, 0x78]
}

/// Builds the bytes of `" 0x"`.
fn space_0x_vec() -> (v: Vec<u8>)
    ensures
        v@ == space_0x(),
{
    let mut v: Vec<u8> = Vec::new();
    v.push(0x20);
    v.push(0x30);
    v.push(0x78);
    proof {
        assert(v@ =~= space_0x());
    }
    v
}

/// A separator between arguments.  The bytes spell `" "`.
pub open spec fn space_sep() -> Seq<u8> {
    seq![0x20u8]
}

/// The halt/run and trace state of one server session.
#[derive(Clone, Debug)]
pub struct OpenOCDCore {
    /// Whether the trace stream has been configured.
    pub swv: bool,
    /// Whether the target is halted, as far as the session has tracked it.
    pub halted: bool,
    /// The halt/run nesting state.
    pub tracker: HaltTracker,
}

impl OpenOCDCore {
    /// The session state right after connecting, when the target's halt
    /// state has been probed once; the server offers no later query, so it
    /// is tracked from here on.  Detaching restores the state found here.
    pub fn new(initially_halted: bool) -> (r: Self)
        ensures
            !r.swv,
            r.halted == initially_halted,
            r.tracker.depth == 0,
            r.tracker.run_on_exit == !initially_halted,
    {
        Self { swv: false, halted: initially_halted, tracker: HaltTracker::new(!initially_halted) }
    }

    /// Records that a halt command was sent.
    pub fn note_halted(&mut self)
        ensures
            *final(self) == (OpenOCDCore { halted: true, ..*old(self) }),
    {
        self.halted = true;
    }

    /// Records that a resume command was sent.
    pub fn note_running(&mut self)
        ensures
            *final(self) == (OpenOCDCore { halted: false, ..*old(self) }),
    {
        self.halted = false;
    }

    /// Records that the trace stream was configured.
    pub fn note_swv(&mut self)
        ensures
            *final(self) == (OpenOCDCore { swv: true, ..*old(self) }),
    {
        self.swv = true;
    }

    /// Opens an operation bracket; returns whether the caller must send a
    /// halt command: only on the outermost bracket, and only when the
    /// target is not already halted.  The outermost bracket latches
    /// whether the target was running just before it, so that closing it
    /// can restore exactly that state.
    pub fn op_start(&mut self) -> (phys: bool)
        requires
            old(self).tracker.depth < u32::MAX,
        ensures
            (*final(self), phys) == spec_ocd_op_start(*old(self)),
    {
        if self.tracker.depth == 0 {
            self.tracker.run_on_exit = !self.halted;
        }
        let phys = self.tracker.halt() && !self.halted;
        if phys {
            self.halted = true;
        }
        phys
    }

    /// Closes an operation bracket; returns whether the caller must send a
    /// resume command: only on the outermost release, and only when the
    /// target was running just before the outermost bracket opened.
    pub fn op_done(&mut self) -> (phys: bool)
        requires
            old(self).tracker.depth > 0,
        ensures
            (*final(self), phys) == spec_ocd_op_done(*old(self)),
    {
        let phys = self.tracker.run();
        if phys {
            self.halted = false;
        }
        phys
    }
}

/// The session after one more bracket is opened, and whether that opening
/// must physically halt the target: only the outermost bracket on a
/// running target does, and the outermost bracket latches the run state
/// it found.
pub open spec fn spec_ocd_op_start(s: OpenOCDCore) -> (OpenOCDCore, bool) {
    let latched = if s.tracker.depth == 0 {
        !s.halted
    } else {
        s.tracker.run_on_exit
    };
    let phys = s.tracker.depth == 0 && !s.halted;
    (
        OpenOCDCore {
            swv: s.swv,
            halted: s.halted || phys,
            tracker: HaltTracker { depth: (s.tracker.depth + 1) as u32, run_on_exit: latched },
        },
        phys,
    )
}

/// The session after one bracket is closed, and whether that closing must
/// physically resume the target: only the outermost release, and only
/// when the target ran just before the outermost bracket opened.
pub open spec fn spec_ocd_op_done(s: OpenOCDCore) -> (OpenOCDCore, bool) {
    let (t, phys) = spec_run(s.tracker);
    (
        OpenOCDCore {
            swv: s.swv,
            halted: if phys {
                false
            } else {
                s.halted
            },
            tracker: t,
        },
        phys,
    )
}

/// Two nested brackets around a target running at bracket entry halt it
/// physically exactly once, on the way in, and resume it physically
/// exactly once, on the way out, leaving it running.
pub proof fn lemma_ocd_nested_brackets(s0: OpenOCDCore)
    requires
        s0.tracker.depth == 0,
        !s0.halted,
    ensures
        ({
            let (s1, h1) = spec_ocd_op_start(s0);
            let (s2, h2) = spec_ocd_op_start(s1);
            let (s3, r1) = spec_ocd_op_done(s2);
            let (s4, r2) = spec_ocd_op_done(s3);
            h1 && !h2 && !r1 && r2 && !s4.halted && s4.swv == s0.swv && s4.tracker.depth == 0
        }),
{
}

/// A bracket opened on a target that is already halted — halted at attach,
/// or halted since by an explicit halt — neither halts nor resumes it: the
/// target stays halted, as it was before the bracket.
pub proof fn lemma_ocd_bracket_keeps_halted(s0: OpenOCDCore)
    requires
        s0.tracker.depth == 0,
        s0.halted,
    ensures
        ({
            let (s1, h1) = spec_ocd_op_start(s0);
            let (s2, r1) = spec_ocd_op_done(s1);
            !h1 && !r1 && s2.halted && s2.tracker.depth == 0
        }),
{
}

/// Whether a connect-probe reply reports a halted target; anything but
/// the halted state, including an unrecognized reply, counts as running.
pub fn parse_curstate(resp: &str) -> (r: bool)
    ensures
        r <==> resp@ == "halted"@,
{
    str_eq(resp, "halted")
}

/// Checks a version reply for the server's banner.
pub fn check_version(resp: &[u8]) -> (r: Result<(), Error>)
    ensures
        match r {
            Ok(()) => contains_sub(resp@, version_marker()),
            Err(e) => !contains_sub(resp@, version_marker()) && e == Error::BadResponse,
        },
{
    let marker = version_marker_vec();
    if contains_bytes(resp, marker.as_slice()) {
        Ok(())
    } else {
        Err(Error::BadResponse)
    }
}

/// Appends the sentinel byte that ends a command.
pub fn frame_command(cmd: &[u8]) -> (r: Vec<u8>)
    ensures
        r@ == cmd@ + seq![OPENOCD_COMMAND_DELIMITER],
{
    let mut v = vstd::slice::slice_to_vec(cmd);
    v.push(OPENOCD_COMMAND_DELIMITER);
    proof {
        assert(v@ =~= cmd@ + seq![OPENOCD_COMMAND_DELIMITER]);
    }
    v
}

/// Scans a response for the server's failure markers: the error marker
/// fails the command, the unknown-command marker rejects it.
pub fn classify_response(resp: &[u8]) -> (r: Result<(), Error>)
    ensures
        match r {
            Ok(()) => !contains_sub(resp@, error_marker()) && !contains_sub(
                resp@,
                invalid_marker(),
            ),
            Err(e) => {
                &&& (e == Error::CommandFailed || e == Error::InvalidCommand)
                &&& (e == Error::CommandFailed <==> contains_sub(resp@, error_marker()))
                &&& (e == Error::InvalidCommand <==> !contains_sub(resp@, error_marker())
                    && contains_sub(resp@, invalid_marker()))
            },
        },
{
    let em = error_marker_vec();
    if contains_bytes(resp, em.as_slice()) {
        return Err(Error::CommandFailed);
    }
    let im = invalid_marker_vec();
    if contains_bytes(resp, im.as_slice()) {
        return Err(Error::InvalidCommand);
    }
    Ok(())
}

/// Builds the word-read command for an address.
pub fn mrw_command(addr: u32) -> (r: Vec<u8>)
    ensures
        r@ == mrw_prefix() + hex_seq(addr as nat),
{
    let mut v = mrw_prefix_vec();
    push_hex_u64(&mut v, addr as u64);
    v
}

/// Rejects a byte read longer than the backend's maximum; checked before
/// any command is sent.
pub fn check_read_size(len: usize) -> (r: Result<(), Error>)
    ensures
        r == (if len > crate::backend::CORE_MAX_READSIZE {
            Err::<(), Error>(Error::ReadTooLarge(len))
        } else {
            Ok::<(), Error>(())
        }),
{
    if len > crate::backend::CORE_MAX_READSIZE {
        Err(Error::ReadTooLarge(len))
    } else {
        Ok(())
    }
}

/// Builds the array-read command for an address and length.
pub fn mem2array_command(addr: u32, len: usize) -> (r: Vec<u8>)
    ensures
        r@ == mem2array_prefix() + hex_seq(addr as nat) + space_sep() + dec_seq(len as nat),
{
    let mut v = mem2array_prefix_vec();
    push_hex_u64(&mut v, addr as u64);
    v.push(0x20);
    push_dec_u64(&mut v, len as u64);
    proof {
        assert(v@ =~= mem2array_prefix() + hex_seq(addr as nat) + space_sep() + dec_seq(
            len as nat,
        ));
    }
    v
}

/// Builds the register-read command for a protocol register number.
pub fn reg_command(reg_id: u32) -> (r: Vec<u8>)
    ensures
        r@ == reg_prefix() + dec_seq(reg_id as nat),
{
    let mut v = reg_prefix_vec();
    push_dec_u64(&mut v, reg_id as u64);
    v
}

/// Builds the word-write command for an address and value.
pub fn mww_command(addr: u32, data: u32) -> (r: Vec<u8>)
    ensures
        r@ == mww_prefix() + hex_seq(addr as nat) + space_0x() + hex_seq(data as nat),
{
    let mut v = mww_prefix_vec();
    push_hex_u64(&mut v, addr as u64);
    let sep = space_0x_vec();
    let mut i: usize = 0;
    while i < sep.len()
        invariant
            i <= sep@.len(),
            sep@ == space_0x(),
            v@ == mww_prefix() + hex_seq(addr as nat) + sep@.take(i as int),
        decreases sep@.len() - i,
    {
        v.push(sep[i]);
        proof {
            assert(v@ =~= mww_prefix() + hex_seq(addr as nat) + sep@.take(i + 1));
        }
        i = i + 1;
    }
    proof {
        assert(sep@.take(sep@.len() as int) =~= sep@);
    }
    push_hex_u64(&mut v, data as u64);
    v
}

/// Parses a word-read reply: the value in decimal.
pub fn parse_mrw_response(resp: &[u8]) -> (r: Result<u32, Error>)
    ensures
        match r {
            Ok(v) => is_dec_token(resp@) && dec_value(resp@) == v,
            Err(e) => (!is_dec_token(resp@) || dec_value(resp@) > u32::MAX) && e
                == Error::BadInteger,
        },
{
    match crate::util::parse_u32_dec(resp) {
        Some(v) => Ok(v),
        None => Err(Error::BadInteger),
    }
}

/// The space-separated tokens of a response; an empty stretch between
/// separators is an empty token, as the server's splitting has it.
pub open spec fn split_spaces(s: Seq<u8>) -> Seq<Seq<u8>>
    decreases s.len(),
{
    if s.len() == 0 {
        seq![Seq::empty()]
    } else {
        let pre = split_spaces(s.drop_last());
        if s.last() == 0x20 {
            pre.push(Seq::empty())
        } else {
            pre.update(pre.len() - 1, pre.last().push(s.last()))
        }
    }
}

/// A split always yields at least one token.
proof fn lemma_split_nonempty(s: Seq<u8>)
    ensures
        split_spaces(s).len() >= 1,
    decreases s.len(),
{
    if s.len() > 0 {
        lemma_split_nonempty(s.drop_last());
    }
}

/// The completed tokens of a prefix are a prefix of the full token list.
proof fn lemma_split_prefix(s: Seq<u8>, i: int)
    requires
        0 <= i <= s.len(),
    ensures
        split_spaces(s.take(i)).len() <= split_spaces(s).len(),
        split_spaces(s.take(i)).drop_last() == split_spaces(s).take(
            split_spaces(s.take(i)).len() - 1,
        ),
    decreases s.len() - i,
{
    lemma_split_nonempty(s.take(i));
    if i == s.len() {
        assert(s.take(i) =~= s);
        assert(split_spaces(s.take(i)).drop_last() =~= split_spaces(s).take(
            split_spaces(s.take(i)).len() - 1,
        ));
    } else {
        lemma_split_prefix(s, i + 1);
        lemma_split_nonempty(s.take(i + 1));
        assert(s.take(i + 1).drop_last() =~= s.take(i));
        let p = split_spaces(s.take(i));
        let p1 = split_spaces(s.take(i + 1));
        if s.take(i + 1).last() == 0x20 {
            assert(p1.drop_last() =~= p);
            assert(p =~= split_spaces(s).take(p1.len() - 1));
            assert(p.drop_last() =~= split_spaces(s).take(p.len() - 1));
        } else {
            assert(p1.drop_last() =~= p.drop_last());
        }
    }
}

/// One token of an array reply folded into the parse state: an index
/// token must be a fresh index below the requested length; a value token
/// binds the pending index.
pub open spec fn m2a_step(
    data: Map<int, u8>,
    pending: Option<int>,
    tok: Seq<u8>,
    len: nat,
) -> Result<(Map<int, u8>, Option<int>), Error> {
    match pending {
        None => {
            if !(is_dec_token(tok) && dec_value(tok) <= usize::MAX) {
                Err(Error::BadInteger)
            } else {
                let idx = dec_value(tok) as int;
                if idx >= len {
                    Err(Error::IllegalIndex(dec_value(tok) as usize))
                } else if data.contains_key(idx) {
                    Err(Error::DuplicateIndex(dec_value(tok) as usize))
                } else {
                    Ok((data, Some(idx)))
                }
            }
        },
        Some(idx) => {
            if !(is_uint_token(tok) && uint_token_value(tok) <= 255) {
                Err(Error::BadInteger)
            } else {
                Ok((data.insert(idx, uint_token_value(tok) as u8), None))
            }
        },
    }
}

/// The parse state after a run of tokens.
pub open spec fn m2a_fold(toks: Seq<Seq<u8>>, len: nat) -> Result<
    (Map<int, u8>, Option<int>),
    Error,
>
    decreases toks.len(),
{
    if toks.len() == 0 {
        Ok((Map::empty(), None))
    } else {
        match m2a_fold(toks.drop_last(), len) {
            Ok(st) => m2a_step(st.0, st.1, toks.last(), len),
            Err(e) => Err(e),
        }
    }
}

/// Once a prefix of the token run fails, the whole run fails the same
/// way.
proof fn lemma_m2a_fold_err(toks: Seq<Seq<u8>>, k: int, len: nat)
    requires
        0 <= k <= toks.len(),
        m2a_fold(toks.take(k), len) is Err,
    ensures
        m2a_fold(toks, len) == m2a_fold(toks.take(k), len),
    decreases toks.len() - k,
{
    if k < toks.len() {
        assert(toks.take(k + 1).drop_last() =~= toks.take(k));
        lemma_m2a_fold_err(toks, k + 1, len);
    } else {
        assert(toks.take(k) =~= toks);
    }
}

/// The smallest index at or after `j` that the reply never bound.
pub open spec fn first_missing(data: Map<int, u8>, len: nat, j: nat) -> nat
    decreases len - j,
{
    if j >= len {
        len
    } else if !data.contains_key(j as int) {
        j
    } else {
        first_missing(data, len, (j + 1) as nat)
    }
}

/// Indices bound so far do not move the first missing index.
proof fn lemma_first_missing_from(data: Map<int, u8>, len: nat, j: nat)
    requires
        j <= len,
        forall|k: int| 0 <= k < j ==> data.contains_key(k),
    ensures
        first_missing(data, len, 0) == first_missing(data, len, j),
    decreases j,
{
    if j > 0 {
        lemma_first_missing_from(data, len, (j - 1) as nat);
        assert(data.contains_key(j - 1));
    }
}

/// An accepted array reply assigns every byte by its index: the result
/// has exactly the requested length, every index below it was bound by
/// some (index, value) pair, and position `i` holds the value bound to
/// index `i` — whatever order the pairs arrived in.
pub proof fn lemma_m2a_assigns_by_index(resp: Seq<u8>, len: nat)
    ensures
        m2a_result(resp, len) matches Ok(v) ==> {
            &&& v.len() == len
            &&& m2a_fold(split_spaces(resp), len) matches Ok(st)
            &&& forall|i: int|
                0 <= i < len ==> st.0.contains_key(i) && v[i] == st.0[i]
        },
{
}

/// A reply that never names some index below the requested length is
/// rejected, never zero-filled: no partial buffer is ever returned as
/// success.
pub proof fn lemma_m2a_never_zero_fills(resp: Seq<u8>, len: nat, i: int)
    requires
        0 <= i < len,
        m2a_fold(split_spaces(resp), len) matches Ok(st) && !st.0.contains_key(i),
    ensures
        m2a_result(resp, len) is Err,
{
}

/// What an array reply yields for a read of `len` bytes: the bytes in
/// index order, or the failure that stops the parse.  A reply that never
/// set the output variable is a failed read; a reply ending on an unpaired
/// index is malformed; a reply that never names some index below the
/// length is rejected with that index, never zero-filled.
pub open spec fn m2a_result(resp: Seq<u8>, len: nat) -> Result<Seq<u8>, Error> {
    if contains_sub(resp, missing_output_marker()) {
        Err(Error::CommandFailed)
    } else {
        match m2a_fold(split_spaces(resp), len) {
            Err(e) => Err(e),
            Ok(st) => {
                if st.1 is Some {
                    Err(Error::BadResponse)
                } else if exists|i: int| 0 <= i < len && !st.0.contains_key(i) {
                    Err(Error::MissingIndex(first_missing(st.0, len, 0) as usize))
                } else {
                    Ok(Seq::new(len, |i: int| st.0[i]))
                }
            },
        }
    }
}

/// Parses an array-read reply into the requested bytes.
pub fn parse_mem2array(resp: &[u8], len: usize) -> (r: Result<Vec<u8>, Error>)
    ensures
        match r {
            Ok(v) => m2a_result(resp@, len as nat) matches Ok(s) && v@ == s,
            Err(e) => m2a_result(resp@, len as nat) matches Err(e2) && e == e2,
        },
{
    let marker = missing_output_marker_vec();
    if contains_bytes(resp, marker.as_slice()) {
        return Err(Error::CommandFailed);
    }
    let n = resp.len();
    let mut data: Vec<u8> = vec![0u8; len];
    let mut seen: Vec<bool> = vec![false; len];
    let mut pending: Option<usize> = None;
    let ghost mut dmap: Map<int, u8> = Map::empty();
    let mut tok_start: usize = 0;
    let mut i: usize = 0;
    proof {
        assert(resp@.take(0) =~= Seq::<u8>::empty());
        assert(split_spaces(resp@.take(0)).drop_last() =~= Seq::<Seq<u8>>::empty());
    }
    loop
        invariant_except_break
            m2a_fold(split_spaces(resp@.take(i as int)).drop_last(), len as nat) == Ok::<
                (Map<int, u8>, Option<int>),
                Error,
            >(
                (
                    dmap,
                    match pending {
                        Some(p) => Some(p as int),
                        None => None,
                    },
                ),
            ),
            split_spaces(resp@.take(i as int)).last() == resp@.subrange(
                tok_start as int,
                i as int,
            ),
            match pending {
                Some(p) => p < len,
                None => true,
            },
            forall|j: int|
                0 <= j < len ==> (seen@[j] <==> (dmap.contains_key(j) || (match pending {
                    Some(p) => p == j,
                    None => false,
                }))),
            forall|j: int| #[trigger]
                dmap.contains_key(j) ==> 0 <= j < len && data@[j] == dmap[j],
        invariant
            tok_start <= i <= n,
            n == resp@.len(),
            !contains_sub(resp@, missing_output_marker()),
            data@.len() == len,
            seen@.len() == len,
        ensures
            n == resp@.len(),
            !contains_sub(resp@, missing_output_marker()),
            data@.len() == len,
            seen@.len() == len,
            m2a_fold(split_spaces(resp@), len as nat) == Ok::<
                (Map<int, u8>, Option<int>),
                Error,
            >(
                (
                    dmap,
                    match pending {
                        Some(p) => Some(p as int),
                        None => None,
                    },
                ),
            ),
            forall|j: int|
                0 <= j < len ==> (seen@[j] <==> (dmap.contains_key(j) || (match pending {
                    Some(p) => p == j,
                    None => false,
                }))),
            forall|j: int| #[trigger]
                dmap.contains_key(j) ==> 0 <= j < len && data@[j] == dmap[j],
        decreases n - i,
    {
        if i == n || resp[i] == 0x20 {
            let tok = vstd::slice::slice_subrange(resp, tok_start, i);
            proof {
                assert(tok@ =~= resp@.subrange(tok_start as int, i as int));
                lemma_split_nonempty(resp@.take(i as int));
            }
            match pending {
                None => {
                    let idx = match crate::util::parse_usize_dec(tok) {
                        Some(idx) => idx,
                        None => {
                            proof {
                                lemma_m2a_err_at(resp@, i as int, len as nat);
                            }
                            return Err(Error::BadInteger);
                        },
                    };
                    if idx >= len {
                        proof {
                            lemma_m2a_err_at(resp@, i as int, len as nat);
                        }
                        return Err(Error::IllegalIndex(idx));
                    }
                    if seen[idx] {
                        proof {
                            lemma_m2a_err_at(resp@, i as int, len as nat);
                        }
                        return Err(Error::DuplicateIndex(idx));
                    }
                    seen.set(idx, true);
                    pending = Some(idx);
                },
                Some(idx) => {
                    let val = match crate::util::parse_u8_token(tok) {
                        Some(v) => v,
                        None => {
                            proof {
                                lemma_m2a_err_at(resp@, i as int, len as nat);
                            }
                            return Err(Error::BadInteger);
                        },
                    };
                    data.set(idx, val);
                    pending = None;
                    proof {
                        dmap = dmap.insert(idx as int, val);
                    }
                },
            }
            if i == n {
                proof {
                    assert(resp@.take(n as int) =~= resp@);
                }
                break;
            }
            tok_start = i + 1;
        }
        proof {
            assert(resp@.take(i + 1).drop_last() =~= resp@.take(i as int));
            assert(resp@.take(i + 1).last() == resp@[i as int]);
            let p = split_spaces(resp@.take(i as int));
            let p1 = split_spaces(resp@.take(i + 1));
            lemma_split_nonempty(resp@.take(i as int));
            if resp@[i as int] == 0x20 {
                assert(p1.drop_last() =~= p);
                assert(p1.last() =~= resp@.subrange(i + 1, i + 1));
            } else {
                assert(p1.drop_last() =~= p.drop_last());
                assert(p1.last() =~= resp@.subrange(tok_start as int, i + 1));
            }
        }
        i = i + 1;
    }
    if pending.is_some() {
        return Err(Error::BadResponse);
    }
    let mut j: usize = 0;
    while j < len
        invariant
            j <= len,
            seen@.len() == len,
            data@.len() == len,
            m2a_fold(split_spaces(resp@), len as nat) == Ok::<(Map<int, u8>, Option<int>), Error>(
                (dmap, None),
            ),
            !contains_sub(resp@, missing_output_marker()),
            forall|k: int| 0 <= k < len ==> (seen@[k] <==> dmap.contains_key(k)),
            forall|k: int| #[trigger] dmap.contains_key(k) ==> 0 <= k < len && data@[k] == dmap[k],
            forall|k: int| 0 <= k < j ==> dmap.contains_key(k),
        decreases len - j,
    {
        if !seen[j] {
            proof {
                lemma_first_missing_from(dmap, len as nat, j as nat);
            }
            return Err(Error::MissingIndex(j));
        }
        j = j + 1;
    }
    proof {
        assert forall|k: int| 0 <= k < len implies data@[k] == dmap[k] by {
            assert(dmap.contains_key(k));
        }
        assert(data@ =~= Seq::new(len as nat, |i: int| dmap[i]));
    }
    Ok(data)
}

/// A token-level failure at a separator is the whole reply's failure.
proof fn lemma_m2a_err_at(resp: Seq<u8>, i: int, len: nat)
    requires
        0 <= i <= resp.len(),
        i == resp.len() || resp[i] == 0x20,
        m2a_fold(split_spaces(resp.take(i)), len) is Err,
    ensures
        m2a_fold(split_spaces(resp), len) == m2a_fold(split_spaces(resp.take(i)), len),
{
    let toks = split_spaces(resp.take(i));
    let full = split_spaces(resp);
    if i == resp.len() {
        assert(resp.take(i) =~= resp);
    } else {
        lemma_split_nonempty(resp.take(i));
        lemma_split_prefix(resp, i + 1);
        assert(resp.take(i + 1).drop_last() =~= resp.take(i));
        assert(resp.take(i + 1).last() == resp[i]);
        let p1 = split_spaces(resp.take(i + 1));
        assert(p1.drop_last() =~= toks);
        assert(toks =~= full.take(toks.len() as int));
        lemma_m2a_fold_err(full, toks.len() as int, len);
    }
}

/// Whether `b` is whitespace for reply splitting.
pub open spec fn is_ws(b: u8) -> bool {
    b == 0x20 || b == 0x09 || b == 0x0d
}

/// Tests whether `b` is whitespace for reply splitting.
fn is_ws_exec(b: u8) -> (r: bool)
    ensures
        r == is_ws(b),
{
    b == 0x20 || b == 0x09 || b == 0x0d
}

/// Whether `start..end` bounds the last whitespace-separated token of the
/// first line of `s`, the line ending at `nl`.
pub open spec fn reg_reply_token(s: Seq<u8>, start: int, end: int, nl: int) -> bool {
    &&& 0 <= nl <= s.len()
    &&& (nl == s.len() || s[nl] == 0x0a)
    &&& (forall|j: int| 0 <= j < nl ==> s[j] != 0x0a)
    &&& 0 <= start < end <= nl
    &&& (forall|j: int| start <= j < end ==> !is_ws(#[trigger] s[j]))
    &&& (forall|j: int| end <= j < nl ==> is_ws(#[trigger] s[j]))
    &&& (start == 0 || is_ws(s[start - 1]))
}

/// Parses a register-read reply: the last whitespace-separated token of
/// the first line, as a hexadecimal or decimal number.
pub fn parse_reg_response(resp: &[u8]) -> (r: Result<u32, Error>)
    ensures
        match r {
            Ok(v) => exists|start: int, end: int, nl: int|
                #[trigger] reg_reply_token(resp@, start, end, nl) && is_uint_token(
                    resp@.subrange(start, end),
                ) && uint_token_value(resp@.subrange(start, end)) == v,
            Err(e) => e == Error::BadResponse && forall|start: int, end: int, nl: int|
                #[trigger] reg_reply_token(resp@, start, end, nl) ==> !(is_uint_token(
                    resp@.subrange(start, end),
                ) && uint_token_value(resp@.subrange(start, end)) <= u32::MAX),
        },
{
    let nl = match crate::util::find_byte(resp, 0x0a) {
        Some(i) => i,
        None => resp.len(),
    };
    let mut end: usize = nl;
    while end > 0 && is_ws_exec(resp[end - 1])
        invariant
            end <= nl <= resp@.len(),
            nl == resp@.len() || resp@[nl as int] == 0x0a,
            forall|j: int| 0 <= j < nl ==> resp@[j] != 0x0a,
            forall|j: int| end <= j < nl ==> is_ws(#[trigger] resp@[j]),
        decreases end,
    {
        end = end - 1;
    }
    if end == 0 {
        proof {
            assert forall|start: int, e2: int, n2: int|
                #[trigger] reg_reply_token(resp@, start, e2, n2) implies false by {
                assert(n2 == nl) by {
                    if n2 < nl {
                        assert(resp@[n2] != 0x0a);
                    } else if n2 > nl {
                        assert(resp@[nl as int] == 0x0a);
                    }
                }
                assert(!is_ws(resp@[e2 - 1]));
            }
        }
        return Err(Error::BadResponse);
    }
    let mut start: usize = end;
    while start > 0 && !is_ws_exec(resp[start - 1])
        invariant
            start <= end,
            end <= nl <= resp@.len(),
            forall|j: int| start <= j < end ==> !is_ws(#[trigger] resp@[j]),
        decreases start,
    {
        start = start - 1;
    }
    let tok = vstd::slice::slice_subrange(resp, start, end);
    proof {
        assert(tok@ =~= resp@.subrange(start as int, end as int));
        assert(reg_reply_token(resp@, start as int, end as int, nl as int));
    }
    match crate::util::parse_u32_token(tok) {
        Some(v) => Ok(v),
        None => {
            proof {
                assert forall|s2: int, e2: int, n2: int|
                    #[trigger] reg_reply_token(resp@, s2, e2, n2) implies !(is_uint_token(
                    resp@.subrange(s2, e2),
                ) && uint_token_value(resp@.subrange(s2, e2)) <= u32::MAX) by {
                    assert(n2 == nl) by {
                        if n2 < nl {
                            assert(resp@[n2] != 0x0a);
                        } else if n2 > nl {
                            assert(resp@[nl as int] == 0x0a);
                        }
                    }
                    assert(e2 == end) by {
                        if e2 < end {
                            assert(!is_ws(resp@[end - 1]));
                        } else if e2 > end {
                            assert(is_ws(resp@[e2 - 1]));
                        }
                    }
                    assert(s2 == start) by {
                        if s2 < start {
                            assert(is_ws(resp@[start - 1]));
                        } else if s2 > start {
                            assert(!is_ws(resp@[s2 - 1]));
                        }
                    }
                    assert(resp@.subrange(s2, e2) =~= tok@);
                }
            }
            Err(Error::BadResponse)
        },
    }
}

/// Extracts the trace bytes out of one trace-data message: the sentinel
/// byte ends the message (a doubled sentinel may open it), the text
/// between carries the framing prefix and suffix, and the payload between
/// those is hexadecimal digit pairs.  A bare sentinel is an empty read.
pub fn parse_swv_frame(buf: &[u8]) -> (r: Result<Vec<u8>, Error>)
    ensures
        match r {
            Ok(v) => swv_frame_spec(buf@) matches Ok(s) && v@ == s,
            Err(e) => swv_frame_spec(buf@) matches Err(e2) && e == e2,
        },
{
    let n = buf.len();
    if n == 0 || buf[n - 1] != OPENOCD_COMMAND_DELIMITER {
        return Err(Error::BadResponse);
    }
    if n == 1 {
        let empty: Vec<u8> = Vec::new();
        proof {
            assert(empty@ =~= Seq::<u8>::empty());
        }
        return Ok(empty);
    }
    let inner = if buf[0] == OPENOCD_COMMAND_DELIMITER {
        vstd::slice::slice_subrange(buf, 1, n - 1)
    } else {
        vstd::slice::slice_subrange(buf, 0, n - 1)
    };
    let prefix = trace_prefix_vec();
    let suffix = trace_suffix_vec();
    if !crate::util::starts_with(inner, prefix.as_slice()) {
        return Err(Error::BadResponse);
    }
    if !crate::util::ends_with(inner, suffix.as_slice()) {
        return Err(Error::BadResponse);
    }
    if inner.len() < prefix.len() + suffix.len() {
        return Err(Error::BadResponse);
    }
    let payload = vstd::slice::slice_subrange(inner, prefix.len(), inner.len() - suffix.len());
    proof {
        assert(payload@ =~= inner@.subrange(
            trace_prefix().len() as int,
            inner@.len() - trace_suffix().len(),
        ));
    }
    decode_hex_pairs(payload)
}

/// What one trace-data message decodes to.
pub open spec fn swv_frame_spec(buf: Seq<u8>) -> Result<Seq<u8>, Error> {
    if buf.len() == 0 || buf[buf.len() - 1] != OPENOCD_COMMAND_DELIMITER {
        Err(Error::BadResponse)
    } else if buf.len() == 1 {
        Ok(Seq::empty())
    } else {
        let inner = if buf[0] == OPENOCD_COMMAND_DELIMITER {
            buf.subrange(1, buf.len() - 1)
        } else {
            buf.subrange(0, buf.len() - 1)
        };
        if !(trace_prefix().len() <= inner.len() && inner.subrange(0, trace_prefix().len() as int)
            == trace_prefix()) {
            Err(Error::BadResponse)
        } else if !(trace_suffix().len() <= inner.len() && inner.subrange(
            inner.len() - trace_suffix().len(),
            inner.len() as int,
        ) == trace_suffix()) {
            Err(Error::BadResponse)
        } else if inner.len() < trace_prefix().len() + trace_suffix().len() {
            Err(Error::BadResponse)
        } else {
            let payload = inner.subrange(
                trace_prefix().len() as int,
                inner.len() - trace_suffix().len(),
            );
            if hex_pairs_ok(payload) {
                Ok(hex_pairs_val(payload))
            } else if payload.len() % 2 != 0 {
                Err(Error::BadResponse)
            } else {
                Err(Error::BadInteger)
            }
        }
    }
}

} // verus!
