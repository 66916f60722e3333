//! Command transport channel logic: framing of an outgoing command and the
//! decision machine of one request/response exchange.
//!
//! A frame is `[4B code = SendCommand][1B locality = 0][4B payload length]`
//! followed by the payload, all integers big-endian. A response is
//! `[4B length][payload][4B trailer]`, the trailer a zero sentinel. The
//! machine owns every decision of the exchange — size check, write check,
//! capacity check before any payload byte is consumed, trailer check — while
//! the driver around it only writes and reads the bytes it is told to.

use vstd::prelude::*;
use crate::control::{code_of, TpmCommand};
use crate::errors::TpmError;
use crate::wire::{be32, be32_value, encode_be32, lemma_be32_round_trip};

verus! {

/// Length in bytes of the frame header.
pub const HEADER_LEN: usize = 9;

/// Locality under which every command is issued.
pub const LOCALITY: u8 = 0;

/// The bytes of the frame header for a payload of the given length: the
/// SendCommand code, the locality byte, then the payload length, packed with
/// no padding and big-endian throughout.
pub open spec fn header_bytes(cmd_len: u32) -> Seq<u8> {
    be32(code_of(TpmCommand::SendCommand)) + seq![LOCALITY] + be32(cmd_len)
}

/// Builds the frame header for a payload of the given length. Its length
/// field holds exactly `cmd_len`.
pub fn build_header(cmd_len: u32) -> (h: Vec<u8>)
    ensures
        h@ == header_bytes(cmd_len),
        h@.len() == HEADER_LEN,
        h@.subrange(5, 9) == be32(cmd_len),
{
    let code = encode_be32(TpmCommand::SendCommand.code());
    let len = encode_be32(cmd_len);
    let mut h: Vec<u8> = Vec::new();
    h.push(code[0]);
    h.push(code[1]);
    h.push(code[2]);
    h.push(code[3]);
    h.push(LOCALITY);
    h.push(len[0]);
    h.push(len[1]);
    h.push(len[2]);
    h.push(len[3]);
    proof {
        assert(h@ =~= header_bytes(cmd_len));
        assert(h@.subrange(5, 9) =~= be32(cmd_len));
    }
    h
}

/// For every payload length that fits the 32-bit length field, the header's
/// length field holds that length exactly: the four length bytes decode back
/// to the payload length.
pub proof fn lemma_header_length_field(cmd_len: u32)
    ensures
        header_bytes(cmd_len).len() == HEADER_LEN,
        header_bytes(cmd_len).subrange(5, 9) == be32(cmd_len),
        be32_value(header_bytes(cmd_len).subrange(5, 9)) == cmd_len,
{
    assert(header_bytes(cmd_len).subrange(5, 9) =~= be32(cmd_len));
    lemma_be32_round_trip(cmd_len);
}

/// Frames a command buffer for transmission: the header immediately followed
/// by the payload, sent as one logical write. A command whose length does not
/// fit the 32-bit length field is rejected with `BadSize`; every shorter
/// command is framed, and the header's length field equals the command's
/// length exactly.
pub fn frame_command(command: &Vec<u8>) -> (r: Result<Vec<u8>, TpmError>)
    ensures
        command@.len() <= u32::MAX ==> {
            &&& r is Ok
            &&& r->Ok_0@ == header_bytes(command@.len() as u32) + command@
            &&& r->Ok_0@.len() == HEADER_LEN + command@.len()
            &&& r->Ok_0@.subrange(5, 9) == be32(command@.len() as u32)
        },
        command@.len() > u32::MAX ==> r == Err::<Vec<u8>, TpmError>(TpmError::BadSize),
{
    if command.len() > u32::MAX as usize {
        return Err(TpmError::BadSize);
    }
    let cmd_len: u32 = command.len() as u32;
    let mut framed = build_header(cmd_len);
    let mut i: usize = 0;
    while i < command.len()
        invariant
            i <= command@.len(),
            cmd_len == command@.len(),
            framed@ == header_bytes(cmd_len) + command@.subrange(0, i as int),
        decreases command@.len() - i,
    {
        framed.push(command[i]);
        proof {
            assert(framed@ =~= header_bytes(cmd_len) + command@.subrange(0, i + 1));
        }
        i = i + 1;
    }
    proof {
        assert(command@.subrange(0, command@.len() as int) =~= command@);
        assert(framed@.subrange(5, 9) =~= be32(cmd_len));
    }
    Ok(framed)
}

/// State of one request/response exchange.
///
/// `Send` expects the framed command — header plus `payload_len` payload
/// bytes — to be handed to the connection as one logical write. `ReadLen`
/// expects the 4-byte response length word; `ReadPayload` expects exactly
/// `resp_len` bytes, the only state in which the driver may touch the
/// caller's response buffer; `ReadTrailer` expects the 4-byte zero sentinel.
#[derive(PartialEq, Eq, Copy, Clone, Debug, Structural)]
pub enum TransactState {
    Send { payload_len: usize, capacity: usize },
    ReadLen { capacity: usize },
    ReadPayload { resp_len: u32 },
    ReadTrailer { resp_len: u32 },
    Complete { resp_len: u32 },
    Aborted { err: TpmError },
}

/// What the driver observed while performing the requested action.
///
/// `Wrote` reports how many bytes the connection accepted; a driver that saw
/// a hard write failure reports the bytes it knows were accepted (zero for a
/// failed single write). `Word` reports a decoded 4-byte big-endian word;
/// `PayloadRead` that exactly the requested payload bytes arrived; `IoFailed`
/// that a read failed.
#[derive(PartialEq, Eq, Copy, Clone, Debug, Structural)]
pub enum TransactEvent {
    Wrote { n: usize },
    Word { value: u32 },
    PayloadRead,
    IoFailed,
}

/// The transition relation of one exchange.
///
/// A short (or failed) write aborts with `IoError`; a response length beyond
/// the caller's capacity aborts with `InsufficientBuffer` before any payload
/// byte is consumed; a nonzero trailer aborts with `ProtocolViolation`
/// carrying the trailer, even though the payload itself arrived intact.
pub open spec fn transact_step_spec(s: TransactState, e: TransactEvent) -> TransactState {
    match (s, e) {
        (TransactState::Send { payload_len, capacity }, TransactEvent::Wrote { n }) => if n
            == payload_len + HEADER_LEN {
            TransactState::ReadLen { capacity }
        } else {
            TransactState::Aborted { err: TpmError::IoError }
        },
        (TransactState::Send { payload_len, capacity }, TransactEvent::IoFailed) => TransactState::Aborted {
            err: TpmError::IoError,
        },
        (TransactState::ReadLen { capacity }, TransactEvent::Word { value }) => if value
            > capacity {
            TransactState::Aborted { err: TpmError::InsufficientBuffer }
        } else {
            TransactState::ReadPayload { resp_len: value }
        },
        (TransactState::ReadLen { capacity }, TransactEvent::IoFailed) => TransactState::Aborted {
            err: TpmError::IoError,
        },
        (TransactState::ReadPayload { resp_len }, TransactEvent::PayloadRead) => TransactState::ReadTrailer {
            resp_len,
        },
        (TransactState::ReadPayload { resp_len }, TransactEvent::IoFailed) => TransactState::Aborted {
            err: TpmError::IoError,
        },
        (TransactState::ReadTrailer { resp_len }, TransactEvent::Word { value }) => if value == 0 {
            TransactState::Complete { resp_len }
        } else {
            TransactState::Aborted { err: TpmError::ProtocolViolation { code: value } }
        },
        (TransactState::ReadTrailer { resp_len }, TransactEvent::IoFailed) => TransactState::Aborted {
            err: TpmError::IoError,
        },
        _ => s,
    }
}

/// Starts one exchange for a command of the given length against a response
/// buffer of the given capacity. A command whose length does not fit the
/// 32-bit length field is rejected at once with `BadSize`.
pub fn transact_init(cmd_len: usize, capacity: usize) -> (s: TransactState)
    ensures
        cmd_len <= u32::MAX ==> s == (TransactState::Send { payload_len: cmd_len, capacity }),
        cmd_len > u32::MAX ==> s == (TransactState::Aborted { err: TpmError::BadSize }),
{
    if cmd_len > u32::MAX as usize {
        TransactState::Aborted { err: TpmError::BadSize }
    } else {
        TransactState::Send { payload_len: cmd_len, capacity }
    }
}

/// Advances the exchange by one observed event.
pub fn transact_step(s: TransactState, e: TransactEvent) -> (s2: TransactState)
    ensures
        s2 == transact_step_spec(s, e),
{
    match (s, e) {
        (TransactState::Send { payload_len, capacity }, TransactEvent::Wrote { n }) => if n
            >= HEADER_LEN && n - HEADER_LEN == payload_len {
            TransactState::ReadLen { capacity }
        } else {
            TransactState::Aborted { err: TpmError::IoError }
        },
        (TransactState::Send { payload_len: _, capacity: _ }, TransactEvent::IoFailed) => TransactState::Aborted {
            err: TpmError::IoError,
        },
        (TransactState::ReadLen { capacity }, TransactEvent::Word { value }) => if value as usize
            > capacity {
            TransactState::Aborted { err: TpmError::InsufficientBuffer }
        } else {
            TransactState::ReadPayload { resp_len: value }
        },
        (TransactState::ReadLen { capacity: _ }, TransactEvent::IoFailed) => TransactState::Aborted {
            err: TpmError::IoError,
        },
        (TransactState::ReadPayload { resp_len }, TransactEvent::PayloadRead) => TransactState::ReadTrailer {
            resp_len,
        },
        (TransactState::ReadPayload { resp_len: _ }, TransactEvent::IoFailed) => TransactState::Aborted {
            err: TpmError::IoError,
        },
        (TransactState::ReadTrailer { resp_len }, TransactEvent::Word { value }) => if value == 0 {
            TransactState::Complete { resp_len }
        } else {
            TransactState::Aborted { err: TpmError::ProtocolViolation { code: value } }
        },
        (TransactState::ReadTrailer { resp_len: _ }, TransactEvent::IoFailed) => TransactState::Aborted {
            err: TpmError::IoError,
        },
        _ => s,
    }
}

/// The state the machine reaches from `s` after the whole event sequence.
pub open spec fn transact_run(s: TransactState, evs: Seq<TransactEvent>) -> TransactState
    decreases evs.len(),
{
    if evs.len() == 0 {
        s
    } else {
        transact_run(transact_step_spec(s, evs[0]), evs.skip(1))
    }
}

/// Every response length beyond the caller's capacity is rejected with
/// `InsufficientBuffer`, straight from the length read.
pub proof fn lemma_oversized_response_rejected(capacity: usize, resp_len: u32)
    requires
        resp_len > capacity,
    ensures
        transact_step_spec(
            TransactState::ReadLen { capacity },
            TransactEvent::Word { value: resp_len },
        ) == (TransactState::Aborted { err: TpmError::InsufficientBuffer }),
{
}

/// An exchange whose response length exceeds the caller's capacity aborts
/// with `InsufficientBuffer` before any payload byte is consumed: the states
/// reached are `Send`, `ReadLen` and the abort — `ReadPayload`, the only
/// state in which the driver may write the caller's buffer, is never
/// reached, so the buffer is left unmodified.
pub proof fn lemma_oversized_response_buffer_untouched(
    cmd_len: usize,
    capacity: usize,
    resp_len: u32,
)
    requires
        cmd_len + HEADER_LEN <= usize::MAX,
        resp_len > capacity,
    ensures
        ({
            let s0 = TransactState::Send { payload_len: cmd_len, capacity };
            let evs = seq![
                TransactEvent::Wrote { n: (cmd_len + HEADER_LEN) as usize },
                TransactEvent::Word { value: resp_len },
            ];
            &&& transact_run(s0, evs.take(0)) == s0
            &&& transact_run(s0, evs.take(1)) == (TransactState::ReadLen { capacity })
            &&& transact_run(s0, evs) == (TransactState::Aborted {
                err: TpmError::InsufficientBuffer,
            })
        }),
{
    let s0 = TransactState::Send { payload_len: cmd_len, capacity };
    let w = TransactEvent::Wrote { n: (cmd_len + HEADER_LEN) as usize };
    let l = TransactEvent::Word { value: resp_len };
    let evs = seq![w, l];
    reveal_with_fuel(transact_run, 3);
    assert(evs.take(0) =~= Seq::<TransactEvent>::empty());
    assert(evs.take(1) =~= seq![w]);
    assert(seq![w].skip(1) =~= Seq::<TransactEvent>::empty());
    assert(evs.skip(1) =~= seq![l]);
    assert(seq![l].skip(1) =~= Seq::<TransactEvent>::empty());
}

/// A nonzero trailer fails the exchange with `ProtocolViolation` carrying
/// the trailer word, even though the payload itself was read in full.
pub proof fn lemma_nonzero_trailer_violation(resp_len: u32, trailer: u32)
    requires
        trailer != 0,
    ensures
        transact_step_spec(
            TransactState::ReadTrailer { resp_len },
            TransactEvent::Word { value: trailer },
        ) == (TransactState::Aborted { err: TpmError::ProtocolViolation { code: trailer } }),
{
}

/// One full exchange, from the write through length, payload and trailer:
/// with the whole frame accepted, a response length within capacity and the
/// trailer zero, the exchange completes carrying the response length; with a
/// nonzero trailer it aborts with `ProtocolViolation` instead.
pub proof fn lemma_transact_exchange(
    cmd_len: usize,
    capacity: usize,
    resp_len: u32,
    trailer: u32,
)
    requires
        cmd_len + HEADER_LEN <= usize::MAX,
        resp_len <= capacity,
    ensures
        ({
            let s0 = TransactState::Send { payload_len: cmd_len, capacity };
            let evs = seq![
                TransactEvent::Wrote { n: (cmd_len + HEADER_LEN) as usize },
                TransactEvent::Word { value: resp_len },
                TransactEvent::PayloadRead,
                TransactEvent::Word { value: trailer },
            ];
            transact_run(s0, evs) == if trailer == 0 {
                TransactState::Complete { resp_len }
            } else {
                TransactState::Aborted { err: TpmError::ProtocolViolation { code: trailer } }
            }
        }),
{
    let s0 = TransactState::Send { payload_len: cmd_len, capacity };
    let w = TransactEvent::Wrote { n: (cmd_len + HEADER_LEN) as usize };
    let l = TransactEvent::Word { value: resp_len };
    let p = TransactEvent::PayloadRead;
    let t = TransactEvent::Word { value: trailer };
    let evs = seq![w, l, p, t];
    reveal_with_fuel(transact_run, 5);
    assert(evs.skip(1) =~= seq![l, p, t]);
    assert(seq![l, p, t].skip(1) =~= seq![p, t]);
    assert(seq![p, t].skip(1) =~= seq![t]);
    assert(seq![t].skip(1) =~= Seq::<TransactEvent>::empty());
}

} // verus!
