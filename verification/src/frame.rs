//! Length-prefixed framing on the RPC wire.
//!
//! Each message travels as a four-byte little-endian length followed by that
//! many payload bytes. A claimed length that is negative or beyond
//! `MAX_FRAME_LEN` is fatal for the connection; an empty frame is legal and
//! stands for an empty response.

use vstd::prelude::*;

use crate::wire::{push_le32, read_le32, spec_from_le32, spec_le32, lemma_le32_round_trip};

verus! {

/// The largest legal frame payload: 128 MiB.
pub const MAX_FRAME_LEN: u32 = 0x0800_0000;

/// The wire form of a frame: the payload's length, then the payload.
pub open spec fn spec_frame(p: Seq<u8>) -> Seq<u8> {
    spec_le32(p.len() as u32) + p
}

/// A claimed frame length the receiver accepts.
pub open spec fn frame_len_ok(len: i32) -> bool {
    0 <= len <= MAX_FRAME_LEN
}

/// Whether a claimed frame length is acceptable; anything negative or over
/// `MAX_FRAME_LEN` closes the connection.
pub fn check_frame_len(len: i32) -> (r: bool)
    ensures
        r == frame_len_ok(len),
{
    0 <= len && len <= MAX_FRAME_LEN as i32
}

/// Encodes `p` as one frame.
pub fn frame_encode(p: &Vec<u8>) -> (out: Vec<u8>)
    requires
        p@.len() <= MAX_FRAME_LEN,
    ensures
        out@ == spec_frame(p@),
{
    let mut out: Vec<u8> = Vec::new();
    push_le32(&mut out, p.len() as u32);
    crate::codec::push_bytes(&mut out, p);
    assert(out@ =~= spec_frame(p@));
    out
}

/// Reads the length field of the frame starting at `i`.
pub fn frame_header(s: &Vec<u8>, i: usize) -> (r: i32)
    requires
        i + 4 <= s@.len(),
    ensures
        r == spec_from_le32(s@.subrange(i as int, i + 4)) as i32,
{
    let n = read_le32(s, i);
    #[verifier::truncate] (n as i32)
}

/// A frame carries its payload back: the header of `spec_frame(p)` claims
/// `p.len()`, that length is accepted, and the bytes after the header are
/// exactly `p`.
pub proof fn lemma_frame_round_trip(p: Seq<u8>)
    requires
        p.len() <= MAX_FRAME_LEN,
    ensures
        spec_from_le32(spec_frame(p).subrange(0, 4)) == p.len(),
        frame_len_ok(spec_from_le32(spec_frame(p).subrange(0, 4)) as i32),
        spec_frame(p).subrange(4, spec_frame(p).len() as int) == p,
{
    let s = spec_frame(p);
    assert(s.subrange(0, 4) =~= spec_le32(p.len() as u32));
    lemma_le32_round_trip(p.len() as u32);
    assert(s.subrange(4, s.len() as int) =~= p);
    let n = p.len() as u32;
    assert(n <= 0x0800_0000u32 ==> n as i32 == n as int) by (bit_vector);
}

} // verus!

verus! {

/// What reading a frame header produced.
#[derive(Clone, Copy, Debug, PartialEq, Eq, Structural)]
pub enum FrameReadEvent {
    /// A header arrived claiming this payload length.
    Header(i32),
    /// The peer sent nothing yet; the connection idles.
    Eof,
    /// The read failed.
    IoError,
}

/// What the connection loop does next.
#[derive(Clone, Copy, Debug, PartialEq, Eq, Structural)]
pub enum ConnAction {
    /// Yield and try the header read again: an idle connection is kept
    /// alive.
    YieldAndRetry,
    /// Read exactly this many payload bytes and handle them.
    ReadPayload(usize),
    /// Close the connection.
    Close,
}

/// The connection loop's rule: idle reads are retried, an acceptable length
/// is read in full, anything else closes the connection.
pub open spec fn spec_conn_step(e: FrameReadEvent) -> ConnAction {
    match e {
        FrameReadEvent::Header(len) => if frame_len_ok(len) {
            ConnAction::ReadPayload(len as usize)
        } else {
            ConnAction::Close
        },
        FrameReadEvent::Eof => ConnAction::YieldAndRetry,
        FrameReadEvent::IoError => ConnAction::Close,
    }
}

/// Decides what the RPC connection loop does after one header read.
pub fn conn_step(e: FrameReadEvent) -> (r: ConnAction)
    ensures
        r == spec_conn_step(e),
{
    match e {
        FrameReadEvent::Header(len) => if check_frame_len(len) {
            ConnAction::ReadPayload(len as usize)
        } else {
            ConnAction::Close
        },
        FrameReadEvent::Eof => ConnAction::YieldAndRetry,
        FrameReadEvent::IoError => ConnAction::Close,
    }
}

} // verus!
