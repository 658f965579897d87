//! The command-layer interface types and the wire framing they travel in.
//!
//! The RPC layer itself (sockets, CBOR encoding) is outside this core and
//! lives in the unverified binary; these are the payload shapes it
//! exchanges, plus the 4-byte little-endian length prefix that frames every
//! message.  Positions handed to the go-to command carry floating-point
//! coordinates and therefore stay with the unverified layer.

use vstd::prelude::*;

verus! {

/// A named illumination-mask sequence the rig can run.
#[derive(Clone, Copy, Debug, PartialEq, Eq, Structural)]
pub enum MaskSeq {
    ScanningBox,
}

/// Ask the rig to run the given mask sequences and return the pulse data.
#[derive(Clone, Debug, PartialEq, Eq)]
pub struct TakePictureReq {
    pub masks: Vec<MaskSeq>,
}

/// The recorded pulse counts, one inner vector per mask sequence.
#[derive(Clone, Debug, PartialEq, Eq)]
pub struct TakePictureResp {
    pub pulses: Vec<Vec<u32>>,
}

/// Acknowledgement of a completed go-to.
#[derive(Clone, Copy, Debug, PartialEq, Eq, Structural)]
pub struct GoToResp {}

/// Every reply the rig can send.
#[derive(Clone, Debug, PartialEq, Eq)]
pub enum Response {
    TakePicture(TakePictureResp),
    GoTo(GoToResp),
}

/// Byte `i` of the little-endian encoding of `x`.
pub open spec fn le_byte(x: u32, i: u32) -> u32 {
    (x >> (8 * i)) & 0xFF
}

/// Encodes a message length as the 4-byte little-endian prefix that frames
/// every message on the wire.
pub fn encode_frame_len(len: u32) -> (r: [u8; 4])
    ensures
        r[0] == le_byte(len, 0),
        r[1] == le_byte(len, 1),
        r[2] == le_byte(len, 2),
        r[3] == le_byte(len, 3),
{
    let b0 = (len & 0xFF) as u8;
    let b1 = ((len >> 8) & 0xFF) as u8;
    let b2 = ((len >> 16) & 0xFF) as u8;
    let b3 = ((len >> 24) & 0xFF) as u8;
    proof {
        assert(len & 0xFF == (len >> (8 * 0)) & 0xFF && (len >> 8) & 0xFF == (len >> (8 * 1))
            & 0xFF && (len >> 16) & 0xFF == (len >> (8 * 2)) & 0xFF && (len >> 24) & 0xFF == (len
            >> (8 * 3)) & 0xFF && len & 0xFF < 256 && (len >> 8) & 0xFF < 256 && (len >> 16) & 0xFF
            < 256 && (len >> 24) & 0xFF < 256) by (bit_vector);
    }
    [b0, b1, b2, b3]
}

/// Reads a message length back out of its 4-byte little-endian prefix.
pub fn decode_frame_len(b0: u8, b1: u8, b2: u8, b3: u8) -> (r: u32)
    ensures
        r == b0 + 0x100 * b1 + 0x1_0000 * b2 + 0x100_0000 * b3,
{
    let r = (b0 as u32) | ((b1 as u32) << 8) | ((b2 as u32) << 16) | ((b3 as u32) << 24);
    proof {
        assert((b0 as u32) | ((b1 as u32) << 8) | ((b2 as u32) << 16) | ((b3 as u32) << 24) == b0
            + 0x100 * (b1 as u32) + 0x1_0000 * (b2 as u32) + 0x100_0000 * (b3 as u32))
            by (bit_vector);
    }
    r
}

/// Framing round-trip law: decoding the four prefix bytes of an encoded
/// length gives the length back, for every 32-bit length.
pub proof fn lemma_frame_len_roundtrip(len: u32)
    ensures
        le_byte(len, 0) + 0x100 * le_byte(len, 1) + 0x1_0000 * le_byte(len, 2) + 0x100_0000
            * le_byte(len, 3) == len,
{
    assert(((len >> (8 * 0)) & 0xFF) + 0x100 * ((len >> (8 * 1)) & 0xFF) + 0x1_0000 * ((len >> (8
        * 2)) & 0xFF) + 0x100_0000 * ((len >> (8 * 3)) & 0xFF) == len) by (bit_vector);
}

} // verus!
