//! Scan-position snapshots from the display controller.
//!
//! Each scaler channel exposes a status word whose low 12 bits are the
//! current scanline and whose next 6 bits are the frame number (wrapping
//! modulo 64).  The word is read by the unverified binary; this module owns
//! the decoding and the scalar form used to compare positions.

use vstd::prelude::*;

verus! {

/// One of the three independent display-pipeline status channels.  The
/// engine uses exactly one as its timing source; the others are for
/// diagnostics.
#[derive(Clone, Copy, Debug, PartialEq, Eq, Structural)]
pub enum Scaler {
    Scaler0,
    Scaler1,
    Scaler2,
}

impl Scaler {
    /// Byte offset of this channel's status word inside the mapped
    /// display-controller register window.
    pub fn register_offset(&self) -> (r: usize)
        ensures
            r == match *self {
                Scaler::Scaler0 => 0x48int,
                Scaler::Scaler1 => 0x58int,
                Scaler::Scaler2 => 0x68int,
            },
    {
        match *self {
            Scaler::Scaler0 => 0x48,
            Scaler::Scaler1 => 0x58,
            Scaler::Scaler2 => 0x68,
        }
    }
}

/// A read-only snapshot of the display controller's scan position: a frame
/// number (mod 64) and a scanline (mod 4096).
#[derive(Clone, Copy, Debug, PartialEq, Eq, Structural)]
pub struct ScanLine {
    pub frame: u32,
    pub scanline: u32,
}

impl ScanLine {
    /// Field bounds: the frame counter is a 6-bit value, the scanline a
    /// 12-bit value.
    pub open spec fn wf(&self) -> bool {
        self.frame < 64 && self.scanline < 4096
    }

    /// Decodes a raw status word: low 12 bits are the scanline, the next 6
    /// the frame number.
    pub fn from_raw(raw: u32) -> (r: ScanLine)
        ensures
            r.scanline == raw & 0xFFF,
            r.frame == (raw >> 12) & 0x3F,
            r.wf(),
    {
        let scanline = raw & 0b1111_1111_1111;
        let frame = (raw >> 12) & 0b11_1111;
        proof {
            assert(raw & 0xFFF < 4096 && (raw >> 12) & 0x3F < 64) by (bit_vector);
        }
        ScanLine { scanline, frame }
    }

    /// The scalar form of a position, used to compare and order snapshots:
    /// frame in the high bits, scanline in the low.
    pub fn to_u32(&self) -> (r: u32)
        requires
            self.wf(),
        ensures
            r == self.frame * 4096 + self.scanline,
            r < 0x40000,
    {
        proof {
            let f = self.frame;
            let s = self.scanline;
            assert(f < 64 && s < 4096 ==> (f << 12) == f * 4096 && f * 4096 + s < 0x40000)
                by (bit_vector);
        }
        (self.frame << 12) + self.scanline
    }
}

/// Decoding then re-encoding a status word keeps exactly its low 18 bits:
/// the position is the whole of what the word carries.
pub proof fn lemma_position_roundtrip(raw: u32)
    ensures
        (ScanLine { scanline: raw & 0xFFF, frame: (raw >> 12) & 0x3F }).wf(),
        (((raw >> 12) & 0x3F) * 4096 + (raw & 0xFFF) == raw & 0x3FFFF),
{
    assert((raw & 0xFFF < 4096 && (raw >> 12) & 0x3F < 64) && ((raw >> 12) & 0x3F) * 4096 + (raw
        & 0xFFF) == raw & 0x3FFFF) by (bit_vector);
}

/// The scalar form orders positions: it is strictly monotone in the
/// (frame, scanline) pair taken lexicographically.
pub proof fn lemma_scalar_orders_positions(a: ScanLine, b: ScanLine)
    requires
        a.wf(),
        b.wf(),
    ensures
        (a.frame * 4096 + a.scanline < b.frame * 4096 + b.scanline) <==> (a.frame < b.frame || (
        a.frame == b.frame && a.scanline < b.scanline)),
{
    let af = a.frame;
    let asl = a.scanline;
    let bf = b.frame;
    let bsl = b.scanline;
    assert(af < 64 && asl < 4096 && bf < 64 && bsl < 4096 ==> ((af * 4096 + asl < bf * 4096 + bsl)
        <==> (af < bf || (af == bf && asl < bsl)))) by (bit_vector);
}

} // verus!
