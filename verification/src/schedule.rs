//! The scan schedule: the deterministic mapping from display frame index to
//! illuminated grid cell.
//!
//! The display field is split into a square grid of `side x side` cells of
//! `divider` pixels each, offset by an origin.  Frame `k` illuminates cell
//! `(k % side, k / side)`; frame indices at or beyond `side * side` map to
//! no cell (the pattern is over and the display goes blank).

use vstd::prelude::*;
use crate::errors::AcquisitionError;

verus! {

/// Cell size, in pixels, of the deployed rig's scanning pattern.
pub const DIVIDER: u32 = 6;

/// The scan-schedule parameters: grid side length in cells, cell size in
/// pixels, and the origin offset of the grid inside the display field.
#[derive(Clone, Copy, Debug, PartialEq, Eq, Structural)]
pub struct ScanSchedule {
    pub side: u32,
    pub divider: u32,
    pub origin_x: u32,
    pub origin_y: u32,
}

impl ScanSchedule {
    /// Parameter bounds: a positive cell size and a grid small enough that
    /// every pixel coordinate the schedule can name fits comfortably in u32
    /// arithmetic.
    pub open spec fn wf(&self) -> bool {
        &&& self.divider >= 1
        &&& self.side * self.divider <= 0x8000
        &&& self.origin_x <= 0x8000
        &&& self.origin_y <= 0x8000
    }

    /// Builds a schedule covering a field of `field_len` pixels with cells
    /// of `divider` pixels.  Fails (setup failure, before any thread starts)
    /// unless the cell size is positive and divides the field exactly.
    pub fn new(field_len: u32, divider: u32, origin_x: u32, origin_y: u32) -> (r: Result<
        ScanSchedule,
        AcquisitionError,
    >)
        requires
            field_len <= 0x8000,
            origin_x <= 0x8000,
            origin_y <= 0x8000,
        ensures
            (r is Ok) <==> (divider >= 1 && field_len % divider == 0),
            r matches Ok(s) ==> s == (ScanSchedule {
                side: (field_len / divider) as u32,
                divider,
                origin_x,
                origin_y,
            }) && s.wf(),
            r matches Err(e) ==> e == AcquisitionError::SetupFailure,
    {
        if divider == 0 || field_len % divider != 0 {
            return Err(AcquisitionError::SetupFailure);
        }
        let side = field_len / divider;
        proof {
            assert(side * divider <= 0x8000) by (nonlinear_arith)
                requires
                    divider >= 1,
                    field_len <= 0x8000,
                    side == field_len / divider,
            ;
        }
        Ok(ScanSchedule { side, divider, origin_x, origin_y })
    }

    /// How many frames the schedule takes to visit every cell once.
    pub fn total_cells(&self) -> (r: u32)
        requires
            self.wf(),
        ensures
            r == self.side * self.side,
    {
        proof {
            assert(self.side <= self.side * self.divider) by (nonlinear_arith)
                requires
                    self.divider >= 1,
            ;
            assert(self.side * self.side <= 0x8000 * 0x8000) by (nonlinear_arith)
                requires
                    self.side <= 0x8000,
            ;
        }
        self.side * self.side
    }

    /// The cell illuminated on frame `frame`: `(frame % side, frame / side)`
    /// while the scan is still running, and no cell at all once every cell
    /// has been visited.  Total over `0 <= frame < side * side`.
    pub fn cell_of(&self, frame: u32) -> (r: Option<(u32, u32)>)
        requires
            self.wf(),
        ensures
            (r is Some) <==> frame < self.side * self.side,
            r matches Some(cell) ==> cell == ((frame % self.side, frame / self.side)) && cell.0
                < self.side && cell.1 < self.side,
    {
        let total = self.total_cells();
        if frame >= total {
            return None;
        }
        proof {
            assert(self.side >= 1) by (nonlinear_arith)
                requires
                    frame < self.side * self.side,
            ;
            assert(frame < self.side * self.side && self.side >= 1 ==> frame % self.side < self.side
                && frame / self.side < self.side) by (nonlinear_arith);
        }
        let x = frame % self.side;
        let y = frame / self.side;
        Some((x, y))
    }
}

/// The schedule visits each cell exactly once: within one sweep, distinct
/// frames illuminate distinct cells.
pub proof fn lemma_schedule_injective(s: ScanSchedule, f1: u32, f2: u32)
    requires
        s.wf(),
        f1 < s.side * s.side,
        f2 < s.side * s.side,
        f1 != f2,
    ensures
        (f1 % s.side, f1 / s.side) != (f2 % s.side, f2 / s.side),
{
    assert(s.side >= 1) by (nonlinear_arith)
        requires
            f1 < s.side * s.side,
    ;
    assert(f1 == (f1 / s.side) * s.side + (f1 % s.side) && f2 == (f2 / s.side) * s.side + (f2
        % s.side)) by (nonlinear_arith)
        requires
            s.side >= 1,
    ;
}

/// The frame index that illuminates cell `(x, y)` is `y * side + x`: the
/// schedule's cell map and the flat cell index are inverses.
pub proof fn lemma_cell_index_roundtrip(s: ScanSchedule, frame: u32)
    requires
        s.wf(),
        frame < s.side * s.side,
    ensures
        (frame / s.side) * s.side + (frame % s.side) == frame,
        (frame / s.side) * s.side + (frame % s.side) < s.side * s.side,
{
    assert(s.side >= 1 ==> frame == (frame / s.side) * s.side + (frame % s.side))
        by (nonlinear_arith);
    assert(s.side >= 1) by (nonlinear_arith)
        requires
            frame < s.side * s.side,
    ;
}

} // verus!
