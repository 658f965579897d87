//! The display side: painting scan frames into a flat pixel buffer, and the
//! double-buffered driver's state machine.
//!
//! The display hardware is driven by the unverified binary (connector and
//! mode selection, page flips, the blocking wait for vsync events).  What is
//! verified here is everything the per-vsync callback decides and writes:
//! which buffer is painted, what every byte of it becomes, and when the loop
//! stops.

use vstd::prelude::*;
use crate::errors::AcquisitionError;
use crate::schedule::ScanSchedule;

verus! {

/// Flat index `i` lies on the row of `width` bytes starting at `start`.
pub open spec fn on_line(i: int, start: int, width: int) -> bool {
    start <= i < start + width
}

/// Flat index `i` lies inside the `width x height` block whose upper-left
/// byte is `x + y * stride`.
pub open spec fn in_block(i: int, stride: int, x: int, y: int, width: int, height: int) -> bool {
    exists|r: int| 0 <= r < height && #[trigger] on_line(i, x + (y + r) * stride, width)
}

/// Overwrites one run of `width` bytes starting at `start` with `value`,
/// leaving every other byte as it was.
pub fn set_line(buf: &mut Vec<u8>, start: usize, width: usize, value: u8)
    requires
        start + width <= old(buf).len(),
    ensures
        final(buf).len() == old(buf).len(),
        forall|i: int|
            0 <= i < final(buf).len() ==> final(buf)[i] == if on_line(
                i,
                start as int,
                width as int,
            ) {
                value
            } else {
                old(buf)[i]
            },
{
    let mut j: usize = 0;
    while j < width
        invariant
            j <= width,
            start + width <= buf.len(),
            buf.len() == old(buf).len(),
            forall|i: int|
                0 <= i < buf.len() ==> buf[i] == if on_line(i, start as int, j as int) {
                    value
                } else {
                    old(buf)[i]
                },
        decreases width - j,
    {
        buf.set(start + j, value);
        j = j + 1;
    }
}

/// Overwrites a `width x height` block whose upper-left byte is
/// `x + y * stride`, one row of the flat buffer at a time, leaving every
/// byte outside the block as it was.
pub fn set_block(buf: &mut Vec<u8>, stride: usize, x: usize, y: usize, width: usize, height: usize, value: u8)
    requires
        stride >= 1,
        x + width <= stride,
        (y + height) * stride <= old(buf).len(),
    ensures
        final(buf).len() == old(buf).len(),
        forall|i: int|
            0 <= i < final(buf).len() ==> final(buf)[i] == if in_block(
                i,
                stride as int,
                x as int,
                y as int,
                width as int,
                height as int,
            ) {
                value
            } else {
                old(buf)[i]
            },
{
    let mut r: usize = 0;
    while r < height
        invariant
            r <= height,
            stride >= 1,
            x + width <= stride,
            (y + height) * stride <= buf.len(),
            buf.len() == old(buf).len(),
            forall|i: int|
                0 <= i < buf.len() ==> buf[i] == if in_block(
                    i,
                    stride as int,
                    x as int,
                    y as int,
                    width as int,
                    r as int,
                ) {
                    value
                } else {
                    old(buf)[i]
                },
        decreases height - r,
    {
        proof {
            assert((y + r + 1) * stride <= (y + height) * stride) by (nonlinear_arith)
                requires
                    r < height,
                    stride >= 0,
                    y >= 0,
            ;
            assert(x + (y + r) * stride + width <= (y + r + 1) * stride) by (nonlinear_arith)
                requires
                    x + width <= stride,
                    stride >= 0,
                    y + r >= 0,
            ;
            assert(y + height <= (y + height) * stride) by (nonlinear_arith)
                requires
                    stride >= 1,
                    y + height >= 0,
            ;
        }
        let start = x + (y + r) * stride;
        let ghost pre = buf@;
        set_line(buf, start, width, value);
        proof {
            let s = stride as int;
            let xi = x as int;
            let yi = y as int;
            let w = width as int;
            let ri = r as int;
            assert forall|i: int| 0 <= i < buf.len() implies buf[i] == if in_block(
                i,
                s,
                xi,
                yi,
                w,
                ri + 1,
            ) {
                value
            } else {
                old(buf)[i]
            } by {
                if on_line(i, xi + (yi + ri) * s, w) {
                    assert(in_block(i, s, xi, yi, w, ri + 1));
                } else {
                    assert(buf[i] == pre[i]);
                    if in_block(i, s, xi, yi, w, ri + 1) {
                        let rr = choose|rr: int|
                            0 <= rr < ri + 1 && #[trigger] on_line(i, xi + (yi + rr) * s, w);
                        assert(rr < ri);
                        assert(in_block(i, s, xi, yi, w, ri));
                    } else {
                        if in_block(i, s, xi, yi, w, ri) {
                            let rr = choose|rr: int|
                                0 <= rr < ri && #[trigger] on_line(i, xi + (yi + rr) * s, w);
                            assert(0 <= rr < ri + 1 && on_line(i, xi + (yi + rr) * s, w));
                        }
                    }
                }
            }
        }
        r = r + 1;
    }
}

/// Overwrites the whole buffer with `value`.
pub fn fill(buf: &mut Vec<u8>, value: u8)
    ensures
        final(buf).len() == old(buf).len(),
        forall|i: int| 0 <= i < final(buf).len() ==> final(buf)[i] == value,
{
    let n = buf.len();
    let mut j: usize = 0;
    while j < n
        invariant
            j <= n,
            n == buf.len(),
            buf.len() == old(buf).len(),
            forall|i: int| 0 <= i < j ==> buf[i] == value,
        decreases n - j,
    {
        buf.set(j, value);
        j = j + 1;
    }
}

/// Paints one scan frame: a dark field with the schedule's cell for `counter`
/// lit at full intensity, or nothing at all once the schedule is exhausted.
/// Returns the callback's stop signal.  The buffer is fully determined by
/// this call — nothing carries over from the previous frame.
pub fn render_scan_frame(schedule: &ScanSchedule, counter: u32, stride: usize, buf: &mut Vec<
    u8,
>) -> (stop: bool)
    requires
        schedule.wf(),
        stride >= 1,
        schedule.origin_x + schedule.side * schedule.divider <= stride,
        (schedule.origin_y + schedule.side * schedule.divider) * stride <= old(buf).len(),
    ensures
        stop == (counter >= schedule.side * schedule.side),
        stop ==> *final(buf) == *old(buf),
        !stop ==> {
            &&& final(buf).len() == old(buf).len()
            &&& forall|i: int|
                0 <= i < final(buf).len() ==> final(buf)[i] == if in_block(
                    i,
                    stride as int,
                    schedule.origin_x + (counter as int % schedule.side as int) * schedule.divider,
                    schedule.origin_y + (counter as int / schedule.side as int) * schedule.divider,
                    schedule.divider as int,
                    schedule.divider as int,
                ) {
                    255u8
                } else {
                    0u8
                }
        },
{
    let cell = schedule.cell_of(counter);
    match cell {
        None => true,
        Some((x, y)) => {
            proof {
                assert(x < schedule.side && y < schedule.side ==> x * schedule.divider
                    + schedule.divider <= schedule.side * schedule.divider && y * schedule.divider
                    + schedule.divider <= schedule.side * schedule.divider) by (nonlinear_arith);
                assert(((schedule.origin_y + y * schedule.divider) + schedule.divider) * stride <= (
                (schedule.origin_y + schedule.side * schedule.divider) as int) * stride)
                    by (nonlinear_arith)
                    requires
                        stride >= 1,
                        y * schedule.divider + schedule.divider <= schedule.side * schedule.divider,
                ;
            }
            let px = schedule.origin_x + x * schedule.divider;
            let py = schedule.origin_y + y * schedule.divider;
            fill(buf, 0);
            set_block(
                buf,
                stride,
                px as usize,
                py as usize,
                schedule.divider as usize,
                schedule.divider as usize,
                255,
            );
            false
        },
    }
}

/// The driver's lifecycle.
#[derive(Clone, Copy, Debug, PartialEq, Eq, Structural)]
pub enum DriverPhase {
    /// Nothing configured yet.
    Idle,
    /// A connector, mode and two buffers are chosen.
    Configured,
    /// The initial flip was issued; vsync events are being serviced.
    Running,
    /// The callback asked to stop; no further flips are issued.
    Stopped,
}

/// The double-buffered display driver's bookkeeping: which of the two
/// buffers is on screen, how many vsyncs have been serviced, and where in
/// the lifecycle the loop stands.  The unverified event loop mirrors every
/// transition through these methods.
#[derive(Clone, Copy, Debug, PartialEq, Eq, Structural)]
pub struct DisplayDriver {
    pub phase: DriverPhase,
    pub front: usize,
    pub vsyncs: u64,
}

impl DisplayDriver {
    /// The front buffer is always one of the two.
    pub open spec fn wf(&self) -> bool {
        self.front < 2
    }

    pub fn new() -> (r: DisplayDriver)
        ensures
            r == (DisplayDriver { phase: DriverPhase::Idle, front: 0, vsyncs: 0 }),
            r.wf(),
    {
        DisplayDriver { phase: DriverPhase::Idle, front: 0, vsyncs: 0 }
    }

    /// Records the outcome of the setup phase.  There is no fallback mode
    /// negotiation: if no suitable connector and mode was found, setup is
    /// fatal and the driver never leaves `Idle`.
    pub fn configure(&mut self, found_mode: bool) -> (r: Result<(), AcquisitionError>)
        requires
            old(self).phase == DriverPhase::Idle,
        ensures
            (r is Ok) <==> found_mode,
            found_mode ==> *final(self) == (DisplayDriver {
                phase: DriverPhase::Configured,
                ..*old(self)
            }),
            !found_mode ==> *final(self) == *old(self) && r == Err::<
                (),
                AcquisitionError,
            >(AcquisitionError::SetupFailure),
    {
        if found_mode {
            self.phase = DriverPhase::Configured;
            Ok(())
        } else {
            Err(AcquisitionError::SetupFailure)
        }
    }

    /// The initial flip: enters the vsync event loop with buffer 0 on
    /// screen.
    pub fn start(&mut self)
        requires
            old(self).phase == DriverPhase::Configured,
        ensures
            *final(self) == (DisplayDriver { phase: DriverPhase::Running, ..*old(self) }),
    {
        self.phase = DriverPhase::Running;
    }

    /// The buffer the callback paints next: the one not on screen.
    pub fn paint_target(&self) -> (r: usize)
        requires
            self.wf(),
        ensures
            r == 1 - self.front,
    {
        1 - self.front
    }

    /// Services one vsync completion: the buffer roles swap, the next flip
    /// is queued at once (the hardware always has a buffer in flight), and
    /// the callback's stop signal decides whether the loop goes on.
    pub fn on_vsync(&mut self, stop_requested: bool)
        requires
            old(self).wf(),
            old(self).phase == DriverPhase::Running,
            old(self).vsyncs < u64::MAX,
        ensures
            final(self).front == 1 - old(self).front,
            final(self).vsyncs == old(self).vsyncs + 1,
            final(self).phase == if stop_requested {
                DriverPhase::Stopped
            } else {
                DriverPhase::Running
            },
            final(self).wf(),
    {
        self.front = 1 - self.front;
        self.vsyncs = self.vsyncs + 1;
        if stop_requested {
            self.phase = DriverPhase::Stopped;
        }
    }
}

} // verus!
