//! Reconstruction: from the tagged sample log back to a spatial image.
//!
//! Samples are grouped by the frame counter value they carry; each frame's
//! accumulated count and sample number land in the image cell the scan
//! schedule illuminated on that frame (whose flat index is the frame index
//! itself).  Frames beyond the schedule's one sweep are ignored; cells no
//! kept sample fell in stay at zero.  Cell intensities are kept exact, as a
//! (total, samples) pair whose quotient is the mean pulse rate; rescaling
//! for export is a separate, also exact, integer step.

use vstd::prelude::*;
use crate::coordinator::Sample;
use crate::schedule::{ScanSchedule, lemma_cell_index_roundtrip};

verus! {

/// Accumulated statistics of one image cell: the summed counts of the kept
/// samples whose frame fell in this cell's dwell interval, and how many
/// there were.  The cell's intensity is the quotient.
#[derive(Clone, Copy, Debug, PartialEq, Eq, Structural)]
pub struct CellStat {
    pub total: u64,
    pub samples: u64,
}

/// Sum of the counts of the samples among the first `k` whose frame is `f`.
pub open spec fn frame_total(s: Seq<Sample>, f: int, k: int) -> int
    decreases k,
{
    if k <= 0 {
        0
    } else {
        frame_total(s, f, k - 1) + if s[k - 1].frame == f {
            s[k - 1].reading.count as int
        } else {
            0
        }
    }
}

/// How many of the first `k` samples have frame `f`.
pub open spec fn frame_hits(s: Seq<Sample>, f: int, k: int) -> int
    decreases k,
{
    if k <= 0 {
        0
    } else {
        frame_hits(s, f, k - 1) + if s[k - 1].frame == f {
            1int
        } else {
            0
        }
    }
}

/// Per-frame sums grow by at most one count (at most `u32::MAX`) per sample,
/// and hits by at most one.
pub proof fn lemma_frame_sums_bounded(s: Seq<Sample>, f: int, k: int)
    requires
        0 <= k <= s.len(),
    ensures
        0 <= frame_total(s, f, k) <= k * 0xFFFF_FFFF,
        0 <= frame_hits(s, f, k) <= k,
    decreases k,
{
    if k > 0 {
        lemma_frame_sums_bounded(s, f, k - 1);
        assert((k - 1) * 0xFFFF_FFFF + 0xFFFF_FFFF == k * 0xFFFF_FFFF) by (nonlinear_arith);
    }
}

/// A reconstructed image: a `side x side` grid of cell statistics, one per
/// scan-schedule cell, flat index `y * side + x`.
pub struct Image {
    pub side: u32,
    pub cells: Vec<CellStat>,
}

impl Image {
    /// The grid is fully allocated and small enough to index in u32.
    pub open spec fn wf(&self) -> bool {
        &&& self.side <= 0x8000
        &&& self.cells.len() == self.side * self.side
    }

    /// The statistics of cell `(x, y)`.
    pub fn cell(&self, x: u32, y: u32) -> (r: CellStat)
        requires
            self.wf(),
            x < self.side,
            y < self.side,
        ensures
            r == self.cells[y * self.side + x],
    {
        proof {
            assert(y * self.side + x < self.side * self.side && self.side * self.side
                <= 0x8000 * 0x8000) by (nonlinear_arith)
                requires
                    x < self.side,
                    y < self.side,
                    self.side <= 0x8000,
            ;
        }
        let idx = y * self.side + x;
        self.cells[idx as usize]
    }
}

/// Builds the image for one scan: every kept sample's count is accumulated
/// into the cell its frame illuminated, so each cell of the result carries
/// exactly the per-frame total and sample number of the log.  Samples whose
/// frame lies beyond the schedule's sweep are ignored.
pub fn reconstruct(samples: &Vec<Sample>, schedule: &ScanSchedule) -> (img: Image)
    requires
        schedule.wf(),
        samples.len() <= 0xFFFF_FFFF,
    ensures
        img.wf(),
        img.side == schedule.side,
        forall|f: int|
            0 <= f < img.cells.len() ==> #[trigger] img.cells[f] == (CellStat {
                total: frame_total(samples@, f, samples@.len() as int) as u64,
                samples: frame_hits(samples@, f, samples@.len() as int) as u64,
            }),
{
    let total_cells = schedule.total_cells();
    let mut cells: Vec<CellStat> = Vec::new();
    let mut j: usize = 0;
    while j < total_cells as usize
        invariant
            j <= total_cells,
            total_cells == schedule.side * schedule.side,
            cells.len() == j,
            forall|f: int|
                0 <= f < j ==> #[trigger] cells[f] == (CellStat { total: 0, samples: 0 }),
        decreases total_cells - j,
    {
        cells.push(CellStat { total: 0, samples: 0 });
        j = j + 1;
    }

    let n = samples.len();
    let mut k: usize = 0;
    while k < n
        invariant
            k <= n,
            n == samples.len(),
            samples.len() <= 0xFFFF_FFFF,
            schedule.wf(),
            total_cells == schedule.side * schedule.side,
            cells.len() == total_cells,
            forall|f: int|
                0 <= f < cells.len() ==> #[trigger] cells[f] == (CellStat {
                    total: frame_total(samples@, f, k as int) as u64,
                    samples: frame_hits(samples@, f, k as int) as u64,
                }),
        decreases n - k,
    {
        let s = samples[k];
        proof {
            lemma_frame_sums_bounded(samples@, s.frame as int, k as int);
            assert(k * 0xFFFF_FFFF + 0xFFFF_FFFF <= 0xFFFF_FFFF * 0x1_0000_0000)
                by (nonlinear_arith)
                requires
                    k < 0x1_0000_0000,
            ;
        }
        match schedule.cell_of(s.frame) {
            None => {
                proof {
                    assert forall|f: int| 0 <= f < cells.len() implies #[trigger] cells[f]
                        == (CellStat {
                        total: frame_total(samples@, f, k + 1) as u64,
                        samples: frame_hits(samples@, f, k + 1) as u64,
                    }) by {
                        assert(samples@[k as int].frame != f);
                    }
                }
            },
            Some((x, y)) => {
                proof {
                    lemma_cell_index_roundtrip(*schedule, s.frame);
                }
                let idx = y * schedule.side + x;
                let c = cells[idx as usize];
                let updated = CellStat {
                    total: c.total + s.reading.count as u64,
                    samples: c.samples + 1,
                };
                cells.set(idx as usize, updated);
                proof {
                    assert forall|f: int| 0 <= f < cells.len() implies #[trigger] cells[f]
                        == (CellStat {
                        total: frame_total(samples@, f, k + 1) as u64,
                        samples: frame_hits(samples@, f, k + 1) as u64,
                    }) by {
                        if f == idx {
                            assert(samples@[k as int].frame == f);
                        } else {
                            assert(samples@[k as int].frame != f);
                        }
                    }
                }
            },
        }
        k = k + 1;
    }
    proof {
        assert(schedule.side <= schedule.side * schedule.divider) by (nonlinear_arith)
            requires
                schedule.divider >= 1,
        ;
    }
    Image { side: schedule.side, cells }
}

/// A cell's intensity: the mean count of the samples that fell in it,
/// rounded down, and zero where no sample fell.
pub open spec fn cell_value(c: CellStat) -> int {
    if c.samples == 0 {
        0
    } else {
        c.total as int / c.samples as int
    }
}

/// The least cell intensity among the first `k` cells (`k >= 1`).
pub open spec fn values_min(s: Seq<CellStat>, k: int) -> int
    decreases k,
{
    if k <= 1 {
        cell_value(s[0])
    } else {
        if cell_value(s[k - 1]) < values_min(s, k - 1) {
            cell_value(s[k - 1])
        } else {
            values_min(s, k - 1)
        }
    }
}

/// The greatest cell intensity among the first `k` cells (`k >= 1`).
pub open spec fn values_max(s: Seq<CellStat>, k: int) -> int
    decreases k,
{
    if k <= 1 {
        cell_value(s[0])
    } else {
        if cell_value(s[k - 1]) > values_max(s, k - 1) {
            cell_value(s[k - 1])
        } else {
            values_max(s, k - 1)
        }
    }
}

/// Every cell's intensity lies between the running minimum and maximum.
pub proof fn lemma_values_bounds(s: Seq<CellStat>, k: int, f: int)
    requires
        0 <= f < k <= s.len(),
    ensures
        values_min(s, k) <= cell_value(s[f]) <= values_max(s, k),
        values_min(s, k) <= values_max(s, k),
    decreases k,
{
    if k > 1 && f < k - 1 {
        lemma_values_bounds(s, k - 1, f);
    }
    if k > 1 {
        lemma_values_bounds(s, k - 1, k - 2);
    }
}

impl Image {
    /// Linearly rescales the cell intensities to `0 ..= range` for export:
    /// the dimmest cell maps to zero and the brightest to `range`.  When
    /// every cell has the same intensity (in particular when nothing was
    /// sampled) there is no spread to scale by, and the whole output is
    /// zero.
    pub fn normalize(&self, range: u32) -> (out: Vec<u32>)
        requires
            self.wf(),
        ensures
            out.len() == self.cells.len(),
            self.cells.len() > 0 ==> {
                let mn = values_min(self.cells@, self.cells.len() as int);
                let mx = values_max(self.cells@, self.cells.len() as int);
                forall|f: int|
                    0 <= f < out.len() ==> #[trigger] out[f] == if mn == mx {
                        0int
                    } else {
                        (cell_value(self.cells[f]) - mn) * range / (mx - mn)
                    }
            },
    {
        let n = self.cells.len();
        let mut out: Vec<u32> = Vec::new();
        if n == 0 {
            return out;
        }
        let mut vals: Vec<u64> = Vec::new();
        let mut j: usize = 0;
        while j < n
            invariant
                j <= n,
                n == self.cells.len(),
                vals.len() == j,
                forall|f: int| 0 <= f < j ==> #[trigger] vals[f] == cell_value(self.cells[f]),
            decreases n - j,
        {
            let c = self.cells[j];
            let v: u64 = if c.samples == 0 {
                0
            } else {
                c.total / c.samples
            };
            vals.push(v);
            j = j + 1;
        }
        let mut mn: u64 = vals[0];
        let mut mx: u64 = vals[0];
        let mut k: usize = 1;
        while k < n
            invariant
                1 <= k <= n,
                n == self.cells.len(),
                vals.len() == n,
                forall|f: int| 0 <= f < n ==> #[trigger] vals[f] == cell_value(self.cells[f]),
                mn == values_min(self.cells@, k as int),
                mx == values_max(self.cells@, k as int),
            decreases n - k,
        {
            let v = vals[k];
            if v < mn {
                mn = v;
            }
            if v > mx {
                mx = v;
            }
            k = k + 1;
        }
        let mut f: usize = 0;
        while f < n
            invariant
                f <= n,
                n == self.cells.len(),
                vals.len() == n,
                forall|i: int| 0 <= i < n ==> #[trigger] vals[i] == cell_value(self.cells[i]),
                mn == values_min(self.cells@, n as int),
                mx == values_max(self.cells@, n as int),
                out.len() == f,
                forall|i: int|
                    0 <= i < f ==> #[trigger] out[i] == if mn == mx {
                        0int
                    } else {
                        (cell_value(self.cells[i]) - mn) * range / (mx - mn)
                    },
            decreases n - f,
        {
            proof {
                lemma_values_bounds(self.cells@, n as int, f as int);
            }
            let scaled: u32 = if mx == mn {
                0
            } else {
                let v = vals[f];
                proof {
                    assert(vals[f as int] == cell_value(self.cells[f as int]));
                    assert(mn <= v <= mx);
                    assert((v - mn) * range <= 0xFFFF_FFFF_FFFF_FFFF * 0xFFFF_FFFF)
                        by (nonlinear_arith)
                        requires
                            0 <= v - mn <= 0xFFFF_FFFF_FFFF_FFFF,
                            0 <= range <= 0xFFFF_FFFF,
                    ;
                }
                let wide: u128 = ((v - mn) as u128) * (range as u128) / ((mx - mn) as u128);
                proof {
                    assert((v - mn) * range / (mx - mn) <= range) by (nonlinear_arith)
                        requires
                            0 <= v - mn <= mx - mn,
                            0 < mx - mn,
                            range >= 0,
                    ;
                }
                wide as u32
            };
            out.push(scaled);
            f = f + 1;
        }
        out
    }
}

/// In a log holding exactly one sample per frame, each at count `rate`, the
/// per-frame totals are `rate` with one hit inside the log's range and zero
/// outside it.
pub proof fn lemma_one_sample_per_frame(s: Seq<Sample>, rate: u32, f: int, k: int)
    requires
        0 <= k <= s.len(),
        forall|i: int| 0 <= i < s.len() ==> #[trigger] s[i].frame == i && s[i].reading.count
            == rate,
    ensures
        frame_total(s, f, k) == if 0 <= f < k {
            rate as int
        } else {
            0
        },
        frame_hits(s, f, k) == if 0 <= f < k {
            1int
        } else {
            0
        },
    decreases k,
{
    if k > 0 {
        lemma_one_sample_per_frame(s, rate, f, k - 1);
    }
}

/// Reconstruction round-trip law: from a log with exactly one sample per
/// frame at a constant rate, every cell the schedule visited carries exactly
/// that rate, and every unvisited cell stays at zero.
pub proof fn lemma_reconstruct_roundtrip(img: &Image, s: Seq<Sample>, rate: u32)
    requires
        img.wf(),
        forall|i: int| 0 <= i < s.len() ==> #[trigger] s[i].frame == i && s[i].reading.count
            == rate,
        forall|f: int|
            0 <= f < img.cells.len() ==> #[trigger] img.cells[f] == (CellStat {
                total: frame_total(s, f, s.len() as int) as u64,
                samples: frame_hits(s, f, s.len() as int) as u64,
            }),
    ensures
        forall|f: int|
            0 <= f < img.cells.len() && f < s.len() ==> cell_value(#[trigger] img.cells[f])
                == rate,
        forall|f: int|
            s.len() <= f < img.cells.len() ==> cell_value(#[trigger] img.cells[f]) == 0
                && img.cells[f] == (CellStat { total: 0, samples: 0 }),
{
    assert forall|f: int| 0 <= f < img.cells.len() implies {
        &&& (f < s.len() ==> cell_value(#[trigger] img.cells[f]) == rate)
        &&& (f >= s.len() ==> cell_value(img.cells[f]) == 0 && img.cells[f] == (CellStat {
            total: 0,
            samples: 0,
        }))
    } by {
        lemma_one_sample_per_frame(s, rate, f, s.len() as int);
    }
}

} // verus!
