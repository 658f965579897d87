//! The acquisition protocol: one display loop and one sampling loop sharing
//! a frame counter and a stop flag.
//!
//! The real run uses two threads, one atomic counter (single writer: the
//! display loop), one atomic stop flag (single writer: the coordinator) and
//! a one-shot two-party barrier at startup.  `Acquisition` is the verified
//! state of that protocol; the unverified binary drives one instance of it
//! by mirroring every load, store and append through these methods, so the
//! invariants proved here — sample frames never decrease, and at most one
//! sample lands after the stop flag is raised — hold of the log it hands
//! back.

use vstd::prelude::*;
use crate::errors::AcquisitionError;
use crate::pulse::PulseReading;
use crate::scan::ScanLine;

verus! {

/// The atomic unit of the sample log: a pulse reading tagged with the scan
/// position and the shared frame counter at the moment it was taken.
#[derive(Clone, Copy, Debug, PartialEq, Eq, Structural)]
pub struct Sample {
    pub frame: u32,
    pub position: ScanLine,
    pub reading: PulseReading,
}

/// Where the sampling loop stands inside its iteration.
#[derive(Clone, Copy, Debug, PartialEq, Eq, Structural)]
pub enum SamplerPhase {
    /// About to poll the stop flag (once per iteration, so shutdown latency
    /// is bounded by one window).
    Checking,
    /// Between the two register reads of a measurement window.
    Window,
    /// Saw the stop flag set; the loop has exited.
    Halted,
}

/// The shared state of one acquisition run.
pub struct Acquisition {
    /// Both loops have passed the startup barrier.
    pub started: bool,
    /// Incremented once per displayed frame, by the display loop alone.
    pub frame_counter: u32,
    /// Raised once by the coordinator to end the run.
    pub stop_flag: bool,
    /// The sampling loop's position inside its iteration.
    pub sampler: SamplerPhase,
    /// The append-only sample log, owned by the sampling loop until the run
    /// ends.
    pub log: Vec<Sample>,
    /// The log length at the moment the stop flag was raised.
    pub stop_mark: Ghost<int>,
}

impl Acquisition {
    /// The protocol invariant, preserved by every transition:
    /// - before the barrier releases, nothing has happened;
    /// - log frames are non-decreasing and never ahead of the counter;
    /// - once the stop flag is up, at most one sample is appended after it,
    ///   and none once the sampler has halted.
    pub open spec fn wf(&self) -> bool {
        &&& (!self.started ==> self.frame_counter == 0 && self.log.len() == 0 && !self.stop_flag
            && self.sampler == SamplerPhase::Checking)
        &&& (forall|i: int, j: int|
            0 <= i <= j < self.log.len() ==> #[trigger] self.log[i].frame <= #[trigger] self.log[j].frame)
        &&& (forall|i: int| 0 <= i < self.log.len() ==> #[trigger] self.log[i].frame <= self.frame_counter)
        &&& (self.stop_flag ==> 0 <= self.stop_mark@ <= self.log.len() <= self.stop_mark@ + 1)
        &&& (self.stop_flag && self.sampler == SamplerPhase::Window ==> self.log.len()
            == self.stop_mark@)
        &&& (self.sampler == SamplerPhase::Halted ==> self.stop_flag)
    }

    /// A fresh run: nothing started, nothing sampled.
    pub fn new() -> (r: Acquisition)
        ensures
            r.wf(),
            !r.started,
            r.log@ =~= Seq::<Sample>::empty(),
            r.frame_counter == 0,
            !r.stop_flag,
    {
        Acquisition {
            started: false,
            frame_counter: 0,
            stop_flag: false,
            sampler: SamplerPhase::Checking,
            log: Vec::new(),
            stop_mark: Ghost(0),
        }
    }

    /// The two-party startup rendezvous releases: both loops begin their
    /// timed work at once, so the sampling clock's zero point coincides with
    /// the display clock's.
    pub fn start(&mut self)
        requires
            old(self).wf(),
            !old(self).started,
        ensures
            final(self).wf(),
            *final(self) == (Acquisition { started: true, ..*old(self) }),
    {
        self.started = true;
    }

    /// The display loop finished painting one frame and publishes the next
    /// frame index (the single write to the shared counter).
    pub fn display_tick(&mut self)
        requires
            old(self).wf(),
            old(self).started,
            old(self).frame_counter < u32::MAX,
        ensures
            final(self).wf(),
            *final(self) == (Acquisition {
                frame_counter: (old(self).frame_counter + 1) as u32,
                ..*old(self)
            }),
    {
        self.frame_counter = self.frame_counter + 1;
    }

    /// The sampling loop polls the stop flag at the top of its iteration:
    /// if it is up the loop exits, otherwise a measurement window opens.
    pub fn begin_window(&mut self) -> (halted: bool)
        requires
            old(self).wf(),
            old(self).started,
            old(self).sampler == SamplerPhase::Checking,
        ensures
            final(self).wf(),
            halted == old(self).stop_flag,
            *final(self) == (Acquisition {
                sampler: if halted {
                    SamplerPhase::Halted
                } else {
                    SamplerPhase::Window
                },
                ..*old(self)
            }),
    {
        if self.stop_flag {
            self.sampler = SamplerPhase::Halted;
            true
        } else {
            self.sampler = SamplerPhase::Window;
            false
        }
    }

    /// The measurement window closes.  A kept reading is appended to the
    /// log, tagged with the scan position and the frame counter as the
    /// sampling loop saw them; a discarded window contributes nothing.
    pub fn finish_window(&mut self, position: ScanLine, outcome: Option<PulseReading>)
        requires
            old(self).wf(),
            old(self).sampler == SamplerPhase::Window,
        ensures
            final(self).wf(),
            final(self).sampler == SamplerPhase::Checking,
            final(self).started == old(self).started,
            final(self).frame_counter == old(self).frame_counter,
            final(self).stop_flag == old(self).stop_flag,
            final(self).stop_mark == old(self).stop_mark,
            outcome is None ==> final(self).log@ =~= old(self).log@,
            outcome matches Some(reading) ==> final(self).log@ =~= old(self).log@.push(
                Sample { frame: old(self).frame_counter, position, reading },
            ),
    {
        self.sampler = SamplerPhase::Checking;
        match outcome {
            None => {},
            Some(reading) => {
                let sample = Sample { frame: self.frame_counter, position, reading };
                self.log.push(sample);
                proof {
                    assert forall|i: int, j: int| 0 <= i <= j < self.log.len() implies #[trigger] self.log[i].frame
                        <= #[trigger] self.log[j].frame by {
                        if j < self.log.len() - 1 {
                            assert(old(self).log[i].frame <= old(self).log[j].frame);
                        } else {
                            if i < j {
                                assert(old(self).log[i].frame <= old(self).frame_counter);
                            }
                        }
                    }
                }
            },
        }
    }

    /// The coordinator raises the stop flag (its single write, made once the
    /// display loop has finished and the grace period has passed).
    pub fn set_stop(&mut self)
        requires
            old(self).wf(),
            old(self).started,
            !old(self).stop_flag,
        ensures
            final(self).wf(),
            final(self).stop_flag,
            final(self).stop_mark@ == old(self).log.len(),
            final(self).started == old(self).started,
            final(self).frame_counter == old(self).frame_counter,
            final(self).sampler == old(self).sampler,
            final(self).log == old(self).log,
    {
        self.stop_flag = true;
        proof {
            self.stop_mark@ = self.log.len() as int;
        }
    }

    /// The join: once the sampling loop has halted, the log's ownership
    /// passes to the caller.  If either worker thread panicked the whole run
    /// fails and no partial log is returned.
    pub fn take_log(self, threads_ok: bool) -> (r: Result<Vec<Sample>, AcquisitionError>)
        requires
            self.wf(),
            self.sampler == SamplerPhase::Halted,
        ensures
            threads_ok <==> (r is Ok),
            r matches Ok(log) ==> {
                &&& log == self.log
                &&& log.len() <= self.stop_mark@ + 1
                &&& (forall|i: int, j: int|
                    0 <= i <= j < log.len() ==> #[trigger] log[i].frame <= #[trigger] log[j].frame)
            },
            r matches Err(e) ==> e == AcquisitionError::ThreadFailure,
    {
        if threads_ok {
            Ok(self.log)
        } else {
            Err(AcquisitionError::ThreadFailure)
        }
    }
}

/// Sample ordering law: in a well-formed run the log's frame tags form a
/// non-decreasing sequence — the shared counter only grows, and the sampling
/// loop reads it, never computes it.
pub proof fn lemma_log_frames_monotone(a: &Acquisition)
    requires
        a.wf(),
    ensures
        forall|i: int, j: int|
            0 <= i <= j < a.log.len() ==> #[trigger] a.log[i].frame <= #[trigger] a.log[j].frame,
{
}

/// Shutdown bound law: once the stop flag is up, the sampling loop appends
/// at most one more sample — the one window that may already have been in
/// flight — before it halts.
pub proof fn lemma_shutdown_appends_at_most_one(a: &Acquisition)
    requires
        a.wf(),
        a.stop_flag,
    ensures
        a.log.len() <= a.stop_mark@ + 1,
        a.sampler == SamplerPhase::Window ==> a.log.len() == a.stop_mark@,
{
}

} // verus!
