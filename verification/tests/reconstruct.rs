//! Image reconstruction from a sample log.

use monocle::coordinator::Sample;
use monocle::pulse::PulseReading;
use monocle::reconstruct::{reconstruct, CellStat};
use monocle::scan::ScanLine;
use monocle::schedule::ScanSchedule;

fn sample(frame: u32, count: u32) -> Sample {
    Sample {
        frame,
        position: ScanLine::from_raw(0),
        reading: PulseReading { overlight: false, count },
    }
}

#[test]
fn one_sample_per_frame_round_trips_the_rate() {
    // a 3x3 grid; one sample per frame, all at rate 11
    let schedule = ScanSchedule::new(9, 3, 0, 0).unwrap();
    let samples: Vec<Sample> = (0..9).map(|f| sample(f, 11)).collect();
    let img = reconstruct(&samples, &schedule);
    for y in 0..3 {
        for x in 0..3 {
            let c = img.cell(x, y);
            assert_eq!(c, CellStat { total: 11, samples: 1 });
        }
    }
}

#[test]
fn frames_accumulate_and_average() {
    let schedule = ScanSchedule::new(4, 2, 0, 0).unwrap();
    // frame 0 sampled three times, frame 2 once, frames 1 and 3 never
    let samples = vec![sample(0, 4), sample(0, 5), sample(0, 6), sample(2, 40)];
    let img = reconstruct(&samples, &schedule);
    assert_eq!(img.cell(0, 0), CellStat { total: 15, samples: 3 });
    assert_eq!(img.cell(1, 0), CellStat { total: 0, samples: 0 });
    assert_eq!(img.cell(0, 1), CellStat { total: 40, samples: 1 });
    assert_eq!(img.cell(1, 1), CellStat { total: 0, samples: 0 });
}

#[test]
fn frames_beyond_the_sweep_are_ignored() {
    let schedule = ScanSchedule::new(4, 2, 0, 0).unwrap();
    let samples = vec![sample(0, 4), sample(4, 1000), sample(u32::MAX, 9)];
    let img = reconstruct(&samples, &schedule);
    assert_eq!(img.cell(0, 0), CellStat { total: 4, samples: 1 });
    assert_eq!(img.cell(1, 0), CellStat { total: 0, samples: 0 });
    assert_eq!(img.cell(0, 1), CellStat { total: 0, samples: 0 });
    assert_eq!(img.cell(1, 1), CellStat { total: 0, samples: 0 });
}

#[test]
fn four_cell_scan_reconstructs_the_constant_rate() {
    // a 2x2 grid whose cells cover the whole frame; 4 frames at rate 25
    let schedule = ScanSchedule::new(2, 1, 0, 0).unwrap();
    assert_eq!(schedule.total_cells(), 4);
    let samples: Vec<Sample> = (0..4).map(|f| sample(f, 25)).collect();
    let img = reconstruct(&samples, &schedule);
    for y in 0..2 {
        for x in 0..2 {
            assert_eq!(img.cell(x, y), CellStat { total: 25, samples: 1 });
        }
    }

    // the same run with one cell never sampled degrades to a zero there
    let partial: Vec<Sample> = [0u32, 1, 3].iter().map(|&f| sample(f, 25)).collect();
    let img = reconstruct(&partial, &schedule);
    assert_eq!(img.cell(0, 0), CellStat { total: 25, samples: 1 });
    assert_eq!(img.cell(1, 0), CellStat { total: 25, samples: 1 });
    assert_eq!(img.cell(0, 1), CellStat { total: 0, samples: 0 });
    assert_eq!(img.cell(1, 1), CellStat { total: 25, samples: 1 });
}

#[test]
fn normalization_rescales_to_the_full_range() {
    let schedule = ScanSchedule::new(4, 2, 0, 0).unwrap();
    // cell means: 10, 0 (empty), 5, 20
    let samples = vec![sample(0, 10), sample(2, 5), sample(3, 20)];
    let img = reconstruct(&samples, &schedule);
    let out = img.normalize(100);
    assert_eq!(out, vec![50, 0, 25, 100]);
}

#[test]
fn normalization_of_a_flat_image_is_all_zero() {
    let schedule = ScanSchedule::new(4, 2, 0, 0).unwrap();
    // every cell empty: min == max, nothing to scale by
    let img = reconstruct(&Vec::new(), &schedule);
    assert_eq!(img.normalize(255), vec![0, 0, 0, 0]);
    // every cell at the same rate: likewise
    let samples: Vec<Sample> = (0..4).map(|f| sample(f, 9)).collect();
    let img = reconstruct(&samples, &schedule);
    assert_eq!(img.normalize(255), vec![0, 0, 0, 0]);
}
