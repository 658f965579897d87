//! The acquisition protocol: startup, sampling, shutdown.

use monocle::coordinator::Acquisition;
use monocle::errors::AcquisitionError;
use monocle::pulse::PulseReading;
use monocle::scan::ScanLine;

fn reading(count: u32) -> PulseReading {
    PulseReading { overlight: false, count }
}

fn position() -> ScanLine {
    ScanLine::from_raw(0)
}

#[test]
fn log_frames_never_decrease() {
    let mut run = Acquisition::new();
    run.start();
    // a few samples interleaved with display progress
    assert!(!run.begin_window());
    run.finish_window(position(), Some(reading(3)));
    run.display_tick();
    run.display_tick();
    assert!(!run.begin_window());
    run.finish_window(position(), Some(reading(5)));
    run.display_tick();
    assert!(!run.begin_window());
    run.finish_window(position(), None); // a discarded window leaves no trace
    assert!(!run.begin_window());
    run.finish_window(position(), Some(reading(1)));
    run.set_stop();
    assert!(run.begin_window());
    let log = run.take_log(true).unwrap();
    let frames: Vec<u32> = log.iter().map(|s| s.frame).collect();
    assert_eq!(frames, vec![0, 2, 3]);
    for pair in frames.windows(2) {
        assert!(pair[0] <= pair[1]);
    }
}

#[test]
fn at_most_one_sample_lands_after_stop() {
    let mut run = Acquisition::new();
    run.start();
    assert!(!run.begin_window());
    run.finish_window(position(), Some(reading(2)));
    // the stop flag goes up while a window is already in flight
    assert!(!run.begin_window());
    run.set_stop();
    let len_at_stop = 1;
    run.finish_window(position(), Some(reading(9)));
    // the in-flight window may land, but the next poll must halt
    assert!(run.begin_window());
    let log = run.take_log(true).unwrap();
    assert_eq!(log.len(), len_at_stop + 1);
}

#[test]
fn stop_seen_at_the_poll_halts_without_sampling() {
    let mut run = Acquisition::new();
    run.start();
    run.set_stop();
    assert!(run.begin_window());
    let log = run.take_log(true).unwrap();
    assert!(log.is_empty());
}

#[test]
fn a_panicked_worker_fails_the_whole_run() {
    let mut run = Acquisition::new();
    run.start();
    assert!(!run.begin_window());
    run.finish_window(position(), Some(reading(2)));
    run.set_stop();
    assert!(run.begin_window());
    // no partial log comes back
    assert_eq!(run.take_log(false).unwrap_err(), AcquisitionError::ThreadFailure);
}

#[test]
fn error_kinds_are_distinct() {
    assert_ne!(AcquisitionError::DeviceUnavailable, AcquisitionError::SetupFailure);
    assert_ne!(AcquisitionError::SetupFailure, AcquisitionError::ThreadFailure);
    assert_ne!(AcquisitionError::ThreadFailure, AcquisitionError::DeviceUnavailable);
}
