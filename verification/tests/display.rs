//! Frame painting and the driver state machine.

use monocle::calibrate::{flicker, latency_step, CALIBRATION_FRAMES, LATENCY_STEP_FRAME};
use monocle::display::{fill, render_scan_frame, set_block, set_line, DisplayDriver, DriverPhase};
use monocle::schedule::ScanSchedule;

#[test]
fn set_line_touches_exactly_its_run() {
    let mut buf = vec![9u8; 10];
    set_line(&mut buf, 3, 4, 255);
    assert_eq!(buf, vec![9, 9, 9, 255, 255, 255, 255, 9, 9, 9]);
}

#[test]
fn set_block_touches_exactly_its_rows() {
    // 4-wide stride, 5 rows; a 2x2 block at (1, 2)
    let mut buf = vec![7u8; 20];
    set_block(&mut buf, 4, 1, 2, 2, 2, 1);
    let mut expected = vec![7u8; 20];
    for row in 2..4 {
        for col in 1..3 {
            expected[col + row * 4] = 1;
        }
    }
    assert_eq!(buf, expected);
}

#[test]
fn fill_overwrites_everything() {
    let mut buf = vec![1u8, 2, 3];
    fill(&mut buf, 42);
    assert_eq!(buf, vec![42, 42, 42]);
}

#[test]
fn scan_frames_paint_one_moving_cell() {
    // a 2x2 grid of 1-pixel cells at the origin, on a 4-byte stride
    let schedule = ScanSchedule::new(2, 1, 0, 0).unwrap();
    let mut buf = vec![9u8; 8];

    let stop = render_scan_frame(&schedule, 0, 4, &mut buf);
    assert!(!stop);
    assert_eq!(buf, vec![255, 0, 0, 0, 0, 0, 0, 0]);

    let stop = render_scan_frame(&schedule, 3, 4, &mut buf);
    assert!(!stop);
    assert_eq!(buf, vec![0, 0, 0, 0, 0, 255, 0, 0]);

    // the sweep is over: stop, and the buffer is left alone
    let before = buf.clone();
    let stop = render_scan_frame(&schedule, 4, 4, &mut buf);
    assert!(stop);
    assert_eq!(buf, before);
}

#[test]
fn driver_swaps_buffers_each_vsync() {
    let mut d = DisplayDriver::new();
    assert_eq!(d.phase, DriverPhase::Idle);
    d.configure(true).unwrap();
    assert_eq!(d.phase, DriverPhase::Configured);
    d.start();
    assert_eq!(d.phase, DriverPhase::Running);
    assert_eq!(d.front, 0);
    assert_eq!(d.paint_target(), 1);
    d.on_vsync(false);
    assert_eq!(d.front, 1);
    assert_eq!(d.paint_target(), 0);
    assert_eq!(d.vsyncs, 1);
    d.on_vsync(true);
    assert_eq!(d.phase, DriverPhase::Stopped);
    assert_eq!(d.vsyncs, 2);
}

#[test]
fn driver_setup_without_a_mode_is_fatal() {
    let mut d = DisplayDriver::new();
    assert!(d.configure(false).is_err());
    assert_eq!(d.phase, DriverPhase::Idle);
}

#[test]
fn flicker_alternates_and_stops_on_budget() {
    assert_eq!(flicker(0), (255, false));
    assert_eq!(flicker(5), (255, false));
    assert_eq!(flicker(6), (0, false));
    assert_eq!(flicker(9), (0, false));
    assert_eq!(flicker(10), (255, false));
    assert_eq!(flicker(CALIBRATION_FRAMES - 1), (0, true));
}

#[test]
fn latency_pattern_steps_dark_to_bright_once() {
    assert_eq!(latency_step(0), (0, false, false));
    assert_eq!(latency_step(LATENCY_STEP_FRAME - 1), (0, false, false));
    assert_eq!(latency_step(LATENCY_STEP_FRAME), (255, true, false));
    assert_eq!(latency_step(LATENCY_STEP_FRAME + 1), (255, false, false));
    assert_eq!(latency_step(CALIBRATION_FRAMES - 1), (255, false, true));
}
