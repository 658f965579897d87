//! The scan schedule and the scan-position decoding.

use monocle::errors::AcquisitionError;
use monocle::scan::{ScanLine, Scaler};
use monocle::schedule::{ScanSchedule, DIVIDER};

#[test]
fn schedule_covers_the_deployed_grid() {
    // 1500 pixels at cell size 6: a 250 x 250 grid
    let s = ScanSchedule::new(1500, DIVIDER, 1410, 740).unwrap();
    assert_eq!(s.side, 250);
    assert_eq!(s.total_cells(), 62_500);
    assert_eq!(s.cell_of(0), Some((0, 0)));
    assert_eq!(s.cell_of(249), Some((249, 0)));
    assert_eq!(s.cell_of(250), Some((0, 1)));
    assert_eq!(s.cell_of(62_499), Some((249, 249)));
    assert_eq!(s.cell_of(62_500), None);
    assert_eq!(s.cell_of(u32::MAX), None);
}

#[test]
fn schedule_is_total_over_one_sweep() {
    let s = ScanSchedule::new(30, 6, 0, 0).unwrap();
    assert_eq!(s.side, 5);
    for frame in 0..s.total_cells() {
        let (x, y) = s.cell_of(frame).unwrap();
        assert_eq!(x, frame % 5);
        assert_eq!(y, frame / 5);
    }
}

#[test]
fn bad_cell_sizes_are_setup_failures() {
    assert_eq!(
        ScanSchedule::new(1500, 0, 0, 0).unwrap_err(),
        AcquisitionError::SetupFailure
    );
    assert_eq!(
        ScanSchedule::new(1500, 7, 0, 0).unwrap_err(),
        AcquisitionError::SetupFailure
    );
}

#[test]
fn scan_position_decodes_and_reencodes() {
    let sl = ScanLine::from_raw(0x2ABC);
    assert_eq!(sl.frame, 2);
    assert_eq!(sl.scanline, 0xABC);
    assert_eq!(sl.to_u32(), 0x2ABC);
    // bits above the 18 position bits are ignored
    let sl2 = ScanLine::from_raw(0xFFF4_2ABC);
    assert_eq!(sl2.frame, 2);
    assert_eq!(sl2.scanline, 0xABC);
}

#[test]
fn scalar_position_orders_snapshots() {
    let early = ScanLine::from_raw((3 << 12) | 100);
    let late = ScanLine::from_raw((3 << 12) | 101);
    let much_later = ScanLine::from_raw(4 << 12);
    assert!(early.to_u32() < late.to_u32());
    assert!(late.to_u32() < much_later.to_u32());
}

#[test]
fn each_scaler_channel_has_its_register() {
    assert_eq!(Scaler::Scaler0.register_offset(), 0x48);
    assert_eq!(Scaler::Scaler1.register_offset(), 0x58);
    assert_eq!(Scaler::Scaler2.register_offset(), 0x68);
}
