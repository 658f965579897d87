//! The command-layer types, wire framing, and the smaller interface pieces.

use monocle::api::{decode_frame_len, encode_frame_len, GoToResp, MaskSeq, Response, TakePictureReq, TakePictureResp};
use monocle::frame_map::FrameMap;
use monocle::mailbox::bus_to_phys;
use monocle::mount::{Device, Model, TrackingMode, Version};
use monocle::quadtree::{Quadtree, Rect};

#[test]
fn frame_length_prefix_round_trips() {
    for len in [0u32, 1, 0x1234, 0x01020304, u32::MAX] {
        let b = encode_frame_len(len);
        assert_eq!(decode_frame_len(b[0], b[1], b[2], b[3]), len);
    }
    assert_eq!(encode_frame_len(0x01020304), [4, 3, 2, 1]);
}

#[test]
fn command_payloads_carry_their_data() {
    let req = TakePictureReq { masks: vec![MaskSeq::ScanningBox] };
    assert_eq!(req.masks.len(), 1);
    let resp = Response::TakePicture(TakePictureResp { pulses: vec![vec![1, 2], vec![3]] });
    match resp {
        Response::TakePicture(r) => assert_eq!(r.pulses[1], vec![3]),
        Response::GoTo(GoToResp {}) => panic!("wrong arm"),
    }
}

#[test]
fn version_gates_order_by_major_then_minor() {
    let v = Version { major: 2, minor: 3 };
    assert!(v.at_least(2, 3));
    assert!(v.at_least(2, 2));
    assert!(v.at_least(1, 9));
    assert!(!v.at_least(2, 4));
    assert!(!v.at_least(3, 0));
}

#[test]
fn model_bytes_decode_and_unknown_codes_refuse() {
    assert_eq!(Model::from_char(1 as char), Some(Model::GPSSeries));
    assert_eq!(Model::from_char(6 as char), Some(Model::AdvancedGT));
    assert_eq!(Model::from_char(12 as char), Some(Model::SE68));
    assert_eq!(Model::from_char(2 as char), None);
    assert_eq!(Model::from_char(13 as char), None);
    assert_eq!(Model::from_char('a'), None);
}

#[test]
fn tracking_modes_encode_their_wire_character() {
    assert_eq!(TrackingMode::Off.to_char(), 0 as char);
    assert_eq!(TrackingMode::AltAz.to_char(), 1 as char);
    assert_eq!(TrackingMode::EqNorth.to_char(), 2 as char);
    assert_eq!(TrackingMode::EqSouth.to_char(), 3 as char);
    assert_ne!(Device::GPSUnit, Device::RealTimeClock);
}

#[test]
fn bus_addresses_lose_their_alias_bits() {
    assert_eq!(bus_to_phys(0xC000_1234), 0x0000_1234);
    assert_eq!(bus_to_phys(0x4000_0000), 0);
    assert_eq!(bus_to_phys(0x3FFF_FFFF), 0x3FFF_FFFF);
}

#[test]
fn frame_map_keeps_its_two_slots_apart() {
    let mut m: FrameMap<u32> = FrameMap::new(7);
    assert_eq!(m.len(), 2);
    assert_eq!(*m.get(0), 7);
    assert_eq!(*m.get(1), 7);
    m.set(0, 10);
    assert_eq!(*m.get(0), 10);
    assert_eq!(*m.get(1), 7);
    *m.get_mut(1) = 20;
    assert_eq!(*m.get(1), 20);
    assert_eq!(m.iter(), vec![(0, 10), (1, 20)]);
}

#[test]
fn quadtree_nodes_expose_payload_and_children() {
    let mut tree: Quadtree<u32> = Quadtree::Branch {
        children: Box::new([
            Quadtree::Leaf { payload: 1 },
            Quadtree::Leaf { payload: 2 },
            Quadtree::Leaf { payload: 3 },
            Quadtree::Leaf { payload: 4 },
        ]),
        payload: 0,
    };
    assert_eq!(*tree.payload(), 0);
    *tree.payload_mut() = 9;
    assert_eq!(*tree.payload(), 9);
    let kids = tree.children().unwrap();
    assert_eq!(*kids[2].payload(), 3);
    *tree.children_mut().unwrap()[2].payload_mut() = 30;
    assert_eq!(*tree.children().unwrap()[2].payload(), 30);
    let leaf: Quadtree<u32> = Quadtree::Leaf { payload: 5 };
    assert!(leaf.children().is_none());
}

#[test]
fn rects_subdivide_into_even_quadrants() {
    let r = Rect { bottom_left: (2, 4), size: (6, 8) };
    let q = r.subdivide().unwrap();
    assert_eq!(q[0], Rect { bottom_left: (2, 4), size: (3, 4) });
    assert_eq!(q[1], Rect { bottom_left: (5, 4), size: (3, 4) });
    assert_eq!(q[2], Rect { bottom_left: (2, 8), size: (3, 4) });
    assert_eq!(q[3], Rect { bottom_left: (5, 8), size: (3, 4) });
    let odd = Rect { bottom_left: (0, 0), size: (3, 4) };
    assert!(odd.subdivide().is_none());
}

#[test]
fn rect_containment_is_half_open() {
    let r = Rect { bottom_left: (2, 4), size: (6, 8) };
    assert!(r.contains(2, 4));
    assert!(r.contains(7, 11));
    assert!(!r.contains(8, 4));
    assert!(!r.contains(2, 12));
    assert!(!r.contains(1, 4));
    let empty = Rect { bottom_left: (2, 4), size: (0, 0) };
    assert!(!empty.contains(2, 4));
}
