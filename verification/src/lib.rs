//! Acquisition and synchronization engine for a structured-illumination,
//! single-photon-counting imaging rig.
//!
//! A display paints a moving bright cell across a dark field while a gated
//! pulse counter samples photon arrivals; the two streams are correlated in
//! time and turned back into an image.  Everything here is the pure logic of
//! that pipeline: the register decoders, the scan schedule, the frame
//! painting, the cross-thread coordination protocol, and the reconstruction
//! step.  The actual register reads, display flips and threads live in the
//! surrounding (unverified) binary, which feeds this library plain values.

pub mod api;
pub mod calibrate;
pub mod coordinator;
pub mod display;
pub mod errors;
pub mod frame_map;
pub mod mailbox;
pub mod mount;
pub mod pulse;
pub mod quadtree;
pub mod reconstruct;
pub mod scan;
pub mod schedule;
