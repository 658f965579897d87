//! Interface types of the telescope-mount link.
//!
//! The serial protocol itself — and the floating-point coordinate
//! conversions it carries — is an external collaborator and stays in the
//! unverified binary.  What is kept here is the pure vocabulary the engine
//! shares with it: the firmware version and its ordering (which gates which
//! commands may be sent), the device addresses, the mount models, and the
//! tracking modes with their wire encoding.

use vstd::prelude::*;

verus! {

/// A mount firmware version.
#[derive(Clone, Copy, Debug, PartialEq, Eq, Structural)]
pub struct Version {
    pub major: u8,
    pub minor: u8,
}

/// Versions ordered as the protocol gates order them: by major, then minor.
pub open spec fn spec_at_least(v: Version, major: u8, minor: u8) -> bool {
    v.major > major || (v.major == major && v.minor >= minor)
}

impl Version {
    /// Whether this firmware is at least `major.minor`, the test every
    /// version-gated command makes before it is sent.
    pub fn at_least(&self, major: u8, minor: u8) -> (r: bool)
        ensures
            r == spec_at_least(*self, major, minor),
    {
        self.major > major || (self.major == major && self.minor >= minor)
    }
}

/// A device addressable through the mount's pass-through port.
#[derive(Clone, Copy, Debug, PartialEq, Eq, Structural)]
pub enum Device {
    AzimuthMotor,
    AltitudeMotor,
    GPSUnit,
    RealTimeClock,
}

/// The mount model families the protocol reports.
#[derive(Clone, Copy, Debug, PartialEq, Eq, Structural)]
pub enum Model {
    GPSSeries,
    ISeries,
    ISeriesSE,
    CGE,
    AdvancedGT,
    SLT,
    CPC,
    GT,
    SE45,
    SE68,
}

/// The model a wire byte names, if any.  The protocol sends the byte as a
/// character; only its low 8 bits carry the model code.
pub open spec fn spec_model_from_char(c: char) -> Option<Model> {
    match (c as u32) & 0xFF {
        1u32 => Some(Model::GPSSeries),
        3u32 => Some(Model::ISeries),
        4u32 => Some(Model::ISeriesSE),
        5u32 => Some(Model::CGE),
        6u32 => Some(Model::AdvancedGT),
        7u32 => Some(Model::SLT),
        9u32 => Some(Model::CPC),
        10u32 => Some(Model::GT),
        11u32 => Some(Model::SE45),
        12u32 => Some(Model::SE68),
        _ => None,
    }
}

impl Model {
    /// Decodes the model byte of a version response.
    pub fn from_char(c: char) -> (r: Option<Model>)
        ensures
            r == spec_model_from_char(c),
    {
        let code = (c as u32) & 0xFF;
        match code {
            1 => Some(Model::GPSSeries),
            3 => Some(Model::ISeries),
            4 => Some(Model::ISeriesSE),
            5 => Some(Model::CGE),
            6 => Some(Model::AdvancedGT),
            7 => Some(Model::SLT),
            9 => Some(Model::CPC),
            10 => Some(Model::GT),
            11 => Some(Model::SE45),
            12 => Some(Model::SE68),
            _ => None,
        }
    }
}

/// The mount's tracking modes.
#[derive(Clone, Copy, Debug, PartialEq, Eq, Structural)]
pub enum TrackingMode {
    Off,
    AltAz,
    EqNorth,
    EqSouth,
}

impl TrackingMode {
    /// The wire character that selects this mode in a set-tracking command.
    pub fn to_char(&self) -> (r: char)
        ensures
            r == match *self {
                TrackingMode::Off => '\u{0}',
                TrackingMode::AltAz => '\u{1}',
                TrackingMode::EqNorth => '\u{2}',
                TrackingMode::EqSouth => '\u{3}',
            },
    {
        match *self {
            TrackingMode::Off => '\u{0}',
            TrackingMode::AltAz => '\u{1}',
            TrackingMode::EqNorth => '\u{2}',
            TrackingMode::EqSouth => '\u{3}',
        }
    }
}

} // verus!
