//! The messages that the station reads and writes, as plain values.
//!
//! Fields hold what travels on the wire: kinds, frames and statuses are the
//! dialect's numeric codes, bitmasks are their bits. Turning these values into
//! the codec's own types and back is the caller's part.

use crate::dialect::{gcs_type, gcs_type_code, mode_flag_bits, ModeFlag};
use vstd::prelude::*;

verus! {

/// System id under which the station sends.
pub const STATION_SYSTEM_ID: u8 = 1;

/// Component id under which the station sends: a companion computer.
pub const STATION_COMPONENT_ID: u8 = 191;

/// System id of the vehicle that the setpoints address.
pub const TARGET_SYSTEM_ID: u8 = 1;

/// Component id of the autopilot that the setpoints address.
pub const TARGET_COMPONENT_ID: u8 = 1;

/// Protocol version that the station's heartbeat reports.
pub const PROTOCOL_VERSION: u8 = 3;

/// Sequence number of the first frame that a sender sends.
pub const FIRST_SEQUENCE: u8 = 0;

/// What identifies the sender of a frame, and the frame among the sender's
/// frames.
#[derive(Clone, Copy, Debug, PartialEq, Eq, Structural)]
pub struct Header {
    pub system_id: u8,
    pub component_id: u8,
    pub sequence: u8,
}

/// The header of the station's frame number `sequence`.
pub open spec fn station_header(sequence: u8) -> Header {
    Header {
        system_id: STATION_SYSTEM_ID,
        component_id: STATION_COMPONENT_ID,
        sequence,
    }
}

/// The sequence number that follows `sequence`: one more, and 0 after 255.
pub open spec fn next_sequence(sequence: u8) -> u8 {
    if sequence == 255 {
        0
    } else {
        (sequence + 1) as u8
    }
}

/// The payload of a heartbeat.
#[derive(Clone, Copy, Debug, PartialEq, Eq, Structural)]
pub struct Heartbeat {
    /// Mode word whose layout the autopilot defines.
    pub custom_mode: u32,
    /// Kind of vehicle or component that sent the heartbeat.
    pub mavtype: u8,
    /// Kind of autopilot.
    pub autopilot: u8,
    /// Mode bits; see `ModeFlag`.
    pub base_mode: u8,
    /// System status.
    pub system_status: u8,
    /// Protocol version.
    pub mavlink_version: u8,
}

impl Heartbeat {
    /// Whether the sender reports its motors armed.
    pub open spec fn spec_armed(self) -> bool {
        self.base_mode & ModeFlag::SafetyArmed.mask() != 0
    }

    /// Bits 16 to 23 of the custom mode: the main flight mode.
    pub open spec fn spec_main_mode(self) -> u8 {
        ((self.custom_mode >> 16) & 0xFF) as u8
    }

    /// Bits 24 to 31 of the custom mode: the sub mode.
    pub open spec fn spec_sub_mode(self) -> u8 {
        ((self.custom_mode >> 24) & 0xFF) as u8
    }

    /// Whether the sender is a ground control station rather than a vehicle.
    pub open spec fn spec_from_station(self) -> bool {
        self.mavtype == gcs_type()
    }

    /// Whether the sender reports its motors armed.
    pub fn armed(&self) -> (armed: bool)
        ensures
            armed == self.spec_armed(),
    {
        self.base_mode & mode_flag_bits(ModeFlag::SafetyArmed) != 0
    }

    /// The main flight mode that the sender reports.
    pub fn main_mode(&self) -> (mode: u8)
        ensures
            mode == self.spec_main_mode(),
    {
        ((self.custom_mode >> 16) & 0xFF) as u8
    }

    /// The sub mode that the sender reports.
    pub fn sub_mode(&self) -> (mode: u8)
        ensures
            mode == self.spec_sub_mode(),
    {
        ((self.custom_mode >> 24) & 0xFF) as u8
    }

    /// Whether the sender is a ground control station rather than a vehicle.
    pub fn from_station(&self) -> (station: bool)
        ensures
            station == self.spec_from_station(),
    {
        self.mavtype == gcs_type_code()
    }
}

/// A position target in the local frame. Lengths are whole metres; the
/// dimensions that the type mask marks as ignored are not carried.
#[derive(Clone, Copy, Debug, PartialEq, Eq, Structural)]
pub struct PositionSetpoint {
    /// Milliseconds since boot.
    pub time_boot_ms: u32,
    pub target_system: u8,
    pub target_component: u8,
    /// Code of the coordinate frame.
    pub coordinate_frame: u8,
    /// Bits of the dimensions to ignore; see `TargetDimension`.
    pub type_mask: u16,
    /// Metres north of the origin.
    pub x: i32,
    /// Metres east of the origin.
    pub y: i32,
    /// Metres below the origin; negative is up.
    pub z: i32,
}

} // verus!
