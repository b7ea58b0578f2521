//! The table of flight modes: for each mode, the main-mode byte by which a
//! heartbeat's custom mode names it and the base-mode bits that go with a
//! request for it.

use crate::dialect::{mode_flag_bits, ModeFlag};
use vstd::prelude::*;

verus! {

/// A flight mode by name.
///
/// `Offboard` is the mode in which the autopilot accepts position targets
/// from outside, and the only one the station waits for. The others carry
/// the plane firmware's mode numbers and are there to be looked up.
#[derive(Clone, Copy, Debug, PartialEq, Eq, Structural)]
pub enum FlightMode {
    Manual,
    Circle,
    Stabilize,
    Training,
    Acro,
    /// Fly-by-wire A.
    FBWA,
    /// Fly-by-wire B.
    FBWB,
    Cruise,
    Autotune,
    /// Mission.
    Auto,
    /// Return to launch.
    RTL,
    Loiter,
    Takeoff,
    AvoidADSB,
    Guided,
    Offboard,
}

/// What the table holds for one flight mode.
#[derive(Clone, Copy, Debug, PartialEq, Eq, Structural)]
pub struct FlightModeParams {
    /// Base-mode bits that go with a request for the mode.
    pub base_mode: u8,
    /// The byte that names the mode in bits 16 to 23 of a custom mode.
    pub main_mode: u8,
}

/// The main-mode byte of each flight mode.
pub open spec fn main_mode_of(mode: FlightMode) -> u8 {
    match mode {
        FlightMode::Manual => 0,
        FlightMode::Circle => 1,
        FlightMode::Stabilize => 2,
        FlightMode::Training => 3,
        FlightMode::Acro => 4,
        FlightMode::FBWA => 5,
        FlightMode::FBWB => 6,
        FlightMode::Cruise => 7,
        FlightMode::Autotune => 8,
        FlightMode::Auto => 10,
        FlightMode::RTL => 11,
        FlightMode::Loiter => 12,
        FlightMode::Takeoff => 13,
        FlightMode::AvoidADSB => 14,
        FlightMode::Guided => 15,
        FlightMode::Offboard => 6,
    }
}

/// The base-mode bits of each flight mode: 209 for `Offboard` (armed, manual
/// input, stabilised, custom mode), and the custom-mode bit alone for the
/// others.
pub open spec fn base_mode_of(mode: FlightMode) -> u8 {
    if mode == FlightMode::Offboard {
        209
    } else {
        1
    }
}

/// The table as a function.
pub open spec fn spec_flight_mode_params(mode: FlightMode) -> FlightModeParams {
    FlightModeParams { base_mode: base_mode_of(mode), main_mode: main_mode_of(mode) }
}

/// The four flags of the offboard base mode add up to 209.
proof fn lemma_offboard_base_mode(custom: u8, stabilize: u8, manual: u8, armed: u8)
    by (bit_vector)
    requires
        custom == 1,
        stabilize == 16,
        manual == 64,
        armed == 128,
    ensures
        custom | stabilize | manual | armed == 209,
{
}

/// Looks `mode` up in the table.
pub fn flight_mode_params(mode: FlightMode) -> (params: FlightModeParams)
    ensures
        params == spec_flight_mode_params(mode),
{
    // the custom mode is always enabled
    let mut bm = mode_flag_bits(ModeFlag::CustomModeEnabled);

    let mm: u8 = match mode {
        FlightMode::Manual => 0,
        FlightMode::Circle => 1,
        FlightMode::Stabilize => 2,
        FlightMode::Training => 3,
        FlightMode::Acro => 4,
        FlightMode::FBWA => 5,
        FlightMode::FBWB => 6,
        FlightMode::Cruise => 7,
        FlightMode::Autotune => 8,
        FlightMode::Auto => 10,
        FlightMode::RTL => 11,
        FlightMode::Loiter => 12,
        FlightMode::Takeoff => 13,
        FlightMode::AvoidADSB => 14,
        FlightMode::Guided => 15,
        FlightMode::Offboard => {
            let stabilize = mode_flag_bits(ModeFlag::StabilizeEnabled);
            let manual = mode_flag_bits(ModeFlag::ManualInputEnabled);
            let armed = mode_flag_bits(ModeFlag::SafetyArmed);
            proof {
                lemma_offboard_base_mode(bm, stabilize, manual, armed);
            }
            bm = bm | stabilize | manual | armed;
            6
        },
    };

    FlightModeParams { base_mode: bm, main_mode: mm }
}

} // verus!
