//! Numbers of the common MAVLink dialect that the station reads or writes.
//!
//! The executable values are taken from the `mavlink` crate, so that the
//! station and the codec that frames its messages cannot drift apart. The
//! functions that fetch them are trusted: their contracts record the numbers
//! that the dialect's definition assigns, and nothing here proves them.

use mavlink::common::{
    MavAutopilot, MavFrame, MavModeFlag, MavState, MavType, PositionTargetTypemask,
};
use vstd::prelude::*;

verus! {

/// One bit of a heartbeat's base mode.
#[derive(Clone, Copy, Debug, PartialEq, Eq, Structural)]
pub enum ModeFlag {
    /// The motors are enabled.
    SafetyArmed,
    /// Remote control input is enabled.
    ManualInputEnabled,
    /// Hardware-in-the-loop simulation is running.
    HilEnabled,
    /// The vehicle stabilises its attitude by itself.
    StabilizeEnabled,
    /// Guided mode: the vehicle follows targets it is sent.
    GuidedEnabled,
    /// Autonomous mode: the vehicle follows its mission.
    AutoEnabled,
    /// Test mode, not for flight.
    TestEnabled,
    /// The custom mode word carries the flight mode.
    CustomModeEnabled,
}

impl ModeFlag {
    /// The bit that the dialect assigns to the flag.
    pub open spec fn mask(self) -> u8 {
        match self {
            ModeFlag::SafetyArmed => 128,
            ModeFlag::ManualInputEnabled => 64,
            ModeFlag::HilEnabled => 32,
            ModeFlag::StabilizeEnabled => 16,
            ModeFlag::GuidedEnabled => 8,
            ModeFlag::AutoEnabled => 4,
            ModeFlag::TestEnabled => 2,
            ModeFlag::CustomModeEnabled => 1,
        }
    }
}

/// One dimension of a position target that its type mask can tell the
/// vehicle to ignore.
#[derive(Clone, Copy, Debug, PartialEq, Eq, Structural)]
pub enum TargetDimension {
    /// Position, north.
    X,
    /// Position, east.
    Y,
    /// Position, down.
    Z,
    /// Velocity, north.
    Vx,
    /// Velocity, east.
    Vy,
    /// Velocity, down.
    Vz,
    /// Acceleration, north.
    Ax,
    /// Acceleration, east.
    Ay,
    /// Acceleration, down.
    Az,
    /// Heading.
    Yaw,
    /// Rate of turn.
    YawRate,
}

impl TargetDimension {
    /// The bit of the type mask that marks the dimension as ignored.
    pub open spec fn ignore_mask(self) -> u16 {
        match self {
            TargetDimension::X => 1,
            TargetDimension::Y => 2,
            TargetDimension::Z => 4,
            TargetDimension::Vx => 8,
            TargetDimension::Vy => 16,
            TargetDimension::Vz => 32,
            TargetDimension::Ax => 64,
            TargetDimension::Ay => 128,
            TargetDimension::Az => 256,
            TargetDimension::Yaw => 1024,
            TargetDimension::YawRate => 2048,
        }
    }

    /// Whether the dimension is one of the three position components.
    pub open spec fn is_position(self) -> bool {
        self == TargetDimension::X || self == TargetDimension::Y || self == TargetDimension::Z
    }
}

/// Vehicle kind of a ground control station.
pub open spec fn gcs_type() -> u8 {
    6
}

/// Autopilot kind of a component that is no flight controller.
pub open spec fn invalid_autopilot() -> u8 {
    8
}

/// System status of a component that is up and running.
pub open spec fn active_state() -> u8 {
    4
}

/// Coordinate frame with axes north, east and down from the local origin.
pub open spec fn local_ned_frame() -> u8 {
    1
}

/// Trusted: `MavModeFlag::bits` of the `mavlink` crate, on the constant that
/// the crate generates for `flag`. The contract claims that the bits are the
/// value of the matching `MAV_MODE_FLAG` entry of the dialect.
#[verifier::external_body]
pub(crate) fn mode_flag_bits(flag: ModeFlag) -> (bits: u8)
    ensures
        bits == flag.mask(),
{
    let named = match flag {
        ModeFlag::SafetyArmed => MavModeFlag::MAV_MODE_FLAG_SAFETY_ARMED,
        ModeFlag::ManualInputEnabled => MavModeFlag::MAV_MODE_FLAG_MANUAL_INPUT_ENABLED,
        ModeFlag::HilEnabled => MavModeFlag::MAV_MODE_FLAG_HIL_ENABLED,
        ModeFlag::StabilizeEnabled => MavModeFlag::MAV_MODE_FLAG_STABILIZE_ENABLED,
        ModeFlag::GuidedEnabled => MavModeFlag::MAV_MODE_FLAG_GUIDED_ENABLED,
        ModeFlag::AutoEnabled => MavModeFlag::MAV_MODE_FLAG_AUTO_ENABLED,
        ModeFlag::TestEnabled => MavModeFlag::MAV_MODE_FLAG_TEST_ENABLED,
        ModeFlag::CustomModeEnabled => MavModeFlag::MAV_MODE_FLAG_CUSTOM_MODE_ENABLED,
    };
    named.bits()
}

/// Trusted: `PositionTargetTypemask::bits` of the `mavlink` crate, on the
/// `*_IGNORE` constant that the crate generates for `dimension`. The contract
/// claims that the bits are the value of the matching
/// `POSITION_TARGET_TYPEMASK` entry of the dialect.
#[verifier::external_body]
pub(crate) fn ignore_bits(dimension: TargetDimension) -> (bits: u16)
    ensures
        bits == dimension.ignore_mask(),
{
    let named = match dimension {
        TargetDimension::X => PositionTargetTypemask::POSITION_TARGET_TYPEMASK_X_IGNORE,
        TargetDimension::Y => PositionTargetTypemask::POSITION_TARGET_TYPEMASK_Y_IGNORE,
        TargetDimension::Z => PositionTargetTypemask::POSITION_TARGET_TYPEMASK_Z_IGNORE,
        TargetDimension::Vx => PositionTargetTypemask::POSITION_TARGET_TYPEMASK_VX_IGNORE,
        TargetDimension::Vy => PositionTargetTypemask::POSITION_TARGET_TYPEMASK_VY_IGNORE,
        TargetDimension::Vz => PositionTargetTypemask::POSITION_TARGET_TYPEMASK_VZ_IGNORE,
        TargetDimension::Ax => PositionTargetTypemask::POSITION_TARGET_TYPEMASK_AX_IGNORE,
        TargetDimension::Ay => PositionTargetTypemask::POSITION_TARGET_TYPEMASK_AY_IGNORE,
        TargetDimension::Az => PositionTargetTypemask::POSITION_TARGET_TYPEMASK_AZ_IGNORE,
        TargetDimension::Yaw => PositionTargetTypemask::POSITION_TARGET_TYPEMASK_YAW_IGNORE,
        TargetDimension::YawRate => PositionTargetTypemask::POSITION_TARGET_TYPEMASK_YAW_RATE_IGNORE,
    };
    named.bits()
}

/// Trusted: the discriminant of `MavType::MAV_TYPE_GCS` in the `mavlink`
/// crate. The contract claims that it is the value of that `MAV_TYPE` entry
/// of the dialect.
#[verifier::external_body]
pub(crate) fn gcs_type_code() -> (code: u8)
    ensures
        code == gcs_type(),
{
    MavType::MAV_TYPE_GCS as u8
}

/// Trusted: the discriminant of `MavAutopilot::MAV_AUTOPILOT_INVALID` in the
/// `mavlink` crate. The contract claims that it is the value of that
/// `MAV_AUTOPILOT` entry of the dialect.
#[verifier::external_body]
pub(crate) fn invalid_autopilot_code() -> (code: u8)
    ensures
        code == invalid_autopilot(),
{
    MavAutopilot::MAV_AUTOPILOT_INVALID as u8
}

/// Trusted: the discriminant of `MavState::MAV_STATE_ACTIVE` in the `mavlink`
/// crate. The contract claims that it is the value of that `MAV_STATE` entry
/// of the dialect.
#[verifier::external_body]
pub(crate) fn active_state_code() -> (code: u8)
    ensures
        code == active_state(),
{
    MavState::MAV_STATE_ACTIVE as u8
}

/// Trusted: the discriminant of `MavFrame::MAV_FRAME_LOCAL_NED` in the
/// `mavlink` crate. The contract claims that it is the value of that
/// `MAV_FRAME` entry of the dialect.
#[verifier::external_body]
pub(crate) fn local_ned_frame_code() -> (code: u8)
    ensures
        code == local_ned_frame(),
{
    MavFrame::MAV_FRAME_LOCAL_NED as u8
}

} // verus!
