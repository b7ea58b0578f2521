//! The setpoint streamer as a step function: on each tick, either the hover
//! target goes out or the streamer waits for the vehicle to reach the
//! offboard mode.

use crate::dialect::{ignore_bits, local_ned_frame, local_ned_frame_code, TargetDimension};
use crate::message::{
    next_sequence, station_header, Header, PositionSetpoint, STATION_COMPONENT_ID,
    STATION_SYSTEM_ID, TARGET_COMPONENT_ID, TARGET_SYSTEM_ID,
};
use crate::phase::Phase;
use vstd::prelude::*;

verus! {

/// Milliseconds that the streamer rests on a tick on which it must not send.
pub const IDLE_MS: u64 = 20;

/// Milliseconds by which the timestamp of a setpoint grows per frame.
pub const STEP_MS: u32 = 100;

/// Metres north of the origin at which the vehicle is to hover.
pub const HOVER_X: i32 = 0;

/// Metres east of the origin at which the vehicle is to hover.
pub const HOVER_Y: i32 = 0;

/// Metres below the origin at which the vehicle is to hover: five above it.
pub const HOVER_Z: i32 = -5;

/// The type mask of a target that gives a position and nothing else:
/// velocity, acceleration, heading and rate of turn are to be ignored.
pub open spec fn position_only_mask() -> u16 {
    TargetDimension::Vx.ignore_mask() | TargetDimension::Vy.ignore_mask()
        | TargetDimension::Vz.ignore_mask() | TargetDimension::Ax.ignore_mask()
        | TargetDimension::Ay.ignore_mask() | TargetDimension::Az.ignore_mask()
        | TargetDimension::Yaw.ignore_mask() | TargetDimension::YawRate.ignore_mask()
}

/// The hover target that goes out as the streamer's frame number `seq`.
pub open spec fn hover_setpoint(seq: u8) -> PositionSetpoint {
    PositionSetpoint {
        time_boot_ms: (seq * STEP_MS) as u32,
        target_system: TARGET_SYSTEM_ID,
        target_component: TARGET_COMPONENT_ID,
        coordinate_frame: local_ned_frame(),
        type_mask: position_only_mask(),
        x: HOVER_X,
        y: HOVER_Y,
        z: HOVER_Z,
    }
}

/// What the streamer does on one tick.
#[derive(Clone, Copy, Debug, PartialEq, Eq, Structural)]
pub enum SetpointAction {
    /// Send a frame with this header and this payload.
    Send(Header, PositionSetpoint),
    /// Send nothing, and rest for this many milliseconds.
    Idle(u64),
}

/// The streamer's action on one tick, with the sequence number for the next.
#[derive(Clone, Copy, Debug, PartialEq, Eq, Structural)]
pub struct SetpointStep {
    pub action: SetpointAction,
    pub next_seq: u8,
}

/// The streamer's step as a function: in `Offboard` the hover target goes out
/// under `seq` and the number moves on; in any other phase nothing goes out
/// and the number stays.
pub open spec fn setpoint_step(phase: Phase, seq: u8) -> SetpointStep {
    if phase == Phase::Offboard {
        SetpointStep {
            action: SetpointAction::Send(station_header(seq), hover_setpoint(seq)),
            next_seq: next_sequence(seq),
        }
    } else {
        SetpointStep { action: SetpointAction::Idle(IDLE_MS), next_seq: seq }
    }
}

/// One step of the streamer: takes the phase as read on this tick and the
/// sequence number of the next frame, and returns what to do and the number
/// to go on with.
pub fn setpoint_loop(phase: Phase, seq: u8) -> (step: SetpointStep)
    ensures
        step == setpoint_step(phase, seq),
        (step.action is Send) == (phase == Phase::Offboard),
        step.action matches SetpointAction::Send(header, target) ==> header.sequence == seq
            && is_hover_target(target),
{
    if phase != Phase::Offboard {
        return SetpointStep { action: SetpointAction::Idle(IDLE_MS), next_seq: seq };
    }
    let t_ms = seq as u32 * STEP_MS;
    let data = PositionSetpoint {
        time_boot_ms: t_ms,
        target_system: TARGET_SYSTEM_ID,
        target_component: TARGET_COMPONENT_ID,
        coordinate_frame: local_ned_frame_code(),
        type_mask: ignore_bits(TargetDimension::Vx) | ignore_bits(TargetDimension::Vy)
            | ignore_bits(TargetDimension::Vz) | ignore_bits(TargetDimension::Ax)
            | ignore_bits(TargetDimension::Ay) | ignore_bits(TargetDimension::Az)
            | ignore_bits(TargetDimension::Yaw) | ignore_bits(TargetDimension::YawRate),
        x: HOVER_X,
        y: HOVER_Y,
        z: HOVER_Z,
    };
    let hdr = Header {
        system_id: STATION_SYSTEM_ID,
        component_id: STATION_COMPONENT_ID,
        sequence: seq,
    };
    proof {
        lemma_hover_constants(seq);
    }
    SetpointStep { action: SetpointAction::Send(hdr, data), next_seq: seq.wrapping_add(1) }
}

/// Whether `target` asks for the hover: the point five metres above the
/// local origin, in the north-east-down frame, with every dimension but the
/// position marked as ignored.
pub open spec fn is_hover_target(target: PositionSetpoint) -> bool {
    &&& target.x == 0
    &&& target.y == 0
    &&& target.z == -5
    &&& target.coordinate_frame == local_ned_frame()
    &&& forall|d: TargetDimension|
        (target.type_mask & #[trigger] d.ignore_mask() != 0) == !d.is_position()
}

/// The position-only mask sets the ignore bit of every dimension that is no
/// position, and of no other.
pub proof fn lemma_position_only_mask()
    ensures
        position_only_mask() == 0x0DF8,
        forall|d: TargetDimension|
            (position_only_mask() & #[trigger] d.ignore_mask() != 0) == !d.is_position(),
{
    let m = position_only_mask();
    assert(8u16 | 16 | 32 | 64 | 128 | 256 | 1024 | 2048 == 0x0DF8) by (bit_vector);
    assert(0x0DF8u16 & 1 == 0 && 0x0DF8u16 & 2 == 0 && 0x0DF8u16 & 4 == 0) by (bit_vector);
    assert(0x0DF8u16 & 8 != 0 && 0x0DF8u16 & 16 != 0 && 0x0DF8u16 & 32 != 0) by (bit_vector);
    assert(0x0DF8u16 & 64 != 0 && 0x0DF8u16 & 128 != 0 && 0x0DF8u16 & 256 != 0) by (bit_vector);
    assert(0x0DF8u16 & 1024 != 0 && 0x0DF8u16 & 2048 != 0) by (bit_vector);
    assert forall|d: TargetDimension|
        (m & #[trigger] d.ignore_mask() != 0) == !d.is_position() by {
        match d {
            TargetDimension::X => {},
            TargetDimension::Y => {},
            TargetDimension::Z => {},
            TargetDimension::Vx => {},
            TargetDimension::Vy => {},
            TargetDimension::Vz => {},
            TargetDimension::Ax => {},
            TargetDimension::Ay => {},
            TargetDimension::Az => {},
            TargetDimension::Yaw => {},
            TargetDimension::YawRate => {},
        }
    }
}

/// Every setpoint that the streamer makes is the hover target, whatever its
/// number.
pub proof fn lemma_hover_constants(seq: u8)
    ensures
        is_hover_target(hover_setpoint(seq)),
        hover_setpoint(seq).time_boot_ms == seq * 100,
        hover_setpoint(seq).target_system == 1,
        hover_setpoint(seq).target_component == 1,
{
    lemma_position_only_mask();
}

/// How many of the ticks in `phases` found the phase to be `Offboard`.
pub open spec fn offboard_ticks(phases: Seq<Phase>) -> nat
    decreases phases.len(),
{
    if phases.len() == 0 {
        0
    } else {
        offboard_ticks(phases.drop_last()) + if phases.last() == Phase::Offboard {
            1nat
        } else {
            0nat
        }
    }
}

/// The streamer's sequence number after one tick for each entry of `phases`,
/// the phase that the tick found, when it started with `first`.
pub open spec fn sequence_after(first: u8, phases: Seq<Phase>) -> u8
    decreases phases.len(),
{
    if phases.len() == 0 {
        first
    } else {
        setpoint_step(phases.last(), sequence_after(first, phases.drop_last())).next_seq
    }
}

/// The frames that the streamer sends over one tick for each entry of
/// `phases`, in the order in which they go out.
pub open spec fn frames_sent(first: u8, phases: Seq<Phase>) -> Seq<(Header, PositionSetpoint)>
    decreases phases.len(),
{
    if phases.len() == 0 {
        Seq::empty()
    } else {
        let before = frames_sent(first, phases.drop_last());
        match setpoint_step(phases.last(), sequence_after(first, phases.drop_last())).action {
            SetpointAction::Send(header, target) => before.push((header, target)),
            SetpointAction::Idle(_) => before,
        }
    }
}

/// The sequence number of the streamer's frame number `k`, counted from 0,
/// when its first frame has the number `first`.
pub open spec fn frame_number(first: u8, k: int) -> u8 {
    ((first + k) % 256) as u8
}

/// Setpoints go out on the ticks that find the phase `Offboard`, one on each,
/// and on no others; and the streamer numbers them without a gap: frame `k`
/// carries `first + k` modulo 256 and is the hover target under that number.
pub proof fn lemma_stream(first: u8, phases: Seq<Phase>)
    ensures
        frames_sent(first, phases).len() == offboard_ticks(phases),
        sequence_after(first, phases) == (first + offboard_ticks(phases)) % 256,
        forall|k: int|
            0 <= k < frames_sent(first, phases).len() ==> #[trigger] frames_sent(first, phases)[k]
                == (station_header(frame_number(first, k)), hover_setpoint(frame_number(first, k))),
    decreases phases.len(),
{
    if phases.len() > 0 {
        lemma_stream(first, phases.drop_last());
    }
}

/// Consecutive setpoints differ in their sequence number by exactly one
/// modulo 256, however many idle ticks lie between them.
pub proof fn lemma_stream_consecutive(first: u8, phases: Seq<Phase>, k: int)
    requires
        0 <= k,
        k + 1 < frames_sent(first, phases).len(),
    ensures
        frames_sent(first, phases)[k + 1].0.sequence == (frames_sent(first, phases)[k].0.sequence
            + 1) % 256,
{
    lemma_stream(first, phases);
}

/// While no tick finds the phase `Offboard`, nothing is sent.
pub proof fn lemma_stream_silent(first: u8, phases: Seq<Phase>)
    requires
        forall|i: int| 0 <= i < phases.len() ==> phases[i] != Phase::Offboard,
    ensures
        frames_sent(first, phases).len() == 0,
        sequence_after(first, phases) == first,
    decreases phases.len(),
{
    if phases.len() > 0 {
        lemma_stream_silent(first, phases.drop_last());
    }
}

} // verus!
