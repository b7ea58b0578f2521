//! The two heartbeat tasks as step functions: what the station learns from
//! one received frame, and what it sends on one tick of its own beacon.

use crate::dialect::{
    active_state, active_state_code, gcs_type, gcs_type_code, invalid_autopilot,
    invalid_autopilot_code,
};
use crate::flight_mode::{flight_mode_params, main_mode_of, FlightMode};
use crate::message::{
    next_sequence, station_header, Header, Heartbeat, PROTOCOL_VERSION, STATION_COMPONENT_ID,
    STATION_SYSTEM_ID,
};
use crate::phase::Phase;
use vstd::prelude::*;

verus! {

/// The outcome of one attempt to receive a frame.
#[derive(Clone, Copy, Debug, PartialEq, Eq, Structural)]
pub enum Inbound {
    /// Nothing usable arrived: the link failed or the frame did not parse.
    Failed,
    /// A well-formed message that is no heartbeat.
    Other,
    /// A heartbeat.
    Heartbeat(Heartbeat),
}

impl Inbound {
    /// Whether this is a heartbeat that a vehicle sent, not a station.
    pub open spec fn from_vehicle(self) -> bool {
        self matches Inbound::Heartbeat(hb) && !hb.spec_from_station()
    }

    /// Whether this is a vehicle's heartbeat that reports the motors armed.
    pub open spec fn shows_armed(self) -> bool {
        self matches Inbound::Heartbeat(hb) && !hb.spec_from_station() && hb.spec_armed()
    }

    /// Whether this is a vehicle's heartbeat that reports the motors armed
    /// and the offboard flight mode.
    pub open spec fn shows_offboard(self) -> bool {
        self matches Inbound::Heartbeat(hb) && !hb.spec_from_station() && hb.spec_armed()
            && hb.spec_main_mode() == main_mode_of(FlightMode::Offboard)
    }
}

/// The phase after `inbound` has been observed in `phase`.
///
/// Only a vehicle's heartbeat can move the phase, and by one link of the
/// chain at most: the first one connects, an armed one arms, and an armed one
/// in the offboard mode completes the chain.
pub open spec fn phase_after(phase: Phase, inbound: Inbound) -> Phase {
    match phase {
        Phase::Disconnected => if inbound.from_vehicle() {
            Phase::Connected
        } else {
            phase
        },
        Phase::Connected => if inbound.shows_armed() {
            Phase::Armed
        } else {
            phase
        },
        Phase::Armed => if inbound.shows_offboard() {
            Phase::Offboard
        } else {
            phase
        },
        Phase::Offboard => phase,
    }
}

/// What the observer does with one received frame.
#[derive(Clone, Copy, Debug, PartialEq, Eq)]
pub struct RxStep {
    /// The phase from now on.
    pub phase: Phase,
    /// The line to print, if the phase has changed.
    pub line: Option<&'static str>,
}

/// One step of the observer: takes the phase so far and the outcome of one
/// receive, and returns the phase from now on with the line that announces
/// it, if it is new.
pub fn heartbeat_rx(phase: Phase, inbound: &Inbound) -> (step: RxStep)
    ensures
        step.phase == phase_after(phase, *inbound),
        step.phase.rank() == phase.rank() || step.phase.rank() == phase.rank() + 1,
        (step.line is None) == (step.phase == phase),
        step.line matches Some(text) ==> text@ == step.phase.entry_line(),
        step.phase == Phase::Offboard && phase != Phase::Offboard ==> phase == Phase::Armed
            && inbound.shows_offboard(),
        !inbound.from_vehicle() ==> step.phase == phase,
{
    let off_main = flight_mode_params(FlightMode::Offboard).main_mode;
    let hb = match inbound {
        Inbound::Heartbeat(hb) => hb,
        _ => {
            return RxStep { phase, line: None };
        },
    };
    if hb.from_station() {
        return RxStep { phase, line: None };
    }
    let armed = hb.armed();
    let main_mode = hb.main_mode();
    let next = match phase {
        Phase::Disconnected => Phase::Connected,
        Phase::Connected => if armed {
            Phase::Armed
        } else {
            phase
        },
        Phase::Armed => if armed && main_mode == off_main {
            Phase::Offboard
        } else {
            phase
        },
        Phase::Offboard => phase,
    };
    if next == phase {
        RxStep { phase, line: None }
    } else {
        RxStep { phase: next, line: next.announcement() }
    }
}

/// The phase after all of `events` have been observed in turn, starting in
/// `start`.
pub open spec fn phase_after_all(start: Phase, events: Seq<Inbound>) -> Phase
    decreases events.len(),
{
    if events.len() == 0 {
        start
    } else {
        phase_after(phase_after_all(start, events.drop_last()), events.last())
    }
}

/// The phase never falls back: whatever is received, the phase after a
/// longer prefix of it is at least the phase after a shorter one.
pub proof fn lemma_phase_monotonic(start: Phase, events: Seq<Inbound>, i: int, j: int)
    requires
        0 <= i <= j <= events.len(),
    ensures
        phase_after_all(start, events.take(i)).rank() <= phase_after_all(
            start,
            events.take(j),
        ).rank(),
    decreases j - i,
{
    if i < j {
        lemma_phase_monotonic(start, events, i, j - 1);
        assert(events.take(j).drop_last() == events.take(j - 1));
    }
}

/// The offboard gate: if the observer started before `Armed` and has reached
/// `Offboard`, then it has seen a vehicle's heartbeat with the armed bit, and
/// after that one with the armed bit and the offboard main mode.
pub proof fn lemma_offboard_gate(start: Phase, events: Seq<Inbound>)
    requires
        start.rank() < Phase::Armed.rank(),
        phase_after_all(start, events) == Phase::Offboard,
    ensures
        exists|i: int, j: int|
            0 <= i < j < events.len() && (#[trigger] events[i]).shows_armed()
                && (#[trigger] events[j]).shows_offboard(),
    decreases events.len(),
{
    lemma_armed_gate(start, events);
    let before = events.drop_last();
    if phase_after_all(start, before) == Phase::Offboard {
        lemma_offboard_gate(start, before);
        let (i, j) = choose|i: int, j: int|
            0 <= i < j < before.len() && (#[trigger] before[i]).shows_armed()
                && (#[trigger] before[j]).shows_offboard();
        assert(events[i].shows_armed() && events[j].shows_offboard());
    } else {
        lemma_armed_gate(start, before);
        let i = choose|i: int| 0 <= i < before.len() && (#[trigger] before[i]).shows_armed();
        let j = events.len() - 1;
        assert(events[i].shows_armed() && events[j].shows_offboard());
    }
}

/// The arming gate: if the observer started before `Armed` and has reached
/// `Armed` or gone beyond, then it has seen a vehicle's heartbeat with the
/// armed bit.
pub proof fn lemma_armed_gate(start: Phase, events: Seq<Inbound>)
    requires
        start.rank() < Phase::Armed.rank(),
        phase_after_all(start, events).rank() >= Phase::Armed.rank(),
    ensures
        exists|i: int| 0 <= i < events.len() && (#[trigger] events[i]).shows_armed(),
    decreases events.len(),
{
    let before = events.drop_last();
    if phase_after_all(start, before).rank() >= Phase::Armed.rank() {
        lemma_armed_gate(start, before);
        let i = choose|i: int| 0 <= i < before.len() && (#[trigger] before[i]).shows_armed();
        assert(events[i].shows_armed());
    } else {
        assert(events[events.len() - 1].shows_armed());
    }
}

/// Heartbeats of stations, frames that are no heartbeats and failed receives
/// leave the phase where it is, however many of them arrive.
pub proof fn lemma_only_vehicles_advance(start: Phase, events: Seq<Inbound>)
    requires
        forall|i: int| 0 <= i < events.len() ==> !(#[trigger] events[i]).from_vehicle(),
    ensures
        phase_after_all(start, events) == start,
    decreases events.len(),
{
    if events.len() > 0 {
        lemma_only_vehicles_advance(start, events.drop_last());
    }
}

/// The heartbeat by which the station announces itself: a ground control
/// station without autopilot, no mode bits, custom mode 0, active.
pub open spec fn station_heartbeat() -> Heartbeat {
    Heartbeat {
        custom_mode: 0,
        mavtype: gcs_type(),
        autopilot: invalid_autopilot(),
        base_mode: 0,
        system_status: active_state(),
        mavlink_version: PROTOCOL_VERSION,
    }
}

/// What the beacon does on one tick.
#[derive(Clone, Copy, Debug, PartialEq, Eq, Structural)]
pub struct TxStep {
    /// Header of the frame to send.
    pub header: Header,
    /// Payload of the frame to send.
    pub heartbeat: Heartbeat,
    /// The sequence number for the next tick.
    pub next_seq: u8,
}

/// One step of the beacon: takes the sequence number for this tick, and
/// returns the station's heartbeat under that number together with the
/// number for the next tick. A frame is due on every tick, whatever the
/// phase.
pub fn heartbeat_tx(seq: u8) -> (step: TxStep)
    ensures
        step.header == station_header(seq),
        step.heartbeat == station_heartbeat(),
        step.next_seq == next_sequence(seq),
{
    let hb = Heartbeat {
        custom_mode: 0,
        mavtype: gcs_type_code(),
        autopilot: invalid_autopilot_code(),
        base_mode: 0,
        system_status: active_state_code(),
        mavlink_version: PROTOCOL_VERSION,
    };
    let hdr = Header {
        system_id: STATION_SYSTEM_ID,
        component_id: STATION_COMPONENT_ID,
        sequence: seq,
    };
    TxStep { header: hdr, heartbeat: hb, next_seq: seq.wrapping_add(1) }
}

/// The sequence number of the beacon's tick number `k`, when its first tick
/// has the number `first`.
pub open spec fn beacon_sequence(first: u8, k: nat) -> u8
    decreases k,
{
    if k == 0 {
        first
    } else {
        next_sequence(beacon_sequence(first, (k - 1) as nat))
    }
}

/// The beacon counts its frames modulo 256: the frame of tick `k` carries
/// `first + k` modulo 256, so that consecutive frames differ by exactly one
/// modulo 256.
pub proof fn lemma_beacon_sequence(first: u8, k: nat)
    ensures
        beacon_sequence(first, k) == (first + k) % 256,
        beacon_sequence(first, k + 1) == (beacon_sequence(first, k) + 1) % 256,
    decreases k,
{
    if k > 0 {
        lemma_beacon_sequence(first, (k - 1) as nat);
    }
}

/// The station never takes its own heartbeat for a vehicle's: observed in
/// any phase, the heartbeat that the beacon sends leaves the phase as it is.
pub proof fn lemma_own_heartbeat_ignored(phase: Phase)
    ensures
        phase_after(phase, Inbound::Heartbeat(station_heartbeat())) == phase,
{
}

} // verus!
