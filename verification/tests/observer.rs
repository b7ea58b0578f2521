use mavlink::common::{MavModeFlag, MavType};
use offboard_hover::comm::{heartbeat_rx, Inbound, RxStep};
use offboard_hover::message::Heartbeat;
use offboard_hover::phase::Phase;

const ARMED: u8 = 0x80;

fn vehicle(base_mode: u8, custom_mode: u32) -> Inbound {
    Inbound::Heartbeat(Heartbeat {
        custom_mode,
        mavtype: MavType::MAV_TYPE_FIXED_WING as u8,
        autopilot: 12,
        base_mode,
        system_status: 4,
        mavlink_version: 3,
    })
}

fn station(base_mode: u8, custom_mode: u32) -> Inbound {
    Inbound::Heartbeat(Heartbeat {
        custom_mode,
        mavtype: MavType::MAV_TYPE_GCS as u8,
        autopilot: 8,
        base_mode,
        system_status: 4,
        mavlink_version: 3,
    })
}

fn run(start: Phase, events: &[Inbound]) -> (Vec<Phase>, Vec<&'static str>) {
    let mut phase = start;
    let mut phases = vec![];
    let mut lines = vec![];
    for event in events {
        let step = heartbeat_rx(phase, event);
        phase = step.phase;
        phases.push(phase);
        if let Some(line) = step.line {
            lines.push(line);
        }
    }
    (phases, lines)
}

#[test]
fn first_heartbeat_connects() {
    let step = heartbeat_rx(Phase::Disconnected, &vehicle(0, 0));
    assert_eq!(step, RxStep { phase: Phase::Connected, line: Some("→ Connected") });
}

#[test]
fn armed_heartbeat_arms() {
    let (phases, lines) = run(Phase::Disconnected, &[vehicle(0, 0), vehicle(ARMED, 0)]);
    assert_eq!(phases, vec![Phase::Connected, Phase::Armed]);
    assert_eq!(lines, vec!["→ Connected", "→ Armed"]);
}

#[test]
fn offboard_mode_completes_the_chain() {
    let events = [vehicle(0, 0), vehicle(ARMED, 0), vehicle(ARMED, 6 << 16)];
    let (phases, lines) = run(Phase::Disconnected, &events);
    assert_eq!(phases, vec![Phase::Connected, Phase::Armed, Phase::Offboard]);
    assert_eq!(lines, vec!["→ Connected", "→ Armed", "→ Guided (Offboard)"]);
}

#[test]
fn station_heartbeat_is_filtered() {
    for phase in [Phase::Disconnected, Phase::Connected, Phase::Armed, Phase::Offboard] {
        let step = heartbeat_rx(phase, &station(ARMED, 6 << 16));
        assert_eq!(step, RxStep { phase, line: None });
    }
}

#[test]
fn wrong_mode_stays_armed() {
    let step = heartbeat_rx(Phase::Armed, &vehicle(ARMED, 7 << 16));
    assert_eq!(step, RxStep { phase: Phase::Armed, line: None });
}

#[test]
fn offboard_mode_without_armed_bit_stays_armed() {
    let step = heartbeat_rx(Phase::Armed, &vehicle(0, 6 << 16));
    assert_eq!(step, RxStep { phase: Phase::Armed, line: None });
    let step = heartbeat_rx(Phase::Armed, &vehicle(0x7F, 6 << 16));
    assert_eq!(step.phase, Phase::Armed);
}

#[test]
fn one_heartbeat_moves_one_link_only() {
    // armed and in offboard mode from the first heartbeat on
    let hb = vehicle(ARMED, 6 << 16);
    let (phases, _) = run(Phase::Disconnected, &[hb, hb, hb, hb]);
    assert_eq!(
        phases,
        vec![Phase::Connected, Phase::Armed, Phase::Offboard, Phase::Offboard]
    );
}

#[test]
fn unarmed_heartbeat_does_not_arm() {
    let step = heartbeat_rx(Phase::Connected, &vehicle(0, 6 << 16));
    assert_eq!(step, RxStep { phase: Phase::Connected, line: None });
    // every flag but the armed one
    let step = heartbeat_rx(Phase::Connected, &vehicle(0x7F, 0));
    assert_eq!(step.phase, Phase::Connected);
}

#[test]
fn disarming_does_not_demote() {
    let step = heartbeat_rx(Phase::Armed, &vehicle(0, 0));
    assert_eq!(step, RxStep { phase: Phase::Armed, line: None });
    let step = heartbeat_rx(Phase::Offboard, &vehicle(0, 0));
    assert_eq!(step, RxStep { phase: Phase::Offboard, line: None });
    let step = heartbeat_rx(Phase::Offboard, &vehicle(ARMED, 7 << 16));
    assert_eq!(step, RxStep { phase: Phase::Offboard, line: None });
}

#[test]
fn failed_receive_and_other_messages_change_nothing() {
    for phase in [Phase::Disconnected, Phase::Connected, Phase::Armed, Phase::Offboard] {
        assert_eq!(heartbeat_rx(phase, &Inbound::Failed), RxStep { phase, line: None });
        assert_eq!(heartbeat_rx(phase, &Inbound::Other), RxStep { phase, line: None });
    }
}

#[test]
fn phases_never_regress() {
    let events = [
        Inbound::Failed,
        station(ARMED, 6 << 16),
        vehicle(ARMED, 6 << 16),
        vehicle(0, 0),
        Inbound::Other,
        vehicle(ARMED, 0),
        vehicle(0, 6 << 16),
        vehicle(ARMED, 5 << 16),
        vehicle(ARMED, (3 << 24) | (6 << 16) | 0xBEEF),
        vehicle(0, 0),
        station(0, 0),
    ];
    let (phases, lines) = run(Phase::Disconnected, &events);
    let mut last = Phase::Disconnected;
    for phase in &phases {
        assert!(last.level() <= phase.level());
        last = *phase;
    }
    assert_eq!(phases[1], Phase::Disconnected);
    assert_eq!(phases[2], Phase::Connected);
    assert_eq!(phases[5], Phase::Armed);
    assert_eq!(phases[7], Phase::Armed);
    assert_eq!(phases[8], Phase::Offboard);
    assert_eq!(last, Phase::Offboard);
    assert_eq!(lines, vec!["→ Connected", "→ Armed", "→ Guided (Offboard)"]);
}

#[test]
fn offboard_needs_an_armed_heartbeat_before_the_offboard_one() {
    // the offboard heartbeat alone, seen while connected, only arms
    let (phases, _) = run(Phase::Disconnected, &[vehicle(0, 0), vehicle(ARMED, 6 << 16)]);
    assert_eq!(phases, vec![Phase::Connected, Phase::Armed]);
}

#[test]
fn main_mode_is_bits_16_to_23() {
    let hb = Heartbeat {
        custom_mode: 0x1206_FFFF,
        mavtype: 2,
        autopilot: 12,
        base_mode: 0,
        system_status: 4,
        mavlink_version: 3,
    };
    assert_eq!(hb.main_mode(), 0x06);
    assert_eq!(hb.sub_mode(), 0x12);
    let hb = Heartbeat { custom_mode: 0x0000_FFFF, ..hb };
    assert_eq!(hb.main_mode(), 0);
    assert_eq!(hb.sub_mode(), 0);
    let hb = Heartbeat { custom_mode: 0xFFFF_0000, ..hb };
    assert_eq!(hb.main_mode(), 255);
    assert_eq!(hb.sub_mode(), 255);
    // the low sixteen bits do not name a mode
    let step = heartbeat_rx(Phase::Armed, &vehicle(ARMED, 6));
    assert_eq!(step.phase, Phase::Armed);
    let step = heartbeat_rx(Phase::Armed, &vehicle(ARMED, 6 << 24));
    assert_eq!(step.phase, Phase::Armed);
}

#[test]
fn armed_is_the_safety_armed_flag() {
    let armed = MavModeFlag::MAV_MODE_FLAG_SAFETY_ARMED.bits();
    assert_eq!(armed, ARMED);
    for base_mode in 0..=255u8 {
        let hb = Heartbeat {
            custom_mode: 0,
            mavtype: 2,
            autopilot: 12,
            base_mode,
            system_status: 4,
            mavlink_version: 3,
        };
        let flags = MavModeFlag::from_bits_truncate(base_mode);
        assert_eq!(hb.armed(), flags.contains(MavModeFlag::MAV_MODE_FLAG_SAFETY_ARMED));
        assert_eq!(hb.armed(), base_mode >= 128);
    }
}

#[test]
fn only_the_station_kind_is_filtered() {
    for mavtype in 0..=255u8 {
        let hb = Heartbeat {
            custom_mode: 0,
            mavtype,
            autopilot: 12,
            base_mode: 0,
            system_status: 4,
            mavlink_version: 3,
        };
        assert_eq!(hb.from_station(), mavtype == 6);
        let step = heartbeat_rx(Phase::Disconnected, &Inbound::Heartbeat(hb));
        let expected = if mavtype == 6 { Phase::Disconnected } else { Phase::Connected };
        assert_eq!(step.phase, expected);
    }
}

#[test]
fn phase_levels_and_announcements() {
    assert_eq!(Phase::Disconnected.level(), 0);
    assert_eq!(Phase::Connected.level(), 1);
    assert_eq!(Phase::Armed.level(), 2);
    assert_eq!(Phase::Offboard.level(), 3);
    assert_eq!(Phase::Disconnected.announcement(), None);
    assert_eq!(Phase::Connected.announcement(), Some("→ Connected"));
    assert_eq!(Phase::Armed.announcement(), Some("→ Armed"));
    assert_eq!(Phase::Offboard.announcement(), Some("→ Guided (Offboard)"));
}
