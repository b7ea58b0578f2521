//! The station's view of how far the vehicle has come.

use vstd::prelude::*;

verus! {

/// Readiness of the vehicle as the station has observed it.
///
/// The phases form a chain, `Disconnected < Connected < Armed < Offboard`,
/// and an observer only ever moves along it in that direction.
#[derive(Clone, Copy, Debug, PartialEq, Eq, Structural)]
pub enum Phase {
    /// No heartbeat from a vehicle has been seen yet.
    Disconnected,
    /// A vehicle is sending heartbeats.
    Connected,
    /// The vehicle has reported its motors armed.
    Armed,
    /// The vehicle has reported the offboard flight mode while armed.
    Offboard,
}

impl Phase {
    /// Position of the phase in the chain, counted from `Disconnected`.
    pub open spec fn rank(self) -> nat {
        match self {
            Phase::Disconnected => 0,
            Phase::Connected => 1,
            Phase::Armed => 2,
            Phase::Offboard => 3,
        }
    }

    /// The line that announces entry into the phase; empty for
    /// `Disconnected`, which is never entered.
    pub open spec fn entry_line(self) -> Seq<char> {
        match self {
            Phase::Disconnected => Seq::empty(),
            Phase::Connected => "→ Connected"@,
            Phase::Armed => "→ Armed"@,
            Phase::Offboard => "→ Guided (Offboard)"@,
        }
    }

    /// Position of the phase in the chain.
    pub fn level(self) -> (n: u8)
        ensures
            n == self.rank(),
    {
        match self {
            Phase::Disconnected => 0,
            Phase::Connected => 1,
            Phase::Armed => 2,
            Phase::Offboard => 3,
        }
    }

    /// The line to print when the phase is entered, if it can be entered.
    pub fn announcement(self) -> (line: Option<&'static str>)
        ensures
            (line is None) == (self == Phase::Disconnected),
            line matches Some(text) ==> text@ == self.entry_line(),
    {
        match self {
            Phase::Disconnected => None,
            Phase::Connected => Some("→ Connected"),
            Phase::Armed => Some("→ Armed"),
            Phase::Offboard => Some("→ Guided (Offboard)"),
        }
    }
}

} // verus!
