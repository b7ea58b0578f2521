//! The cadence of the two senders: one tick every 100 ms, counted from the
//! moment the task starts.
//!
//! The timer itself is the caller's. What stands here is the period that the
//! caller gives it, and what follows for a timer that keeps to that period:
//! how many ticks fall into a window of time. A tick that the timer misses is
//! skipped, not made up for, so no window holds more ticks than this.

use vstd::prelude::*;

verus! {

/// Milliseconds from one tick to the next.
pub const TICK_MS: u64 = 100;

/// The number of ticks that fall before the instant `elapsed`, in
/// milliseconds since the first tick: the ticks at 0, 100, 200 and so on that
/// are earlier than `elapsed`.
pub open spec fn ticks_before(elapsed: nat) -> nat {
    (elapsed + TICK_MS - 1) as nat / TICK_MS as nat
}

/// The number of ticks in the window that opens at `from` and is `len`
/// milliseconds long, its end excluded.
pub open spec fn ticks_within(from: nat, len: nat) -> nat {
    (ticks_before(from + len) - ticks_before(from)) as nat
}

/// `ticks_before` counts what it says: tick `k`, which falls at `k` times the
/// period, is earlier than `elapsed` exactly if `k` is below the count.
pub proof fn lemma_ticks_before(elapsed: nat, k: nat)
    ensures
        (k * TICK_MS < elapsed) == (k < ticks_before(elapsed)),
{
}

/// The beacon's cadence: each tick sends one heartbeat, so a window of `len`
/// milliseconds holds `len / 100` heartbeats, give or take less than one; and
/// a window of whole seconds holds ten for each second.
pub proof fn lemma_tick_count(from: nat, len: nat)
    ensures
        len - TICK_MS < ticks_within(from, len) * TICK_MS < len + TICK_MS,
        len % 1000 == 0 ==> ticks_within(from, len) == 10 * (len / 1000),
{
}

} // verus!
