//! The bridge from raw contact events to the "player collided" signal.
//!
//! One physical impact shows up as a burst of raw contact events. An event
//! is accepted only when more than the debounce threshold has passed since
//! the last accepted one; the rest are dropped as bounce noise.

use vstd::prelude::*;

verus! {

/// An event counts only if it comes more than this many nanoseconds after
/// the last accepted one: 50 ms.
pub const COLLISION_DEBOUNCE: u64 = 50_000_000;

/// The time of the last accepted collision.
#[derive(Clone, Copy, Debug, PartialEq, Eq, Structural)]
pub struct PlayerCollision {
    /// In nanoseconds on the clock of the caller.
    pub previous_collision_time: u64,
}

/// An accepted collision.
#[derive(Clone, Copy, Debug, PartialEq, Eq, Structural)]
pub struct Collision {
    /// Nanoseconds since the last accepted collision.
    pub gap: u64,
    /// Magnitude of the contact force, as the caller measures it.
    pub magnitude: u64,
}

/// Time from `previous` to `now`; zero if the clock ran backwards.
pub open spec fn spec_gap(previous: u64, now: u64) -> u64 {
    if now >= previous {
        (now - previous) as u64
    } else {
        0
    }
}

/// Whether a contact event at `now` is accepted.
pub open spec fn spec_accepts(previous: u64, now: u64) -> bool {
    spec_gap(previous, now) > COLLISION_DEBOUNCE
}

/// How many of the contact events at `times`, taken in order, are accepted
/// when the last accepted collision was at `previous`.
pub open spec fn spec_accepted_count(previous: u64, times: Seq<u64>) -> nat
    decreases times.len(),
{
    if times.len() == 0 {
        0
    } else if spec_accepts(previous, times[0]) {
        1 + spec_accepted_count(times[0], times.drop_first())
    } else {
        spec_accepted_count(previous, times.drop_first())
    }
}

impl Default for PlayerCollision {
    fn default() -> (state: PlayerCollision)
        ensures
            state.previous_collision_time == 0,
    {
        PlayerCollision { previous_collision_time: 0 }
    }
}

impl PlayerCollision {
    /// Takes one raw contact event at time `now`. It is accepted exactly if
    /// more than the debounce threshold has passed since the last accepted
    /// collision; then the time is recorded and the collision reported
    /// with the gap and the magnitude. Otherwise nothing changes.
    pub fn detect(&mut self, now: u64, magnitude: u64) -> (accepted: Option<Collision>)
        ensures
            accepted == if spec_accepts(old(self).previous_collision_time, now) {
                Some(
                    Collision { gap: spec_gap(old(self).previous_collision_time, now), magnitude },
                )
            } else {
                None
            },
            final(self).previous_collision_time == if spec_accepts(
                old(self).previous_collision_time,
                now,
            ) {
                now
            } else {
                old(self).previous_collision_time
            },
    {
        let gap: u64 = if now >= self.previous_collision_time {
            now - self.previous_collision_time
        } else {
            0
        };
        if gap > COLLISION_DEBOUNCE {
            self.previous_collision_time = now;
            Some(Collision { gap, magnitude })
        } else {
            None
        }
    }
}

/// Of two contact events of which the first is accepted, the second is
/// accepted exactly if it comes more than the debounce threshold later.
pub proof fn lemma_debounce_pair(previous: u64, first: u64, second: u64)
    requires
        spec_accepts(previous, first),
        first <= second,
    ensures
        second - first <= COLLISION_DEBOUNCE ==> spec_accepted_count(previous, seq![first, second])
            == 1,
        second - first > COLLISION_DEBOUNCE ==> spec_accepted_count(previous, seq![first, second])
            == 2,
{
    let both = seq![first, second];
    let rest = both.drop_first();
    assert(rest =~= seq![second]);
    assert(rest.drop_first() =~= Seq::<u64>::empty());
    reveal_with_fuel(spec_accepted_count, 3);
    assert(spec_accepted_count(second, rest.drop_first()) == 0);
    assert(spec_accepted_count(first, rest.drop_first()) == 0);
}

/// No more events are accepted than arrive.
pub proof fn lemma_accepted_at_most_all(previous: u64, times: Seq<u64>)
    ensures
        spec_accepted_count(previous, times) <= times.len(),
    decreases times.len(),
{
    if times.len() > 0 {
        lemma_accepted_at_most_all(times[0], times.drop_first());
        lemma_accepted_at_most_all(previous, times.drop_first());
    }
}

} // verus!
