//! Tick timing: when the last tick was, and how long a poll may block.
//!
//! Times are nanoseconds on a clock of the caller's choosing. The clock is
//! expected never to run backwards; a reading that does lie before the last
//! tick counts as no time passed.

use vstd::prelude::*;

verus! {

/// The tick rate of the shell: 250 ms, in nanoseconds.
pub const DEFAULT_TICK_RATE: u64 = 250_000_000;

/// The time that has passed at `now` since `last_tick`.
pub open spec fn elapsed_since(last_tick: u64, now: u64) -> int {
    if now >= last_tick {
        now - last_tick
    } else {
        0
    }
}

/// What is left of a tick after `elapsed`: `max(0, tick_rate - elapsed)`.
pub open spec fn remaining(tick_rate: u64, elapsed: int) -> int {
    if elapsed <= tick_rate {
        tick_rate - elapsed
    } else {
        0
    }
}

/// The timing state of a running loop.
#[derive(Clone, Copy, Debug, PartialEq, Eq, Structural)]
pub struct TickState {
    /// The fixed length of a tick.
    pub tick_rate: u64,
    /// The clock reading at the last tick boundary that was crossed.
    pub last_tick: u64,
}

impl TickState {
    /// The time that has passed at `now` since the last tick.
    pub open spec fn elapsed_at(self, now: u64) -> int {
        elapsed_since(self.last_tick, now)
    }

    /// The longest that a poll begun at `now` may block.
    pub open spec fn timeout_at(self, now: u64) -> int {
        remaining(self.tick_rate, self.elapsed_at(now))
    }

    /// Whether a whole tick has passed at `now`.
    pub open spec fn is_due(self, now: u64) -> bool {
        self.elapsed_at(now) >= self.tick_rate
    }

    /// The state after the bookkeeping at `now`: a tick that is due starts
    /// anew at `now`, one that is not is left alone.
    pub open spec fn advanced(self, now: u64) -> TickState {
        if self.is_due(now) {
            TickState { tick_rate: self.tick_rate, last_tick: now }
        } else {
            self
        }
    }

    /// Starts ticking at `now`.
    pub fn new(tick_rate: u64, now: u64) -> (tick: TickState)
        ensures
            tick == (TickState { tick_rate, last_tick: now }),
    {
        TickState { tick_rate, last_tick: now }
    }

    /// The time that has passed at `now` since the last tick.
    pub fn elapsed(&self, now: u64) -> (elapsed: u64)
        ensures
            elapsed == self.elapsed_at(now),
    {
        if now >= self.last_tick {
            now - self.last_tick
        } else {
            0
        }
    }

    /// The timeout for a poll begun at `now`: what is left of the tick, and
    /// nothing once the tick is over.
    pub fn timeout(&self, now: u64) -> (timeout: u64)
        ensures
            timeout == self.timeout_at(now),
            0 <= timeout <= self.tick_rate,
            self.elapsed_at(now) == 0 ==> timeout == self.tick_rate,
            self.tick_rate > 0 && timeout == self.tick_rate ==> self.elapsed_at(now) == 0,
    {
        let elapsed: u64 = self.elapsed(now);
        if elapsed <= self.tick_rate {
            self.tick_rate - elapsed
        } else {
            0
        }
    }

    /// Whether a whole tick has passed at `now`.
    pub fn due(&self, now: u64) -> (due: bool)
        ensures
            due == self.is_due(now),
    {
        self.elapsed(now) >= self.tick_rate
    }

    /// The bookkeeping at the end of an iteration: once a whole tick has
    /// passed, the next one starts at `now`. Returns whether it did.
    pub fn advance(&mut self, now: u64) -> (crossed: bool)
        ensures
            crossed == old(self).is_due(now),
            *final(self) == old(self).advanced(now),
    {
        if self.due(now) {
            self.last_tick = now;
            true
        } else {
            false
        }
    }
}

/// The timeout of a poll never exceeds the tick rate, and with a tick rate
/// above zero it equals the tick rate exactly when no time has passed since
/// the last tick.
pub proof fn lemma_timeout_bounds(tick: TickState, now: u64)
    ensures
        0 <= tick.timeout_at(now) <= tick.tick_rate,
        tick.timeout_at(now) == remaining(tick.tick_rate, elapsed_since(tick.last_tick, now)),
        tick.tick_rate > 0 ==> (tick.timeout_at(now) == tick.tick_rate <==> tick.elapsed_at(now)
            == 0),
{
}

/// The last tick never moves back: after the bookkeeping at `now` it is no
/// earlier than before, and where a whole tick had passed it is `now`, so
/// that every later timeout is counted from `now`. A tick rate of zero makes
/// every reading a tick boundary, so there the clock itself must not have
/// run backwards.
pub proof fn lemma_last_tick_monotonic(tick: TickState, now: u64, later: u64)
    requires
        tick.tick_rate > 0 || now >= tick.last_tick,
    ensures
        tick.advanced(now).last_tick >= tick.last_tick,
        tick.advanced(now).tick_rate == tick.tick_rate,
        tick.is_due(now) ==> tick.advanced(now).last_tick == now,
        tick.is_due(now) ==> tick.advanced(now).timeout_at(later) == remaining(
            tick.tick_rate,
            elapsed_since(now, later),
        ),
{
}

} // verus!
