//! The adaptive spawn timer.
//!
//! A repeating countdown: each frame it is advanced by the elapsed real
//! time, and on expiry it fires once and rearms itself. After each
//! successful hit the frequency controller shrinks its duration by one
//! percent, so targets come faster as the player improves. All times are
//! integer microseconds.

use vstd::prelude::*;

verus! {

/// The duration a fresh timer starts with: two seconds.
pub const STARTING_DURATION_MICROS: u64 = 2_000_000;

/// The repeating adaptive countdown. `duration_micros` is the current
/// interval length; `elapsed_micros` is the time accumulated since the
/// timer last fired or was reset. The timer always rearms itself on
/// expiry; it never stops.
#[derive(Debug, Clone, Copy, PartialEq, Eq, Structural)]
pub struct SpawnTimer {
    pub duration_micros: u64,
    pub elapsed_micros: u64,
}

/// One percent shrink with truncating division, floored at one
/// microsecond so the duration stays positive.
pub open spec fn shrunk_duration(d: int) -> int {
    if d * 99 / 100 < 1 {
        1
    } else {
        d * 99 / 100
    }
}

/// The duration that `n` consecutive one-percent shrinks leave of `d0`.
pub open spec fn duration_after_hits(d0: int, n: nat) -> int
    decreases n,
{
    if n == 0 {
        d0
    } else {
        shrunk_duration(duration_after_hits(d0, (n - 1) as nat))
    }
}

impl SpawnTimer {
    /// The timer's invariant: a positive interval, and never more time
    /// accumulated than the interval itself (expiry resets it).
    pub open spec fn wf(self) -> bool {
        &&& self.duration_micros > 0
        &&& self.elapsed_micros < self.duration_micros
    }

    /// A fresh timer with the given interval and no time accumulated.
    pub fn new(duration_micros: u64) -> (t: SpawnTimer)
        requires
            duration_micros > 0,
        ensures
            t.wf(),
            t.duration_micros == duration_micros,
            t.elapsed_micros == 0,
    {
        SpawnTimer { duration_micros, elapsed_micros: 0 }
    }

    /// The timer the game starts with: a two-second interval.
    pub fn starting() -> (t: SpawnTimer)
        ensures
            t.wf(),
            t.duration_micros == STARTING_DURATION_MICROS,
            t.elapsed_micros == 0,
    {
        SpawnTimer::new(STARTING_DURATION_MICROS)
    }

    /// Advance the timer by `dt_micros` of real time. It fires exactly
    /// when the accumulated time reaches the duration, and then rearms
    /// with zero accumulated time. However far `dt_micros` overshoots the
    /// duration — even by several full multiples — the timer fires at
    /// most once per call, so a stalled frame cannot cause a spawn burst.
    pub fn tick(&mut self, dt_micros: u64) -> (fired: bool)
        requires
            old(self).wf(),
        ensures
            final(self).wf(),
            final(self).duration_micros == old(self).duration_micros,
            fired == (old(self).elapsed_micros + dt_micros >= old(self).duration_micros),
            final(self).elapsed_micros == (if fired {
                0int
            } else {
                old(self).elapsed_micros + dt_micros
            }),
    {
        if dt_micros >= self.duration_micros - self.elapsed_micros {
            self.elapsed_micros = 0;
            true
        } else {
            self.elapsed_micros = self.elapsed_micros + dt_micros;
            false
        }
    }

    /// The frequency controller's response to a hit: discard any partial
    /// interval (accumulated time goes back to zero, so a full fresh
    /// interval begins now) and shrink the duration by one percent.
    pub fn on_hit(&mut self)
        requires
            old(self).wf(),
        ensures
            final(self).wf(),
            final(self).elapsed_micros == 0,
            final(self).duration_micros == shrunk_duration(old(self).duration_micros as int),
    {
        let wide: u128 = (self.duration_micros as u128) * 99 / 100;
        proof {
            assert(wide <= self.duration_micros) by (nonlinear_arith)
                requires
                    wide == (self.duration_micros as u128) * 99 / 100,
            ;
        }
        let next: u64 = if wide < 1 {
            1
        } else {
            wide as u64
        };
        self.duration_micros = next;
        self.elapsed_micros = 0;
    }
}

/// One shrink never increases the duration, keeps it positive, and
/// strictly decreases any duration above one microsecond.
pub proof fn lemma_shrink_shrinks(d: int)
    requires
        d >= 1,
    ensures
        1 <= shrunk_duration(d) <= d,
        d >= 2 ==> shrunk_duration(d) < d,
{
    assert(d * 99 / 100 <= d && (d >= 2 ==> d * 99 / 100 < d)) by (nonlinear_arith)
        requires
            d >= 1,
    ;
}

/// Timer monotonic shrink: starting from a positive duration `d0`, the
/// duration left after `n` consecutive hits never increases with `n` and
/// always stays between one microsecond and `d0`.
pub proof fn lemma_duration_after_hits_monotonic(d0: int, n: nat)
    requires
        d0 >= 1,
    ensures
        1 <= duration_after_hits(d0, n) <= d0,
        duration_after_hits(d0, n + 1) <= duration_after_hits(d0, n),
    decreases n,
{
    if n == 0 {
        lemma_shrink_shrinks(d0);
    } else {
        lemma_duration_after_hits_monotonic(d0, (n - 1) as nat);
        lemma_shrink_shrinks(duration_after_hits(d0, n));
        assert(duration_after_hits(d0, n + 1) == shrunk_duration(duration_after_hits(d0, n)));
    }
}

} // verus!
