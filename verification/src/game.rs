//! The game aggregate: the activity gate, the adaptive spawn timer and
//! the target slot in one owned state struct, driven per frame by the
//! host loop.
//!
//! The host calls, in frame order: `apply_signals` with this frame's
//! edge-triggered activate/deactivate input, `frame` with the elapsed
//! time and the current display geometry, and `click` when the primary
//! button was pressed, with the click's world position. While inactive
//! nothing ticks, spawns or registers hits.

use vstd::prelude::*;
use crate::geometry::{Viewport, WorldPos};
use crate::random::Sampler;
use crate::state::GameState;
use crate::target::{click_hits, fresh_target, spawn_target, try_hit, HitResult, Target};
use crate::timer::{shrunk_duration, SpawnTimer};

verus! {

/// All state the core owns, in one aggregate passed to the per-frame
/// update functions.
pub struct Game {
    /// The activity gate.
    pub state: GameState,
    /// The adaptive spawn timer.
    pub timer: SpawnTimer,
    /// The live target, if one exists. At most one at any time.
    pub target: Option<Target>,
    /// The injected random source for spawn positions.
    pub sampler: Sampler,
}

impl Game {
    /// The game's invariant: the timer is well formed.
    pub open spec fn wf(self) -> bool {
        self.timer.wf()
    }

    /// Whether a click at `p` would register a hit in this state: the
    /// gate is active, a target is live, and the click lands inside its
    /// hit-box.
    pub open spec fn hit_occurs(self, p: WorldPos) -> bool {
        &&& self.state.spec_is_active()
        &&& self.target matches Some(t) && click_hits(p, t)
    }

    /// A fresh game: in the menu, no target, a two-second spawn
    /// interval, spawn positions drawn from a sampler with the given
    /// seed.
    pub fn new(seed: u64) -> (g: Game)
        ensures
            g.wf(),
            g.state == GameState::Menu,
            g.target is None,
            g.timer.duration_micros == crate::timer::STARTING_DURATION_MICROS,
            g.timer.elapsed_micros == 0,
    {
        Game {
            state: GameState::Menu,
            timer: SpawnTimer::starting(),
            target: None,
            sampler: Sampler::seeded(seed),
        }
    }

    /// Feed this frame's edge-triggered activate/deactivate signals to
    /// the activity state. Nothing else changes; the live target, if
    /// any, stays where it is.
    pub fn apply_signals(&mut self, activate: bool, deactivate: bool)
        ensures
            final(self).state == (if deactivate {
                GameState::Menu
            } else if activate {
                GameState::InGame
            } else {
                old(self).state
            }),
            final(self).timer == old(self).timer,
            final(self).target == old(self).target,
    {
        self.state.apply_signals(activate, deactivate);
    }

    /// Advance one frame by `dt_micros` of real time; returns whether a
    /// target was spawned this frame.
    ///
    /// While the game is inactive the frame is ignored entirely. While
    /// the display geometry is unavailable the scheduler is paused, so
    /// the pending spawn is deferred rather than lost or forced through.
    /// Otherwise the timer ticks; when it expires — once at most,
    /// however large `dt_micros` is — the spawned target replaces
    /// whatever target existed.
    pub fn frame(&mut self, dt_micros: u64, viewport: Option<Viewport>, now_micros: u64) -> (spawned:
        bool)
        requires
            old(self).wf(),
        ensures
            final(self).wf(),
            final(self).state == old(self).state,
            !old(self).state.spec_is_active() || viewport is None ==> {
                &&& !spawned
                &&& final(self).timer == old(self).timer
                &&& final(self).target == old(self).target
            },
            old(self).state.spec_is_active() ==> (viewport matches Some(vp) ==> {
                &&& spawned == (old(self).timer.elapsed_micros + dt_micros
                    >= old(self).timer.duration_micros)
                &&& final(self).timer.duration_micros == old(self).timer.duration_micros
                &&& final(self).timer.elapsed_micros == (if spawned {
                    0int
                } else {
                    old(self).timer.elapsed_micros + dt_micros
                })
                &&& (if spawned {
                    final(self).target matches Some(t) && fresh_target(t, vp, now_micros)
                } else {
                    final(self).target == old(self).target
                })
            }),
    {
        if !self.state.is_active() {
            return false;
        }
        match viewport {
            None => false,
            Some(vp) => {
                let fired = self.timer.tick(dt_micros);
                if fired {
                    self.target = Some(spawn_target(&mut self.sampler, vp, now_micros));
                }
                fired
            },
        }
    }

    /// Process a primary click whose position was already converted to
    /// world coordinates; `click` is `None` when the conversion was
    /// impossible this frame (no camera), in which case hit-testing is
    /// skipped. Returns the hit result exactly when the game is active
    /// and the click lands in the live target's hit-box; the hit
    /// destroys the target, resets the timer's accumulated time to zero
    /// and shrinks its duration by one percent. On anything but a hit,
    /// nothing changes.
    ///
    /// `now_micros` must come from the same monotonic clock that
    /// stamped the target's spawn time.
    pub fn click(&mut self, click: Option<WorldPos>, now_micros: u64) -> (r: Option<HitResult>)
        requires
            old(self).wf(),
            old(self).target matches Some(t) ==> t.spawned_at_micros <= now_micros,
        ensures
            final(self).wf(),
            final(self).state == old(self).state,
            r is Some <==> (click matches Some(p) && old(self).hit_occurs(p)),
            r matches Some(hit) ==> {
                &&& old(self).target matches Some(t) && hit.target == t
                &&& hit.reaction_micros == now_micros - hit.target.spawned_at_micros
                &&& final(self).target is None
                &&& final(self).timer.elapsed_micros == 0
                &&& final(self).timer.duration_micros == shrunk_duration(
                    old(self).timer.duration_micros as int,
                )
            },
            r is None ==> {
                &&& final(self).timer == old(self).timer
                &&& final(self).target == old(self).target
            },
    {
        if !self.state.is_active() {
            return None;
        }
        match click {
            None => None,
            Some(p) => {
                let r = try_hit(&mut self.target, p, now_micros);
                if r.is_some() {
                    self.timer.on_hit();
                }
                r
            },
        }
    }

    /// The live target, for the rendering layer: its existence, position
    /// and size are all a drawer needs.
    pub fn current_target(&self) -> (r: Option<Target>)
        ensures
            r == self.target,
    {
        self.target
    }
}

} // verus!
