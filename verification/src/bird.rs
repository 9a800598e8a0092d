//! The controlled entity: gravity, debounced jump impulses, an auto-jump on
//! the start screen, frame-rate-independent integration, and the clamp that
//! keeps the entity from leaving the top of the playfield.

use crate::config::Config;
use crate::entity::{PipeEntity, PlayState};
use crate::num::{div_time64, div_tz, in_range, sat64, sat_add64};
use crate::rect::{rects_overlap, Point2, Rect};
use vstd::prelude::*;

verus! {

/// The physical state of the controlled entity.
#[derive(Debug, Clone, Copy, PartialEq, Eq, Structural)]
pub struct Physics {
    pub velocity: Point2,
    pub acceleration: Point2,
    /// Whether gravity acts on this body each tick.
    pub gravity: bool,
}

/// The zero vector.
pub open spec fn zero_point() -> Point2 {
    Point2 { x: 0 as i64, y: 0 as i64 }
}

/// The physics state right after a jump impulse: a fixed upward velocity
/// and a small upward acceleration that override gravity for the tick.
pub open spec fn jumped_physics(ph: Physics, cfg: Config) -> Physics {
    Physics {
        velocity: Point2 { x: 0 as i64, y: ((-(cfg.jump_impulse as int)) as i64) },
        acceleration: Point2 { x: 0 as i64, y: ((-(cfg.jump_accel as int)) as i64) },
        gravity: ph.gravity,
    }
}

impl Physics {
    /// Well-formedness: usable coordinates.
    pub open spec fn wf(self) -> bool {
        self.velocity.wf() && self.acceleration.wf()
    }

    /// A body at rest.
    pub fn new(with_gravity: bool) -> (ph: Physics)
        ensures
            ph == (Physics {
                velocity: zero_point(),
                acceleration: zero_point(),
                gravity: with_gravity,
            }),
            ph.wf(),
    {
        Physics { velocity: Point2 { x: 0, y: 0 }, acceleration: Point2 { x: 0, y: 0 }, gravity: with_gravity }
    }
}

/// The controlled entity: a bounding box driven by `Physics`, with the
/// debounce flag for jump input.
#[derive(Debug, Clone, Copy, PartialEq, Eq, Structural)]
pub struct PlayerEntity {
    pub position: Point2,
    pub width: i64,
    pub height: i64,
    /// Debounce flag: a jump is accepted only while this is set, it clears
    /// on the jump, and only an observed release restores it.
    pub can_jump: bool,
    pub physics: Physics,
}

/// The elapsed time actually used for integration: a nonpositive elapsed
/// time is clamped to the minimal unit, so a tick never divides by zero.
pub open spec fn eff_elapsed(elapsed: int) -> int {
    if elapsed < 1 {
        1
    } else {
        elapsed
    }
}

/// Whether the debounce flag is set once the input was sampled: an observed
/// release while alive restores it.
pub open spec fn can_jump_after_release(p: PlayerEntity, st: PlayState, jump_pressed: bool) -> bool {
    if (st is Play || st is StartScreen) && !jump_pressed && !p.can_jump {
        true
    } else {
        p.can_jump
    }
}

/// Whether this tick's input fires a jump impulse: pressed, debounce flag
/// set, and the session not dead.
pub open spec fn input_jump_fired(p: PlayerEntity, st: PlayState, jump_pressed: bool) -> bool {
    (st is Play || st is StartScreen) && jump_pressed && can_jump_after_release(p, st, jump_pressed)
}

/// One integration step, normalized by the elapsed time `e >= 1`: velocity
/// accumulates the time-scaled acceleration, then position accumulates the
/// time-scaled new velocity. Returns (position, velocity).
pub open spec fn integrate_spec(pos: Point2, vel: Point2, acc: Point2, e: int) -> (Point2, Point2) {
    let vx = sat64(vel.x + div_tz(acc.x as int, e));
    let vy = sat64(vel.y + div_tz(acc.y as int, e));
    let px = sat64(pos.x + div_tz(vx, e));
    let py = sat64(pos.y + div_tz(vy, e));
    (Point2 { x: px as i64, y: py as i64 }, Point2 { x: vx as i64, y: vy as i64 })
}

/// One full tick of the controlled entity, and the play state it reports:
/// gravity, input handling with debounce (possibly leaving the start
/// screen), the start-screen auto-jump, time-normalized integration, and
/// the screen-top clamp.
pub open spec fn player_step(
    p: PlayerEntity,
    st: PlayState,
    jump_pressed: bool,
    elapsed: int,
    cfg: Config,
) -> (PlayerEntity, PlayState) {
    let acc0 = if p.physics.gravity {
        Point2 { x: 0 as i64, y: cfg.gravity }
    } else {
        zero_point()
    };
    let fired = input_jump_fired(p, st, jump_pressed);
    let can1 = if fired {
        false
    } else {
        can_jump_after_release(p, st, jump_pressed)
    };
    let st1 = if fired && st is StartScreen {
        PlayState::Play
    } else {
        st
    };
    let auto = st1 is StartScreen && p.position.y > cfg.auto_jump_y;
    let ph1 = if fired || auto {
        jumped_physics(p.physics, cfg)
    } else {
        Physics { velocity: p.physics.velocity, acceleration: acc0, gravity: p.physics.gravity }
    };
    let e = eff_elapsed(elapsed);
    let moved = integrate_spec(p.position, ph1.velocity, ph1.acceleration, e);
    let py = if moved.0.y < cfg.screen_top {
        cfg.screen_top
    } else {
        moved.0.y
    };
    (
        PlayerEntity {
            position: Point2 { x: moved.0.x, y: py },
            width: p.width,
            height: p.height,
            can_jump: can1,
            physics: Physics { velocity: moved.1, acceleration: ph1.acceleration, gravity: p.physics.gravity },
        },
        st1,
    )
}

impl PlayerEntity {
    /// Well-formedness: usable coordinates and nonnegative dimensions.
    pub open spec fn wf(self) -> bool {
        &&& self.position.wf()
        &&& self.physics.wf()
        &&& 0 <= self.width
        &&& 0 <= self.height
    }

    /// A freshly spawned entity: at the given position, at rest, gravity
    /// on, jump available.
    pub fn new(width: i64, height: i64, position: (i64, i64)) -> (p: PlayerEntity)
        requires
            0 <= width,
            0 <= height,
            in_range(position.0 as int),
            in_range(position.1 as int),
        ensures
            p == (PlayerEntity {
                position: Point2 { x: position.0, y: position.1 },
                width,
                height,
                can_jump: true,
                physics: Physics {
                    velocity: zero_point(),
                    acceleration: zero_point(),
                    gravity: true,
                },
            }),
            p.wf(),
    {
        PlayerEntity {
            position: Point2 { x: position.0, y: position.1 },
            width,
            height,
            can_jump: true,
            physics: Physics::new(true),
        }
    }

    /// One tick: applies gravity, input and the auto-jump, integrates over
    /// the elapsed time, clamps at the screen top, and returns the play
    /// state as it stands after the input (the only transition the entity
    /// itself reports is leaving the start screen).
    pub fn update(&mut self, elapsed: i64, jump_pressed: bool, state: &PlayState, cfg: &Config) -> (new_state:
        PlayState)
        requires
            old(self).wf(),
            cfg.wf(),
        ensures
            (*final(self), new_state) == player_step(
                *old(self),
                *state,
                jump_pressed,
                elapsed as int,
                *cfg,
            ),
            final(self).wf(),
            final(self).position.y >= cfg.screen_top,
            new_state == *state || (*state is StartScreen && new_state is Play),
            *state is Dead ==> new_state == *state,
    {
        self.physics.acceleration = if self.physics.gravity {
            Point2 { x: 0, y: cfg.gravity }
        } else {
            Point2 { x: 0, y: 0 }
        };
        let mut new_state = *state;
        if state.is_not_dead() {
            if !jump_pressed && !self.can_jump {
                self.can_jump = true;
            }
            if jump_pressed && self.can_jump {
                PlayerEntity::jump(&mut self.physics, cfg);
                self.can_jump = false;
                if new_state == PlayState::StartScreen {
                    new_state = PlayState::Play;
                }
            }
        }
        if new_state == PlayState::StartScreen {
            self.auto_jump(cfg);
        }
        self.change_player_position(elapsed, cfg);
        self.prevent_going_off(cfg);
        new_state
    }

    /// Integration, explicitly normalized by the elapsed time so that the
    /// trajectory does not depend on the frame rate.
    fn change_player_position(&mut self, elapsed: i64, cfg: &Config)
        requires
            old(self).wf(),
        ensures
            final(self).wf(),
            ({
                let moved = integrate_spec(
                    old(self).position,
                    old(self).physics.velocity,
                    old(self).physics.acceleration,
                    eff_elapsed(elapsed as int),
                );
                *final(self) == (PlayerEntity {
                    position: moved.0,
                    physics: Physics {
                        velocity: moved.1,
                        acceleration: old(self).physics.acceleration,
                        gravity: old(self).physics.gravity,
                    },
                    ..*old(self)
                })
            }),
    {
        let e: i64 = if elapsed < 1 {
            1
        } else {
            elapsed
        };
        self.physics.velocity.x = sat_add64(
            self.physics.velocity.x,
            div_time64(self.physics.acceleration.x, e),
        );
        self.physics.velocity.y = sat_add64(
            self.physics.velocity.y,
            div_time64(self.physics.acceleration.y, e),
        );
        self.position.x = sat_add64(self.position.x, div_time64(self.physics.velocity.x, e));
        self.position.y = sat_add64(self.position.y, div_time64(self.physics.velocity.y, e));
    }

    /// The entity's bounding box in spec form.
    pub open spec fn bounds_spec(self) -> Rect {
        Rect { x: self.position.x, y: self.position.y, w: self.width, h: self.height }
    }

    /// The entity's bounding box.
    pub fn get_bounds(&self) -> (r: Rect)
        ensures
            r == self.bounds_spec(),
    {
        Rect { x: self.position.x, y: self.position.y, w: self.width, h: self.height }
    }

    /// Exclusive bounding-box collision test against an obstacle.
    pub fn overlaps(&self, other: &PipeEntity) -> (r: bool)
        ensures
            r == rects_overlap(self.bounds_spec(), other.rect_spec()),
    {
        let player_rect = self.get_bounds();
        let other_rect = other.get_rect();
        other_rect.overlaps(&player_rect)
    }

    /// Clamps the vertical position so the entity never rises above the
    /// screen top; velocity is untouched (no bounce).
    fn prevent_going_off(&mut self, cfg: &Config)
        ensures
            *final(self) == (PlayerEntity {
                position: Point2 {
                    x: old(self).position.x,
                    y: if old(self).position.y < cfg.screen_top {
                        cfg.screen_top
                    } else {
                        old(self).position.y
                    },
                },
                ..*old(self)
            }),
    {
        if self.position.y < cfg.screen_top {
            self.position.y = cfg.screen_top;
        }
    }

    /// The start-screen bobbing: jump unconditionally once the entity has
    /// fallen below the auto-jump height. Does not touch the debounce flag.
    fn auto_jump(&mut self, cfg: &Config)
        requires
            cfg.wf(),
        ensures
            *final(self) == (PlayerEntity {
                physics: if old(self).position.y > cfg.auto_jump_y {
                    jumped_physics(old(self).physics, *cfg)
                } else {
                    old(self).physics
                },
                ..*old(self)
            }),
    {
        if self.position.y > cfg.auto_jump_y {
            PlayerEntity::jump(&mut self.physics, cfg);
        }
    }

    /// The jump impulse: upward velocity and a small upward acceleration
    /// overriding gravity for this tick.
    pub fn jump(physics: &mut Physics, cfg: &Config)
        requires
            cfg.wf(),
        ensures
            *final(physics) == jumped_physics(*old(physics), *cfg),
            final(physics).wf(),
    {
        physics.acceleration = Point2 { x: 0, y: -cfg.jump_accel };
        physics.velocity = Point2 { x: 0, y: -cfg.jump_impulse };
    }
}

/// Whatever the previous state, the input, and the (nonzero or clamped)
/// elapsed time, a tick never leaves the entity above the screen top.
pub proof fn lemma_never_above_screen_top(
    p: PlayerEntity,
    st: PlayState,
    jump_pressed: bool,
    elapsed: int,
    cfg: Config,
)
    ensures
        player_step(p, st, jump_pressed, elapsed, cfg).0.position.y >= cfg.screen_top,
{
}

/// The run of states an entity passes through while the jump input is held
/// down for a whole sequence of ticks, each tick with its own play state
/// and elapsed time.
pub open spec fn held_run(p: PlayerEntity, ticks: Seq<(PlayState, int)>, cfg: Config) -> PlayerEntity
    decreases ticks.len(),
{
    if ticks.len() == 0 {
        p
    } else {
        held_run(player_step(p, ticks[0].0, true, ticks[0].1, cfg).0, ticks.drop_first(), cfg)
    }
}

/// How many input jump impulses fire across such a held run.
pub open spec fn held_impulses(p: PlayerEntity, ticks: Seq<(PlayState, int)>, cfg: Config) -> nat
    decreases ticks.len(),
{
    if ticks.len() == 0 {
        0
    } else {
        (if input_jump_fired(p, ticks[0].0, true) {
            1nat
        } else {
            0nat
        }) + held_impulses(
            player_step(p, ticks[0].0, true, ticks[0].1, cfg).0,
            ticks.drop_first(),
            cfg,
        )
    }
}

/// While the input stays pressed, a cleared debounce flag stays cleared and
/// no impulse ever fires.
pub proof fn lemma_held_flag_stays_cleared(
    p: PlayerEntity,
    ticks: Seq<(PlayState, int)>,
    cfg: Config,
)
    requires
        !p.can_jump,
    ensures
        held_impulses(p, ticks, cfg) == 0,
        !held_run(p, ticks, cfg).can_jump,
    decreases ticks.len(),
{
    if ticks.len() > 0 {
        lemma_held_flag_stays_cleared(
            player_step(p, ticks[0].0, true, ticks[0].1, cfg).0,
            ticks.drop_first(),
            cfg,
        );
    }
}

/// Jump impulses are debounced: holding the jump input across any number
/// of consecutive ticks without a release fires at most one input impulse.
pub proof fn lemma_jump_debounced(p: PlayerEntity, ticks: Seq<(PlayState, int)>, cfg: Config)
    ensures
        held_impulses(p, ticks, cfg) <= 1,
    decreases ticks.len(),
{
    if ticks.len() > 0 {
        let p1 = player_step(p, ticks[0].0, true, ticks[0].1, cfg).0;
        if input_jump_fired(p, ticks[0].0, true) {
            lemma_held_flag_stays_cleared(p1, ticks.drop_first(), cfg);
        } else {
            lemma_jump_debounced(p1, ticks.drop_first(), cfg);
        }
    }
}

} // verus!
