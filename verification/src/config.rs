//! The immutable configuration of the simulation: physics constants, the
//! obstacle scroll step, and the fixed screen thresholds. All values are in
//! the game's integer screen units (the vertical axis grows downward, so
//! gravity is a positive magnitude and a jump is a negative velocity).

use crate::num::in_range;
use vstd::prelude::*;

verus! {

/// Fixed parameters of a simulation, chosen at construction.
#[derive(Debug, Clone, Copy, PartialEq, Eq, Structural)]
pub struct Config {
    /// Downward acceleration applied each tick while gravity is enabled.
    pub gravity: i64,
    /// Upward acceleration magnitude set for the tick of a jump.
    pub jump_accel: i64,
    /// Upward velocity magnitude set by a jump impulse.
    pub jump_impulse: i64,
    /// Signed change to every obstacle's horizontal position per tick
    /// (negative: obstacles scroll leftward).
    pub scroll_step: i64,
    /// The entity's vertical position never rises above this bound.
    pub screen_top: i64,
    /// Ground contact is reported when the entity's vertical position
    /// exceeds this threshold.
    pub ground_y: i64,
    /// An obstacle at or left of this horizontal position is past the
    /// entity and may score.
    pub score_line: i64,
    /// On the start screen the entity auto-jumps once it falls below this
    /// height.
    pub auto_jump_y: i64,
    /// Bounding-box width of the controlled entity.
    pub player_w: i64,
    /// Bounding-box height of the controlled entity.
    pub player_h: i64,
    /// Horizontal spawn position of the controlled entity.
    pub player_start_x: i64,
    /// Vertical spawn position of the controlled entity.
    pub player_start_y: i64,
}

impl Config {
    /// Well-formedness: every field is a usable coordinate and the
    /// magnitudes are nonnegative.
    pub open spec fn wf(self) -> bool {
        &&& 0 <= self.gravity
        &&& 0 <= self.jump_accel
        &&& 0 <= self.jump_impulse
        &&& 0 <= self.player_w
        &&& 0 <= self.player_h
        &&& in_range(self.scroll_step as int)
        &&& in_range(self.screen_top as int)
        &&& in_range(self.ground_y as int)
        &&& in_range(self.score_line as int)
        &&& in_range(self.auto_jump_y as int)
        &&& in_range(self.player_start_x as int)
        &&& in_range(self.player_start_y as int)
    }

    /// The stock tuning, in tenths of a screen pixel.
    pub fn standard() -> (c: Config)
        ensures
            c.gravity == 2,
            c.jump_accel == 2,
            c.jump_impulse == 25,
            c.scroll_step == -10,
            c.screen_top == -160,
            c.ground_y == 1350,
            c.score_line == 200,
            c.auto_jump_y == 750,
            c.player_w == 160,
            c.player_h == 120,
            c.player_start_x == 400,
            c.player_start_y == -160,
            c.wf(),
    {
        Config {
            gravity: 2,
            jump_accel: 2,
            jump_impulse: 25,
            scroll_step: -10,
            screen_top: -160,
            ground_y: 1350,
            score_line: 200,
            auto_jump_y: 750,
            player_w: 160,
            player_h: 120,
            player_start_x: 400,
            player_start_y: -160,
        }
    }
}

} // verus!
