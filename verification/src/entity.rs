//! The play-phase state machine and the obstacle entity with its scoring
//! protocol. Obstacles scroll leftward, are recycled to the right once fully
//! off screen, and may score at most once per pass: the `ReadyToScore →
//! Scored` transition fires only while play is active and only recycling
//! returns a `Scored` obstacle to `ReadyToScore`.

use crate::config::Config;
use crate::num::{in_range, sat64};
use crate::num::sat_add64;
use crate::pipe::PipeTracker;
use crate::rect::{Point2, Rect};
use vstd::prelude::*;

verus! {

/// The current state of a session: on the start screen, actively playing,
/// or dead since the recorded timestamp. A dead session leaves this state
/// only through an external reset.
#[derive(Debug, Clone, Copy, PartialEq, Eq, Structural)]
pub enum PlayState {
    StartScreen,
    Play,
    Dead { time: u64 },
}

impl PlayState {
    /// True exactly in the `Play` state.
    pub fn is_playing(&self) -> (r: bool)
        ensures
            r == (*self is Play),
    {
        *self == PlayState::Play
    }

    /// Records the moment of death. Only the orchestrator calls this, and
    /// only out of the `Play` state.
    pub fn set_dead(&mut self, time: u64)
        ensures
            *final(self) == (PlayState::Dead { time }),
    {
        *self = PlayState::Dead { time }
    }

    /// True before death: on the start screen or playing.
    pub fn is_not_dead(&self) -> (r: bool)
        ensures
            r == (*self is Play || *self is StartScreen),
    {
        *self == PlayState::Play || *self == PlayState::StartScreen
    }
}

/// The scoring eligibility of one obstacle.
#[derive(Debug, Clone, Copy, PartialEq, Eq, Structural)]
pub enum ScoringPipe {
    /// Never eligible; stays dormant through recycles.
    Dormant,
    /// Will score when it crosses the score line during play.
    ReadyToScore,
    /// Has scored this pass; eligible again only after a recycle.
    Scored,
}

/// The horizontal jump an obstacle makes when it recycles: the width of the
/// whole pool's spacing pattern.
#[derive(Debug, Clone, Copy, PartialEq, Eq, Structural)]
pub struct Scroll {
    pub jump_distance: i64,
}

/// One recycled obstacle: a box that scrolls leftward and scores at most
/// once per pass.
#[derive(Debug, Clone, Copy, PartialEq, Eq, Structural)]
pub struct PipeEntity {
    pub position: Point2,
    pub width: i64,
    pub height: i64,
    pub scroller: Scroll,
    pub scoring_pipe: ScoringPipe,
}

/// What one movement tick does to an obstacle, up to the randomness of the
/// recycle offset: while the session is on the start screen nothing moves;
/// otherwise the obstacle steps left and, once its right edge is fully past
/// the left screen edge, jumps back to the right of the spacing pattern
/// with a vertical offset drawn from the tracker band (`lo..hi`), a
/// `Scored` state reset to `ReadyToScore`.
pub open spec fn pipe_moved_rel(
    pre: PipeEntity,
    post: PipeEntity,
    st: PlayState,
    cfg: Config,
    lo: int,
    hi: int,
) -> bool {
    if st is StartScreen {
        post == pre
    } else {
        let mx = sat64(pre.position.x + cfg.scroll_step);
        &&& post.width == pre.width
        &&& post.height == pre.height
        &&& post.scroller == pre.scroller
        &&& if mx + pre.width >= 0 {
            &&& post.position.x as int == mx
            &&& post.position.y == pre.position.y
            &&& post.scoring_pipe == pre.scoring_pipe
        } else {
            &&& post.position.x as int == sat64(mx + pre.scroller.jump_distance)
            &&& sat64(pre.position.y + (lo - hi)) <= post.position.y as int <= sat64(
                pre.position.y + (hi - lo),
            )
            &&& post.scoring_pipe == (if pre.scoring_pipe is Scored {
                ScoringPipe::ReadyToScore
            } else {
                pre.scoring_pipe
            })
        }
    }
}

/// What the crossing check does: past the score line, an obstacle that is
/// `ReadyToScore` while play is active becomes `Scored` and reports a score
/// event; in every other case nothing changes and nothing is reported.
pub open spec fn set_scored_spec(p: PipeEntity, st: PlayState, cfg: Config) -> (PipeEntity, bool) {
    if p.position.x > cfg.score_line {
        (p, false)
    } else if p.scoring_pipe is ReadyToScore && st is Play {
        (
            PipeEntity {
                position: p.position,
                width: p.width,
                height: p.height,
                scroller: p.scroller,
                scoring_pipe: ScoringPipe::Scored,
            },
            true,
        )
    } else {
        (p, false)
    }
}

impl PipeEntity {
    /// Well-formedness: usable coordinates and nonnegative dimensions.
    pub open spec fn wf(self) -> bool {
        &&& self.position.wf()
        &&& 0 <= self.width
        &&& 0 <= self.height
        &&& in_range(self.scroller.jump_distance as int)
    }

    /// A dormant obstacle of the given size at the given position, with the
    /// given recycle jump distance.
    pub fn new(width: i64, height: i64, position: (i64, i64), scroller: i64) -> (p: PipeEntity)
        requires
            0 <= width,
            0 <= height,
            in_range(position.0 as int),
            in_range(position.1 as int),
            in_range(scroller as int),
        ensures
            p == (PipeEntity {
                position: Point2 { x: position.0, y: position.1 },
                width,
                height,
                scroller: Scroll { jump_distance: scroller },
                scoring_pipe: ScoringPipe::Dormant,
            }),
            p.wf(),
    {
        PipeEntity {
            position: Point2 { x: position.0, y: position.1 },
            width,
            height,
            scroller: Scroll { jump_distance: scroller },
            scoring_pipe: ScoringPipe::Dormant,
        }
    }

    /// `new` with the position spelled as two scalars.
    pub fn new_pipe(width: i64, height: i64, x: i64, y: i64, scroll: i64) -> (p: PipeEntity)
        requires
            0 <= width,
            0 <= height,
            in_range(x as int),
            in_range(y as int),
            in_range(scroll as int),
        ensures
            p == (PipeEntity {
                position: Point2 { x, y },
                width,
                height,
                scroller: Scroll { jump_distance: scroll },
                scoring_pipe: ScoringPipe::Dormant,
            }),
            p.wf(),
    {
        Self::new(width, height, (x, y), scroll)
    }

    /// The obstacle's bounding box in spec form.
    pub open spec fn rect_spec(self) -> Rect {
        Rect { x: self.position.x, y: self.position.y, w: self.width, h: self.height }
    }

    /// The obstacle's bounding box.
    pub fn get_rect(&self) -> (r: Rect)
        ensures
            r == self.rect_spec(),
    {
        Rect { x: self.position.x, y: self.position.y, w: self.width, h: self.height }
    }

    /// True when this obstacle would score on crossing the score line.
    pub fn is_ready_to_score(&self) -> (r: bool)
        ensures
            r == (self.scoring_pipe is ReadyToScore),
    {
        ScoringPipe::ReadyToScore == self.scoring_pipe
    }

    /// One movement tick: scroll leftward and recycle once fully off
    /// screen, drawing the recycle offset from the tracker. The relation to
    /// the old state is exact except for that draw, which lands in the
    /// tracker's band.
    pub fn update(&mut self, pipe_tracker: &mut PipeTracker, state: &PlayState, cfg: &Config)
        requires
            old(self).wf(),
            old(pipe_tracker).wf(),
            cfg.wf(),
        ensures
            final(self).wf(),
            final(pipe_tracker).wf(),
            final(pipe_tracker).lo == old(pipe_tracker).lo,
            final(pipe_tracker).hi == old(pipe_tracker).hi,
            pipe_moved_rel(
                *old(self),
                *final(self),
                *state,
                *cfg,
                old(pipe_tracker).lo as int,
                old(pipe_tracker).hi as int,
            ),
            final(self).position.y as int == sat64(
                old(self).position.y + (final(pipe_tracker).total - old(pipe_tracker).total),
            ) || (final(self).position.y == old(self).position.y && *final(pipe_tracker)
                == *old(pipe_tracker)),
    {
        if PlayState::StartScreen == *state {
            return ;
        }
        self.position.x = sat_add64(self.position.x, cfg.scroll_step);
        self.recycle_passed_pipes(pipe_tracker);
    }

    /// Recycles this obstacle if its right edge has fully left the screen:
    /// a fresh vertical offset from the tracker, the horizontal jump back
    /// to the right, and a `Scored` state made ready again.
    fn recycle_passed_pipes(&mut self, pipe_tracker: &mut PipeTracker)
        requires
            old(self).wf(),
            old(pipe_tracker).wf(),
        ensures
            final(self).wf(),
            final(pipe_tracker).wf(),
            final(pipe_tracker).lo == old(pipe_tracker).lo,
            final(pipe_tracker).hi == old(pipe_tracker).hi,
            old(self).position.x + old(self).width >= 0 ==> (*final(self) == *old(self)
                && *final(pipe_tracker) == *old(pipe_tracker)),
            old(self).position.x + old(self).width < 0 ==> ({
                &&& final(self).position.y as int == sat64(
                    old(self).position.y + (final(pipe_tracker).total - old(
                        pipe_tracker,
                    ).total),
                )
                &&& final(self).position.x as int == sat64(
                    old(self).position.x + old(self).scroller.jump_distance,
                )
                &&& final(self).width == old(self).width
                &&& final(self).height == old(self).height
                &&& final(self).scroller == old(self).scroller
                &&& final(self).scoring_pipe == (if old(self).scoring_pipe is Scored {
                    ScoringPipe::ReadyToScore
                } else {
                    old(self).scoring_pipe
                })
            }),
    {
        let right_pos: i128 = self.position.x as i128 + self.width as i128;
        if right_pos >= 0 {
            return ;
        }
        let diff = pipe_tracker.get_pipe_difference();
        self.position.y = sat_add64(self.position.y, diff);
        self.reset_scored_pipes();
        self.position.x = sat_add64(self.position.x, self.scroller.jump_distance);
    }

    /// Makes a `Scored` obstacle eligible again; recycling is the only
    /// caller.
    fn reset_scored_pipes(&mut self)
        ensures
            *final(self) == (PipeEntity {
                scoring_pipe: if old(self).scoring_pipe is Scored {
                    ScoringPipe::ReadyToScore
                } else {
                    old(self).scoring_pipe
                },
                ..*old(self)
            }),
    {
        if self.scoring_pipe == ScoringPipe::Scored {
            self.scoring_pipe = ScoringPipe::ReadyToScore;
        }
    }

    /// The crossing check: reports (and records) a score exactly when this
    /// obstacle is past the score line, still `ReadyToScore`, and play is
    /// active.
    pub fn set_scored(&mut self, play_state: &PlayState, cfg: &Config) -> (r: bool)
        ensures
            (*final(self), r) == set_scored_spec(*old(self), *play_state, *cfg),
            final(self).wf() == old(self).wf(),
    {
        if self.position.x > cfg.score_line {
            return false;
        }
        if self.is_ready_to_score() && play_state.is_playing() {
            self.scoring_pipe = ScoringPipe::Scored;
            return true;
        }
        false
    }
}

/// Between two consecutive recycles an obstacle scores at most once: a
/// crossing check that reports a score leaves the obstacle `Scored`, and on
/// a `Scored` obstacle every later crossing check reports nothing and
/// changes nothing, whatever the play state.
pub proof fn lemma_score_at_most_once(p: PipeEntity, st1: PlayState, st2: PlayState, cfg: Config)
    ensures
        set_scored_spec(p, st1, cfg).1 ==> set_scored_spec(p, st1, cfg).0.scoring_pipe is Scored,
        p.scoring_pipe is Scored ==> set_scored_spec(p, st2, cfg) == (p, false),
        set_scored_spec(p, st1, cfg).1 ==> !set_scored_spec(
            set_scored_spec(p, st1, cfg).0,
            st2,
            cfg,
        ).1,
{
}

/// Movement without a recycle never changes an obstacle's scoring state,
/// and a recycle never makes a dormant obstacle eligible: only `Scored`
/// returns to `ReadyToScore`.
pub proof fn lemma_movement_preserves_scoring(
    pre: PipeEntity,
    post: PipeEntity,
    st: PlayState,
    cfg: Config,
    lo: int,
    hi: int,
)
    requires
        pipe_moved_rel(pre, post, st, cfg, lo, hi),
    ensures
        pre.scoring_pipe is Dormant ==> post.scoring_pipe is Dormant,
        post.scoring_pipe is Scored ==> pre.scoring_pipe is Scored,
        sat64(pre.position.x + cfg.scroll_step) + pre.width >= 0 || st is StartScreen
            ==> post.scoring_pipe == pre.scoring_pipe,
{
}

} // verus!
