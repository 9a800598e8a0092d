//! The orchestrator: one session of the game. Per tick it advances the
//! player (possibly leaving the start screen), moves and recycles every
//! obstacle, then runs the scoring and collision pass that increments the
//! score and, on the first hit while playing, terminates the session. The
//! obstacle pool is fixed at construction and only ever recycled in place.

use crate::bird::{player_step, PlayerEntity};
use crate::config::Config;
use crate::entity::{pipe_moved_rel, set_scored_spec, PipeEntity, PlayState, Scroll, ScoringPipe};
use crate::pipe::PipeTracker;
use crate::rect::{rects_overlap, Point2};
use vstd::prelude::*;

verus! {

/// Largest obstacle pool a session will hold.
pub const MAX_POOL: usize = 1024;

/// Largest pool spacing and obstacle dimension, so pool layout arithmetic
/// stays far from overflow.
pub const MAX_SPACING: i64 = 1048576;

/// Largest magnitude of the pool's leftmost spawn position.
pub const MAX_START: i64 = 1099511627776;

/// The discrete events one tick reports to the outside (audio and UI).
#[derive(Debug, Clone, Copy, PartialEq, Eq, Structural)]
pub struct TickEvents {
    /// The session left the start screen this tick.
    pub began: bool,
    /// How many obstacles newly scored this tick.
    pub scored: u64,
    /// The session terminated this tick.
    pub collided: bool,
}

/// Saturation into the range of a 64-bit score counter.
pub open spec fn sat_u64(v: int) -> int {
    if v > u64::MAX as int {
        u64::MAX as int
    } else {
        v
    }
}

/// Ground contact: the entity's vertical position is past the fixed ground
/// threshold.
pub open spec fn hits_ground_spec(player: PlayerEntity, cfg: Config) -> bool {
    player.position.y > cfg.ground_y
}

/// Ground-contact test for the controlled entity.
pub fn hits_ground(player: &PlayerEntity, cfg: &Config) -> (r: bool)
    ensures
        r == hits_ground_spec(*player, *cfg),
{
    player.position.y > cfg.ground_y
}

/// Whether this obstacle ends the session this tick: a bounding-box overlap
/// or ground contact, observed while play is active.
pub open spec fn collision_this_pipe(
    player: PlayerEntity,
    p: PipeEntity,
    st: PlayState,
    cfg: Config,
) -> bool {
    (rects_overlap(player.bounds_spec(), p.rect_spec()) || hits_ground_spec(player, cfg))
        && st is Play
}

/// The scoring-and-collision pass over the obstacles from index `i` on:
/// each obstacle in turn runs the crossing check against the play state as
/// it stands, then the collision check; the first collision while playing
/// turns the state to `Dead { time: now }`, after which no further scoring
/// or collision transitions occur. Returns the obstacles, the final state,
/// the number of new scores, and whether a collision fired.
pub open spec fn resolve_from(
    player: PlayerEntity,
    pipes: Seq<PipeEntity>,
    i: int,
    st: PlayState,
    now: u64,
    cfg: Config,
) -> (Seq<PipeEntity>, PlayState, nat, bool)
    decreases pipes.len() - i,
{
    if i < 0 || i >= pipes.len() {
        (pipes, st, 0, false)
    } else {
        let sc = set_scored_spec(pipes[i], st, cfg);
        let pipes1 = pipes.update(i, sc.0);
        let collide = collision_this_pipe(player, sc.0, st, cfg);
        let st1 = if collide {
            PlayState::Dead { time: now }
        } else {
            st
        };
        let rest = resolve_from(player, pipes1, i + 1, st1, now, cfg);
        (rest.0, rest.1, (if sc.1 {
            1nat
        } else {
            0nat
        }) + rest.2, collide || rest.3)
    }
}

/// The legal play-state edges one tick can take: stay put, leave the start
/// screen on a jump, or die at the recorded moment; a tick that both leaves
/// the start screen and collides composes the last two.
pub open spec fn phase_edges_ok(pre: PlayState, post: PlayState, now: u64) -> bool {
    ||| post == pre
    ||| (pre is StartScreen && post is Play)
    ||| ((pre is Play || pre is StartScreen) && post == (PlayState::Dead { time: now }))
}

/// The obstacle at index `i` of a pool's spawn layout: evenly spaced from
/// the leftmost spawn position, ready to score, carrying the recycle jump
/// that spans the whole pool.
pub open spec fn initial_pipe(
    i: int,
    first_x: int,
    spacing: int,
    w: i64,
    h: i64,
    jump: i64,
) -> PipeEntity {
    PipeEntity {
        position: Point2 { x: (first_x + i * spacing) as i64, y: 0 as i64 },
        width: w,
        height: h,
        scroller: Scroll { jump_distance: jump },
        scoring_pipe: ScoringPipe::ReadyToScore,
    }
}

/// The freshly spawned controlled entity of a session.
pub open spec fn initial_player(cfg: Config) -> PlayerEntity {
    PlayerEntity {
        position: Point2 { x: cfg.player_start_x, y: cfg.player_start_y },
        width: cfg.player_w,
        height: cfg.player_h,
        can_jump: true,
        physics: crate::bird::Physics {
            velocity: crate::bird::zero_point(),
            acceleration: crate::bird::zero_point(),
            gravity: true,
        },
    }
}

/// One game session: play state, the controlled entity, the recycled
/// obstacle pool with its gap tracker, the scores, and the pool layout
/// remembered for resets.
pub struct GameState {
    pub config: Config,
    pub play_state: PlayState,
    pub player: PlayerEntity,
    pub pipes: Vec<PipeEntity>,
    pub pipe_tracker: PipeTracker,
    /// Score of the running session.
    pub score: u64,
    /// Best score over all sessions; never below `score`.
    pub best_score: u64,
    /// Leftmost spawn position of the pool layout.
    pub pool_first_x: i64,
    /// Horizontal spacing of the pool layout.
    pub pool_spacing: i64,
    /// Obstacle width of the pool layout.
    pub pipe_w: i64,
    /// Obstacle height of the pool layout.
    pub pipe_h: i64,
}

/// What one tick of a session guarantees, given the obstacle positions
/// `mid` as they stood between the movement pass and the scoring pass:
/// `mid` is the old pool moved (and possibly recycled) one step under the
/// state the player update produced, and everything after it — final pool,
/// final state, events and scores — is the deterministic scoring pass over
/// `mid`. Only the recycle offsets inside `mid` are random, and they stay
/// in the tracker band.
pub open spec fn mid_step_ok(
    pre: GameState,
    post: GameState,
    ev: TickEvents,
    jump_pressed: bool,
    elapsed: int,
    now: u64,
    mid: Seq<PipeEntity>,
) -> bool {
    let ps = player_step(pre.player, pre.play_state, jump_pressed, elapsed, pre.config);
    let r = resolve_from(ps.0, mid, 0, ps.1, now, pre.config);
    &&& mid.len() == pre.pipes@.len()
    &&& forall|i: int|
        0 <= i < mid.len() ==> pipe_moved_rel(
            pre.pipes@[i],
            #[trigger] mid[i],
            ps.1,
            pre.config,
            pre.pipe_tracker.lo as int,
            pre.pipe_tracker.hi as int,
        )
    &&& post.player == ps.0
    &&& ev.began == (pre.play_state is StartScreen && ps.1 is Play)
    &&& post.pipes@ == r.0
    &&& post.play_state == r.1
    &&& ev.scored == r.2
    &&& ev.collided == r.3
    &&& post.score as int == sat_u64(pre.score + r.2)
    &&& post.best_score == (if post.score > pre.best_score {
        post.score
    } else {
        pre.best_score
    })
}

/// The scoring pass only ever keeps the state or kills it at `now`; it
/// scores, collides and changes anything only while play is active; it
/// never changes the pool size; and it preserves obstacle well-formedness.
pub proof fn lemma_resolve_facts(
    player: PlayerEntity,
    pipes: Seq<PipeEntity>,
    i: int,
    st: PlayState,
    now: u64,
    cfg: Config,
)
    ensures
        ({
            let r = resolve_from(player, pipes, i, st, now, cfg);
            &&& r.0.len() == pipes.len()
            &&& r.1 == st || (st is Play && r.1 == (PlayState::Dead { time: now }))
            &&& r.3 == (st is Play && r.1 !is Play)
            &&& !(st is Play) ==> (r.0 == pipes && r.1 == st && r.2 == 0 && !r.3)
            &&& r.2 <= pipes.len() - i || r.2 == 0
            &&& forall|j: int|
                0 <= j < pipes.len() && (#[trigger] pipes[j]).wf() ==> r.0[j].wf()
        }),
    decreases pipes.len() - i,
{
    if 0 <= i < pipes.len() {
        let sc = set_scored_spec(pipes[i], st, cfg);
        let pipes1 = pipes.update(i, sc.0);
        let collide = collision_this_pipe(player, sc.0, st, cfg);
        let st1 = if collide {
            PlayState::Dead { time: now }
        } else {
            st
        };
        lemma_resolve_facts(player, pipes1, i + 1, st1, now, cfg);
        let r1 = resolve_from(player, pipes1, i + 1, st1, now, cfg);
        if !(st is Play) {
            assert(r1.0 == pipes1);
            assert(pipes1 =~= pipes);
        }
        assert forall|j: int|
            0 <= j < pipes.len() && (#[trigger] pipes[j]).wf() implies resolve_from(
            player,
            pipes,
            i,
            st,
            now,
            cfg,
        ).0[j].wf() by {
            assert(pipes1[j].wf());
            assert(r1.0[j].wf());
        }
    }
}

impl GameState {
    /// Well-formedness of a session.
    pub open spec fn wf(self) -> bool {
        &&& self.config.wf()
        &&& self.player.wf()
        &&& self.pipe_tracker.wf()
        &&& forall|i: int| 0 <= i < self.pipes@.len() ==> (#[trigger] self.pipes@[i]).wf()
        &&& self.score <= self.best_score
        &&& self.pipes@.len() <= MAX_POOL
        &&& 0 <= self.pool_spacing <= MAX_SPACING
        &&& -MAX_START <= self.pool_first_x <= MAX_START
        &&& 0 <= self.pipe_w <= MAX_SPACING
        &&& 0 <= self.pipe_h <= MAX_SPACING
    }

    /// A fresh session on the start screen: the player at its spawn
    /// position, a pool of `pool_size` obstacles evenly spaced from
    /// `first_x`, each sized `pipe_w` by `pipe_h` and ready to score, and
    /// the given gap tracker.
    pub fn new(
        config: Config,
        pool_size: usize,
        first_x: i64,
        spacing: i64,
        pipe_w: i64,
        pipe_h: i64,
        tracker: PipeTracker,
    ) -> (g: GameState)
        requires
            config.wf(),
            tracker.wf(),
            pool_size <= MAX_POOL,
            0 <= spacing <= MAX_SPACING,
            -MAX_START <= first_x <= MAX_START,
            0 <= pipe_w <= MAX_SPACING,
            0 <= pipe_h <= MAX_SPACING,
        ensures
            g.wf(),
            g.config == config,
            g.play_state is StartScreen,
            g.player == initial_player(config),
            g.score == 0,
            g.best_score == 0,
            g.pipe_tracker == tracker,
            g.pipes@.len() == pool_size,
            forall|i: int|
                0 <= i < pool_size ==> g.pipes@[i] == initial_pipe(
                    i,
                    first_x as int,
                    spacing as int,
                    pipe_w,
                    pipe_h,
                    ((pool_size * spacing) as i64),
                ),
            g.pool_first_x == first_x,
            g.pool_spacing == spacing,
            g.pipe_w == pipe_w,
            g.pipe_h == pipe_h,
    {
        let player = PlayerEntity::new(
            config.player_w,
            config.player_h,
            (config.player_start_x, config.player_start_y),
        );
        let pipes = build_pipes(pool_size, first_x, spacing, pipe_w, pipe_h);
        GameState {
            config,
            play_state: PlayState::StartScreen,
            player,
            pipes,
            pipe_tracker: tracker,
            score: 0,
            best_score: 0,
            pool_first_x: first_x,
            pool_spacing: spacing,
            pipe_w,
            pipe_h,
        }
    }

    /// External session reset, invoked after a death: folds the session
    /// score into the best score, then reinitializes the play state, the
    /// player and the whole pool to their spawn layout. The pool size, the
    /// configuration and the tracker are kept.
    pub fn reset(&mut self)
        requires
            old(self).wf(),
        ensures
            final(self).wf(),
            final(self).config == old(self).config,
            final(self).best_score == (if old(self).score > old(self).best_score {
                old(self).score
            } else {
                old(self).best_score
            }),
            final(self).score == 0,
            final(self).play_state is StartScreen,
            final(self).player == initial_player(old(self).config),
            final(self).pipe_tracker == old(self).pipe_tracker,
            final(self).pipes@.len() == old(self).pipes@.len(),
            forall|i: int|
                0 <= i < old(self).pipes@.len() ==> final(self).pipes@[i] == initial_pipe(
                    i,
                    old(self).pool_first_x as int,
                    old(self).pool_spacing as int,
                    old(self).pipe_w,
                    old(self).pipe_h,
                    ((old(self).pipes@.len() * old(self).pool_spacing) as i64),
                ),
    {
        if self.score > self.best_score {
            self.best_score = self.score;
        }
        self.score = 0;
        self.play_state = PlayState::StartScreen;
        self.player = PlayerEntity::new(
            self.config.player_w,
            self.config.player_h,
            (self.config.player_start_x, self.config.player_start_y),
        );
        let count = self.pipes.len();
        self.pipes = build_pipes(count, self.pool_first_x, self.pool_spacing, self.pipe_w, self.pipe_h);
    }
}

impl GameState {
    /// One tick of the session. In order: advance the player (possibly
    /// leaving the start screen on a jump), move and recycle every obstacle
    /// under the new state, then run the scoring and collision pass: each
    /// score event increments the session score (folding it into the best
    /// score), and the first collision or ground contact while playing
    /// terminates the session at `now`. Returns the tick's events; `began`
    /// and `collided` fire at most once however many obstacles are
    /// involved.
    pub fn update(&mut self, elapsed: i64, jump_pressed: bool, now: u64) -> (ev: TickEvents)
        requires
            old(self).wf(),
        ensures
            final(self).wf(),
            final(self).config == old(self).config,
            final(self).pipes@.len() == old(self).pipes@.len(),
            final(self).pipe_tracker.lo == old(self).pipe_tracker.lo,
            final(self).pipe_tracker.hi == old(self).pipe_tracker.hi,
            final(self).pool_first_x == old(self).pool_first_x,
            final(self).pool_spacing == old(self).pool_spacing,
            final(self).pipe_w == old(self).pipe_w,
            final(self).pipe_h == old(self).pipe_h,
            exists|mid: Seq<PipeEntity>|
                mid_step_ok(
                    *old(self),
                    *final(self),
                    ev,
                    jump_pressed,
                    elapsed as int,
                    now,
                    mid,
                ),
            phase_edges_ok(old(self).play_state, final(self).play_state, now),
            old(self).play_state is Dead ==> final(self).play_state == old(self).play_state,
            ev.collided == (final(self).play_state is Dead && !(old(self).play_state is Dead)),
            ev.collided ==> final(self).play_state == (PlayState::Dead { time: now }),
            old(self).play_state is Dead ==> ev == (TickEvents {
                began: false,
                scored: 0,
                collided: false,
            }) && final(self).score == old(self).score && final(self).best_score == old(
                self,
            ).best_score,
            final(self).score as int == sat_u64(old(self).score + ev.scored),
            ev.scored <= old(self).pipes@.len(),
            final(self).best_score == (if final(self).score > old(self).best_score {
                final(self).score
            } else {
                old(self).best_score
            }),
    {
        let ghost pre = *old(self);
        let cfg = self.config;

        // Advance the player; it reports the state as it stands after the
        // input, the only transition it can make being StartScreen -> Play.
        let state0 = self.play_state;
        let new_state = self.player.update(elapsed, jump_pressed, &state0, &cfg);
        let began = state0 == PlayState::StartScreen && new_state == PlayState::Play;
        self.play_state = new_state;
        let ghost st1 = new_state;
        let ghost pl1 = self.player;

        // Move and recycle every obstacle under the post-input state.
        let ghost pipes_pre = pre.pipes@;
        let n = self.pipes.len();
        let st_move = self.play_state;
        let mut i: usize = 0;
        while i < n
            invariant
                i <= n,
                n == self.pipes@.len(),
                pipes_pre.len() == n,
                cfg == pre.config,
                cfg.wf(),
                pre.wf(),
                pl1.wf(),
                st_move == st1,
                self.player == pl1,
                self.play_state == st1,
                self.config == pre.config,
                self.score == pre.score,
                self.best_score == pre.best_score,
                self.pool_first_x == pre.pool_first_x,
                self.pool_spacing == pre.pool_spacing,
                self.pipe_w == pre.pipe_w,
                self.pipe_h == pre.pipe_h,
                self.pipe_tracker.wf(),
                self.pipe_tracker.lo == pre.pipe_tracker.lo,
                self.pipe_tracker.hi == pre.pipe_tracker.hi,
                forall|j: int|
                    0 <= j < i ==> pipe_moved_rel(
                        pipes_pre[j],
                        #[trigger] self.pipes@[j],
                        st1,
                        cfg,
                        pre.pipe_tracker.lo as int,
                        pre.pipe_tracker.hi as int,
                    ),
                forall|j: int| i <= j < n ==> self.pipes@[j] == pipes_pre[j],
                forall|j: int| 0 <= j < n ==> (#[trigger] pipes_pre[j]).wf(),
                forall|j: int| 0 <= j < n ==> (#[trigger] self.pipes@[j]).wf(),
            decreases n - i,
        {
            let mut p = self.pipes[i];
            p.update(&mut self.pipe_tracker, &st_move, &cfg);
            self.pipes.set(i, p);
            i = i + 1;
        }
        let ghost mid = self.pipes@;
        let ghost tr1 = self.pipe_tracker;

        // The scoring and collision pass.
        let ghost full = resolve_from(pl1, mid, 0, st1, now, cfg);
        let mut scored_count: u64 = 0;
        let mut collided = false;
        let mut i2: usize = 0;
        while i2 < n
            invariant
                i2 <= n,
                n == self.pipes@.len(),
                mid.len() == n,
                cfg == pre.config,
                cfg.wf(),
                pre.wf(),
                pl1.wf(),
                self.player == pl1,
                self.config == pre.config,
                self.pipe_tracker == tr1,
                tr1.wf(),
                tr1.lo == pre.pipe_tracker.lo,
                tr1.hi == pre.pipe_tracker.hi,
                self.pool_first_x == pre.pool_first_x,
                self.pool_spacing == pre.pool_spacing,
                self.pipe_w == pre.pipe_w,
                self.pipe_h == pre.pipe_h,
                full == resolve_from(pl1, mid, 0, st1, now, cfg),
                ({
                    let r = resolve_from(
                        pl1,
                        self.pipes@,
                        i2 as int,
                        self.play_state,
                        now,
                        cfg,
                    );
                    &&& full.0 == r.0
                    &&& full.1 == r.1
                    &&& full.2 == scored_count + r.2
                    &&& full.3 == (collided || r.3)
                }),
                scored_count <= i2,
                self.score as int == sat_u64(pre.score + scored_count),
                pre.score <= pre.best_score,
                self.best_score == (if self.score > pre.best_score {
                    self.score
                } else {
                    pre.best_score
                }),
                self.score <= self.best_score,
                forall|j: int| 0 <= j < n ==> (#[trigger] self.pipes@[j]).wf(),
            decreases n - i2,
        {
            let ghost pipes_b = self.pipes@;
            let ghost st_b = self.play_state;
            let mut p = self.pipes[i2];
            let got = p.set_scored(&self.play_state, &cfg);
            self.pipes.set(i2, p);
            if got {
                scored_count = scored_count + 1;
                if self.score < u64::MAX {
                    self.score = self.score + 1;
                }
                if self.score > self.best_score {
                    self.best_score = self.score;
                }
            }
            let hit = (self.player.overlaps(&p) || hits_ground(&self.player, &cfg))
                && self.play_state.is_playing();
            if hit {
                self.play_state.set_dead(now);
                collided = true;
            }
            proof {
                let sc = set_scored_spec(pipes_b[i2 as int], st_b, cfg);
                assert(self.pipes@ == pipes_b.update(i2 as int, sc.0));
                let collide = collision_this_pipe(pl1, sc.0, st_b, cfg);
                assert(hit == collide);
                let r_b = resolve_from(pl1, pipes_b, i2 as int, st_b, now, cfg);
                let r_next = resolve_from(
                    pl1,
                    self.pipes@,
                    i2 as int + 1,
                    self.play_state,
                    now,
                    cfg,
                );
                assert(r_b == (
                    r_next.0,
                    r_next.1,
                    (if sc.1 {
                        1nat
                    } else {
                        0nat
                    }) + r_next.2,
                    collide || r_next.3,
                ));
            }
            i2 = i2 + 1;
        }

        let ev = TickEvents { began, scored: scored_count, collided };
        proof {
            lemma_resolve_facts(pl1, mid, 0, st1, now, cfg);
            assert(mid_step_ok(pre, *self, ev, jump_pressed, elapsed as int, now, mid));
        }
        ev
    }
}

/// Builds the spawn layout of an obstacle pool: `count` obstacles spaced
/// `spacing` apart starting at `first_x`, each carrying the whole pool's
/// span as its recycle jump.
fn build_pipes(count: usize, first_x: i64, spacing: i64, w: i64, h: i64) -> (v: Vec<PipeEntity>)
    requires
        count <= MAX_POOL,
        0 <= spacing <= MAX_SPACING,
        -MAX_START <= first_x <= MAX_START,
        0 <= w <= MAX_SPACING,
        0 <= h <= MAX_SPACING,
    ensures
        v@.len() == count,
        forall|i: int|
            0 <= i < count ==> v@[i] == initial_pipe(
                i,
                first_x as int,
                spacing as int,
                w,
                h,
                ((count * spacing) as i64),
            ),
        forall|i: int| 0 <= i < count ==> (#[trigger] v@[i]).wf(),
{
    proof {
        assert(0 <= count * spacing <= 1024 * 1048576) by (nonlinear_arith)
            requires
                0 <= count <= 1024,
                0 <= spacing <= 1048576,
        ;
    }
    let jump: i64 = (count as i64) * spacing;
    let mut v: Vec<PipeEntity> = Vec::new();
    let mut i: usize = 0;
    let mut x: i64 = first_x;
    while i < count
        invariant
            i <= count,
            count <= MAX_POOL,
            0 <= spacing <= MAX_SPACING,
            -MAX_START <= first_x <= MAX_START,
            0 <= w <= MAX_SPACING,
            0 <= h <= MAX_SPACING,
            jump == count * spacing,
            x as int == first_x + i * spacing,
            v@.len() == i,
            forall|j: int|
                0 <= j < i ==> v@[j] == initial_pipe(
                    j,
                    first_x as int,
                    spacing as int,
                    w,
                    h,
                    jump,
                ),
            forall|j: int| 0 <= j < i ==> (#[trigger] v@[j]).wf(),
        decreases count - i,
    {
        proof {
            assert(0 <= count * spacing <= 1024 * 1048576) by (nonlinear_arith)
                requires
                    0 <= count <= 1024,
                    0 <= spacing <= 1048576,
            ;
            assert(0 <= i * spacing <= count * spacing) by (nonlinear_arith)
                requires
                    0 <= i < count,
                    0 <= spacing,
            ;
            assert((i + 1) * spacing == i * spacing + spacing) by (nonlinear_arith);
            assert(0 <= (i + 1) * spacing <= count * spacing) by (nonlinear_arith)
                requires
                    0 <= i < count,
                    0 <= spacing,
            ;
        }
        v.push(
            PipeEntity {
                position: Point2 { x, y: 0 },
                width: w,
                height: h,
                scroller: Scroll { jump_distance: jump },
                scoring_pipe: ScoringPipe::ReadyToScore,
            },
        );
        x = x + spacing;
        i = i + 1;
    }
    v
}

} // verus!
