use flappy_core::bird::PlayerEntity;
use flappy_core::config::Config;
use flappy_core::entity::{PipeEntity, PlayState, ScoringPipe};
use flappy_core::game_state::{hits_ground, GameState};
use flappy_core::pipe::PipeTracker;
use flappy_core::rect::Rect;

fn standard() -> Config {
    Config::standard()
}

fn fixed_tracker(value: i64, start: i64) -> PipeTracker {
    PipeTracker::new(value, value, start)
}

#[test]
fn gravity_tick_at_rest() {
    // At rest with gravity on, one tick of one time unit adds exactly the
    // gravity constant to the vertical velocity, and the position follows.
    let cfg = standard();
    let mut p = PlayerEntity::new(cfg.player_w, cfg.player_h, (400, 0));
    let st = PlayState::Play;
    let new_state = p.update(1, false, &st, &cfg);
    assert_eq!(new_state, PlayState::Play);
    assert_eq!(p.physics.velocity.y, cfg.gravity);
    assert_eq!(p.physics.velocity.x, 0);
    assert_eq!(p.position.y, cfg.gravity);
    assert_eq!(p.position.x, 400);
}

#[test]
fn zero_elapsed_is_minimal_tick() {
    // A nonpositive elapsed time is clamped to the minimal unit instead of
    // dividing by zero: the tick behaves exactly like elapsed_time = 1.
    let cfg = standard();
    let mut a = PlayerEntity::new(cfg.player_w, cfg.player_h, (400, 0));
    let mut b = PlayerEntity::new(cfg.player_w, cfg.player_h, (400, 0));
    let st = PlayState::Play;
    a.update(0, false, &st, &cfg);
    b.update(1, false, &st, &cfg);
    assert_eq!(a, b);
}

#[test]
fn screen_top_clamp() {
    // A jump right at the screen top cannot push the entity above it.
    let cfg = standard();
    let mut p = PlayerEntity::new(cfg.player_w, cfg.player_h, (400, cfg.screen_top));
    let st = PlayState::Play;
    p.update(1, true, &st, &cfg);
    assert_eq!(p.position.y, cfg.screen_top);
    // The clamp does not touch the velocity (no bounce).
    assert_eq!(p.physics.velocity.y, -cfg.jump_impulse - cfg.jump_accel);
}

#[test]
fn jump_impulse_is_debounced() {
    // Holding the jump input across consecutive ticks fires exactly one
    // impulse; a release restores the debounce flag.
    let cfg = standard();
    let mut p = PlayerEntity::new(cfg.player_w, cfg.player_h, (0, 0));
    let st = PlayState::Play;

    p.update(1, true, &st, &cfg);
    // Impulse: velocity set to the upward impulse, then one step of the
    // upward jump acceleration.
    assert_eq!(p.physics.velocity.y, -25 - 2);
    assert_eq!(p.position.y, -27);
    assert!(!p.can_jump);

    p.update(1, true, &st, &cfg);
    // Still held: no second impulse, gravity pulls the velocity back up.
    assert_eq!(p.physics.velocity.y, -27 + 2);
    assert_eq!(p.position.y, -27 - 25);
    assert!(!p.can_jump);

    p.update(1, false, &st, &cfg);
    // Observed release: the flag is restored.
    assert!(p.can_jump);
}

#[test]
fn start_screen_auto_jump() {
    // On the start screen the entity auto-jumps once below the auto-jump
    // height, without leaving the start screen.
    let cfg = standard();
    let mut p = PlayerEntity::new(cfg.player_w, cfg.player_h, (0, cfg.auto_jump_y + 1));
    let st = PlayState::StartScreen;
    let new_state = p.update(1, false, &st, &cfg);
    assert_eq!(new_state, PlayState::StartScreen);
    assert_eq!(p.physics.velocity.y, -cfg.jump_impulse - cfg.jump_accel);
}

#[test]
fn play_state_queries() {
    let mut st = PlayState::StartScreen;
    assert!(!st.is_playing());
    assert!(st.is_not_dead());
    st = PlayState::Play;
    assert!(st.is_playing());
    assert!(st.is_not_dead());
    st.set_dead(42);
    assert_eq!(st, PlayState::Dead { time: 42 });
    assert!(!st.is_playing());
    assert!(!st.is_not_dead());
}

#[test]
fn overlap_is_symmetric_and_exclusive() {
    let a = Rect { x: 0, y: 0, w: 10, h: 10 };
    let b = Rect { x: 5, y: 5, w: 10, h: 10 };
    let c = Rect { x: 10, y: 0, w: 10, h: 10 };
    assert!(a.overlaps(&b));
    assert!(b.overlaps(&a));
    // Rectangles sharing only an edge do not overlap, in either order.
    assert!(!a.overlaps(&c));
    assert!(!c.overlaps(&a));
}

#[test]
fn player_pipe_overlap_both_orders() {
    let cfg = standard();
    let player = PlayerEntity::new(cfg.player_w, cfg.player_h, (400, 0));
    let touching = PipeEntity::new(100, 2000, (450, -50), 1000);
    let apart = PipeEntity::new(100, 2000, (4000, -50), 1000);
    assert!(player.overlaps(&touching));
    assert!(!player.overlaps(&apart));
    let pr = player.get_bounds();
    assert_eq!(touching.get_rect().overlaps(&pr), pr.overlaps(&touching.get_rect()));
}

#[test]
fn scores_once_at_the_line() {
    // An obstacle exactly at the score line scores exactly once; without a
    // recycle the next check reports nothing.
    let cfg = standard();
    let mut pipe = PipeEntity::new(100, 2000, (cfg.score_line, 500), 1000);
    pipe.scoring_pipe = ScoringPipe::ReadyToScore;
    let st = PlayState::Play;
    assert!(pipe.set_scored(&st, &cfg));
    assert_eq!(pipe.scoring_pipe, ScoringPipe::Scored);
    assert!(!pipe.set_scored(&st, &cfg));
    assert_eq!(pipe.scoring_pipe, ScoringPipe::Scored);
}

#[test]
fn no_score_before_the_line_or_outside_play() {
    let cfg = standard();
    let mut early = PipeEntity::new(100, 2000, (cfg.score_line + 1, 500), 1000);
    early.scoring_pipe = ScoringPipe::ReadyToScore;
    assert!(!early.set_scored(&PlayState::Play, &cfg));
    assert_eq!(early.scoring_pipe, ScoringPipe::ReadyToScore);

    let mut paused = PipeEntity::new(100, 2000, (cfg.score_line, 500), 1000);
    paused.scoring_pipe = ScoringPipe::ReadyToScore;
    assert!(!paused.set_scored(&PlayState::StartScreen, &cfg));
    assert!(!paused.set_scored(&PlayState::Dead { time: 3 }, &cfg));
    assert_eq!(paused.scoring_pipe, ScoringPipe::ReadyToScore);
}

#[test]
fn recycle_off_screen_pipe() {
    // An obstacle whose right edge is at -1 recycles on its next advance:
    // back to the right by its jump distance, a fresh offset from the
    // tracker, and a Scored state made ready again.
    let cfg = standard();
    let mut tracker = fixed_tracker(50, 0);
    let mut pipe = PipeEntity::new(100, 2000, (-101, 7), 5000);
    pipe.scoring_pipe = ScoringPipe::Scored;
    assert_eq!(pipe.position.x + pipe.width, -1);
    let st = PlayState::Play;
    pipe.update(&mut tracker, &st, &cfg);
    // Moved by the scroll step, then jumped right by the pool span.
    assert_eq!(pipe.position.x, -101 + cfg.scroll_step + 5000);
    // The collapsed tracker band pins the drawn offset completely.
    assert_eq!(pipe.position.y, 7 + 50);
    assert_eq!(pipe.scoring_pipe, ScoringPipe::ReadyToScore);
    assert_eq!(tracker.total, 50);
}

#[test]
fn on_screen_pipe_just_scrolls() {
    let cfg = standard();
    let mut tracker = fixed_tracker(50, 0);
    let mut pipe = PipeEntity::new(100, 2000, (300, 7), 5000);
    pipe.scoring_pipe = ScoringPipe::Scored;
    pipe.update(&mut tracker, &PlayState::Play, &cfg);
    assert_eq!(pipe.position.x, 300 + cfg.scroll_step);
    assert_eq!(pipe.position.y, 7);
    assert_eq!(pipe.scoring_pipe, ScoringPipe::Scored);
    assert_eq!(tracker.total, 0);
}

#[test]
fn pipes_hold_still_on_start_screen() {
    let cfg = standard();
    let mut tracker = fixed_tracker(50, 0);
    let mut pipe = PipeEntity::new(100, 2000, (-101, 7), 5000);
    let before = pipe;
    pipe.update(&mut tracker, &PlayState::StartScreen, &cfg);
    assert_eq!(pipe, before);
}

#[test]
fn tracker_stays_in_band() {
    let mut tracker = PipeTracker::new(-300, 300, 0);
    for _ in 0..50 {
        let d = tracker.get_pipe_difference();
        assert!(tracker.total >= -300 && tracker.total <= 300);
        assert!(d >= -600 && d <= 600);
    }
}

#[test]
fn tracker_collapsed_band_is_deterministic() {
    let mut tracker = fixed_tracker(5, 0);
    assert_eq!(tracker.get_pipe_difference(), 5);
    assert_eq!(tracker.total, 5);
    assert_eq!(tracker.get_pipe_difference(), 0);
    assert_eq!(tracker.total, 5);
}

#[test]
fn ground_contact_threshold() {
    let cfg = standard();
    let mut p = PlayerEntity::new(cfg.player_w, cfg.player_h, (0, cfg.ground_y));
    assert!(!hits_ground(&p, &cfg));
    p.position.y = cfg.ground_y + 1;
    assert!(hits_ground(&p, &cfg));
}

#[test]
fn standard_config_values() {
    let cfg = standard();
    assert_eq!(cfg.gravity, 2);
    assert_eq!(cfg.jump_impulse, 25);
    assert_eq!(cfg.scroll_step, -10);
    assert_eq!(cfg.screen_top, -160);
    assert_eq!(cfg.ground_y, 1350);
    assert_eq!(cfg.score_line, 200);
}

#[test]
fn new_session_layout() {
    let cfg = standard();
    let g = GameState::new(cfg, 3, 800, 500, 100, 2000, fixed_tracker(50, 0));
    assert_eq!(g.play_state, PlayState::StartScreen);
    assert_eq!(g.score, 0);
    assert_eq!(g.best_score, 0);
    assert_eq!(g.pipes.len(), 3);
    for (i, p) in g.pipes.iter().enumerate() {
        assert_eq!(p.position.x, 800 + i as i64 * 500);
        assert_eq!(p.position.y, 0);
        assert_eq!(p.width, 100);
        assert_eq!(p.height, 2000);
        assert_eq!(p.scroller.jump_distance, 3 * 500);
        assert_eq!(p.scoring_pipe, ScoringPipe::ReadyToScore);
    }
    assert_eq!(g.player.position.x, cfg.player_start_x);
    assert_eq!(g.player.position.y, cfg.player_start_y);
}

#[test]
fn began_fires_once_on_first_jump() {
    let cfg = standard();
    let mut g = GameState::new(cfg, 1, 5000, 0, 100, 2000, fixed_tracker(50, 0));
    let quiet = g.update(1, false, 0);
    assert!(!quiet.began);
    assert_eq!(g.play_state, PlayState::StartScreen);

    let ev = g.update(1, true, 0);
    assert!(ev.began);
    assert!(!ev.collided);
    assert_eq!(ev.scored, 0);
    assert_eq!(g.play_state, PlayState::Play);

    let again = g.update(1, true, 0);
    assert!(!again.began);
}

#[test]
fn collision_terminates_once_even_with_two_overlaps() {
    // Two obstacles overlap the entity on the same tick: the session dies
    // at the given timestamp and a single collision event fires.
    let cfg = standard();
    let mut g = GameState::new(cfg, 2, 410, 0, 300, 2000, fixed_tracker(50, 0));
    g.play_state = PlayState::Play;
    g.player.position.y = 0;
    let ev = g.update(1, false, 7);
    assert!(ev.collided);
    assert!(!ev.began);
    assert_eq!(ev.scored, 0);
    assert_eq!(g.play_state, PlayState::Dead { time: 7 });

    // Dead is terminal: nothing further happens without a reset.
    let after = g.update(1, true, 9);
    assert!(!after.collided);
    assert!(!after.began);
    assert_eq!(after.scored, 0);
    assert_eq!(g.play_state, PlayState::Dead { time: 7 });
}

#[test]
fn ground_contact_terminates() {
    let cfg = standard();
    let mut g = GameState::new(cfg, 1, 5000, 0, 100, 2000, fixed_tracker(50, 0));
    g.play_state = PlayState::Play;
    g.player.position.y = cfg.ground_y + 200;
    let ev = g.update(1, false, 11);
    assert!(ev.collided);
    assert!(matches!(g.play_state, PlayState::Dead { time: 11 }));
}

#[test]
fn session_scores_each_pass_once() {
    // A ready obstacle crossing the score line scores exactly one point;
    // the next tick it is already Scored and nothing fires.
    let cfg = standard();
    let mut g = GameState::new(cfg, 1, cfg.score_line + 5, 0, 100, 2000, fixed_tracker(50, 0));
    g.play_state = PlayState::Play;
    let ev = g.update(1, false, 0);
    assert_eq!(ev.scored, 1);
    assert_eq!(g.score, 1);
    assert_eq!(g.best_score, 1);
    let ev2 = g.update(1, false, 0);
    assert_eq!(ev2.scored, 0);
    assert_eq!(g.score, 1);
}

#[test]
fn pool_size_invariant_across_recycles_and_reset() {
    // Recycling repositions in place: the pool size never changes, however
    // many recycles happen, and a reset rebuilds the same-sized pool.
    let cfg = standard();
    let mut g = GameState::new(cfg, 4, 30, 110, 100, 2000, fixed_tracker(50, 0));
    g.play_state = PlayState::Play;
    for _ in 0..200 {
        g.update(1, false, 0);
        assert_eq!(g.pipes.len(), 4);
    }
    g.reset();
    assert_eq!(g.pipes.len(), 4);
}

#[test]
fn reset_preserves_best_score_only() {
    let cfg = standard();
    let mut g = GameState::new(cfg, 1, cfg.score_line + 5, 0, 100, 2000, fixed_tracker(50, 0));
    g.play_state = PlayState::Play;
    g.update(1, false, 0);
    assert_eq!(g.score, 1);
    g.play_state = PlayState::Dead { time: 3 };
    g.reset();
    assert_eq!(g.score, 0);
    assert_eq!(g.best_score, 1);
    assert_eq!(g.play_state, PlayState::StartScreen);
    assert_eq!(g.player.position.y, cfg.player_start_y);
    assert_eq!(g.pipes[0].position.x, cfg.score_line + 5);
    assert_eq!(g.pipes[0].scoring_pipe, ScoringPipe::ReadyToScore);
}
