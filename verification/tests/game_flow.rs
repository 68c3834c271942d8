use reaction_arena::game::Game;
use reaction_arena::geometry::{Viewport, WorldPos};
use reaction_arena::state::GameState;

const VP: Viewport = Viewport { width_px: 800, height_px: 600 };

#[test]
fn fresh_game_sits_in_the_menu_with_no_target() {
    let g = Game::new(0);
    assert_eq!(g.state, GameState::Menu);
    assert!(g.current_target().is_none());
    assert_eq!(g.timer.duration_micros, 2_000_000);
    assert_eq!(g.timer.elapsed_micros, 0);
}

#[test]
fn inactive_game_never_spawns_or_ticks() {
    let mut g = Game::new(3);
    for _ in 0..10 {
        assert!(!g.frame(10_000_000, Some(VP), 1));
    }
    assert_eq!(g.timer.elapsed_micros, 0);
    assert!(g.current_target().is_none());
}

#[test]
fn inactive_game_registers_no_hits() {
    let mut g = Game::new(3);
    g.apply_signals(true, false);
    assert!(g.frame(2_000_000, Some(VP), 100));
    let pos = g.current_target().unwrap().pos;
    g.apply_signals(false, true);
    assert!(g.click(Some(pos), 200).is_none());
    assert!(g.current_target().is_some());
}

#[test]
fn spawning_replaces_the_previous_target() {
    let mut g = Game::new(11);
    g.apply_signals(true, false);
    assert!(g.frame(2_000_000, Some(VP), 100));
    let first = g.current_target().unwrap();
    assert_eq!(first.spawned_at_micros, 100);
    assert!(g.frame(2_000_000, Some(VP), 200));
    let second = g.current_target().unwrap();
    assert_eq!(second.spawned_at_micros, 200);
}

#[test]
fn missing_viewport_defers_the_spawn() {
    let mut g = Game::new(5);
    g.apply_signals(true, false);
    assert!(!g.frame(3_000_000, None, 50));
    assert_eq!(g.timer.elapsed_micros, 0);
    assert!(g.current_target().is_none());
    assert!(g.frame(2_000_000, Some(VP), 60));
    assert!(g.current_target().is_some());
}

#[test]
fn missing_camera_skips_hit_testing() {
    let mut g = Game::new(5);
    g.apply_signals(true, false);
    assert!(g.frame(2_000_000, Some(VP), 50));
    let pos = g.current_target().unwrap().pos;
    assert!(g.click(None, 60).is_none());
    assert!(g.current_target().is_some());
    assert!(g.click(Some(pos), 60).is_some());
}

#[test]
fn clicks_with_no_live_target_are_ignored() {
    let mut g = Game::new(9);
    g.apply_signals(true, false);
    assert!(g.click(Some(WorldPos { x: 0, y: 0 }), 10).is_none());
    assert_eq!(g.timer.duration_micros, 2_000_000);
}

#[test]
fn a_miss_changes_nothing() {
    let mut g = Game::new(13);
    g.apply_signals(true, false);
    assert!(g.frame(2_000_000, Some(VP), 100));
    let t = g.current_target().unwrap();
    let outside = WorldPos { x: t.pos.x + 26, y: t.pos.y };
    assert!(g.click(Some(outside), 500_000).is_none());
    assert_eq!(g.current_target(), Some(t));
    assert_eq!(g.timer.duration_micros, 2_000_000);
}

#[test]
fn stalled_frame_scenario_spawns_once_then_corner_hit_tightens_the_interval() {
    let mut g = Game::new(21);
    g.apply_signals(true, false);

    // One stalled 2.5 s frame while active with no target: one spawn,
    // accumulated time back to zero.
    assert!(g.frame(2_500_000, Some(VP), 1_000_000));
    assert_eq!(g.timer.elapsed_micros, 0);
    let t = g.current_target().unwrap();
    assert_eq!(t.spawned_at_micros, 1_000_000);

    // A click on the exact corner of the target is a hit; the interval
    // tightens from 2.0 s to 1.98 s and a full fresh interval begins.
    g.frame(400_000, Some(VP), 1_400_000);
    let corner = WorldPos { x: t.pos.x + 25, y: t.pos.y - 25 };
    let hit = g.click(Some(corner), 1_400_000).expect("corner click must hit");
    assert_eq!(hit.reaction_micros, 400_000);
    assert_eq!(g.timer.duration_micros, 1_980_000);
    assert_eq!(g.timer.elapsed_micros, 0);
    assert!(g.current_target().is_none());

    // Deactivate: five more seconds of frame time spawn nothing.
    g.apply_signals(false, true);
    for i in 0..5u64 {
        assert!(!g.frame(1_000_000, Some(VP), 2_000_000 + i));
    }
    assert!(g.current_target().is_none());
}

#[test]
fn consecutive_hits_compound_the_shrink() {
    let mut g = Game::new(2);
    g.apply_signals(true, false);
    let mut now: u64 = 0;
    let mut expected: u64 = 2_000_000;
    for _ in 0..10 {
        let dt = g.timer.duration_micros - g.timer.elapsed_micros;
        now += dt;
        assert!(g.frame(dt, Some(VP), now));
        let pos = g.current_target().unwrap().pos;
        now += 1_000;
        assert!(g.click(Some(pos), now).is_some());
        expected = expected * 99 / 100;
        assert_eq!(g.timer.duration_micros, expected);
        assert_eq!(g.timer.elapsed_micros, 0);
    }
    assert_eq!(g.timer.duration_micros, 1_808_762);
}
