//! End-to-end runs of the game state machine: a hit scoring points, the
//! loss reset, the wave respawn, and the final win.

use invaders::NUM_COLS;
use invaders::NUM_ROWS;
use invaders::PLAYER_SPRITE;
use invaders::game::Game;
use invaders::game::InputEvent;
use invaders::invaders::GRID_COLS;
use invaders::invaders::GRID_ROWS;
use invaders::invaders::INIT_OFFSET_X;
use invaders::invaders::INIT_OFFSET_Y;
use invaders::invaders::Invaders;

fn alive_count(inv: &Invaders) -> usize {
    inv.alive.iter().filter(|a| **a).count()
}

/// Start a fresh game and leave the menu by confirming the first option.
fn playing_game() -> Game {
    let mut g = Game::new();
    let quit = g.handle_menu_input(InputEvent::Confirm);
    assert!(!quit);
    assert!(!g.in_menu);
    g
}

#[test]
fn menu_quit_option_exits() {
    let mut g = Game::new();
    g.handle_menu_input(InputEvent::Down);
    assert_eq!(g.menu.selection, 1);
    let quit = g.handle_menu_input(InputEvent::Confirm);
    assert!(quit);
    assert!(g.in_menu);
}

#[test]
fn scenario_fired_shot_scores_one_hit() {
    let mut g = playing_game();
    let out = g.handle_play_input(InputEvent::Confirm);
    assert!(out.fired);
    let full = GRID_ROWS * GRID_COLS;
    let mut hit_tick = None;
    for tick in 0..100 {
        let ev = g.tick(50);
        assert!(!ev.won && !ev.lost);
        if ev.hits > 0 {
            assert_eq!(ev.hits, 1);
            hit_tick = Some(tick);
            break;
        }
    }
    assert!(hit_tick.is_some());
    // Exactly one enemy cell died and scored its points.
    assert_eq!(alive_count(&g.invaders), full - 1);
    assert_eq!(g.score.count, 10);
    // The projectile is in its exploding state, and gone one tick later.
    assert!(g.player.shot.as_ref().unwrap().exploding);
    let ev = g.tick(50);
    assert_eq!(ev.hits, 0);
    assert!(g.player.shot.is_none());
    assert_eq!(alive_count(&g.invaders), full - 1);
}

#[test]
fn scenario_formation_reaches_player_row() {
    let mut g = playing_game();
    g.player.x = 0;
    g.score.count = 30;
    // Drop the formation to the row just above the loss line.
    g.invaders.offset_y = 16;
    let ev = g.tick(1);
    assert!(ev.lost);
    assert!(!ev.won);
    // Back in the menu with a fresh player and formation...
    assert!(g.in_menu);
    assert_eq!(g.player.x, NUM_COLS / 2);
    assert!(g.player.shot.is_none());
    assert_eq!(alive_count(&g.invaders), GRID_ROWS * GRID_COLS);
    assert_eq!(g.invaders.offset_x, INIT_OFFSET_X);
    assert_eq!(g.invaders.offset_y, INIT_OFFSET_Y);
    // ...while score and level persist.
    assert_eq!(g.score.count, 30);
    assert_eq!(g.level.level, 1);
}

#[test]
fn scenario_last_kill_below_max_spawns_new_wave() {
    let mut g = playing_game();
    // A single surviving enemy cell right above the player's cell.
    g.invaders.alive = vec![false; GRID_ROWS * GRID_COLS];
    g.invaders.alive[3 * GRID_COLS + 9] = true;
    g.invaders.offset_x = 11;
    g.invaders.offset_y = 15;
    let out = g.handle_play_input(InputEvent::Confirm);
    assert!(out.fired);
    // The fresh projectile sits at (player.x, 18) == (20, 18): a hit at once.
    let ev = g.tick(0);
    assert_eq!(ev.hits, 1);
    assert!(!ev.won);
    assert!(!ev.lost);
    // A fresh, faster wave spawned at the initial density and position.
    assert_eq!(g.level.level, 2);
    assert_eq!(alive_count(&g.invaders), GRID_ROWS * GRID_COLS);
    assert_eq!(g.invaders.offset_x, INIT_OFFSET_X);
    assert_eq!(g.invaders.offset_y, INIT_OFFSET_Y);
    assert_eq!(g.invaders.period_ms, Invaders::period_for_level(2));
    // Player and score persist.
    assert!(!g.in_menu);
    assert_eq!(g.player.x, NUM_COLS / 2);
    assert_eq!(g.score.count, 10);
}

#[test]
fn scenario_last_kill_at_max_level_wins() {
    let mut g = playing_game();
    g.level.level = 3;
    g.invaders.alive = vec![false; GRID_ROWS * GRID_COLS];
    g.invaders.alive[3 * GRID_COLS + 9] = true;
    g.invaders.offset_x = 11;
    g.invaders.offset_y = 15;
    let out = g.handle_play_input(InputEvent::Confirm);
    assert!(out.fired);
    let ev = g.tick(0);
    assert_eq!(ev.hits, 1);
    assert!(ev.won);
    assert!(!ev.lost);
    // No new formation: the game is over.
    assert_eq!(alive_count(&g.invaders), 0);
    assert_eq!(g.level.level, 3);
    assert_eq!(g.score.count, 10);
}

#[test]
fn quit_input_resets_to_menu() {
    let mut g = playing_game();
    g.player.x = 5;
    let out = g.handle_play_input(InputEvent::Quit);
    assert!(out.quit_to_menu);
    assert!(g.in_menu);
    assert_eq!(g.player.x, NUM_COLS / 2);
}

#[test]
fn rendered_frame_shows_player_and_score() {
    let g = playing_game();
    let f = g.render_frame();
    assert_eq!(f.get(g.player.x, NUM_ROWS - 1), PLAYER_SPRITE);
    // "SCORE 00000" in the top row.
    assert_eq!(f.get(1, 0), 'S');
    assert_eq!(f.get(7, 0), '0');
    assert_eq!(f.get(11, 0), '0');
    // "LEVEL 1" in the top row.
    assert_eq!(f.get(28, 0), 'L');
    assert_eq!(f.get(34, 0), '1');
    // The fresh formation's top-left cell, in its first-half-period glyph.
    assert_eq!(f.get(11, 1), 'x');
}

#[test]
fn rendered_frame_shows_projectile() {
    let mut g = playing_game();
    let out = g.handle_play_input(InputEvent::Confirm);
    assert!(out.fired);
    let f = g.render_frame();
    assert_eq!(f.get(g.player.x, NUM_ROWS - 2), '|');
}

#[test]
fn rendered_menu_marks_selection() {
    let mut g = Game::new();
    let f = g.render_frame();
    assert_eq!(f.get(13, 8), '>');
    assert_eq!(f.get(15, 8), 'N');
    g.handle_menu_input(InputEvent::Down);
    let f2 = g.render_frame();
    assert_eq!(f2.get(13, 9), '>');
    assert_eq!(f2.get(13, 8), ' ');
}

#[test]
fn alive_count_never_grows_within_a_wave() {
    let mut g = playing_game();
    let mut prev = alive_count(&g.invaders);
    let mut fired_ticks = 0;
    for k in 0..400 {
        if g.player.shot.is_none() {
            let out = g.handle_play_input(InputEvent::Confirm);
            if out.fired {
                fired_ticks += 1;
            }
        }
        let ev = g.tick(37 + (k % 3));
        if ev.lost || g.level.level > 1 {
            break;
        }
        let now = alive_count(&g.invaders);
        assert!(now <= prev);
        assert_eq!(now, prev - ev.hits as usize);
        prev = now;
    }
    assert!(fired_ticks > 0);
}
