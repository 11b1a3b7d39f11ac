//! Entity-level behaviour: player firing policy, shot lifecycle, formation
//! movement and edge handling, score, level and menu bookkeeping.

use invaders::NUM_COLS;
use invaders::invaders::BASE_MOVE_PERIOD_MS;
use invaders::invaders::GRID_COLS;
use invaders::invaders::GRID_ROWS;
use invaders::invaders::INIT_OFFSET_X;
use invaders::invaders::INIT_OFFSET_Y;
use invaders::invaders::Invaders;
use invaders::level::Level;
use invaders::menu::Menu;
use invaders::player::PLAYER_COOLDOWN_MS;
use invaders::player::Player;
use invaders::score::Score;
use invaders::shot::Shot;

fn alive_count(inv: &Invaders) -> usize {
    inv.alive.iter().filter(|a| **a).count()
}

fn single_cell_formation(r: usize, c: usize, offset_x: i32, offset_y: i32) -> Invaders {
    let mut inv = Invaders::new();
    inv.alive = vec![false; GRID_ROWS * GRID_COLS];
    inv.alive[r * GRID_COLS + c] = true;
    inv.offset_x = offset_x;
    inv.offset_y = offset_y;
    inv
}

#[test]
fn shoot_spawns_single_projectile() {
    let mut p = Player::new();
    assert!(p.shoot());
    assert!(p.shot.is_some());
    // A second shot while one is live spawns nothing and returns false.
    let before = p.shot.clone();
    assert!(!p.shoot());
    assert_eq!(p.shot, before);
    assert_eq!(p.cooldown_ms, PLAYER_COOLDOWN_MS);
}

#[test]
fn shoot_waits_for_cooldown() {
    let mut p = Player::new();
    assert!(p.shoot());
    // Let the projectile fly off the top and disappear.
    for _ in 0..64 {
        p.update(50);
    }
    assert!(p.shot.is_none());
    p.cooldown_ms = 1;
    assert!(!p.shoot());
    p.update(1);
    assert!(p.shoot());
}

#[test]
fn player_moves_clamp_at_edges() {
    let mut p = Player::new();
    p.x = 0;
    p.move_left();
    assert_eq!(p.x, 0);
    p.move_right();
    assert_eq!(p.x, 1);
    p.x = NUM_COLS - 1;
    p.move_right();
    assert_eq!(p.x, NUM_COLS - 1);
    p.move_left();
    assert_eq!(p.x, NUM_COLS - 2);
}

#[test]
fn shot_climbs_then_explodes_at_top() {
    let mut s = Shot::new(5, 2);
    s.update(50);
    assert_eq!(s.y, 1);
    s.update(50);
    assert_eq!(s.y, 0);
    assert!(!s.exploding);
    s.update(50);
    assert!(s.exploding);
    assert!(!s.dead());
    s.update(50);
    assert!(s.dead());
}

#[test]
fn shot_timer_accumulates() {
    let mut s = Shot::new(5, 10);
    s.update(20);
    assert_eq!(s.y, 10);
    s.update(20);
    assert_eq!(s.y, 10);
    s.update(20);
    assert_eq!(s.y, 9);
}

#[test]
fn all_killed_iff_no_alive_cells() {
    let inv = Invaders::new();
    assert!(!inv.all_killed());
    let mut empty = Invaders::new();
    empty.alive = vec![false; GRID_ROWS * GRID_COLS];
    assert!(empty.all_killed());
    let one = single_cell_formation(0, 0, 5, 5);
    assert!(!one.all_killed());
}

#[test]
fn fresh_formation_layout() {
    let inv = Invaders::new();
    assert_eq!(inv.alive.len(), GRID_ROWS * GRID_COLS);
    assert_eq!(alive_count(&inv), GRID_ROWS * GRID_COLS);
    assert_eq!(inv.offset_x, INIT_OFFSET_X);
    assert_eq!(inv.offset_y, INIT_OFFSET_Y);
    assert!(inv.moving_right);
    assert_eq!(inv.period_ms, BASE_MOVE_PERIOD_MS);
    assert_eq!(inv.move_timer_ms, BASE_MOVE_PERIOD_MS);
}

#[test]
fn formation_update_before_timer_expiry_is_silent() {
    let mut inv = Invaders::new();
    assert!(!inv.update(100));
    assert_eq!(inv.offset_x, INIT_OFFSET_X);
    assert_eq!(inv.offset_y, INIT_OFFSET_Y);
    assert_eq!(inv.move_timer_ms, BASE_MOVE_PERIOD_MS - 100);
}

#[test]
fn formation_sweeps_right_until_edge() {
    let mut inv = Invaders::new();
    assert!(inv.update(BASE_MOVE_PERIOD_MS));
    assert_eq!(inv.offset_x, INIT_OFFSET_X + 1);
    assert_eq!(inv.offset_y, INIT_OFFSET_Y);
    assert!(inv.moving_right);
}

#[test]
fn edge_crossing_flips_and_descends_exactly_once() {
    // Rightmost alive cell on the arena's last column: crossing.
    let mut inv = single_cell_formation(1, GRID_COLS - 1, 22, 5);
    assert_eq!(inv.offset_x + GRID_COLS as i32 - 1, 39);
    assert!(inv.update(BASE_MOVE_PERIOD_MS));
    assert!(!inv.moving_right);
    assert_eq!(inv.offset_x, 22);
    assert_eq!(inv.offset_y, 6);
    // Next move: not at the left edge, so it sweeps left without descending.
    assert!(inv.update(BASE_MOVE_PERIOD_MS));
    assert!(!inv.moving_right);
    assert_eq!(inv.offset_x, 21);
    assert_eq!(inv.offset_y, 6);
}

#[test]
fn left_edge_crossing_flips_and_descends() {
    let mut inv = single_cell_formation(0, 3, -3, 4);
    inv.moving_right = false;
    assert!(inv.update(BASE_MOVE_PERIOD_MS));
    assert!(inv.moving_right);
    assert_eq!(inv.offset_x, -3);
    assert_eq!(inv.offset_y, 5);
}

#[test]
fn empty_formation_does_not_move() {
    let mut inv = Invaders::new();
    inv.alive = vec![false; GRID_ROWS * GRID_COLS];
    assert!(!inv.update(BASE_MOVE_PERIOD_MS));
    assert_eq!(inv.offset_x, INIT_OFFSET_X);
    assert_eq!(inv.offset_y, INIT_OFFSET_Y);
}

#[test]
fn detect_hits_kills_exactly_one_cell() {
    let mut inv = Invaders::new();
    let mut p = Player::new();
    // A cell of the fresh formation shows at arena column 20, row 3.
    p.shot = Some(Shot::new(20, 3));
    let hits = p.detect_hits(&mut inv);
    assert_eq!(hits, 1);
    assert_eq!(alive_count(&inv), GRID_ROWS * GRID_COLS - 1);
    let r = (3 - INIT_OFFSET_Y) as usize;
    let c = (20 - INIT_OFFSET_X) as usize;
    assert!(!inv.alive[r * GRID_COLS + c]);
    assert!(p.shot.as_ref().unwrap().exploding);
    // The exploding projectile cannot hit again.
    let hits2 = p.detect_hits(&mut inv);
    assert_eq!(hits2, 0);
    assert_eq!(alive_count(&inv), GRID_ROWS * GRID_COLS - 1);
}

#[test]
fn detect_hits_misses_outside_formation() {
    let mut inv = Invaders::new();
    let mut p = Player::new();
    p.shot = Some(Shot::new(20, 15));
    assert_eq!(p.detect_hits(&mut inv), 0);
    assert_eq!(alive_count(&inv), GRID_ROWS * GRID_COLS);
}

#[test]
fn reached_bottom_at_player_row() {
    let low = single_cell_formation(3, 4, 5, 16);
    assert!(low.reached_bottom());
    let high = single_cell_formation(3, 4, 5, 15);
    assert!(!high.reached_bottom());
}

#[test]
fn level_increments_below_max_and_wins_at_max() {
    let mut l = Level::new();
    assert_eq!(l.level, 1);
    assert!(!l.increment_level());
    assert_eq!(l.level, 2);
    assert!(!l.increment_level());
    assert_eq!(l.level, 3);
    assert!(l.increment_level());
    assert_eq!(l.level, 3);
    assert!(l.increment_level());
    assert_eq!(l.level, 3);
}

#[test]
fn formation_speed_scales_with_level() {
    assert_eq!(Invaders::period_for_level(1), 700);
    assert_eq!(Invaders::period_for_level(2), 550);
    assert_eq!(Invaders::period_for_level(3), 400);
    assert_eq!(Invaders::period_for_level(10), 100);
    assert_eq!(Invaders::new_for_level(2).period_ms, 550);
}

#[test]
fn score_adds_points_per_hit() {
    let mut s = Score::new();
    s.add_points(1);
    assert_eq!(s.count, 10);
    s.add_points(0);
    assert_eq!(s.count, 10);
    s.add_points(3);
    assert_eq!(s.count, 40);
}

#[test]
fn score_saturates_at_cap() {
    let mut s = Score::new();
    s.count = u32::MAX - 5;
    s.add_points(1);
    assert_eq!(s.count, u32::MAX);
}

#[test]
fn menu_selection_clamps() {
    let mut m = Menu::new();
    assert_eq!(m.selection, 0);
    m.change_option(true);
    assert_eq!(m.selection, 0);
    m.change_option(false);
    assert_eq!(m.selection, 1);
    m.change_option(false);
    assert_eq!(m.selection, 1);
    m.change_option(true);
    assert_eq!(m.selection, 0);
}
