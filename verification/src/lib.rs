//! A character-grid arcade game: a player defends against a descending
//! formation of enemies, firing projectiles and clearing waves across levels.
//!
//! The simulation (player, shot, enemy formation, score, level, menu, and the
//! per-tick state machine that ties them together) lives here and is verified.
//! Terminal input, audio cues and the render thread are thin shells around it.

use vstd::prelude::*;

pub mod frame;
pub mod game;
pub mod invaders;
pub mod level;
pub mod menu;
pub mod player;
pub mod render;
pub mod score;
pub mod shot;

verus! {

/// Height of the arena grid, in character cells.
pub const NUM_ROWS: usize = 20;

/// Width of the arena grid, in character cells.
pub const NUM_COLS: usize = 40;

/// The two alternating enemy glyphs.
pub const INVADER_SPRITE_A: char = 'x';
pub const INVADER_SPRITE_B: char = '+';

/// The player's glyph.
pub const PLAYER_SPRITE: char = '▴';

} // verus!
