//! The player's projectile: a single character that climbs one row per fixed
//! time quantum, and ends in a one-tick "exploding" visual state after a hit
//! or after reaching the top edge, before it is removed.

use vstd::prelude::*;
use crate::NUM_COLS;
use crate::NUM_ROWS;
use crate::frame::Drawable;
use crate::frame::Frame;

verus! {

/// Milliseconds between two one-row upward moves of a projectile.
pub const SHOT_PERIOD_MS: u32 = 50;

/// Glyph of a travelling projectile.
pub const SHOT_SPRITE: char = '|';

/// Glyph of an exploding projectile.
pub const EXPLOSION_SPRITE: char = '*';

#[derive(Clone, Copy, PartialEq, Eq, Debug)]
pub struct Shot {
    /// Arena column.
    pub x: usize,
    /// Arena row; the shot travels towards row 0.
    pub y: usize,
    /// Terminal visual sub-state entered after a hit or a top-edge exit.
    pub exploding: bool,
    /// Set one update after `exploding`: the shot is ready to be removed.
    pub spent: bool,
    /// Remaining milliseconds until the next one-row move.
    pub move_timer_ms: u32,
}

impl Shot {
    pub open spec fn wf(self) -> bool {
        &&& self.x < NUM_COLS
        &&& self.y < NUM_ROWS
        &&& self.move_timer_ms <= SHOT_PERIOD_MS
    }

    /// The state a single update over `delta_ms` elapsed milliseconds leads
    /// to: an exploding shot becomes spent; otherwise the move timer counts
    /// down, and on expiry the shot climbs one row, or starts exploding when
    /// it would leave the top edge.
    pub open spec fn step(self, delta_ms: u32) -> Shot {
        if self.spent {
            self
        } else if self.exploding {
            Shot { spent: true, ..self }
        } else if delta_ms < self.move_timer_ms {
            Shot { move_timer_ms: (self.move_timer_ms - delta_ms) as u32, ..self }
        } else if self.y > 0 {
            Shot { y: (self.y - 1) as usize, move_timer_ms: SHOT_PERIOD_MS, ..self }
        } else {
            Shot { exploding: true, move_timer_ms: SHOT_PERIOD_MS, ..self }
        }
    }

    pub fn new(x: usize, y: usize) -> (s: Shot)
        requires
            x < NUM_COLS,
            y < NUM_ROWS,
        ensures
            s == (Shot { x, y, exploding: false, spent: false, move_timer_ms: SHOT_PERIOD_MS }),
    {
        Shot { x, y, exploding: false, spent: false, move_timer_ms: SHOT_PERIOD_MS }
    }

    /// Advance the projectile by `delta_ms` elapsed milliseconds.
    pub fn update(&mut self, delta_ms: u32)
        requires
            old(self).wf(),
        ensures
            final(self).wf(),
            *final(self) == old(self).step(delta_ms),
    {
        if self.spent {
        } else if self.exploding {
            self.spent = true;
        } else if delta_ms < self.move_timer_ms {
            self.move_timer_ms = self.move_timer_ms - delta_ms;
        } else {
            self.move_timer_ms = SHOT_PERIOD_MS;
            if self.y > 0 {
                self.y = self.y - 1;
            } else {
                self.exploding = true;
            }
        }
    }

    /// Enter the terminal exploding sub-state (after a hit).
    pub fn explode(&mut self)
        requires
            old(self).wf(),
        ensures
            final(self).wf(),
            *final(self) == (Shot { exploding: true, ..*old(self) }),
    {
        self.exploding = true;
    }

    /// True when the shot has finished its lifecycle and is to be removed.
    pub fn dead(&self) -> (r: bool)
        ensures
            r == self.spent,
    {
        self.spent
    }
}

impl Shot {
    /// The glyph the projectile currently shows.
    pub open spec fn spec_sprite(self) -> char {
        if self.exploding {
            EXPLOSION_SPRITE
        } else {
            SHOT_SPRITE
        }
    }

    /// Paint the projectile's glyph at its cell; no other cell changes.
    pub fn paint(&self, frame: &mut Frame)
        requires
            old(frame).wf(),
            self.wf(),
        ensures
            final(frame).wf(),
            final(frame).at(self.x as int, self.y as int) == self.spec_sprite(),
            forall|i: int, j: int|
                0 <= i < NUM_COLS && 0 <= j < NUM_ROWS && !(i == self.x && j == self.y)
                    ==> final(frame).at(i, j) == old(frame).at(i, j),
    {
        let sprite = if self.exploding {
            EXPLOSION_SPRITE
        } else {
            SHOT_SPRITE
        };
        frame.set(self.x, self.y, sprite);
    }
}

impl Drawable for Shot {
    open spec fn well_formed(&self) -> bool {
        self.wf()
    }

    fn draw(&self, frame: &mut Frame) {
        self.paint(frame);
    }
}

} // verus!
