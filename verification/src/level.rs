//! The level: a bounded counter driving the formation's speed; crossing its
//! maximum signals the terminal win condition.

use vstd::prelude::*;
use crate::NUM_COLS;
use crate::NUM_ROWS;
use crate::frame::Drawable;
use crate::frame::Frame;
use crate::frame::draw_text;
use crate::score::digit_char;

verus! {

/// The last playable level; clearing it wins the game.
pub const MAX_LEVEL: u32 = 3;

pub struct Level {
    /// Current level, starting at 1.
    pub level: u32,
}

impl Level {
    pub fn new() -> (l: Level)
        ensures
            l.level == 1,
    {
        Level { level: 1 }
    }

    /// Move to the next level. Returns false and increments for every level
    /// below `MAX_LEVEL`; returns true exactly upon crossing the maximum, in
    /// which case the counter stays put — levels above the maximum are never
    /// reached.
    pub fn increment_level(&mut self) -> (won: bool)
        ensures
            won <==> old(self).level >= MAX_LEVEL,
            !won ==> final(self).level == old(self).level + 1,
            won ==> final(self).level == old(self).level,
    {
        if self.level >= MAX_LEVEL {
            true
        } else {
            self.level = self.level + 1;
            false
        }
    }
}

impl Level {
    /// The value the one-digit display shows: the level, capped.
    pub open spec fn spec_shown(self) -> int {
        if self.level > 9 {
            9
        } else {
            self.level as int
        }
    }

    /// Paint the level label and its digit into the top row; no other cell
    /// changes.
    pub fn paint(&self, frame: &mut Frame)
        requires
            old(frame).wf(),
        ensures
            final(frame).wf(),
            forall|i: int| 0 <= i < 6 ==> final(frame).at(28 + i, 0) == "LEVEL "@[i],
            final(frame).at(34, 0) == crate::score::spec_digit_char(self.spec_shown()),
            forall|i: int, j: int|
                0 <= i < NUM_COLS && 0 <= j < NUM_ROWS && !(j == 0 && 28 <= i <= 34)
                    ==> final(frame).at(i, j) == old(frame).at(i, j),
    {
        proof {
            reveal_strlit("LEVEL ");
        }
        draw_text(frame, 28, 0, "LEVEL ");
        let shown = if self.level > 9 {
            9
        } else {
            self.level
        };
        frame.set(34, 0, digit_char(shown));
    }
}

impl Drawable for Level {
    open spec fn well_formed(&self) -> bool {
        true
    }

    fn draw(&self, frame: &mut Frame) {
        self.paint(frame);
    }
}

} // verus!
