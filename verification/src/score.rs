//! The score: a monotonic counter of points, drawn as fixed-width text.

use vstd::prelude::*;
use crate::NUM_COLS;
use crate::NUM_ROWS;
use crate::frame::Drawable;
use crate::frame::Frame;
use crate::frame::draw_text;

verus! {

/// Points awarded for each enemy cell killed.
pub const POINTS_PER_HIT: u32 = 10;

/// Largest value the score display can show.
pub const MAX_SHOWN_SCORE: u32 = 99999;

/// The digit character for `d`.
pub open spec fn spec_digit_char(d: int) -> char {
    if d == 0 {
        '0'
    } else if d == 1 {
        '1'
    } else if d == 2 {
        '2'
    } else if d == 3 {
        '3'
    } else if d == 4 {
        '4'
    } else if d == 5 {
        '5'
    } else if d == 6 {
        '6'
    } else if d == 7 {
        '7'
    } else if d == 8 {
        '8'
    } else {
        '9'
    }
}

/// The digit character for `d`.
pub fn digit_char(d: u32) -> (c: char)
    requires
        d < 10,
    ensures
        c == spec_digit_char(d as int),
{
    if d == 0 {
        '0'
    } else if d == 1 {
        '1'
    } else if d == 2 {
        '2'
    } else if d == 3 {
        '3'
    } else if d == 4 {
        '4'
    } else if d == 5 {
        '5'
    } else if d == 6 {
        '6'
    } else if d == 7 {
        '7'
    } else if d == 8 {
        '8'
    } else {
        '9'
    }
}

pub struct Score {
    /// Running point total; never decreases.
    pub count: u32,
}

impl Score {
    pub fn new() -> (s: Score)
        ensures
            s.count == 0,
    {
        Score { count: 0 }
    }

    /// Add `hits * POINTS_PER_HIT` points, saturating at the counter's cap;
    /// the total never decreases.
    pub fn add_points(&mut self, hits: u16)
        ensures
            final(self).count == if old(self).count + hits * POINTS_PER_HIT > u32::MAX {
                u32::MAX as int
            } else {
                old(self).count + hits * POINTS_PER_HIT
            },
            final(self).count >= old(self).count,
    {
        let pts = (hits as u32) * POINTS_PER_HIT;
        self.count = self.count.saturating_add(pts);
    }
}

impl Score {
    /// The value the five-digit display shows: the count, capped.
    pub open spec fn spec_shown(self) -> int {
        if self.count > MAX_SHOWN_SCORE {
            MAX_SHOWN_SCORE as int
        } else {
            self.count as int
        }
    }

    /// Paint the score label and its five digits into the top row; no other
    /// cell changes.
    pub fn paint(&self, frame: &mut Frame)
        requires
            old(frame).wf(),
        ensures
            final(frame).wf(),
            forall|i: int| 0 <= i < 6 ==> final(frame).at(1 + i, 0) == "SCORE "@[i],
            final(frame).at(7, 0) == spec_digit_char(self.spec_shown() / 10000),
            final(frame).at(8, 0) == spec_digit_char((self.spec_shown() / 1000) % 10),
            final(frame).at(9, 0) == spec_digit_char((self.spec_shown() / 100) % 10),
            final(frame).at(10, 0) == spec_digit_char((self.spec_shown() / 10) % 10),
            final(frame).at(11, 0) == spec_digit_char(self.spec_shown() % 10),
            forall|i: int, j: int|
                0 <= i < NUM_COLS && 0 <= j < NUM_ROWS && !(j == 0 && 1 <= i <= 11)
                    ==> final(frame).at(i, j) == old(frame).at(i, j),
    {
        proof {
            reveal_strlit("SCORE ");
        }
        draw_text(frame, 1, 0, "SCORE ");
        let shown = if self.count > MAX_SHOWN_SCORE {
            MAX_SHOWN_SCORE
        } else {
            self.count
        };
        frame.set(7, 0, digit_char(shown / 10000));
        frame.set(8, 0, digit_char((shown / 1000) % 10));
        frame.set(9, 0, digit_char((shown / 100) % 10));
        frame.set(10, 0, digit_char((shown / 10) % 10));
        frame.set(11, 0, digit_char(shown % 10));
    }
}

impl Drawable for Score {
    open spec fn well_formed(&self) -> bool {
        true
    }

    fn draw(&self, frame: &mut Frame) {
        self.paint(frame);
    }
}

} // verus!
