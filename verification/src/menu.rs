//! The menu: a selection index over the fixed options shown before play —
//! start a new game, or quit.

use vstd::prelude::*;
use crate::NUM_COLS;
use crate::NUM_ROWS;
use crate::frame::Drawable;
use crate::frame::Frame;
use crate::frame::draw_text;

verus! {

/// Number of menu options: start at index 0, quit at index 1.
pub const MENU_OPTION_COUNT: usize = 2;

pub struct Menu {
    /// Index of the highlighted option; 0 starts the game, 1 quits.
    pub selection: usize,
}

impl Menu {
    pub open spec fn wf(self) -> bool {
        self.selection < MENU_OPTION_COUNT
    }

    pub fn new() -> (m: Menu)
        ensures
            m.wf(),
            m.selection == 0,
    {
        Menu { selection: 0 }
    }

    /// Move the selection one step up or down, clamped to the option range.
    pub fn change_option(&mut self, up: bool)
        requires
            old(self).wf(),
        ensures
            final(self).wf(),
            final(self).selection == if up {
                if old(self).selection > 0 {
                    old(self).selection - 1
                } else {
                    0
                }
            } else {
                if old(self).selection + 1 < MENU_OPTION_COUNT {
                    old(self).selection + 1
                } else {
                    old(self).selection as int
                }
            },
    {
        if up {
            if self.selection > 0 {
                self.selection = self.selection - 1;
            }
        } else {
            if self.selection + 1 < MENU_OPTION_COUNT {
                self.selection = self.selection + 1;
            }
        }
    }
}

impl Menu {
    /// Paint the title, the option labels, and the selection marker beside
    /// the highlighted option; no other cell changes.
    pub fn paint(&self, frame: &mut Frame)
        requires
            old(frame).wf(),
            self.wf(),
        ensures
            final(frame).wf(),
            forall|i: int| 0 <= i < 8 ==> final(frame).at(16 + i, 5) == "INVADERS"@[i],
            forall|i: int| 0 <= i < 8 ==> final(frame).at(15 + i, 8) == "New game"@[i],
            forall|i: int| 0 <= i < 4 ==> final(frame).at(15 + i, 9) == "Exit"@[i],
            final(frame).at(13, 8) == if self.selection == 0 {
                '>'
            } else {
                old(frame).at(13, 8)
            },
            final(frame).at(13, 9) == if self.selection == 0 {
                old(frame).at(13, 9)
            } else {
                '>'
            },
            forall|i: int, j: int|
                0 <= i < NUM_COLS && 0 <= j < NUM_ROWS && !(j == 5 && 16 <= i < 24) && !(j == 8
                    && 15 <= i < 23) && !(j == 9 && 15 <= i < 19) && !(i == 13 && (j == 8 || j
                    == 9)) ==> final(frame).at(i, j) == old(frame).at(i, j),
    {
        proof {
            reveal_strlit("INVADERS");
            reveal_strlit("New game");
            reveal_strlit("Exit");
        }
        draw_text(frame, 16, 5, "INVADERS");
        draw_text(frame, 15, 8, "New game");
        draw_text(frame, 15, 9, "Exit");
        if self.selection == 0 {
            frame.set(13, 8, '>');
        } else {
            frame.set(13, 9, '>');
        }
    }
}

impl Drawable for Menu {
    open spec fn well_formed(&self) -> bool {
        self.wf()
    }

    fn draw(&self, frame: &mut Frame) {
        self.paint(frame);
    }
}

} // verus!
