//! The player: a unit on the bottom row that moves horizontally, fires a
//! single cooldown-gated projectile, and resolves that projectile's hits
//! against the enemy formation.

use vstd::prelude::*;
use crate::NUM_COLS;
use crate::NUM_ROWS;
use crate::PLAYER_SPRITE;
use crate::frame::Drawable;
use crate::frame::Frame;
use crate::invaders::Invaders;
use crate::shot::SHOT_PERIOD_MS;
use crate::shot::Shot;

verus! {

/// The fixed arena row the player sits on.
pub const PLAYER_ROW: usize = NUM_ROWS - 1;

/// Milliseconds after a shot before the player may fire again.
pub const PLAYER_COOLDOWN_MS: u32 = 250;

pub struct Player {
    /// Arena column; the row is fixed at `PLAYER_ROW`.
    pub x: usize,
    /// Remaining milliseconds of the fire cooldown; 0 means ready.
    pub cooldown_ms: u32,
    /// The at-most-one live projectile the player owns.
    pub shot: Option<Shot>,
}

impl Player {
    pub open spec fn wf(self) -> bool {
        &&& self.x < NUM_COLS
        &&& match self.shot {
            Some(s) => s.wf(),
            None => true,
        }
    }

    /// A player as created at game start and on reset.
    pub open spec fn is_fresh(self) -> bool {
        &&& self.x == NUM_COLS / 2
        &&& self.cooldown_ms == 0
        &&& self.shot is None
    }

    /// The projectile `shoot` spawns: one row above the player's cell.
    pub open spec fn spawned_shot(x: usize) -> Shot {
        Shot {
            x,
            y: (PLAYER_ROW - 1) as usize,
            exploding: false,
            spent: false,
            move_timer_ms: SHOT_PERIOD_MS,
        }
    }

    /// What the owned projectile becomes after one update over `delta_ms`:
    /// it steps, and is removed once spent.
    pub open spec fn shot_after(s0: Option<Shot>, delta_ms: u32) -> Option<Shot> {
        match s0 {
            None => None,
            Some(s) => {
                let s2 = s.step(delta_ms);
                if s2.spent {
                    None
                } else {
                    Some(s2)
                }
            },
        }
    }

    /// The player one update over `delta_ms` leads to: the cooldown counts
    /// down and the owned projectile steps.
    pub open spec fn spec_step(self, delta_ms: u32) -> Player {
        Player {
            x: self.x,
            cooldown_ms: if self.cooldown_ms >= delta_ms {
                (self.cooldown_ms - delta_ms) as u32
            } else {
                0
            },
            shot: Self::shot_after(self.shot, delta_ms),
        }
    }

    pub fn new() -> (p: Player)
        ensures
            p.wf(),
            p.is_fresh(),
    {
        Player { x: NUM_COLS / 2, cooldown_ms: 0, shot: None }
    }

    /// Move one column to the left; no-op at the left edge.
    pub fn move_left(&mut self)
        requires
            old(self).wf(),
        ensures
            final(self).wf(),
            final(self).x == if old(self).x > 0 { old(self).x - 1 } else { 0 },
            final(self).cooldown_ms == old(self).cooldown_ms,
            final(self).shot == old(self).shot,
    {
        if self.x > 0 {
            self.x = self.x - 1;
        }
    }

    /// Move one column to the right; no-op at the right edge.
    pub fn move_right(&mut self)
        requires
            old(self).wf(),
        ensures
            final(self).wf(),
            final(self).x == if old(self).x + 1 < NUM_COLS {
                old(self).x + 1
            } else {
                old(self).x as int
            },
            final(self).cooldown_ms == old(self).cooldown_ms,
            final(self).shot == old(self).shot,
    {
        if self.x + 1 < NUM_COLS {
            self.x = self.x + 1;
        }
    }

    /// Fire a projectile. Succeeds exactly when no projectile is live and the
    /// cooldown has elapsed; otherwise nothing changes. The result signals
    /// the caller to play the firing sound cue.
    pub fn shoot(&mut self) -> (fired: bool)
        requires
            old(self).wf(),
        ensures
            final(self).wf(),
            fired <==> (old(self).shot is None && old(self).cooldown_ms == 0),
            !fired ==> *final(self) == *old(self),
            fired ==> *final(self) == (Player {
                x: old(self).x,
                cooldown_ms: PLAYER_COOLDOWN_MS,
                shot: Some(Self::spawned_shot(old(self).x)),
            }),
    {
        if self.shot.is_none() && self.cooldown_ms == 0 {
            self.shot = Some(Shot::new(self.x, PLAYER_ROW - 1));
            self.cooldown_ms = PLAYER_COOLDOWN_MS;
            true
        } else {
            false
        }
    }

    /// Advance the cooldown and the owned projectile by `delta_ms` elapsed
    /// milliseconds, removing the projectile once its lifecycle is over.
    pub fn update(&mut self, delta_ms: u32)
        requires
            old(self).wf(),
        ensures
            final(self).wf(),
            *final(self) == old(self).spec_step(delta_ms),
            final(self).x == old(self).x,
            final(self).cooldown_ms == old(self).cooldown_ms.saturating_sub(delta_ms),
            final(self).shot == Self::shot_after(old(self).shot, delta_ms),
    {
        self.cooldown_ms = self.cooldown_ms.saturating_sub(delta_ms);
        let mut remove = false;
        match &mut self.shot {
            Some(s) => {
                s.update(delta_ms);
                if s.dead() {
                    remove = true;
                }
            },
            None => {},
        }
        if remove {
            self.shot = None;
        }
    }

    /// Resolve the projectile against the formation: if the projectile is
    /// live (not yet exploding) and sits on an alive enemy cell, that cell
    /// dies, the projectile starts exploding, and the hit count 1 is
    /// returned; otherwise 0. The single-projectile policy caps hits per
    /// tick at 1.
    pub fn detect_hits(&mut self, invaders: &mut Invaders) -> (hits: u16)
        requires
            old(self).wf(),
            old(invaders).wf(),
        ensures
            final(self).wf(),
            final(invaders).wf(),
            hits <= 1,
            hits == 1 <==> (match old(self).shot {
                Some(s) => !s.exploding && !s.spent
                    && old(invaders).alive_at_arena(s.x as int, s.y as int),
                None => false,
            }),
            final(invaders).alive_count() == old(invaders).alive_count() - hits,
            hits == 1 ==> (match old(self).shot {
                Some(s) => final(invaders).alive@ == old(invaders).kill_at_arena_map(
                    s.x as int,
                    s.y as int,
                ) && final(self).shot == (Some(Shot { exploding: true, ..s })),
                None => false,
            }),
            hits == 0 ==> *final(invaders) == *old(invaders) && *final(self) == *old(self),
            final(self).x == old(self).x && final(self).cooldown_ms == old(self).cooldown_ms,
            final(invaders).offset_x == old(invaders).offset_x
                && final(invaders).offset_y == old(invaders).offset_y
                && final(invaders).moving_right == old(invaders).moving_right
                && final(invaders).move_timer_ms == old(invaders).move_timer_ms
                && final(invaders).period_ms == old(invaders).period_ms,
    {
        let mut hit: u16 = 0;
        match &mut self.shot {
            Some(s) => {
                if !s.exploding && !s.spent {
                    if invaders.kill_at_arena(s.x, s.y) {
                        s.explode();
                        hit = 1;
                    }
                }
            },
            None => {},
        }
        hit
    }
}

impl Player {
    /// Paint the player's sprite at its cell and, over it, the projectile's
    /// glyph at its cell if one is live; no other cell changes.
    pub fn paint(&self, frame: &mut Frame)
        requires
            old(frame).wf(),
            self.wf(),
        ensures
            final(frame).wf(),
            match self.shot {
                Some(s) => final(frame).at(s.x as int, s.y as int) == s.spec_sprite(),
                None => true,
            },
            (match self.shot {
                Some(s) => !(s.x == self.x && s.y == PLAYER_ROW),
                None => true,
            }) ==> final(frame).at(self.x as int, PLAYER_ROW as int) == PLAYER_SPRITE,
            forall|i: int, j: int|
                0 <= i < NUM_COLS && 0 <= j < NUM_ROWS && !(i == self.x && j == PLAYER_ROW)
                    && (match self.shot {
                    Some(s) => !(i == s.x && j == s.y),
                    None => true,
                }) ==> final(frame).at(i, j) == old(frame).at(i, j),
    {
        frame.set(self.x, PLAYER_ROW, PLAYER_SPRITE);
        match &self.shot {
            Some(s) => {
                s.paint(frame);
            },
            None => {},
        }
    }
}

impl Drawable for Player {
    open spec fn well_formed(&self) -> bool {
        self.wf()
    }

    fn draw(&self, frame: &mut Frame) {
        self.paint(frame);
    }
}

} // verus!
