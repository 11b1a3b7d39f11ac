//! The top-level state machine: menu and play states, per-tick entity
//! updates, collision resolution, and the win / loss / level transitions.
//! The caller (the process shell) polls input, plays the signalled sound
//! cues, and ships the produced frames to the render context.

use vstd::prelude::*;
use crate::NUM_COLS;
use crate::PLAYER_SPRITE;
use crate::frame::BLANK;
use crate::frame::Frame;
use crate::frame::new_frame;
use crate::player::PLAYER_COOLDOWN_MS;
use crate::player::PLAYER_ROW;
use crate::score::spec_digit_char;
use crate::invaders::BASE_MOVE_PERIOD_MS;
use crate::invaders::Invaders;
use crate::level::Level;
use crate::level::MAX_LEVEL;
use crate::menu::MENU_OPTION_COUNT;
use crate::menu::Menu;
use crate::player::Player;
use crate::score::POINTS_PER_HIT;
use crate::score::Score;
use crate::shot::Shot;

verus! {

/// A discrete input event, as polled from the keyboard once per tick.
#[derive(Clone, Copy)]
pub enum InputEvent {
    Left,
    Right,
    Up,
    Down,
    Confirm,
    Quit,
}

/// What handling one in-play input event asks of the caller.
#[derive(Clone, Copy)]
pub struct InputOutcome {
    /// A projectile was fired: play the firing cue.
    pub fired: bool,
    /// The player quit to the menu: play the losing cue.
    pub quit_to_menu: bool,
}

/// What one simulation tick asks of the caller.
#[derive(Clone, Copy)]
pub struct TickEvents {
    /// The formation moved: play the movement cue.
    pub formation_moved: bool,
    /// Enemy cells killed this tick: play the explosion cue if positive.
    pub hits: u16,
    /// The last level was cleared: play the winning cue and exit.
    pub won: bool,
    /// The formation reached the player's row: play the losing cue; the
    /// game has been reset to the menu.
    pub lost: bool,
}

/// All mutable simulation state, owned by the game loop.
pub struct Game {
    pub player: Player,
    pub invaders: Invaders,
    pub score: Score,
    pub level: Level,
    pub menu: Menu,
    pub in_menu: bool,
}

/// Send the game back to the menu with a fresh player and a fresh
/// first-speed formation; score and level are left to their owners.
pub fn reset_game(in_menu: &mut bool, player: &mut Player, invaders: &mut Invaders)
    ensures
        *final(in_menu),
        final(player).wf(),
        final(player).is_fresh(),
        final(invaders).wf(),
        final(invaders).is_initial_formation(),
        final(invaders).period_ms == BASE_MOVE_PERIOD_MS,
{
    *in_menu = true;
    *player = Player::new();
    *invaders = Invaders::new();
}

impl Game {
    pub open spec fn wf(self) -> bool {
        &&& self.player.wf()
        &&& self.invaders.wf()
        &&& self.menu.wf()
        &&& 1 <= self.level.level <= MAX_LEVEL
    }

    /// A fresh game: menu shown, first-level formation, zero score.
    pub fn new() -> (g: Game)
        ensures
            g.wf(),
            g.in_menu,
            g.player.is_fresh(),
            g.invaders.is_initial_formation(),
            g.invaders.period_ms == BASE_MOVE_PERIOD_MS,
            g.score.count == 0,
            g.level.level == 1,
            g.menu.selection == 0,
    {
        Game {
            player: Player::new(),
            invaders: Invaders::new(),
            score: Score::new(),
            level: Level::new(),
            menu: Menu::new(),
            in_menu: true,
        }
    }

    /// Handle one input event while the menu is shown. Up and down move the
    /// selection; confirm starts the game on the first option and otherwise
    /// asks the caller to exit (the result); everything else is ignored.
    pub fn handle_menu_input(&mut self, ev: InputEvent) -> (quit: bool)
        requires
            old(self).wf(),
            old(self).in_menu,
        ensures
            final(self).wf(),
            final(self).player == old(self).player,
            final(self).invaders == old(self).invaders,
            final(self).score == old(self).score,
            final(self).level == old(self).level,
            quit <==> (ev is Confirm && old(self).menu.selection != 0),
            final(self).in_menu <==> !(ev is Confirm && old(self).menu.selection == 0),
            ev is Up ==> final(self).menu.selection == if old(self).menu.selection > 0 {
                old(self).menu.selection - 1
            } else {
                0
            },
            ev is Down ==> final(self).menu.selection == if old(self).menu.selection + 1
                < MENU_OPTION_COUNT {
                old(self).menu.selection + 1
            } else {
                old(self).menu.selection as int
            },
            !(ev is Up || ev is Down) ==> final(self).menu == old(self).menu,
    {
        match ev {
            InputEvent::Up => {
                self.menu.change_option(true);
                false
            },
            InputEvent::Down => {
                self.menu.change_option(false);
                false
            },
            InputEvent::Confirm => {
                if self.menu.selection == 0 {
                    self.in_menu = false;
                    false
                } else {
                    true
                }
            },
            _ => false,
        }
    }

    /// Handle one input event while playing. Left and right move the player;
    /// confirm fires (succeeding exactly when no projectile is live and the
    /// cooldown has elapsed); quit resets the game to the menu; everything
    /// else is ignored.
    pub fn handle_play_input(&mut self, ev: InputEvent) -> (r: InputOutcome)
        requires
            old(self).wf(),
            !old(self).in_menu,
        ensures
            final(self).wf(),
            final(self).score == old(self).score,
            final(self).level == old(self).level,
            final(self).menu == old(self).menu,
            r.quit_to_menu <==> ev is Quit,
            r.fired <==> (ev is Confirm && old(self).player.shot is None && old(self).player.cooldown_ms == 0),
            ev is Left ==> final(self).invaders == old(self).invaders && !final(self).in_menu
                && final(self).player.x == if old(self).player.x > 0 {
                old(self).player.x - 1
            } else {
                0
            },
            ev is Right ==> final(self).invaders == old(self).invaders && !final(self).in_menu
                && final(self).player.x == if old(self).player.x + 1 < NUM_COLS {
                old(self).player.x + 1
            } else {
                old(self).player.x as int
            },
            ev is Confirm ==> final(self).invaders == old(self).invaders && !final(self).in_menu
                && final(self).player.x == old(self).player.x && (r.fired ==> final(self).player.shot == (Some(Player::spawned_shot(old(self).player.x)))
                && final(self).player.cooldown_ms == PLAYER_COOLDOWN_MS) && (!r.fired
                ==> final(self).player == old(self).player),
            ev is Quit ==> final(self).in_menu && final(self).player.is_fresh() && final(self).invaders.is_initial_formation()
                && final(self).invaders.period_ms == BASE_MOVE_PERIOD_MS,
            !(ev is Left || ev is Right || ev is Confirm || ev is Quit) ==> *final(self) == *old(self),
    {
        match ev {
            InputEvent::Left => {
                self.player.move_left();
                InputOutcome { fired: false, quit_to_menu: false }
            },
            InputEvent::Right => {
                self.player.move_right();
                InputOutcome { fired: false, quit_to_menu: false }
            },
            InputEvent::Confirm => {
                let fired = self.player.shoot();
                InputOutcome { fired, quit_to_menu: false }
            },
            InputEvent::Quit => {
                reset_game(&mut self.in_menu, &mut self.player, &mut self.invaders);
                InputOutcome { fired: false, quit_to_menu: true }
            },
            _ => InputOutcome { fired: false, quit_to_menu: false },
        }
    }

    /// Whether the tick's stepped projectile lands on an alive cell of the
    /// stepped formation: the collision this tick resolves.
    pub open spec fn spec_tick_hit(self, delta_ms: u32) -> bool {
        let p1 = self.player.spec_step(delta_ms);
        let inv1 = self.invaders.spec_step(delta_ms);
        match p1.shot {
            Some(s) => !s.exploding && !s.spent && inv1.alive_at_arena(s.x as int, s.y as int),
            None => false,
        }
    }

    /// The player as the tick leaves it when no reset intervenes: stepped,
    /// its projectile exploding after a hit.
    pub open spec fn spec_tick_player(self, delta_ms: u32) -> Player {
        let p1 = self.player.spec_step(delta_ms);
        if self.spec_tick_hit(delta_ms) {
            Player {
                shot: match p1.shot {
                    Some(s) => Some(Shot { exploding: true, ..s }),
                    None => None,
                },
                ..p1
            }
        } else {
            p1
        }
    }

    /// Grid coordinates of the cell this tick's hit removes, if any.
    pub open spec fn spec_tick_killed(self, delta_ms: u32) -> Option<(int, int)> {
        let inv1 = self.invaders.spec_step(delta_ms);
        if self.spec_tick_hit(delta_ms) {
            match self.player.spec_step(delta_ms).shot {
                Some(s) => Some(((s.y - inv1.offset_y) as int, (s.x - inv1.offset_x) as int)),
                None => None,
            }
        } else {
            None
        }
    }

    /// The alive map as the tick's collision leaves it.
    pub open spec fn spec_tick_alive(self, delta_ms: u32) -> Seq<bool> {
        let inv1 = self.invaders.spec_step(delta_ms);
        if self.spec_tick_hit(delta_ms) {
            match self.player.spec_step(delta_ms).shot {
                Some(s) => inv1.kill_at_arena_map(s.x as int, s.y as int),
                None => inv1.alive@,
            }
        } else {
            inv1.alive@
        }
    }

    /// Whether the tick ends in the loss: enemy cells survive the collision
    /// and one of them sits on the player's row after the move.
    pub open spec fn spec_tick_lost(self, delta_ms: u32) -> bool {
        let inv1 = self.invaders.spec_step(delta_ms);
        let hits: int = if self.spec_tick_hit(delta_ms) {
            1
        } else {
            0
        };
        inv1.alive_count() - hits > 0 && inv1.spec_survivor_reaches_bottom(
            self.spec_tick_killed(delta_ms),
        )
    }

    /// One simulation tick over `delta_ms` elapsed milliseconds: the player
    /// and formation advance, the projectile resolves against the formation,
    /// points are scored, and the wave / win / loss transitions fire. The
    /// formation's alive count never grows: it drops by exactly the returned
    /// hit count, except where a fresh wave or a reset replaces the
    /// formation wholesale.
    pub fn tick(&mut self, delta_ms: u32) -> (ev: TickEvents)
        requires
            old(self).wf(),
            !old(self).in_menu,
        ensures
            final(self).wf(),
            final(self).menu == old(self).menu,
            ev.hits <= 1,
            ev.hits <= old(self).invaders.alive_count(),
            ev.formation_moved == old(self).invaders.spec_moved(delta_ms),
            ev.hits == 1 <==> old(self).spec_tick_hit(delta_ms),
            ev.lost <==> old(self).spec_tick_lost(delta_ms),
            !ev.lost ==> final(self).player == old(self).spec_tick_player(delta_ms),
            (!ev.lost && !(old(self).invaders.alive_count() == ev.hits && old(self).level.level
                < MAX_LEVEL)) ==> {
                let inv1 = old(self).invaders.spec_step(delta_ms);
                &&& final(self).invaders.offset_x == inv1.offset_x
                &&& final(self).invaders.offset_y == inv1.offset_y
                &&& final(self).invaders.moving_right == inv1.moving_right
                &&& final(self).invaders.move_timer_ms == inv1.move_timer_ms
                &&& final(self).invaders.period_ms == inv1.period_ms
                &&& final(self).invaders.alive@ == old(self).spec_tick_alive(delta_ms)
            },
            final(self).score.count == if old(self).score.count + ev.hits * POINTS_PER_HIT
                > u32::MAX {
                u32::MAX as int
            } else {
                old(self).score.count + ev.hits * POINTS_PER_HIT
            },
            ev.won <==> (old(self).invaders.alive_count() == ev.hits && old(self).level.level
                >= MAX_LEVEL),
            ev.won ==> final(self).invaders.alive_count() == 0 && final(self).level == old(self).level && !final(self).in_menu && !ev.lost,
            (old(self).invaders.alive_count() == ev.hits && old(self).level.level < MAX_LEVEL)
                ==> !ev.won && !ev.lost && final(self).level.level == old(self).level.level + 1
                && final(self).invaders.is_initial_formation() && final(self).invaders.period_ms
                == Invaders::spec_period_for_level(final(self).level.level),
            ev.lost ==> final(self).in_menu && final(self).player.is_fresh() && final(self).invaders.is_initial_formation() && final(self).level == old(self).level && old(self).invaders.alive_count() > ev.hits,
            !ev.lost ==> !final(self).in_menu && final(self).player.x == old(self).player.x,
            (old(self).invaders.alive_count() > ev.hits && !ev.lost) ==> !ev.won && final(self).invaders.alive_count() == old(self).invaders.alive_count() - ev.hits,
    {
        proof {
            old(self).invaders.lemma_alive_count_bounds();
        }
        self.player.update(delta_ms);
        let moved = self.invaders.update(delta_ms);
        let hits = self.player.detect_hits(&mut self.invaders);
        proof {
            self.invaders.lemma_alive_count_bounds();
        }
        if hits > 0 {
            self.score.add_points(hits);
        }
        let mut won = false;
        let mut lost = false;
        proof {
            Invaders::lemma_reached_bottom_after_kill(
                old(self).invaders.spec_step(delta_ms),
                self.invaders,
                old(self).spec_tick_killed(delta_ms),
            );
        }
        if self.invaders.all_killed() {
            if self.level.increment_level() {
                won = true;
            } else {
                self.invaders = Invaders::new_for_level(self.level.level);
            }
        } else if self.invaders.reached_bottom() {
            lost = true;
            reset_game(&mut self.in_menu, &mut self.player, &mut self.invaders);
        }
        TickEvents { formation_moved: moved, hits, won, lost }
    }

    /// Paint the current state into a fresh frame: the menu when it is
    /// shown, otherwise the player, the formation, the score and the level,
    /// in that order, later entities painting over earlier ones. The
    /// contract pins what each simulation entity shows: the menu's labels
    /// and selection marker; the score and level text; every alive
    /// formation cell's glyph at its displaced position (below the text
    /// row); the player's sprite and the projectile's glyph at their cells,
    /// where the formation does not cover them.
    pub fn render_frame(&self) -> (f: Frame)
        requires
            self.wf(),
        ensures
            f.wf(),
            self.in_menu ==> {
                &&& f.at(13, 8) == (if self.menu.selection == 0 {
                    '>'
                } else {
                    BLANK
                })
                &&& f.at(13, 9) == (if self.menu.selection == 0 {
                    BLANK
                } else {
                    '>'
                })
                &&& forall|i: int| 0 <= i < 8 ==> f.at(16 + i, 5) == "INVADERS"@[i]
                &&& forall|i: int| 0 <= i < 8 ==> f.at(15 + i, 8) == "New game"@[i]
                &&& forall|i: int| 0 <= i < 4 ==> f.at(15 + i, 9) == "Exit"@[i]
            },
            !self.in_menu ==> {
                &&& forall|i: int| 0 <= i < 6 ==> f.at(1 + i, 0) == "SCORE "@[i]
                &&& f.at(7, 0) == spec_digit_char(self.score.spec_shown() / 10000)
                &&& f.at(8, 0) == spec_digit_char((self.score.spec_shown() / 1000) % 10)
                &&& f.at(9, 0) == spec_digit_char((self.score.spec_shown() / 100) % 10)
                &&& f.at(10, 0) == spec_digit_char((self.score.spec_shown() / 10) % 10)
                &&& f.at(11, 0) == spec_digit_char(self.score.spec_shown() % 10)
                &&& forall|i: int| 0 <= i < 6 ==> f.at(28 + i, 0) == "LEVEL "@[i]
                &&& f.at(34, 0) == spec_digit_char(self.level.spec_shown())
                &&& forall|r: int, c: int|
                    Invaders::in_grid(r, c) && #[trigger] self.invaders.alive_at(r, c)
                        && self.invaders.offset_y + r > 0 ==> f.at(
                        self.invaders.offset_x + c,
                        self.invaders.offset_y + r,
                    ) == self.invaders.spec_sprite()
                &&& (!self.invaders.alive_at_arena(self.player.x as int, PLAYER_ROW as int)
                    && (match self.player.shot {
                    Some(s) => !(s.x == self.player.x && s.y == PLAYER_ROW),
                    None => true,
                })) ==> f.at(self.player.x as int, PLAYER_ROW as int) == PLAYER_SPRITE
                &&& match self.player.shot {
                    Some(s) => (!self.invaders.alive_at_arena(s.x as int, s.y as int) && s.y
                        > 0) ==> f.at(s.x as int, s.y as int) == s.spec_sprite(),
                    None => true,
                }
            },
    {
        let mut frame = new_frame();
        if self.in_menu {
            self.menu.paint(&mut frame);
        } else {
            self.player.paint(&mut frame);
            self.invaders.paint(&mut frame);
            self.score.paint(&mut frame);
            self.level.paint(&mut frame);
        }
        frame
    }
}

} // verus!
