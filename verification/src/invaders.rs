//! The enemy formation: a rectangular grid of alive/dead cells that sweeps
//! horizontally as one block, reverses and descends one row when it reaches
//! an arena edge, and loses cells to the player's projectile.

use vstd::prelude::*;
use crate::INVADER_SPRITE_A;
use crate::INVADER_SPRITE_B;
use crate::NUM_COLS;
use crate::NUM_ROWS;
use crate::frame::Drawable;
use crate::frame::Frame;

verus! {

/// Rows of the enemy grid.
pub const GRID_ROWS: usize = 4;

/// Columns of the enemy grid.
pub const GRID_COLS: usize = 18;

/// Arena column of the grid's left edge in a fresh formation.
pub const INIT_OFFSET_X: i32 = 11;

/// Arena row of the grid's top edge in a fresh formation.
pub const INIT_OFFSET_Y: i32 = 1;

/// Milliseconds between formation moves on the first level.
pub const BASE_MOVE_PERIOD_MS: u32 = 700;

/// How much shorter the move period gets with each further level.
pub const LEVEL_SPEEDUP_MS: u32 = 150;

/// The move period never drops below this.
pub const MIN_MOVE_PERIOD_MS: u32 = 100;

/// Number of alive entries among the first `n` of `s`.
pub open spec fn count_alive(s: Seq<bool>, n: int) -> int
    decreases n,
{
    if n <= 0 {
        0
    } else {
        count_alive(s, n - 1) + if s[n - 1] {
            1int
        } else {
            0int
        }
    }
}

pub struct Invaders {
    /// Alive/dead map of the grid, row-major: entry `r * GRID_COLS + c`.
    pub alive: Vec<bool>,
    /// Horizontal displacement: cell `(r, c)` shows at arena column
    /// `offset_x + c`.
    pub offset_x: i32,
    /// Vertical displacement: cell `(r, c)` shows at arena row
    /// `offset_y + r`.
    pub offset_y: i32,
    /// Current sweep direction.
    pub moving_right: bool,
    /// Remaining milliseconds until the next formation move.
    pub move_timer_ms: u32,
    /// Milliseconds between formation moves; shorter on higher levels.
    pub period_ms: u32,
}

impl Invaders {
    /// Flat index of grid cell (row `r`, column `c`).
    pub open spec fn idx(r: int, c: int) -> int {
        r * (GRID_COLS as int) + c
    }

    pub open spec fn in_grid(r: int, c: int) -> bool {
        0 <= r < GRID_ROWS && 0 <= c < GRID_COLS
    }

    /// Whether grid cell (row `r`, column `c`) is alive.
    pub open spec fn alive_at(self, r: int, c: int) -> bool {
        self.alive@[Self::idx(r, c)]
    }

    /// Number of alive cells in the formation.
    pub open spec fn alive_count(self) -> int {
        count_alive(self.alive@, (GRID_ROWS * GRID_COLS) as int)
    }

    /// Whether grid column `c` still holds an alive cell.
    pub open spec fn col_occupied(self, c: int) -> bool {
        exists|r: int| 0 <= r < GRID_ROWS && #[trigger] self.alive_at(r, c)
    }

    /// Whether grid row `r` still holds an alive cell.
    pub open spec fn row_occupied(self, r: int) -> bool {
        exists|c: int| 0 <= c < GRID_COLS && #[trigger] self.alive_at(r, c)
    }

    /// Whether any cell is alive.
    pub open spec fn has_alive(self) -> bool {
        exists|c: int| 0 <= c < GRID_COLS && #[trigger] self.col_occupied(c)
    }

    /// Some alive cell sits on the arena's leftmost column.
    pub open spec fn at_left_edge(self) -> bool {
        exists|c: int|
            0 <= c < GRID_COLS && #[trigger] self.col_occupied(c) && self.offset_x + c == 0
    }

    /// Some alive cell sits on the arena's rightmost column.
    pub open spec fn at_right_edge(self) -> bool {
        exists|c: int|
            0 <= c < GRID_COLS && #[trigger] self.col_occupied(c) && self.offset_x + c == NUM_COLS
                - 1
    }

    /// Some alive cell has descended to the player's row.
    pub open spec fn spec_reached_bottom(self) -> bool {
        exists|r: int|
            0 <= r < GRID_ROWS && #[trigger] self.row_occupied(r) && self.offset_y + r >= NUM_ROWS
                - 1
    }

    /// How far an edge crossing makes the formation descend: one row, unless
    /// an alive cell already sits on the player's row.
    pub open spec fn spec_descent(self) -> int {
        if self.spec_reached_bottom() {
            0
        } else {
            1
        }
    }

    /// Whether an alive cell shows at arena column `x`, row `y`.
    pub open spec fn alive_at_arena(self, x: int, y: int) -> bool {
        Self::in_grid(y - self.offset_y, x - self.offset_x) && self.alive_at(
            y - self.offset_y,
            x - self.offset_x,
        )
    }

    /// The alive map after the cell showing at arena position `(x, y)` dies.
    pub open spec fn kill_at_arena_map(self, x: int, y: int) -> Seq<bool> {
        self.alive@.update(Self::idx(y - self.offset_y, x - self.offset_x), false)
    }

    pub open spec fn wf(self) -> bool {
        &&& self.alive@.len() == GRID_ROWS * GRID_COLS
        &&& -(GRID_COLS as int) <= self.offset_x <= NUM_COLS
        &&& 0 <= self.offset_y <= NUM_ROWS
        &&& forall|r: int, c: int|
            Self::in_grid(r, c) && #[trigger] self.alive_at(r, c) ==> 0 <= self.offset_x + c
                < NUM_COLS && 0 <= self.offset_y + r < NUM_ROWS
        &&& 1 <= self.period_ms <= BASE_MOVE_PERIOD_MS
        &&& self.move_timer_ms <= self.period_ms
    }

    /// A formation as freshly spawned: every cell alive, at the initial
    /// position, sweeping right, with a full move timer.
    pub open spec fn is_initial_formation(self) -> bool {
        &&& self.alive@.len() == GRID_ROWS * GRID_COLS
        &&& forall|i: int| 0 <= i < GRID_ROWS * GRID_COLS ==> #[trigger] self.alive@[i]
        &&& self.offset_x == INIT_OFFSET_X
        &&& self.offset_y == INIT_OFFSET_Y
        &&& self.moving_right
        &&& self.move_timer_ms == self.period_ms
    }

    /// The move period a formation spawned on `level` uses: the base period,
    /// shortened per level down to the minimum.
    pub open spec fn spec_period_for_level(level: u32) -> int {
        if level <= 1 {
            BASE_MOVE_PERIOD_MS as int
        } else if (level - 1) * LEVEL_SPEEDUP_MS >= BASE_MOVE_PERIOD_MS - MIN_MOVE_PERIOD_MS {
            MIN_MOVE_PERIOD_MS as int
        } else {
            BASE_MOVE_PERIOD_MS - (level - 1) * LEVEL_SPEEDUP_MS
        }
    }

    pub fn period_for_level(level: u32) -> (p: u32)
        ensures
            p == Self::spec_period_for_level(level),
            MIN_MOVE_PERIOD_MS <= p <= BASE_MOVE_PERIOD_MS,
    {
        if level <= 1 {
            BASE_MOVE_PERIOD_MS
        } else {
            let steps = level - 1;
            if steps >= (BASE_MOVE_PERIOD_MS - MIN_MOVE_PERIOD_MS) / LEVEL_SPEEDUP_MS {
                MIN_MOVE_PERIOD_MS
            } else {
                BASE_MOVE_PERIOD_MS - steps * LEVEL_SPEEDUP_MS
            }
        }
    }

    /// A fresh formation moving at the speed of `level`.
    pub fn new_for_level(level: u32) -> (inv: Invaders)
        ensures
            inv.wf(),
            inv.is_initial_formation(),
            inv.period_ms == Self::spec_period_for_level(level),
            inv.alive_count() == GRID_ROWS * GRID_COLS,
    {
        let mut alive: Vec<bool> = Vec::new();
        let mut i: usize = 0;
        while i < GRID_ROWS * GRID_COLS
            invariant
                i <= GRID_ROWS * GRID_COLS,
                alive@.len() == i,
                forall|k: int| 0 <= k < i ==> alive@[k],
            decreases GRID_ROWS * GRID_COLS - i,
        {
            alive.push(true);
            i = i + 1;
        }
        let period = Self::period_for_level(level);
        let inv = Invaders {
            alive,
            offset_x: INIT_OFFSET_X,
            offset_y: INIT_OFFSET_Y,
            moving_right: true,
            move_timer_ms: period,
            period_ms: period,
        };
        proof {
            lemma_count_all_alive(inv.alive@, (GRID_ROWS * GRID_COLS) as int);
        }
        inv
    }

    /// A fresh first-level formation.
    pub fn new() -> (inv: Invaders)
        ensures
            inv.wf(),
            inv.is_initial_formation(),
            inv.period_ms == BASE_MOVE_PERIOD_MS,
            inv.alive_count() == GRID_ROWS * GRID_COLS,
    {
        Self::new_for_level(1)
    }

    /// Whether grid column `c` still holds an alive cell.
    fn col_has_alive(&self, c: usize) -> (r: bool)
        requires
            self.wf(),
            c < GRID_COLS,
        ensures
            r == self.col_occupied(c as int),
    {
        let mut row: usize = 0;
        while row < GRID_ROWS
            invariant
                self.wf(),
                c < GRID_COLS,
                row <= GRID_ROWS,
                forall|r2: int| 0 <= r2 < row ==> !self.alive_at(r2, c as int),
            decreases GRID_ROWS - row,
        {
            if self.alive[row * GRID_COLS + c] {
                proof {
                    assert(self.alive_at(row as int, c as int));
                }
                return true;
            }
            row = row + 1;
        }
        false
    }

    /// Whether grid row `r` still holds an alive cell.
    fn row_has_alive(&self, r: usize) -> (res: bool)
        requires
            self.wf(),
            r < GRID_ROWS,
        ensures
            res == self.row_occupied(r as int),
    {
        let mut col: usize = 0;
        while col < GRID_COLS
            invariant
                self.wf(),
                r < GRID_ROWS,
                col <= GRID_COLS,
                forall|c2: int| 0 <= c2 < col ==> !self.alive_at(r as int, c2),
            decreases GRID_COLS - col,
        {
            if self.alive[r * GRID_COLS + col] {
                proof {
                    assert(self.alive_at(r as int, col as int));
                }
                return true;
            }
            col = col + 1;
        }
        false
    }

    /// The leftmost grid column that still holds an alive cell.
    fn leftmost_occupied(&self) -> (res: Option<usize>)
        requires
            self.wf(),
        ensures
            match res {
                Some(c) => c < GRID_COLS && self.col_occupied(c as int) && forall|c2: int|
                    0 <= c2 < c ==> !self.col_occupied(c2),
                None => !self.has_alive(),
            },
    {
        let mut c: usize = 0;
        while c < GRID_COLS
            invariant
                self.wf(),
                c <= GRID_COLS,
                forall|c2: int| 0 <= c2 < c ==> !self.col_occupied(c2),
            decreases GRID_COLS - c,
        {
            if self.col_has_alive(c) {
                return Some(c);
            }
            c = c + 1;
        }
        None
    }

    /// The rightmost grid column that still holds an alive cell.
    fn rightmost_occupied(&self) -> (res: Option<usize>)
        requires
            self.wf(),
        ensures
            match res {
                Some(c) => c < GRID_COLS && self.col_occupied(c as int) && forall|c2: int|
                    c < c2 < GRID_COLS ==> !self.col_occupied(c2),
                None => !self.has_alive(),
            },
    {
        let mut c: usize = GRID_COLS;
        while c > 0
            invariant
                self.wf(),
                c <= GRID_COLS,
                forall|c2: int| c <= c2 < GRID_COLS ==> !self.col_occupied(c2),
            decreases c,
        {
            c = c - 1;
            if self.col_has_alive(c) {
                return Some(c);
            }
        }
        None
    }

    /// True iff no alive cells remain.
    pub fn all_killed(&self) -> (r: bool)
        requires
            self.wf(),
        ensures
            r <==> self.alive_count() == 0,
    {
        let n = GRID_ROWS * GRID_COLS;
        let mut i: usize = 0;
        while i < n
            invariant
                self.wf(),
                n == GRID_ROWS * GRID_COLS,
                i <= n,
                forall|j: int| 0 <= j < i ==> !self.alive@[j],
            decreases n - i,
        {
            if self.alive[i] {
                proof {
                    lemma_count_alive_positive(self.alive@, n as int, i as int);
                }
                return false;
            }
            i = i + 1;
        }
        proof {
            lemma_count_none_alive(self.alive@, n as int);
        }
        true
    }

    /// True iff some alive cell has descended to the player's row: the loss
    /// condition.
    pub fn reached_bottom(&self) -> (r: bool)
        requires
            self.wf(),
        ensures
            r == self.spec_reached_bottom(),
    {
        let mut row: usize = 0;
        while row < GRID_ROWS
            invariant
                self.wf(),
                row <= GRID_ROWS,
                forall|r2: int|
                    0 <= r2 < row ==> !(self.row_occupied(r2) && self.offset_y + r2 >= NUM_ROWS
                        - 1),
            decreases GRID_ROWS - row,
        {
            if self.row_has_alive(row) && self.offset_y + (row as i32) >= (NUM_ROWS as i32) - 1 {
                return true;
            }
            row = row + 1;
        }
        false
    }

    /// The formation one update over `delta_ms` leads to: the timer counts
    /// down, and on expiry the formation sweeps one column, or reverses and
    /// descends at an arena edge.
    pub open spec fn spec_step(self, delta_ms: u32) -> Invaders {
        if delta_ms < self.move_timer_ms {
            Invaders { move_timer_ms: (self.move_timer_ms - delta_ms) as u32, ..self }
        } else {
            let ticked = Invaders { move_timer_ms: self.period_ms, ..self };
            if !self.has_alive() {
                ticked
            } else if self.moving_right {
                if self.at_right_edge() {
                    Invaders {
                        moving_right: false,
                        offset_y: (self.offset_y + self.spec_descent()) as i32,
                        ..ticked
                    }
                } else {
                    Invaders { offset_x: (self.offset_x + 1) as i32, ..ticked }
                }
            } else {
                if self.at_left_edge() {
                    Invaders {
                        moving_right: true,
                        offset_y: (self.offset_y + self.spec_descent()) as i32,
                        ..ticked
                    }
                } else {
                    Invaders { offset_x: (self.offset_x - 1) as i32, ..ticked }
                }
            }
        }
    }

    /// Whether one update over `delta_ms` visibly moves the formation.
    pub open spec fn spec_moved(self, delta_ms: u32) -> bool {
        delta_ms >= self.move_timer_ms && self.has_alive()
    }

    /// Some alive cell other than `killed` (grid coordinates of the cell a
    /// hit removes, if any) sits on the player's row.
    pub open spec fn spec_survivor_reaches_bottom(self, killed: Option<(int, int)>) -> bool {
        exists|r: int, c: int|
            Self::in_grid(r, c) && #[trigger] self.alive_at(r, c) && killed != Some((r, c))
                && self.offset_y + r >= NUM_ROWS - 1
    }

    /// After the cell `killed` dies, the formation reaches the bottom iff a
    /// surviving cell sits there.
    pub proof fn lemma_reached_bottom_after_kill(a: Invaders, b: Invaders, killed: Option<(int, int)>)
        requires
            a.alive@.len() == GRID_ROWS * GRID_COLS,
            b.offset_x == a.offset_x,
            b.offset_y == a.offset_y,
            b.alive@ == match killed {
                Some(k) => a.alive@.update(Invaders::idx(k.0, k.1), false),
                None => a.alive@,
            },
            match killed {
                Some(k) => Invaders::in_grid(k.0, k.1),
                None => true,
            },
        ensures
            b.spec_reached_bottom() <==> a.spec_survivor_reaches_bottom(killed),
    {
        if b.spec_reached_bottom() {
            let r0 = choose|r0: int|
                0 <= r0 < GRID_ROWS && #[trigger] b.row_occupied(r0) && b.offset_y + r0
                    >= NUM_ROWS - 1;
            let c0 = choose|c0: int| 0 <= c0 < GRID_COLS && #[trigger] b.alive_at(r0, c0);
            assert(a.alive_at(r0, c0));
            assert(killed != Some((r0, c0)));
            assert(a.spec_survivor_reaches_bottom(killed));
        }
        if a.spec_survivor_reaches_bottom(killed) {
            let (r0, c0) = choose|r0: int, c0: int|
                Self::in_grid(r0, c0) && #[trigger] a.alive_at(r0, c0) && killed != Some((
                    r0,
                    c0,
                )) && a.offset_y + r0 >= NUM_ROWS - 1;
            assert(b.alive_at(r0, c0));
            assert(b.row_occupied(r0));
            assert(b.spec_reached_bottom());
        }
    }

    /// An alive cell's arena position is in bounds.
    pub proof fn lemma_alive_in_bounds(self, r: int, c: int)
        requires
            self.wf(),
            Self::in_grid(r, c),
            self.alive_at(r, c),
        ensures
            0 <= self.offset_x + c < NUM_COLS,
            0 <= self.offset_y + r < NUM_ROWS,
    {
        assert(Self::in_grid(r, c) && self.alive_at(r, c));
    }

    /// The alive count is between zero and the grid size.
    pub proof fn lemma_alive_count_bounds(self)
        requires
            self.wf(),
        ensures
            0 <= self.alive_count() <= GRID_ROWS * GRID_COLS,
    {
        lemma_count_alive_nonneg(self.alive@, (GRID_ROWS * GRID_COLS) as int);
        lemma_count_alive_le(self.alive@, (GRID_ROWS * GRID_COLS) as int);
    }

    /// Well-formedness carries over to a formation with the same alive map
    /// whose displacement still keeps every alive cell in the arena.
    pub proof fn lemma_wf_same_grid(a: Invaders, b: Invaders)
        requires
            a.wf(),
            b.alive@ == a.alive@,
            forall|r: int, c: int|
                Self::in_grid(r, c) && #[trigger] a.alive_at(r, c) ==> 0 <= b.offset_x + c
                    < NUM_COLS && 0 <= b.offset_y + r < NUM_ROWS,
            -(GRID_COLS as int) <= b.offset_x <= NUM_COLS,
            0 <= b.offset_y <= NUM_ROWS,
            1 <= b.period_ms <= BASE_MOVE_PERIOD_MS,
            b.move_timer_ms <= b.period_ms,
        ensures
            b.wf(),
    {
        assert forall|r: int, c: int|
            Self::in_grid(r, c) && #[trigger] b.alive_at(r, c) implies 0 <= b.offset_x + c
                < NUM_COLS && 0 <= b.offset_y + r < NUM_ROWS by {
            assert(a.alive_at(r, c));
        }
    }

    /// Kill the alive cell showing at arena position `(x, y)`, if any.
    /// Returns whether a cell died; nothing else of the formation changes.
    pub fn kill_at_arena(&mut self, x: usize, y: usize) -> (hit: bool)
        requires
            old(self).wf(),
            x < NUM_COLS,
            y < NUM_ROWS,
        ensures
            final(self).wf(),
            hit == old(self).alive_at_arena(x as int, y as int),
            hit ==> final(self).alive@ == old(self).kill_at_arena_map(x as int, y as int),
            hit ==> final(self).alive_count() == old(self).alive_count() - 1,
            !hit ==> *final(self) == *old(self),
            final(self).offset_x == old(self).offset_x,
            final(self).offset_y == old(self).offset_y,
            final(self).moving_right == old(self).moving_right,
            final(self).move_timer_ms == old(self).move_timer_ms,
            final(self).period_ms == old(self).period_ms,
    {
        let cx: i32 = (x as i32) - self.offset_x;
        let cy: i32 = (y as i32) - self.offset_y;
        if 0 <= cy && cy < GRID_ROWS as i32 && 0 <= cx && cx < GRID_COLS as i32 {
            let r = cy as usize;
            let c = cx as usize;
            let i = r * GRID_COLS + c;
            if self.alive[i] {
                self.alive.set(i, false);
                proof {
                    lemma_count_kill_one(
                        old(self).alive@,
                        (GRID_ROWS * GRID_COLS) as int,
                        i as int,
                    );
                    assert forall|r2: int, c2: int|
                        Self::in_grid(r2, c2) && #[trigger] self.alive_at(r2, c2) implies 0
                        <= self.offset_x + c2 < NUM_COLS && 0 <= self.offset_y + r2 < NUM_ROWS by {
                        assert(old(self).alive_at(r2, c2));
                        old(self).lemma_alive_in_bounds(r2, c2);
                    }
                }
                return true;
            }
        }
        false
    }

    /// Advance the formation by `delta_ms` elapsed milliseconds. When the
    /// move timer expires it is reset to the full period and the formation
    /// moves: one column along its sweep direction, or — when an alive cell
    /// sits on the arena edge it sweeps towards — it reverses direction and
    /// descends exactly one row instead (the descent is skipped only when an
    /// alive cell already sits on the player's row). The result reports
    /// whether the formation moved, signalling the movement sound cue.
    pub fn update(&mut self, delta_ms: u32) -> (moved: bool)
        requires
            old(self).wf(),
        ensures
            final(self).wf(),
            *final(self) == old(self).spec_step(delta_ms),
            moved == old(self).spec_moved(delta_ms),
            final(self).alive@ == old(self).alive@,
            final(self).alive_count() == old(self).alive_count(),
            final(self).period_ms == old(self).period_ms,
            delta_ms < old(self).move_timer_ms ==> {
                &&& !moved
                &&& *final(self) == (Invaders { move_timer_ms: (old(self).move_timer_ms - delta_ms) as u32, ..*old(self) })
            },
            delta_ms >= old(self).move_timer_ms ==> final(self).move_timer_ms == old(self).period_ms,
            delta_ms >= old(self).move_timer_ms && !old(self).has_alive() ==> {
                &&& !moved
                &&& final(self).offset_x == old(self).offset_x
                &&& final(self).offset_y == old(self).offset_y
                &&& final(self).moving_right == old(self).moving_right
            },
            delta_ms >= old(self).move_timer_ms && old(self).has_alive() ==> moved,
            delta_ms >= old(self).move_timer_ms && old(self).has_alive() && old(self).moving_right && !old(self).at_right_edge() ==> {
                &&& final(self).offset_x == old(self).offset_x + 1
                &&& final(self).offset_y == old(self).offset_y
                &&& final(self).moving_right
            },
            delta_ms >= old(self).move_timer_ms && old(self).has_alive() && old(self).moving_right && old(self).at_right_edge() ==> {
                &&& final(self).offset_x == old(self).offset_x
                &&& !final(self).moving_right
                &&& final(self).offset_y == old(self).offset_y + old(self).spec_descent()
            },
            delta_ms >= old(self).move_timer_ms && old(self).has_alive() && !old(self).moving_right && !old(self).at_left_edge() ==> {
                &&& final(self).offset_x == old(self).offset_x - 1
                &&& final(self).offset_y == old(self).offset_y
                &&& !final(self).moving_right
            },
            delta_ms >= old(self).move_timer_ms && old(self).has_alive() && !old(self).moving_right && old(self).at_left_edge() ==> {
                &&& final(self).offset_x == old(self).offset_x
                &&& final(self).moving_right
                &&& final(self).offset_y == old(self).offset_y + old(self).spec_descent()
            },
    {
        if delta_ms < self.move_timer_ms {
            self.move_timer_ms = self.move_timer_ms - delta_ms;
            proof {
                Invaders::lemma_wf_same_grid(*old(self), *self);
            }
            return false;
        }
        let lm = self.leftmost_occupied();
        let rm = self.rightmost_occupied();
        let bottom = self.reached_bottom();
        self.move_timer_ms = self.period_ms;
        let l = match lm {
            Some(v) => v,
            None => {
                proof {
                    Invaders::lemma_wf_same_grid(*old(self), *self);
                }
                return false;
            },
        };
        let r = match rm {
            Some(v) => v,
            None => {
                proof {
                    assert(old(self).col_occupied(l as int));
                    assert(old(self).has_alive());
                }
                return false;
            },
        };
        proof {
            assert(old(self).col_occupied(l as int));
            assert(old(self).has_alive());
        }
        if self.moving_right {
            if self.offset_x + (r as i32) == (NUM_COLS as i32) - 1 {
                proof {
                    assert(old(self).at_right_edge());
                }
                self.moving_right = false;
                if !bottom {
                    proof {
                        assert forall|r2: int, c2: int|
                            Self::in_grid(r2, c2) && old(self).alive_at(
                                r2,
                                c2,
                            ) implies old(self).offset_y + r2 < NUM_ROWS - 1 by {
                            assert(old(self).row_occupied(r2));
                            if old(self).offset_y + r2 >= NUM_ROWS - 1 {
                                assert(old(self).spec_reached_bottom());
                            }
                        }
                        assert(old(self).col_occupied(l as int));
                        let rw = choose|rw: int|
                            0 <= rw < GRID_ROWS && #[trigger] old(self).alive_at(rw, l as int);
                        old(self).lemma_alive_in_bounds(rw, l as int);
                    }
                    self.offset_y = self.offset_y + 1;
                }
            } else {
                proof {
                    assert(old(self).col_occupied(r as int));
                    let rw = choose|rw: int|
                        0 <= rw < GRID_ROWS && #[trigger] old(self).alive_at(rw, r as int);
                    old(self).lemma_alive_in_bounds(rw, r as int);
                    assert forall|r2: int, c2: int|
                        Self::in_grid(r2, c2) && old(self).alive_at(
                            r2,
                            c2,
                        ) implies old(self).offset_x + c2 < NUM_COLS - 1 by {
                        assert(old(self).col_occupied(c2));
                        assert(c2 <= r as int);
                        old(self).lemma_alive_in_bounds(r2, c2);
                    }
                    if old(self).at_right_edge() {
                        let c0 = choose|c0: int|
                            0 <= c0 < GRID_COLS && #[trigger] old(self).col_occupied(c0) && old(
                                self,
                            ).offset_x + c0 == NUM_COLS - 1;
                        assert(c0 <= r as int);
                        assert(false);
                    }
                }
                self.offset_x = self.offset_x + 1;
            }
        } else {
            if self.offset_x + (l as i32) == 0 {
                proof {
                    assert(old(self).at_left_edge());
                }
                self.moving_right = true;
                if !bottom {
                    proof {
                        assert forall|r2: int, c2: int|
                            Self::in_grid(r2, c2) && old(self).alive_at(
                                r2,
                                c2,
                            ) implies old(self).offset_y + r2 < NUM_ROWS - 1 by {
                            assert(old(self).row_occupied(r2));
                            if old(self).offset_y + r2 >= NUM_ROWS - 1 {
                                assert(old(self).spec_reached_bottom());
                            }
                        }
                        assert(old(self).col_occupied(l as int));
                        let rw = choose|rw: int|
                            0 <= rw < GRID_ROWS && #[trigger] old(self).alive_at(rw, l as int);
                        old(self).lemma_alive_in_bounds(rw, l as int);
                    }
                    self.offset_y = self.offset_y + 1;
                }
            } else {
                proof {
                    assert(old(self).col_occupied(l as int));
                    let rw = choose|rw: int|
                        0 <= rw < GRID_ROWS && #[trigger] old(self).alive_at(rw, l as int);
                    old(self).lemma_alive_in_bounds(rw, l as int);
                    assert forall|r2: int, c2: int|
                        Self::in_grid(r2, c2) && old(self).alive_at(
                            r2,
                            c2,
                        ) implies old(self).offset_x + c2 > 0 by {
                        assert(old(self).col_occupied(c2));
                        assert(l as int <= c2);
                        old(self).lemma_alive_in_bounds(r2, c2);
                    }
                    if old(self).at_left_edge() {
                        let c0 = choose|c0: int|
                            0 <= c0 < GRID_COLS && #[trigger] old(self).col_occupied(c0) && old(
                                self,
                            ).offset_x + c0 == 0;
                        assert(l as int <= c0);
                        assert(false);
                    }
                }
                self.offset_x = self.offset_x - 1;
            }
        }
        proof {
            Invaders::lemma_wf_same_grid(*old(self), *self);
        }
        true
    }
}

/// An all-alive prefix counts its full length.
proof fn lemma_count_all_alive(s: Seq<bool>, n: int)
    requires
        0 <= n <= s.len(),
        forall|j: int| 0 <= j < n ==> s[j],
    ensures
        count_alive(s, n) == n,
    decreases n,
{
    if n > 0 {
        lemma_count_all_alive(s, n - 1);
    }
}

/// An all-dead prefix counts zero.
proof fn lemma_count_none_alive(s: Seq<bool>, n: int)
    requires
        0 <= n <= s.len(),
        forall|j: int| 0 <= j < n ==> !s[j],
    ensures
        count_alive(s, n) == 0,
    decreases n,
{
    if n > 0 {
        lemma_count_none_alive(s, n - 1);
    }
}

/// A prefix holding an alive entry counts at least one.
proof fn lemma_count_alive_positive(s: Seq<bool>, n: int, i: int)
    requires
        0 <= i < n <= s.len(),
        s[i],
    ensures
        count_alive(s, n) >= 1,
    decreases n,
{
    lemma_count_alive_nonneg(s, n - 1);
    if i < n - 1 {
        lemma_count_alive_positive(s, n - 1, i);
    }
}

/// The count is never negative.
proof fn lemma_count_alive_nonneg(s: Seq<bool>, n: int)
    requires
        n <= s.len(),
    ensures
        count_alive(s, n) >= 0,
    decreases n,
{
    if n > 0 {
        lemma_count_alive_nonneg(s, n - 1);
    }
}

/// The count never exceeds the prefix length.
proof fn lemma_count_alive_le(s: Seq<bool>, n: int)
    requires
        0 <= n <= s.len(),
    ensures
        count_alive(s, n) <= n,
    decreases n,
{
    if n > 0 {
        lemma_count_alive_le(s, n - 1);
    }
}

/// Two maps that agree on a prefix count it alike.
proof fn lemma_count_agree(s: Seq<bool>, t: Seq<bool>, n: int)
    requires
        0 <= n <= s.len(),
        n <= t.len(),
        forall|j: int| 0 <= j < n ==> s[j] == t[j],
    ensures
        count_alive(s, n) == count_alive(t, n),
    decreases n,
{
    if n > 0 {
        lemma_count_agree(s, t, n - 1);
    }
}

/// Killing one alive entry lowers the count by exactly one.
proof fn lemma_count_kill_one(s: Seq<bool>, n: int, i: int)
    requires
        0 <= i < n <= s.len(),
        s[i],
    ensures
        count_alive(s.update(i, false), n) == count_alive(s, n) - 1,
    decreases n,
{
    let t = s.update(i, false);
    if i == n - 1 {
        lemma_count_agree(s, t, n - 1);
    } else {
        lemma_count_kill_one(s, n - 1, i);
    }
}

impl Invaders {
    /// The alternating glyph the formation currently shows: one for the
    /// first half of each move period, the other for the second.
    pub open spec fn spec_sprite(self) -> char {
        if 2 * self.move_timer_ms >= self.period_ms {
            INVADER_SPRITE_A
        } else {
            INVADER_SPRITE_B
        }
    }

    /// Paint every alive cell's glyph at its displaced arena position; no
    /// other cell changes.
    pub fn paint(&self, frame: &mut Frame)
        requires
            old(frame).wf(),
            self.wf(),
        ensures
            final(frame).wf(),
            forall|r: int, c: int|
                Self::in_grid(r, c) && #[trigger] self.alive_at(r, c) ==> final(frame).at(
                    self.offset_x + c,
                    self.offset_y + r,
                ) == self.spec_sprite(),
            forall|i: int, j: int|
                0 <= i < NUM_COLS && 0 <= j < NUM_ROWS && !self.alive_at_arena(i, j)
                    ==> final(frame).at(i, j) == old(frame).at(i, j),
    {
        let sprite = if self.move_timer_ms * 2 >= self.period_ms {
            INVADER_SPRITE_A
        } else {
            INVADER_SPRITE_B
        };
        let mut r: usize = 0;
        while r < GRID_ROWS
            invariant
                self.wf(),
                r <= GRID_ROWS,
                frame.wf(),
                sprite == self.spec_sprite(),
                forall|r2: int, c2: int|
                    Self::in_grid(r2, c2) && #[trigger] self.alive_at(r2, c2) && r2 < r
                        ==> frame.at(self.offset_x + c2, self.offset_y + r2)
                        == self.spec_sprite(),
                forall|i: int, j: int|
                    0 <= i < NUM_COLS && 0 <= j < NUM_ROWS && !self.alive_at_arena(i, j)
                        ==> frame.at(i, j) == old(frame).at(i, j),
            decreases GRID_ROWS - r,
        {
            let mut c: usize = 0;
            while c < GRID_COLS
                invariant
                    self.wf(),
                    r < GRID_ROWS,
                    c <= GRID_COLS,
                    frame.wf(),
                    sprite == self.spec_sprite(),
                    forall|r2: int, c2: int|
                        Self::in_grid(r2, c2) && #[trigger] self.alive_at(r2, c2) && (r2 < r || (
                        r2 == r && c2 < c)) ==> frame.at(self.offset_x + c2, self.offset_y + r2)
                            == self.spec_sprite(),
                    forall|i: int, j: int|
                        0 <= i < NUM_COLS && 0 <= j < NUM_ROWS && !self.alive_at_arena(i, j)
                            ==> frame.at(i, j) == old(frame).at(i, j),
                decreases GRID_COLS - c,
            {
                if self.alive[r * GRID_COLS + c] {
                    proof {
                        assert(self.alive_at(r as int, c as int));
                        self.lemma_alive_in_bounds(r as int, c as int);
                        assert(self.alive_at_arena(
                            self.offset_x + c as int,
                            self.offset_y + r as int,
                        ));
                    }
                    let xe = (self.offset_x + (c as i32)) as usize;
                    let ye = (self.offset_y + (r as i32)) as usize;
                    frame.set(xe, ye, sprite);
                }
                c = c + 1;
            }
            r = r + 1;
        }
    }
}

impl Drawable for Invaders {
    open spec fn well_formed(&self) -> bool {
        self.wf()
    }

    fn draw(&self, frame: &mut Frame) {
        self.paint(frame);
    }
}

} // verus!
