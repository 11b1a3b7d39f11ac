//! The diff renderer: turns consecutive frames into per-cell paint commands,
//! repainting only cells whose character changed — except for the first
//! frame of a session, which is painted in full to establish the baseline.

use vstd::prelude::*;
use vstd::arithmetic::div_mod::lemma_fundamental_div_mod;
use vstd::arithmetic::div_mod::lemma_fundamental_div_mod_converse;
use crate::NUM_COLS;
use crate::NUM_ROWS;
use crate::frame::Frame;
use crate::frame::new_frame;

verus! {

/// Number of positions among the first `n` where `a` and `b` differ.
pub open spec fn diff_count_prefix(a: Seq<char>, b: Seq<char>, n: int) -> int
    decreases n,
{
    if n <= 0 {
        0
    } else {
        diff_count_prefix(a, b, n - 1) + if a[n - 1] == b[n - 1] {
            0int
        } else {
            1int
        }
    }
}

/// Number of cells where frames `a` and `b` show different characters.
pub open spec fn diff_count(a: Frame, b: Frame) -> int {
    diff_count_prefix(a.cells@, b.cells@, (NUM_ROWS * NUM_COLS) as int)
}

/// Every paint command `(x, y, c)` targets an in-bounds cell, carries the
/// character `curr` shows there, and — unless `force` — targets a cell on
/// which `last` and `curr` differ.
pub open spec fn paints_sound(
    last: Frame,
    curr: Frame,
    force: bool,
    ps: Seq<(usize, usize, char)>,
) -> bool {
    forall|k: int|
        0 <= k < ps.len() ==> (#[trigger] ps[k]).0 < NUM_COLS && ps[k].1 < NUM_ROWS && ps[k].2
            == curr.at(ps[k].0 as int, ps[k].1 as int) && (force || last.at(
            ps[k].0 as int,
            ps[k].1 as int,
        ) != curr.at(ps[k].0 as int, ps[k].1 as int))
}

/// Every cell on which `last` and `curr` differ (every cell, under `force`)
/// gets a paint command, at its row-major place in the list.
pub open spec fn paints_complete(
    last: Frame,
    curr: Frame,
    force: bool,
    ps: Seq<(usize, usize, char)>,
) -> bool {
    forall|x: int, y: int| #![trigger curr.at(x, y)]
        0 <= x < NUM_COLS && 0 <= y < NUM_ROWS && (force || last.at(x, y) != curr.at(x, y)) ==> {
            let k = paint_pos(last.cells@, curr.cells@, force, y * (NUM_COLS as int) + x);
            0 <= k < ps.len() && ps[k] == (x as usize, y as usize, curr.at(x, y))
        }
}

/// Index in the paint list of the command for flat cell `j`: under `force`
/// every cell is painted, otherwise only the differing cells before `j`
/// precede it.
pub open spec fn paint_pos(a: Seq<char>, b: Seq<char>, force: bool, j: int) -> int {
    if force {
        j
    } else {
        diff_count_prefix(a, b, j)
    }
}

/// The count of differing positions never shrinks as the prefix grows.
proof fn lemma_diff_count_mono(a: Seq<char>, b: Seq<char>, m: int, n: int)
    requires
        0 <= m <= n,
    ensures
        diff_count_prefix(a, b, m) <= diff_count_prefix(a, b, n),
    decreases n,
{
    if n > m {
        lemma_diff_count_mono(a, b, m, n - 1);
    }
}

/// The per-cell paint commands that bring a display showing `last` to show
/// `curr`: with `force`, one for every cell; otherwise one for exactly each
/// differing cell.
pub fn frame_diff(last: &Frame, curr: &Frame, force: bool) -> (paints: Vec<(usize, usize, char)>)
    requires
        last.wf(),
        curr.wf(),
    ensures
        paints@.len() == if force {
            (NUM_ROWS * NUM_COLS) as int
        } else {
            diff_count(*last, *curr)
        },
        paints_sound(*last, *curr, force, paints@),
        paints_complete(*last, *curr, force, paints@),
{
    let n = NUM_ROWS * NUM_COLS;
    let mut paints: Vec<(usize, usize, char)> = Vec::new();
    let mut i: usize = 0;
    while i < n
        invariant
            n == NUM_ROWS * NUM_COLS,
            i <= n,
            last.wf(),
            curr.wf(),
            paints@.len() == paint_pos(last.cells@, curr.cells@, force, i as int),
            paints_sound(*last, *curr, force, paints@),
            forall|px: int, py: int|
                0 <= px < NUM_COLS && 0 <= py < NUM_ROWS && py * NUM_COLS + px < i && (force
                    || #[trigger] last.at(px, py) != curr.at(px, py)) ==> paints@[paint_pos(
                    last.cells@,
                    curr.cells@,
                    force,
                    py * (NUM_COLS as int) + px,
                )] == (px as usize, py as usize, curr.at(px, py)),
        decreases n - i,
    {
        let x = i % NUM_COLS;
        let y = i / NUM_COLS;
        proof {
            lemma_fundamental_div_mod(i as int, NUM_COLS as int);
        }
        let lc = last.cells[i];
        let cc = curr.cells[i];
        let ghost paints0 = paints@;
        if force || lc != cc {
            paints.push((x, y, cc));
        }
        proof {
            assert forall|px: int, py: int|
                0 <= px < NUM_COLS && 0 <= py < NUM_ROWS && py * NUM_COLS + px < i + 1 && (force
                    || #[trigger] last.at(px, py) != curr.at(px, py)) implies paints@[paint_pos(
                last.cells@,
                curr.cells@,
                force,
                py * (NUM_COLS as int) + px,
            )] == (px as usize, py as usize, curr.at(px, py)) by {
                let j = py * (NUM_COLS as int) + px;
                assert(last.cells@[j] == last.at(px, py));
                assert(curr.cells@[j] == curr.at(px, py));
                if j == i {
                    lemma_fundamental_div_mod_converse(j, NUM_COLS as int, py, px);
                    assert(px == x as int && py == y as int);
                    assert(paints@[paints0.len() as int] == (x, y, cc));
                } else {
                    assert(py * NUM_COLS + px < i);
                    lemma_diff_count_mono(last.cells@, curr.cells@, 0, j);
                    lemma_diff_count_mono(last.cells@, curr.cells@, j + 1, i as int);
                    if !force {
                        assert(diff_count_prefix(last.cells@, curr.cells@, j + 1)
                            == diff_count_prefix(last.cells@, curr.cells@, j) + 1);
                    }
                    assert(0 <= paint_pos(last.cells@, curr.cells@, force, j) < paints0.len());
                    assert(paints@[paint_pos(last.cells@, curr.cells@, force, j)] == paints0[
                        paint_pos(last.cells@, curr.cells@, force, j)
                    ]);
                }
            }
        }
        i = i + 1;
    }
    proof {
        assert forall|px: int, py: int| #![trigger curr.at(px, py)]
            0 <= px < NUM_COLS && 0 <= py < NUM_ROWS && (force || last.at(px, py) != curr.at(
                px,
                py,
            )) implies {
            let k = paint_pos(last.cells@, curr.cells@, force, py * (NUM_COLS as int) + px);
            0 <= k < paints@.len() && paints@[k] == (px as usize, py as usize, curr.at(px, py))
        } by {
            let j = py * (NUM_COLS as int) + px;
            assert(last.cells@[j] == last.at(px, py));
            assert(curr.cells@[j] == curr.at(px, py));
            let kw = paint_pos(last.cells@, curr.cells@, force, j);
            lemma_diff_count_mono(last.cells@, curr.cells@, 0, j);
            lemma_diff_count_mono(last.cells@, curr.cells@, j + 1, (NUM_ROWS * NUM_COLS) as int);
            if !force {
                assert(diff_count_prefix(last.cells@, curr.cells@, j + 1) == diff_count_prefix(
                    last.cells@,
                    curr.cells@,
                    j,
                ) + 1);
            }
            assert(0 <= kw < paints@.len());
            assert(paints@[kw] == (px as usize, py as usize, curr.at(px, py)));
        }
    }
    paints
}

/// The render context's state: the last frame it painted, and whether the
/// unconditional first full paint is still owed.
pub struct Renderer {
    pub last: Frame,
    pub first: bool,
}

impl Renderer {
    pub open spec fn wf(self) -> bool {
        self.last.wf()
    }

    pub fn new() -> (r: Renderer)
        ensures
            r.wf(),
            r.first,
    {
        Renderer { last: new_frame(), first: true }
    }

    /// Consume the next frame and return the paint commands it takes: a full
    /// paint the first time, afterwards exactly the cells that changed since
    /// the previously rendered frame.
    pub fn next_frame(&mut self, curr: Frame) -> (paints: Vec<(usize, usize, char)>)
        requires
            old(self).wf(),
            curr.wf(),
        ensures
            final(self).wf(),
            final(self).last == curr,
            !final(self).first,
            paints@.len() == if old(self).first {
                (NUM_ROWS * NUM_COLS) as int
            } else {
                diff_count(old(self).last, curr)
            },
            paints_sound(old(self).last, curr, old(self).first, paints@),
            paints_complete(old(self).last, curr, old(self).first, paints@),
    {
        let paints = frame_diff(&self.last, &curr, self.first);
        self.first = false;
        self.last = curr;
        paints
    }
}

} // verus!
