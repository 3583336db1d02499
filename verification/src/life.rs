//! The mathematical model of the automaton.

use vstd::prelude::*;
use vstd::arithmetic::div_mod::lemma_fundamental_div_mod_converse;

verus! {

/// The state of a cell in the next generation, given its current state and
/// the number of its live neighbours.
pub open spec fn next_state(alive: bool, neighbors: int) -> bool {
    neighbors == 3 || (neighbors == 2 && alive)
}

/// A grid of cell states: `alive` lists the cells row by row.
pub struct Grid {
    pub width: nat,
    pub height: nat,
    pub alive: Seq<bool>,
}

impl Grid {
    /// Both dimensions are positive and there is one state per cell.
    pub open spec fn wf(self) -> bool {
        &&& self.width > 0
        &&& self.height > 0
        &&& self.alive.len() == self.width * self.height
    }

    /// Whether `(x, y)` is a position of the grid.
    pub open spec fn contains(self, x: int, y: int) -> bool {
        0 <= x < self.width && 0 <= y < self.height
    }

    /// The place of `(x, y)` in the row-major sequence.
    pub open spec fn index(self, x: int, y: int) -> int {
        y * self.width + x
    }

    /// The state of the cell at `(x, y)`.
    pub open spec fn alive_at(self, x: int, y: int) -> bool
        recommends
            self.contains(x, y),
    {
        self.alive[self.index(x, y)]
    }

    /// What the position `(x, y)` adds to a neighbour count: one for a live
    /// cell of the grid, nothing for a dead cell or a position outside it.
    pub open spec fn live(self, x: int, y: int) -> int {
        if self.contains(x, y) && self.alive_at(x, y) {
            1
        } else {
            0
        }
    }

    /// The number of live cells among the eight positions around `(x, y)`.
    pub open spec fn neighbors(self, x: int, y: int) -> int {
        self.live(x + 1, y) + self.live(x - 1, y) + self.live(x, y + 1) + self.live(x, y - 1)
            + self.live(x + 1, y + 1) + self.live(x + 1, y - 1) + self.live(x - 1, y + 1)
            + self.live(x - 1, y - 1)
    }

    /// The state of the cell at row-major place `i` in the next generation.
    pub open spec fn next_at(self, i: int) -> bool {
        next_state(
            self.alive[i],
            self.neighbors(i % (self.width as int), i / (self.width as int)),
        )
    }

    /// The next generation: every cell is computed from this grid alone.
    pub open spec fn step(self) -> Grid {
        Grid {
            width: self.width,
            height: self.height,
            alive: Seq::new(self.alive.len(), |i: int| self.next_at(i)),
        }
    }

    /// The grid after `n` generations.
    pub open spec fn steps(self, n: nat) -> Grid
        decreases n,
    {
        if n == 0 {
            self
        } else {
            self.step().steps((n - 1) as nat)
        }
    }
}

/// The row-major place of a position of the grid lies inside the sequence,
/// and the position is recovered from it by division.
pub proof fn lemma_index(g: Grid, x: int, y: int)
    requires
        g.wf(),
        g.contains(x, y),
    ensures
        0 <= g.index(x, y) < g.alive.len(),
        g.index(x, y) % (g.width as int) == x,
        g.index(x, y) / (g.width as int) == y,
{
    let w = g.width as int;
    let h = g.height as int;
    assert(0 <= y * w && y * w + w <= h * w) by (nonlinear_arith)
        requires
            0 <= y < h,
            w > 0,
    ;
    assert(h * w == w * h) by (nonlinear_arith);
    lemma_fundamental_div_mod_converse(g.index(x, y), w, y, x);
}

/// Every place of the sequence is the row-major place of one position.
pub proof fn lemma_position(g: Grid, i: int)
    requires
        g.wf(),
        0 <= i < g.alive.len(),
    ensures
        g.contains(i % (g.width as int), i / (g.width as int)),
        g.index(i % (g.width as int), i / (g.width as int)) == i,
{
    let w = g.width as int;
    let h = g.height as int;
    assert(i == (i / w) * w + i % w && 0 <= i % w < w && 0 <= i / w && i / w < h)
        by (nonlinear_arith)
        requires
            0 <= i < w * h,
            w > 0,
    ;
}

/// A step keeps the dimensions, and with them the number of cells.
pub proof fn law_step_keeps_shape(g: Grid)
    requires
        g.wf(),
    ensures
        g.step().wf(),
        g.step().width == g.width,
        g.step().height == g.height,
        g.step().alive.len() == g.width * g.height,
{
}

/// After a step, the cell at `(x, y)` has the state that the rule gives for
/// its state and its neighbour count before the step.
pub proof fn law_step_applies_rule(g: Grid, x: int, y: int)
    requires
        g.wf(),
        g.contains(x, y),
    ensures
        g.step().alive_at(x, y) == next_state(g.alive_at(x, y), g.neighbors(x, y)),
{
    lemma_index(g, x, y);
}

/// A cell with exactly two live neighbours keeps its state through a step.
pub proof fn law_two_neighbors_keep_state(g: Grid, x: int, y: int)
    requires
        g.wf(),
        g.contains(x, y),
        g.neighbors(x, y) == 2,
    ensures
        g.step().alive_at(x, y) == g.alive_at(x, y),
{
    law_step_applies_rule(g, x, y);
}

/// A cell with exactly three live neighbours is alive after a step, whatever
/// it was before.
pub proof fn law_three_neighbors_give_life(g: Grid, x: int, y: int)
    requires
        g.wf(),
        g.contains(x, y),
        g.neighbors(x, y) == 3,
    ensures
        g.step().alive_at(x, y),
{
    law_step_applies_rule(g, x, y);
}

/// A cell with fewer than two or more than three live neighbours is dead
/// after a step.
pub proof fn law_other_counts_give_death(g: Grid, x: int, y: int)
    requires
        g.wf(),
        g.contains(x, y),
        g.neighbors(x, y) != 2,
        g.neighbors(x, y) != 3,
    ensures
        !g.step().alive_at(x, y),
{
    law_step_applies_rule(g, x, y);
}

/// Whether `(x, y)` lies in the first or last column or row of the grid.
pub open spec fn on_edge(g: Grid, x: int, y: int) -> bool {
    x == 0 || x == g.width - 1 || y == 0 || y == g.height - 1
}

/// Whether `(x, y)` lies both in the first or last column and in the first
/// or last row of the grid.
pub open spec fn on_corner(g: Grid, x: int, y: int) -> bool {
    (x == 0 || x == g.width - 1) && (y == 0 || y == g.height - 1)
}

/// No cell counts more than eight neighbours, a cell on an edge no more than
/// five and a cell on a corner no more than three: positions outside the
/// grid add nothing.
pub proof fn law_boundary_clips_neighbors(g: Grid, x: int, y: int)
    requires
        g.wf(),
        g.contains(x, y),
    ensures
        0 <= g.neighbors(x, y) <= 8,
        on_edge(g, x, y) ==> g.neighbors(x, y) <= 5,
        on_corner(g, x, y) ==> g.neighbors(x, y) <= 3,
{
}

/// Whether exactly the cells of the two by two block whose upper left cell
/// is `(bx, by)` are alive.
pub open spec fn is_block(g: Grid, bx: int, by: int) -> bool {
    &&& g.wf()
    &&& g.contains(bx, by)
    &&& g.contains(bx + 1, by + 1)
    &&& forall|x: int, y: int|
        g.contains(x, y) ==> #[trigger] g.alive_at(x, y) == (bx <= x <= bx + 1 && by <= y <= by
            + 1)
}

/// Whether exactly the three cells of the horizontal line around `(cx, cy)`
/// are alive, with a free row above and below and a free column on each
/// side of the centre.
pub open spec fn is_row_blinker(g: Grid, cx: int, cy: int) -> bool {
    &&& g.wf()
    &&& g.contains(cx - 1, cy - 1)
    &&& g.contains(cx + 1, cy + 1)
    &&& forall|x: int, y: int|
        g.contains(x, y) ==> #[trigger] g.alive_at(x, y) == (y == cy && cx - 1 <= x <= cx + 1)
}

/// Whether exactly the three cells of the vertical line around `(cx, cy)`
/// are alive, with a free row above and below and a free column on each
/// side of the centre.
pub open spec fn is_column_blinker(g: Grid, cx: int, cy: int) -> bool {
    &&& g.wf()
    &&& g.contains(cx - 1, cy - 1)
    &&& g.contains(cx + 1, cy + 1)
    &&& forall|x: int, y: int|
        g.contains(x, y) ==> #[trigger] g.alive_at(x, y) == (x == cx && cy - 1 <= y <= cy + 1)
}

/// Two grids of the same shape whose cells agree at every position are the
/// same grid.
pub proof fn lemma_same_cells(a: Grid, b: Grid)
    requires
        a.wf(),
        b.wf(),
        a.width == b.width,
        a.height == b.height,
        forall|x: int, y: int| a.contains(x, y) ==> a.alive_at(x, y) == #[trigger] b.alive_at(x, y),
    ensures
        a == b,
{
    assert forall|i: int| 0 <= i < a.alive.len() implies a.alive[i] == b.alive[i] by {
        lemma_position(a, i);
        let x = i % (a.width as int);
        let y = i / (a.width as int);
        assert(a.alive_at(x, y) == b.alive_at(x, y));
    }
    assert(a.alive =~= b.alive);
}

/// A two by two block on an otherwise dead grid is the same after one step.
pub proof fn law_block_is_still(g: Grid, bx: int, by: int)
    requires
        is_block(g, bx, by),
    ensures
        g.step() == g,
{
    assert forall|x: int, y: int| g.contains(x, y) implies g.alive_at(x, y)
        == #[trigger] g.step().alive_at(x, y) by {
        law_step_applies_rule(g, x, y);
    }
    lemma_same_cells(g, g.step());
}

/// A two by two block on an otherwise dead grid is the same after any
/// number of steps.
pub proof fn law_block_stays_still(g: Grid, bx: int, by: int, n: nat)
    requires
        is_block(g, bx, by),
    ensures
        g.steps(n) == g,
    decreases n,
{
    if n > 0 {
        law_block_is_still(g, bx, by);
        law_block_stays_still(g, bx, by, (n - 1) as nat);
    }
}

/// A horizontal blinker is a vertical one around the same centre after one
/// step.
pub proof fn law_row_blinker_turns(g: Grid, cx: int, cy: int)
    requires
        is_row_blinker(g, cx, cy),
    ensures
        is_column_blinker(g.step(), cx, cy),
{
    assert forall|x: int, y: int| g.contains(x, y) implies #[trigger] g.step().alive_at(x, y) == (x
        == cx && cy - 1 <= y <= cy + 1) by {
        law_step_applies_rule(g, x, y);
    }
}

/// A vertical blinker is a horizontal one around the same centre after one
/// step.
pub proof fn law_column_blinker_turns(g: Grid, cx: int, cy: int)
    requires
        is_column_blinker(g, cx, cy),
    ensures
        is_row_blinker(g.step(), cx, cy),
{
    assert forall|x: int, y: int| g.contains(x, y) implies #[trigger] g.step().alive_at(x, y) == (y
        == cy && cx - 1 <= x <= cx + 1) by {
        law_step_applies_rule(g, x, y);
    }
}

/// A horizontal blinker is vertical after one step and the same grid again
/// after two.
pub proof fn law_blinker_oscillates(g: Grid, cx: int, cy: int)
    requires
        is_row_blinker(g, cx, cy),
    ensures
        is_column_blinker(g.step(), cx, cy),
        g.step().step() == g,
{
    law_row_blinker_turns(g, cx, cy);
    law_column_blinker_turns(g.step(), cx, cy);
    lemma_same_cells(g, g.step().step());
}

} // verus!
