//! The grid of cells and its generation step.

use vstd::prelude::*;
use crate::cell::Cell;
use crate::life::{Grid, lemma_index};
use crate::random::random_states;

verus! {

/// The colour a live cell is drawn in.
#[derive(Clone, Copy, Debug, PartialEq, Eq, Structural)]
pub enum Color {
    Black,
    Red,
    Green,
    Yellow,
    Blue,
    Magenta,
    Cyan,
    White,
    /// The display's own foreground colour.
    Default,
}

/// The colour that a name stands for: one of six named colours, and the
/// display's own colour for every other name.
pub open spec fn color_named(name: Seq<char>) -> Color {
    if name == "red"@ {
        Color::Red
    } else if name == "blue"@ {
        Color::Blue
    } else if name == "green"@ {
        Color::Green
    } else if name == "white"@ {
        Color::White
    } else if name == "black"@ {
        Color::Black
    } else if name == "yellow"@ {
        Color::Yellow
    } else {
        Color::Default
    }
}

/// Whether `name` is the string `word`.
fn is_word(name: &str, word: &str) -> (same: bool)
    ensures
        same == (name@ == word@),
{
    name.to_owned() == word.to_owned()
}

impl Color {
    /// The colour that `name` stands for.
    pub fn from_name(name: &str) -> (color: Color)
        ensures
            color == color_named(name@),
    {
        if is_word(name, "red") {
            Color::Red
        } else if is_word(name, "blue") {
            Color::Blue
        } else if is_word(name, "green") {
            Color::Green
        } else if is_word(name, "white") {
            Color::White
        } else if is_word(name, "black") {
            Color::Black
        } else if is_word(name, "yellow") {
            Color::Yellow
        } else {
            Color::Default
        }
    }
}

/// Why a grid could not be created, resized or filled.
#[derive(Clone, Copy, Debug, PartialEq, Eq, Structural)]
pub enum GridError {
    /// A width or a height that is not positive.
    InvalidDimensions,
    /// A list of cell states whose length is not the number of cells.
    WrongCellCount,
}

/// One character to put on the display: a live cell at column `x`, row `y`.
#[derive(Clone, Copy, Debug, PartialEq, Eq, Structural)]
pub struct DrawCall {
    pub x: usize,
    pub y: usize,
    pub color: Color,
    pub token: char,
}

/// Whether `a` comes before `b` when the grid is read row by row.
pub open spec fn drawn_before(a: DrawCall, b: DrawCall) -> bool {
    a.y < b.y || (a.y == b.y && a.x < b.x)
}

/// Whether `draws` is the rendering of `grid` with the given colour and
/// glyph: one draw call for each live cell and for nothing else, in
/// row-major order.
pub open spec fn is_rendering(grid: Grid, color: Color, token: char, draws: Seq<DrawCall>) -> bool {
    &&& forall|k: int|
        0 <= k < draws.len() ==> {
            &&& grid.contains((#[trigger] draws[k]).x as int, draws[k].y as int)
            &&& grid.alive_at(draws[k].x as int, draws[k].y as int)
            &&& draws[k].color == color
            &&& draws[k].token == token
        }
    &&& forall|x: int, y: int|
        grid.contains(x, y) && #[trigger] grid.alive_at(x, y) ==> exists|k: int|
            0 <= k < draws.len() && (#[trigger] draws[k]).x == x && draws[k].y == y
    &&& forall|j: int, k: int|
        0 <= j < k < draws.len() ==> drawn_before(#[trigger] draws[j], #[trigger] draws[k])
}

/// The row-major place of a position of a `w` by `h` grid is below `w * h`,
/// and a row further down begins `w` places later.
proof fn lemma_place(w: usize, h: usize, x: usize, y: usize)
    by (nonlinear_arith)
    requires
        x < w,
        y < h,
    ensures
        0 <= y * w,
        y * w + x < w * h,
        y * w + w == (y + 1) * w,
        w * h == h * w,
{
}

/// A rectangular world of cells, stored row by row.
#[derive(Debug)]
pub struct World {
    width: usize,
    height: usize,
    cell_color: Color,
    cell_token: char,
    cells: Vec<Cell>,
}

impl View for World {
    type V = Grid;

    /// The dimensions and the visible state of every cell.
    closed spec fn view(&self) -> Grid {
        Grid {
            width: self.width as nat,
            height: self.height as nat,
            alive: Seq::new(self.cells@.len(), |i: int| self.cells@[i].is_alive),
        }
    }
}

impl World {
    /// The pending state of every cell, row by row.
    pub closed spec fn pending(&self) -> Seq<bool> {
        Seq::new(self.cells@.len(), |i: int| self.cells@[i].next_state)
    }

    /// The colour live cells are drawn in.
    pub closed spec fn spec_color(&self) -> Color {
        self.cell_color
    }

    /// The glyph live cells are drawn with.
    pub closed spec fn spec_token(&self) -> char {
        self.cell_token
    }

    /// The dimensions are positive and there is exactly one cell for each
    /// position.
    pub open spec fn wf(&self) -> bool {
        &&& self@.wf()
        &&& self.pending().len() == self@.alive.len()
    }

    /// A well-formed world stores as many cells as its dimensions ask for.
    proof fn lemma_len(&self)
        requires
            self.wf(),
        ensures
            self.cells@.len() == self@.alive.len(),
            self.cells@.len() == self.width * self.height,
    {
    }

    /// A world of the given size whose cells have the given visible states
    /// and nothing pending.
    pub(crate) fn assemble(
        width: usize,
        height: usize,
        color: Color,
        token: char,
        states: &Vec<bool>,
    ) -> (world: World)
        requires
            width > 0,
            height > 0,
            states@.len() == width * height,
        ensures
            world.wf(),
            world@ == (Grid { width: width as nat, height: height as nat, alive: states@ }),
            world.pending() == Seq::new(states@.len(), |i: int| false),
            world.spec_color() == color,
            world.spec_token() == token,
    {
        let mut cells: Vec<Cell> = Vec::new();
        let mut i: usize = 0;
        while i < states.len()
            invariant
                i <= states@.len(),
                cells@.len() == i,
                forall|k: int|
                    0 <= k < i ==> (#[trigger] cells@[k]).is_alive == states@[k]
                        && !cells@[k].next_state,
            decreases states@.len() - i,
        {
            cells.push(Cell::new(states[i]));
            i += 1;
        }
        let world = World { width, height, cell_color: color, cell_token: token, cells };
        proof {
            assert(world@.alive =~= states@);
            assert(world.pending() =~= Seq::new(states@.len(), |i: int| false));
        }
        world
    }

    /// The number of columns.
    pub fn width(&self) -> (w: usize)
        ensures
            w == self@.width,
    {
        self.width
    }

    /// The number of rows.
    pub fn height(&self) -> (h: usize)
        ensures
            h == self@.height,
    {
        self.height
    }

    /// The number of cells, which is always the width times the height.
    pub fn cell_count(&self) -> (n: usize)
        requires
            self.wf(),
        ensures
            n == self@.width * self@.height,
            n == self@.alive.len(),
    {
        self.cells.len()
    }

    /// The colour live cells are drawn in.
    pub fn color(&self) -> (c: Color)
        ensures
            c == self.spec_color(),
    {
        self.cell_color
    }

    /// The glyph live cells are drawn with.
    pub fn token(&self) -> (t: char)
        ensures
            t == self.spec_token(),
    {
        self.cell_token
    }

    /// Where the cell at column `x`, row `y` is stored.
    fn place(&self, x: usize, y: usize) -> (i: usize)
        requires
            self.wf(),
            self@.contains(x as int, y as int),
        ensures
            i == self@.index(x as int, y as int),
            i < self.cells@.len(),
    {
        proof {
            lemma_place(self.width, self.height, x, y);
            self.lemma_len();
            assert(y * self.width + x < self.cells.len());
        }
        x + y * self.width
    }

    /// The visible state of the cell at column `x`, row `y`.
    pub fn cell_is_alive_at(&self, x: usize, y: usize) -> (alive: bool)
        requires
            self.wf(),
            self@.contains(x as int, y as int),
        ensures
            alive == self@.alive_at(x as int, y as int),
    {
        let i = self.place(x, y);
        self.cells[i].is_alive
    }

    /// The cell at column `x`, row `y`, with its visible and pending state.
    pub fn cell_at(&self, x: usize, y: usize) -> (cell: Cell)
        requires
            self.wf(),
            self@.contains(x as int, y as int),
        ensures
            cell.is_alive == self@.alive_at(x as int, y as int),
            cell.next_state == self.pending()[self@.index(x as int, y as int)],
    {
        let i = self.place(x, y);
        self.cells[i]
    }

    /// Counts the live cells around `(x, y)`, looking only at positions
    /// inside the grid.
    fn neighbor_count(&self, x: usize, y: usize) -> (n: u8)
        requires
            self.wf(),
            self@.contains(x as int, y as int),
        ensures
            n == self@.neighbors(x as int, y as int),
    {
        let w = self.width;
        let h = self.height;
        let mut n: u8 = 0;
        if x + 1 < w && self.cell_is_alive_at(x + 1, y) {
            n += 1;
        }
        if x >= 1 && self.cell_is_alive_at(x - 1, y) {
            n += 1;
        }
        if y + 1 < h && self.cell_is_alive_at(x, y + 1) {
            n += 1;
        }
        if y >= 1 && self.cell_is_alive_at(x, y - 1) {
            n += 1;
        }
        if (x + 1 < w && y + 1 < h) && self.cell_is_alive_at(x + 1, y + 1) {
            n += 1;
        }
        if (x + 1 < w && y >= 1) && self.cell_is_alive_at(x + 1, y - 1) {
            n += 1;
        }
        if (x >= 1 && y + 1 < h) && self.cell_is_alive_at(x - 1, y + 1) {
            n += 1;
        }
        if (x >= 1 && y >= 1) && self.cell_is_alive_at(x - 1, y - 1) {
            n += 1;
        }
        n
    }

    /// Advances the world by one generation.
    ///
    /// The next state of every cell is first computed into its pending
    /// field, from the visible states alone; then all pending states are
    /// committed. The whole grid so moves at once.
    pub fn update(&mut self)
        requires
            old(self).wf(),
        ensures
            final(self).wf(),
            final(self)@ == old(self)@.step(),
            final(self).pending() == final(self)@.alive,
            final(self).spec_color() == old(self).spec_color(),
            final(self).spec_token() == old(self).spec_token(),
    {
        let ghost before = self@;
        let ghost color = self.cell_color;
        let ghost token = self.cell_token;
        let w = self.width;
        let h = self.height;
        let mut y: usize = 0;
        while y < h
            invariant
                self.wf(),
                self@ == before,
                self.width == w,
                self.height == h,
                self.cell_color == color,
                self.cell_token == token,
                y <= h,
                forall|i: int|
                    0 <= i < y * w ==> (#[trigger] self.cells@[i]).next_state == before.next_at(i),
            decreases h - y,
        {
            let mut x: usize = 0;
            while x < w
                invariant
                    self.wf(),
                    self@ == before,
                    self.width == w,
                    self.height == h,
                    self.cell_color == color,
                    self.cell_token == token,
                    y < h,
                    x <= w,
                    forall|i: int|
                        0 <= i < y * w + x ==> (#[trigger] self.cells@[i]).next_state
                            == before.next_at(i),
                decreases w - x,
            {
                proof {
                    lemma_index(before, x as int, y as int);
                }
                let n = self.neighbor_count(x, y);
                let i = self.place(x, y);
                let cell = self.cells[i];
                let next = match n {
                    2 => cell.is_alive,
                    3 => true,
                    _ => false,
                };
                self.cells.set(i, Cell { is_alive: cell.is_alive, next_state: next });
                proof {
                    assert(self@.alive =~= before.alive);
                }
                x += 1;
            }
            proof {
                lemma_place(w, h, 0, y);
            }
            y += 1;
        }
        proof {
            lemma_place(w, h, 0, 0);
            self.lemma_len();
        }

        let len = self.cells.len();
        let mut i: usize = 0;
        while i < len
            invariant
                self.width == w,
                self.height == h,
                self.cell_color == color,
                self.cell_token == token,
                before.wf(),
                before.width == w,
                before.height == h,
                len == before.alive.len(),
                self.cells@.len() == len,
                i <= len,
                forall|k: int|
                    0 <= k < len ==> (#[trigger] self.cells@[k]).next_state == before.next_at(k),
                forall|k: int|
                    0 <= k < i ==> (#[trigger] self.cells@[k]).is_alive == before.next_at(k),
            decreases len - i,
        {
            let cell = self.cells[i];
            self.cells.set(i, Cell { is_alive: cell.next_state, next_state: cell.next_state });
            i += 1;
        }
        proof {
            assert(self@.alive =~= before.step().alive);
            assert(self.pending() =~= self@.alive);
        }
    }

    /// Gives every cell the visible state that `states` lists for it, row
    /// by row, and leaves dimensions and pending states alone. A list of
    /// the wrong length is refused and changes nothing.
    pub fn reset_with(&mut self, states: &Vec<bool>) -> (r: Result<(), GridError>)
        requires
            old(self).wf(),
        ensures
            final(self).wf(),
            states@.len() == old(self)@.alive.len() ==> {
                &&& r == Ok::<(), GridError>(())
                &&& final(self)@ == (Grid { alive: states@, ..old(self)@ })
                &&& final(self).pending() == old(self).pending()
                &&& final(self).spec_color() == old(self).spec_color()
                &&& final(self).spec_token() == old(self).spec_token()
            },
            states@.len() != old(self)@.alive.len() ==> {
                &&& r == Err::<(), GridError>(GridError::WrongCellCount)
                &&& *final(self) == *old(self)
            },
    {
        let len = self.cells.len();
        if states.len() != len {
            return Err(GridError::WrongCellCount);
        }
        let ghost before = *self;
        let mut i: usize = 0;
        while i < len
            invariant
                self.width == before.width,
                self.height == before.height,
                self.cell_color == before.cell_color,
                self.cell_token == before.cell_token,
                self.cells@.len() == len,
                before.cells@.len() == len,
                states@.len() == len,
                i <= len,
                forall|k: int|
                    0 <= k < len ==> (#[trigger] self.cells@[k]).next_state
                        == before.cells@[k].next_state,
                forall|k: int| 0 <= k < i ==> (#[trigger] self.cells@[k]).is_alive == states@[k],
            decreases len - i,
        {
            let cell = self.cells[i];
            self.cells.set(i, Cell { is_alive: states[i], next_state: cell.next_state });
            i += 1;
        }
        proof {
            assert(self@.alive =~= states@);
            assert(self.pending() =~= before.pending());
        }
        Ok(())
    }

    /// Gives every cell a fresh random state. Dimensions, colour, glyph and
    /// pending states stay as they are; of the new visible states nothing
    /// is promised.
    pub fn reset(&mut self)
        requires
            old(self).wf(),
        ensures
            final(self).wf(),
            final(self)@.width == old(self)@.width,
            final(self)@.height == old(self)@.height,
            final(self)@.alive.len() == old(self)@.alive.len(),
            final(self).pending() == old(self).pending(),
            final(self).spec_color() == old(self).spec_color(),
            final(self).spec_token() == old(self).spec_token(),
    {
        let states = random_states(self.cells.len());
        let _ = self.reset_with(&states);
    }

    /// Replaces the grid by one of `w` columns and `h` rows whose cells have
    /// the visible states that `states` lists, row by row, and nothing
    /// pending. No old cell is carried over. Dimensions that are not
    /// positive are refused first, then a list of the wrong length; a
    /// refusal changes nothing.
    pub fn resize_with(&mut self, w: usize, h: usize, states: &Vec<bool>) -> (r: Result<
        (),
        GridError,
    >)
        requires
            old(self).wf(),
        ensures
            final(self).wf(),
            final(self).spec_color() == old(self).spec_color(),
            final(self).spec_token() == old(self).spec_token(),
            (w == 0 || h == 0) ==> {
                &&& r == Err::<(), GridError>(GridError::InvalidDimensions)
                &&& *final(self) == *old(self)
            },
            (w > 0 && h > 0 && states@.len() != w * h) ==> {
                &&& r == Err::<(), GridError>(GridError::WrongCellCount)
                &&& *final(self) == *old(self)
            },
            (w > 0 && h > 0 && states@.len() == w * h) ==> {
                &&& r == Ok::<(), GridError>(())
                &&& final(self)@ == (Grid { width: w as nat, height: h as nat, alive: states@ })
                &&& final(self).pending() == Seq::new(states@.len(), |i: int| false)
            },
    {
        if w == 0 || h == 0 {
            return Err(GridError::InvalidDimensions);
        }
        let given = states.len();
        match w.checked_mul(h) {
            Some(n) => {
                if n == given {
                    *self = World::assemble(w, h, self.cell_color, self.cell_token, states);
                    Ok(())
                } else {
                    Err(GridError::WrongCellCount)
                }
            },
            None => Err(GridError::WrongCellCount),
        }
    }

    /// Replaces the grid by one of `w` columns and `h` rows with random
    /// cells and nothing pending. Dimensions that are not positive are
    /// refused and change nothing.
    pub fn resize(&mut self, w: usize, h: usize) -> (r: Result<(), GridError>)
        requires
            old(self).wf(),
            w * h <= usize::MAX,
        ensures
            final(self).wf(),
            final(self).spec_color() == old(self).spec_color(),
            final(self).spec_token() == old(self).spec_token(),
            (w == 0 || h == 0) ==> {
                &&& r == Err::<(), GridError>(GridError::InvalidDimensions)
                &&& *final(self) == *old(self)
            },
            (w > 0 && h > 0) ==> {
                &&& r == Ok::<(), GridError>(())
                &&& final(self)@.width == w
                &&& final(self)@.height == h
                &&& final(self)@.alive.len() == w * h
                &&& final(self).pending() == Seq::new((w * h) as nat, |i: int| false)
            },
    {
        if w == 0 || h == 0 {
            return Err(GridError::InvalidDimensions);
        }
        let states = random_states(w * h);
        self.resize_with(w, h, &states)
    }

    /// The draw calls that put the world on a display: one for each live
    /// cell, row by row, with the world's colour and glyph. Dead cells are
    /// not drawn.
    pub fn render(&self) -> (draws: Vec<DrawCall>)
        requires
            self.wf(),
        ensures
            is_rendering(self@, self.spec_color(), self.spec_token(), draws@),
    {
        let w = self.width;
        let h = self.height;
        let mut draws: Vec<DrawCall> = Vec::new();
        let mut y: usize = 0;
        while y < h
            invariant
                self.wf(),
                self.width == w,
                self.height == h,
                y <= h,
                self.rendered_up_to(draws@, 0, y as int),
            decreases h - y,
        {
            let mut x: usize = 0;
            while x < w
                invariant
                    self.wf(),
                    self.width == w,
                    self.height == h,
                    y < h,
                    x <= w,
                    self.rendered_up_to(draws@, x as int, y as int),
                decreases w - x,
            {
                if self.cell_is_alive_at(x, y) {
                    let ghost earlier = draws@;
                    let call = DrawCall { x, y, color: self.cell_color, token: self.cell_token };
                    draws.push(call);
                    proof {
                        assert(forall|k: int| 0 <= k < earlier.len() ==> draws@[k] == earlier[k]);
                        assert(draws@[earlier.len() as int] == call);
                    }
                }
                x += 1;
            }
            y += 1;
        }
        draws
    }

    /// What holds of the draw calls when every position before `(x, y)` in
    /// row-major order has been looked at.
    spec fn rendered_up_to(&self, draws: Seq<DrawCall>, x: int, y: int) -> bool {
        &&& forall|k: int|
            0 <= k < draws.len() ==> {
                &&& self@.contains((#[trigger] draws[k]).x as int, draws[k].y as int)
                &&& self@.alive_at(draws[k].x as int, draws[k].y as int)
                &&& draws[k].color == self.cell_color
                &&& draws[k].token == self.cell_token
                &&& (draws[k].y < y || (draws[k].y == y && draws[k].x < x))
            }
        &&& forall|cx: int, cy: int|
            self@.contains(cx, cy) && #[trigger] self@.alive_at(cx, cy) && (cy < y || (cy == y
                && cx < x)) ==> exists|k: int|
                0 <= k < draws.len() && (#[trigger] draws[k]).x == cx && draws[k].y == cy
        &&& forall|j: int, k: int|
            0 <= j < k < draws.len() ==> drawn_before(#[trigger] draws[j], #[trigger] draws[k])
    }
}

} // verus!
