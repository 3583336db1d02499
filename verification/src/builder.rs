//! Configuring and creating a world.

use vstd::prelude::*;
use crate::life::Grid;
use crate::random::random_states;
use crate::world::{Color, GridError, World};

verus! {

/// Collects the size, colour and glyph of a world before it is created.
#[derive(Clone, Copy, Debug)]
pub struct WorldBuilder {
    width: i32,
    height: i32,
    cell_color: Color,
    cell_token: char,
}

impl WorldBuilder {
    /// The number of columns asked for.
    pub closed spec fn spec_width(&self) -> int {
        self.width as int
    }

    /// The number of rows asked for.
    pub closed spec fn spec_height(&self) -> int {
        self.height as int
    }

    /// The colour asked for.
    pub closed spec fn spec_color(&self) -> Color {
        self.cell_color
    }

    /// The glyph asked for.
    pub closed spec fn spec_token(&self) -> char {
        self.cell_token
    }

    /// Whether both dimensions are positive.
    pub open spec fn has_valid_size(&self) -> bool {
        self.spec_width() > 0 && self.spec_height() > 0
    }

    /// A builder with no size yet, the display's own colour and the glyph
    /// `*`.
    pub fn new() -> (builder: WorldBuilder)
        ensures
            builder.spec_width() == 0,
            builder.spec_height() == 0,
            builder.spec_color() == Color::Default,
            builder.spec_token() == '*',
    {
        WorldBuilder { width: 0, height: 0, cell_color: Color::Default, cell_token: '*' }
    }

    /// Creates the world whose cells have the visible states that `states`
    /// lists, row by row, and nothing pending. Dimensions that are not
    /// positive are refused first, then a list whose length is not the
    /// number of cells.
    pub fn build_with(&self, states: &Vec<bool>) -> (r: Result<World, GridError>)
        ensures
            !self.has_valid_size() ==> r == Err::<World, GridError>(GridError::InvalidDimensions),
            self.has_valid_size() && states@.len() != self.spec_width() * self.spec_height() ==> r
                == Err::<World, GridError>(GridError::WrongCellCount),
            self.has_valid_size() && states@.len() == self.spec_width() * self.spec_height() ==> {
                &&& r is Ok
                &&& r->Ok_0.wf()
                &&& r->Ok_0@ == (Grid {
                    width: self.spec_width() as nat,
                    height: self.spec_height() as nat,
                    alive: states@,
                })
                &&& r->Ok_0.pending() == Seq::new(states@.len(), |i: int| false)
                &&& r->Ok_0.spec_color() == self.spec_color()
                &&& r->Ok_0.spec_token() == self.spec_token()
            },
    {
        if self.width <= 0 || self.height <= 0 {
            return Err(GridError::InvalidDimensions);
        }
        let w = self.width as usize;
        let h = self.height as usize;
        let given = states.len();
        match w.checked_mul(h) {
            Some(n) => {
                if n == given {
                    Ok(World::assemble(w, h, self.cell_color, self.cell_token, states))
                } else {
                    Err(GridError::WrongCellCount)
                }
            },
            None => Err(GridError::WrongCellCount),
        }
    }

    /// Creates the world with random cells and nothing pending. Dimensions
    /// that are not positive are refused; of the visible states nothing is
    /// promised.
    pub fn build(&self) -> (r: Result<World, GridError>)
        requires
            self.has_valid_size() ==> self.spec_width() * self.spec_height() <= usize::MAX,
        ensures
            !self.has_valid_size() ==> r == Err::<World, GridError>(GridError::InvalidDimensions),
            self.has_valid_size() ==> {
                &&& r is Ok
                &&& r->Ok_0.wf()
                &&& r->Ok_0@.width == self.spec_width()
                &&& r->Ok_0@.height == self.spec_height()
                &&& r->Ok_0@.alive.len() == self.spec_width() * self.spec_height()
                &&& r->Ok_0.pending() == Seq::new(r->Ok_0@.alive.len(), |i: int| false)
                &&& r->Ok_0.spec_color() == self.spec_color()
                &&& r->Ok_0.spec_token() == self.spec_token()
            },
    {
        if self.width <= 0 || self.height <= 0 {
            return Err(GridError::InvalidDimensions);
        }
        let states = random_states((self.width as usize) * (self.height as usize));
        self.build_with(&states)
    }

    /// Sets the size of the world to create.
    pub fn world_size(&mut self, width: i32, height: i32) -> (builder: &mut WorldBuilder)
        ensures
            builder.spec_width() == width,
            builder.spec_height() == height,
            builder.spec_color() == old(self).spec_color(),
            builder.spec_token() == old(self).spec_token(),
            *final(self) == *final(builder),
    {
        self.width = width;
        self.height = height;
        self
    }

    /// Sets the colour live cells are drawn in.
    pub fn cell_color(&mut self, color: Color) -> (builder: &mut WorldBuilder)
        ensures
            builder.spec_width() == old(self).spec_width(),
            builder.spec_height() == old(self).spec_height(),
            builder.spec_color() == color,
            builder.spec_token() == old(self).spec_token(),
            *final(self) == *final(builder),
    {
        self.cell_color = color;
        self
    }

    /// Sets the glyph live cells are drawn with.
    pub fn cell_token(&mut self, token: char) -> (builder: &mut WorldBuilder)
        ensures
            builder.spec_width() == old(self).spec_width(),
            builder.spec_height() == old(self).spec_height(),
            builder.spec_color() == old(self).spec_color(),
            builder.spec_token() == token,
            *final(self) == *final(builder),
    {
        self.cell_token = token;
        self
    }
}

} // verus!
