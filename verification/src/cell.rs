use vstd::prelude::*;

verus! {

/// One cell of the grid.
///
/// `is_alive` is the state that is visible in the current generation.
/// `next_state` holds the state computed for the coming generation until the
/// whole grid has been computed and is committed at once.
#[derive(Clone, Copy, Debug)]
pub struct Cell {
    pub is_alive: bool,
    pub next_state: bool,
}

impl Cell {
    /// A cell with the given visible state and nothing pending.
    pub fn new(alive: bool) -> (cell: Cell)
        ensures
            cell.is_alive == alive,
            cell.next_state == false,
    {
        Cell { is_alive: alive, next_state: false }
    }
}

} // verus!
