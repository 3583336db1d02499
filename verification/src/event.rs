//! What an input event does to a running simulation.

use vstd::prelude::*;
use crate::world::{GridError, World};

verus! {

/// What the input source reported after a wait.
#[derive(Clone, Copy, Debug, PartialEq, Eq, Structural)]
pub enum InputEvent {
    /// A character key was pressed.
    Key(char),
    /// The display now has this many columns and rows.
    Resize(i32, i32),
    /// Anything else, or no event before the wait ran out.
    Other,
}

/// What the simulation loop does after an event was handled.
#[derive(Clone, Copy, Debug, PartialEq, Eq, Structural)]
pub enum Command {
    /// Go on with the next generation.
    Continue,
    /// Leave the loop.
    Quit,
}

/// Applies one input event to the world: `q` quits, `r` reseeds the cells,
/// a resize replaces the grid by a random one of the new size, and
/// everything else changes nothing. A resize to dimensions that are not
/// positive is refused and changes nothing.
pub fn dispatch(world: &mut World, event: InputEvent) -> (r: Result<Command, GridError>)
    requires
        old(world).wf(),
        event matches InputEvent::Resize(w, h) ==> (w > 0 && h > 0 ==> w * h <= usize::MAX),
    ensures
        final(world).wf(),
        final(world).spec_color() == old(world).spec_color(),
        final(world).spec_token() == old(world).spec_token(),
        match event {
            InputEvent::Key('q') => {
                &&& r == Ok::<Command, GridError>(Command::Quit)
                &&& *final(world) == *old(world)
            },
            InputEvent::Key('r') => {
                &&& r == Ok::<Command, GridError>(Command::Continue)
                &&& final(world)@.width == old(world)@.width
                &&& final(world)@.height == old(world)@.height
                &&& final(world).pending() == old(world).pending()
            },
            InputEvent::Resize(w, h) => if w > 0 && h > 0 {
                &&& r == Ok::<Command, GridError>(Command::Continue)
                &&& final(world)@.width == w
                &&& final(world)@.height == h
                &&& final(world).pending() == Seq::new((w * h) as nat, |i: int| false)
            } else {
                &&& r == Err::<Command, GridError>(GridError::InvalidDimensions)
                &&& *final(world) == *old(world)
            },
            _ => {
                &&& r == Ok::<Command, GridError>(Command::Continue)
                &&& *final(world) == *old(world)
            },
        },
{
    match event {
        InputEvent::Key(key) => {
            if key == 'q' {
                Ok(Command::Quit)
            } else if key == 'r' {
                world.reset();
                Ok(Command::Continue)
            } else {
                Ok(Command::Continue)
            }
        },
        InputEvent::Resize(w, h) => {
            if w <= 0 || h <= 0 {
                Err(GridError::InvalidDimensions)
            } else {
                match world.resize(w as usize, h as usize) {
                    Ok(()) => Ok(Command::Continue),
                    Err(e) => Err(e),
                }
            }
        },
        InputEvent::Other => Ok(Command::Continue),
    }
}

} // verus!
