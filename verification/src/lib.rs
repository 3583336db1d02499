//! Conway's Game of Life on a rectangular grid with a fixed, non-wrapping
//! boundary.
//!
//! [`World`] owns the cells and advances them one generation at a time;
//! [`WorldBuilder`] configures and creates a world; [`life`] holds the
//! mathematical model that every contract is stated over, together with the
//! laws of the automaton.

pub mod cell;
pub mod life;
pub mod random;
pub mod world;
pub mod builder;
pub mod event;
pub mod config;

pub use cell::Cell;
pub use world::{World, Color, DrawCall, GridError};
pub use builder::WorldBuilder;
pub use event::{InputEvent, Command, dispatch};
pub use config::{Config, DEFAULT_TICK_MILLIS, DEFAULT_TOKEN};
