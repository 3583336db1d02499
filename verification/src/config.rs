//! What the simulation loop is configured with.

use vstd::prelude::*;
use vstd::string::StrSliceExecFns;
use crate::world::{Color, color_named};

verus! {

/// The time to wait for input between two generations when none is
/// configured, in milliseconds.
pub const DEFAULT_TICK_MILLIS: u64 = 100;

/// The glyph live cells are drawn with when none is configured.
pub const DEFAULT_TOKEN: char = '*';

/// The colour and glyph of live cells and the time between generations.
#[derive(Clone, Copy, Debug, PartialEq, Eq, Structural)]
pub struct Config {
    pub color: Color,
    pub token: char,
    pub tick_millis: u64,
}

/// The colour for an optional colour name: the display's own colour
/// without a name.
pub open spec fn color_for(name: Option<&str>) -> Color {
    match name {
        Some(n) => color_named(n@),
        None => Color::Default,
    }
}

/// The glyph for an optional text: its first character, and the default
/// glyph without a text or with an empty one.
pub open spec fn token_for(text: Option<&str>) -> char {
    match text {
        Some(t) => if t@.len() > 0 {
            t@[0]
        } else {
            DEFAULT_TOKEN
        },
        None => DEFAULT_TOKEN,
    }
}

/// The tick for an optional number of milliseconds.
pub open spec fn tick_for(millis: Option<u64>) -> u64 {
    match millis {
        Some(m) => m,
        None => DEFAULT_TICK_MILLIS,
    }
}

impl Config {
    /// The configuration for what was given, with the default in place of
    /// each setting that was not.
    pub fn new(color_name: Option<&str>, tick_millis: Option<u64>, token: Option<&str>) -> (config:
        Config)
        ensures
            config.color == color_for(color_name),
            config.tick_millis == tick_for(tick_millis),
            config.token == token_for(token),
    {
        let color = match color_name {
            Some(name) => Color::from_name(name),
            None => Color::Default,
        };
        let tick = match tick_millis {
            Some(m) => m,
            None => DEFAULT_TICK_MILLIS,
        };
        let glyph = match token {
            Some(text) => {
                if text.is_empty() {
                    DEFAULT_TOKEN
                } else {
                    text.get_char(0)
                }
            },
            None => DEFAULT_TOKEN,
        };
        Config { color, token: glyph, tick_millis: tick }
    }
}

impl Default for Config {
    /// The display's own colour, the glyph `*` and a tenth of a second
    /// between generations.
    fn default() -> (config: Config)
        ensures
            config.color == Color::Default,
            config.token == '*',
            config.tick_millis == 100,
    {
        Config { color: Color::Default, token: DEFAULT_TOKEN, tick_millis: DEFAULT_TICK_MILLIS }
    }
}

} // verus!
