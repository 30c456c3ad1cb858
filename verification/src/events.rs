//! What the keyboard delivers, one event at a time.

use vstd::prelude::*;

verus! {

/// An event of the input source.
pub enum Event<I> {
    Input(I),
}

/// A key press: a character, or one of the named keys that the player
/// understands. Every other key is `Other`.
#[derive(Clone, Copy, Debug, PartialEq, Eq, Structural)]
pub enum Key {
    Char(char),
    Esc,
    Up,
    Down,
    Left,
    Right,
    Other,
}

/// How the input source is set up: the key after which it stops reading.
#[derive(Clone, Copy, Debug)]
pub struct Config {
    pub exit_key: Key,
}

impl Default for Config {
    fn default() -> (config: Config)
        ensures
            config.exit_key == Key::Char('q'),
    {
        Config { exit_key: Key::Char('q') }
    }
}

impl Config {
    /// Whether the input source stops reading after this key.
    pub fn is_exit(&self, key: Key) -> (stops: bool)
        ensures
            stops == (key == self.exit_key),
    {
        key == self.exit_key
    }
}

} // verus!
