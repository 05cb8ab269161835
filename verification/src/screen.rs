//! A screen as the engine reports it.

use vstd::prelude::*;

verus! {

/// One screen: its name, its size and its position, as plain values.
pub struct Screen {
    pub name: String,
    pub size: (i32, i32),
    pub pos: (i32, i32),
}

impl Screen {
    /// Wraps the values the engine reported for one screen.
    pub fn new(name: String, size: (i32, i32), pos: (i32, i32)) -> (r: Screen)
        ensures
            r.name == name,
            r.size == size,
            r.pos == pos,
    {
        Screen { name, size, pos }
    }
}

} // verus!
