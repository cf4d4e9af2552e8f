use vstd::prelude::*;

verus! {

/// A health pool for combat resolution.
#[derive(Debug, Clone, Copy, PartialEq, Eq, Structural)]
pub struct Health {
    pub current: i32,
    pub max: i32,
}

impl Health {
    /// Full health of `max`.
    pub fn new(max: i32) -> (h: Health)
        ensures
            h.current == max,
            h.max == max,
    {
        Health { current: max, max }
    }
}

} // verus!
