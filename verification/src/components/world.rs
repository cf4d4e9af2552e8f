use vstd::prelude::*;

verus! {

/// A physical location in the city grid.
#[derive(Debug, Clone, Copy, PartialEq, Eq, Structural)]
pub struct Position {
    pub x: i32,
    pub y: i32,
}

/// Stable identifier for addressing entities externally.
#[derive(Debug, Clone, Copy, PartialEq, Eq, Structural)]
pub struct EntityId(pub u32);

} // verus!
