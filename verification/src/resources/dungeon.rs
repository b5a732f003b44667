//! Pieces of a dungeon room.

use vstd::prelude::*;

verus! {

/// Which wall of the room a block belongs to, if any.
#[derive(Clone, Copy, Debug, PartialEq, Eq, Structural)]
pub enum BlockType {
    WallTop,
    WallBottom,
    WallLeft,
    WallRight,
    /// Not a wall: the player walks over it.
    NoWall,
}

} // verus!
