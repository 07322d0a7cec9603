//! Movement describes the movement of the read/write head of a Turing machine.

use vstd::prelude::*;

verus! {

/// The ways the read/write head can move is restricted to Left and Right. The
/// movement is performed after the symbol has been written.
#[derive(Clone, Copy, Debug, PartialEq, Eq, Structural)]
pub enum Movement {
    /// Moves the head one cell to the left.
    Left,
    /// Moves the head one cell to the right.
    Right,
}

} // verus!
