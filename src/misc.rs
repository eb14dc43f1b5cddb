//! Small value types shared by diagrams and nodes.

use vstd::prelude::*;

verus! {

/// A position on the diagram's canvas.
#[derive(Debug, Clone, Copy, PartialEq, Eq, Structural)]
pub struct CoggleOffset {
    pub x: i32,
    pub y: i32,
}

} // verus!
