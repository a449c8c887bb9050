//! How text is placed inside its bounds.
use vstd::prelude::*;

verus! {

/// Horizontal placement.
#[derive(Debug, Clone, Copy, PartialEq, Eq, Structural, Hash)]
pub enum Horizontal {
    Left,
    Center,
    Right,
}

/// Vertical placement.
#[derive(Debug, Clone, Copy, PartialEq, Eq, Structural, Hash)]
pub enum Vertical {
    Top,
    Center,
    Bottom,
}

} // verus!
