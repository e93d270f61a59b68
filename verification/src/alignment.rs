use vstd::prelude::*;

verus! {

/// Horizontal anchoring of the toast stack within its container.
#[derive(Copy, Clone, Debug, PartialEq, Eq, Structural)]
pub enum Horizontal {
    Left,
    Center,
    Right,
}

/// Vertical anchoring of the toast stack within its container.
///
/// The most recently pushed toast is always placed adjacent to the anchored
/// edge: nearest the bottom for `Bottom`, nearest the top for `Top`.
#[derive(Copy, Clone, Debug, PartialEq, Eq, Structural)]
pub enum Vertical {
    Top,
    Bottom,
}

} // verus!
