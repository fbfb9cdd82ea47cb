use vstd::prelude::*;

verus! {

/// The axis a divider runs along.
#[derive(Clone, Copy, Debug, PartialEq, Eq, Structural, Hash)]
pub enum DividerAxis {
    Horizontal,
    Vertical,
}

/// The axes along which a scroll view scrolls.
#[derive(Clone, Copy, Debug, PartialEq, Eq, Structural, Hash)]
pub enum ScrollAxis {
    Inline,
    Block,
    Both,
}

impl Default for ScrollAxis {
    fn default() -> (axis: Self)
        ensures
            axis == ScrollAxis::Both,
    {
        ScrollAxis::Both
    }
}

} // verus!
