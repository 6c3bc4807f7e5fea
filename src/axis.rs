use vstd::prelude::*;

verus! {

/// A coordinate axis of model space.
#[derive(Clone, Copy, Debug, PartialEq, Eq, Structural)]
pub enum Axis {
    X,
    Y,
    Z,
}

impl Axis {
    /// Position of this axis in a coordinate triple `(x, y, z)`.
    pub open spec fn spec_index(self) -> nat {
        match self {
            Axis::X => 0,
            Axis::Y => 1,
            Axis::Z => 2,
        }
    }

    /// The column of a homogeneous transform's translation row (and the
    /// slot of a coordinate triple) that belongs to this axis.
    pub fn index(&self) -> (r: usize)
        ensures
            r as nat == self.spec_index(),
            r < 3,
    {
        match self {
            Axis::X => 0,
            Axis::Y => 1,
            Axis::Z => 2,
        }
    }
}

} // verus!
