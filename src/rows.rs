//! Integer scan-row arithmetic of the scanline interpolation.
use vstd::prelude::*;

verus! {

/// The signed number of scan rows from `y_start` to `y_end`, the divisor of
/// an edge's per-row steps. Rows are stored as `i16`, and so is the
/// difference: it must fit there.
pub fn row_delta(y_start: i16, y_end: i16) -> (r: i16)
    requires
        i16::MIN <= y_end - y_start <= i16::MAX,
    ensures
        r == y_end - y_start,
{
    y_end - y_start
}

} // verus!
