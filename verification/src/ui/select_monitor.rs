use vstd::prelude::*;

verus! {

/// Where the button of the monitor at a position of the display's list
/// stands in the window's grid: four monitors to a row.
pub fn grid_position(index: i32) -> (res: (i32, i32))
    requires
        index >= 0,
    ensures
        res.0 == index % 4,
        res.1 == index / 4,
        0 <= res.0 < 4,
        res.1 * 4 + res.0 == index,
{
    (index % 4, index / 4)
}

} // verus!
