use vstd::prelude::*;

verus! {

/// Seconds an error message stays on screen.
pub const ERROR_POPUP_DURATION: u64 = 3;

/// Cells kept free beside a title in its column.
pub const PADDING: usize = 2;

} // verus!
