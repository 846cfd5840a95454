use vstd::prelude::*;

verus! {

/// The player-controlled paddle: `x` moves left and right under input,
/// `y` is fixed at a row near the bottom, and `size` is a fixed
/// half-width. It covers the half-open column range
/// `[x - size, x + size)` on row `y`.
pub struct Paddle {
    pub x: u16,
    pub y: u16,
    pub size: u16,
}

} // verus!
