use vstd::prelude::*;
use crate::spawning::{Dir, is_side, num_to_side};

verus! {

/// Relies on macroquad::rand::gen_range (quad-rand) for `i32`: it scales a
/// uniform draw from [0, 1) onto the span from `low` to `high` and truncates,
/// so from 0 it gives a value that is at least 0 and below `high`.
#[verifier::external_body]
fn gen_range_i32(low: i32, high: i32) -> (r: i32)
    requires
        low == 0,
        0 < high,
    ensures
        0 <= r < high,
{
    macroquad::rand::gen_range(low, high)
}

/// A random whole number from 0 to `x`, both included.
pub fn rrange(x: i32) -> (r: i32)
    requires
        0 <= x < i32::MAX,
    ensures
        0 <= r <= x,
{
    gen_range_i32(0, x + 1)
}

/// A random one of the four axis directions.
pub fn get_rand_dir() -> (r: Dir)
    ensures
        is_side(r),
{
    num_to_side(rrange(4))
}

} // verus!
