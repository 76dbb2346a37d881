use vstd::prelude::*;

verus! {

/// Converts a count or index to the 32-bit signed integer the engine takes.
pub fn to_i32(num: usize) -> (res: i32)
    requires
        num <= i32::MAX,
    ensures
        res == num,
{
    num as i32
}

/// Converts a count or index to a 64-bit unsigned integer.
pub fn to_u64(num: usize) -> (res: u64)
    ensures
        res == num,
{
    num as u64
}

} // verus!
