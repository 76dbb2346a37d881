//! Handles that tell the instances of the engine apart.

use vstd::prelude::*;

verus! {

/// The first handle that a new counter gives.
pub const FIRST_HANDLE: usize = 1;

/// The value of a counter after it gave a handle: one more, and zero after
/// the largest number.
pub open spec fn next_handle(counter: usize) -> usize {
    if counter == usize::MAX {
        0
    } else {
        (counter + 1) as usize
    }
}

/// Creates a unique handle: returns the counter's value and moves the
/// counter on by one.
pub fn generate_handle(counter: &mut usize) -> (handle: usize)
    ensures
        handle == *old(counter),
        *final(counter) == next_handle(*old(counter)),
{
    let handle = *counter;
    if *counter == usize::MAX {
        *counter = 0;
    } else {
        *counter = *counter + 1;
    }
    handle
}

} // verus!
