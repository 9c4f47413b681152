//! The MFRC522 contactless reader.

use vstd::prelude::*;

pub mod consts;

verus! {

/// `true_val` where `expr` holds, else `false_val`.
#[inline(always)]
pub fn tif<T>(expr: bool, true_val: T, false_val: T) -> (chosen: T)
    ensures
        chosen == if expr {
            true_val
        } else {
            false_val
        },
{
    if expr {
        true_val
    } else {
        false_val
    }
}

} // verus!
