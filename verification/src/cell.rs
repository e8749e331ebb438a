//! The value cell: a text that changes only when it is given a new one.

use vstd::prelude::*;
use crate::text::str_eq;

verus! {

/// Stores `new_value` in `value` unless the two already hold the same text.
/// Returns whether the stored text changed.
pub fn update_value(value: &mut String, new_value: &str) -> (is_new: bool)
    ensures
        final(value)@ == new_value@,
        is_new == (old(value)@ != new_value@),
{
    let is_new = !str_eq(value.as_str(), new_value);
    if is_new {
        *value = new_value.to_owned();
    }
    is_new
}

} // verus!
