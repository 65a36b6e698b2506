//! Small clamped-step helpers shared by the parameter-edit operations.
//!
//! Every continuous parameter of the controller moves on a fixed grid: the
//! engine model index steps by one inside `[0, 23]`, and the tenth-scaled
//! parameters step by one tenth inside `[0, 10]`. Out-of-range requests are
//! silently clamped, never rejected.

use vstd::prelude::*;

verus! {

/// Largest engine model index.
pub const MODEL_MAX: usize = 23;

/// Largest tenth-scaled parameter value (one whole unit).
pub const TENTHS_MAX: u8 = 10;

/// Steps a model index up by one, clamped to [`MODEL_MAX`].
pub fn inc_usize(value: &mut usize)
    ensures
        *final(value) == if *old(value) < MODEL_MAX { *old(value) + 1 } else { MODEL_MAX as int },
{
    if *value < MODEL_MAX {
        *value = *value + 1;
    } else {
        *value = MODEL_MAX;
    }
}

/// Steps a model index down by one, clamped to zero.
pub fn dec_usize(value: &mut usize)
    ensures
        *final(value) == if *old(value) > 0 { *old(value) - 1 } else { 0int },
{
    if *value > 0 {
        *value = *value - 1;
    }
}

/// Steps a tenth-scaled parameter up by one tenth, clamped to [`TENTHS_MAX`].
pub fn inc_tenths(value: &mut u8)
    ensures
        *final(value) == if *old(value) < TENTHS_MAX { *old(value) + 1 } else { TENTHS_MAX as int },
{
    if *value < TENTHS_MAX {
        *value = *value + 1;
    } else {
        *value = TENTHS_MAX;
    }
}

/// Steps a tenth-scaled parameter down by one tenth, clamped to zero.
pub fn dec_tenths(value: &mut u8)
    ensures
        *final(value) == if *old(value) > 0 { *old(value) - 1 } else { 0int },
{
    if *value > 0 {
        *value = *value - 1;
    }
}

/// Fills a step field from a backup iff the field is still unset; an already
/// present value is never overwritten.
pub fn recover_param<T>(parameter: &mut Option<T>, back_up: Option<T>)
    ensures
        *final(parameter) == if *old(parameter) is None { back_up } else { *old(parameter) },
{
    if parameter.is_none() {
        *parameter = back_up;
    }
}

} // verus!
