//! Checks on memory values. A caller converts its values to
//! `MaybeRelocatable` itself and hands over the results of the conversions.
use vstd::prelude::*;

use crate::types::relocatable::MaybeRelocatable;

verus! {

/// Takes the value of a conversion to `MaybeRelocatable`, which must have
/// succeeded; `side` names the operand the value belongs to.
pub fn coerce_to_mr<E>(converted: Result<MaybeRelocatable, E>, side: &str) -> (mr: MaybeRelocatable)
    requires
        converted is Ok,
    ensures
        converted matches Ok(v) && mr == v,
{
    match converted {
        Ok(v) => v,
        Err(_) => {
            assert(false);
            MaybeRelocatable::from_u64(0)
        },
    }
}

/// Asserts that two values are equal after converting both to `MaybeRelocatable`:
/// both conversions succeeded and gave the same value.
pub fn assert_mr_eq<LE, RE>(left: Result<MaybeRelocatable, LE>, right: Result<MaybeRelocatable, RE>)
    requires
        left matches Ok(l) && right matches Ok(r) && l == r,
{
    let left_mr = coerce_to_mr(left, "left");
    let right_mr = coerce_to_mr(right, "right");
    let equal = left_mr == right_mr;
    assert(equal);
}

} // verus!
