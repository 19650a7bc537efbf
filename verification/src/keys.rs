//! The key codes that travel through the event stream are winit's.

use vstd::prelude::*;
use winit::keyboard::KeyCode;

verus! {

/// winit's `KeyCode`, the location of a physical key. The verifier sees no
/// more of it than that two values are equal or not.
#[verifier::external_type_specification]
#[verifier::external_body]
pub struct ExKeyCode(KeyCode);

/// winit's `Clone` for `KeyCode`, which `derive` wrote for an enum without
/// fields that is also `Copy`: the clone is the code itself.
pub assume_specification[ <KeyCode as Clone>::clone ](key: &KeyCode) -> (copy: KeyCode)
    ensures
        copy == *key,
;

/// Compares two key codes with winit's `PartialEq` for `KeyCode`.
///
/// `KeyCode` is an enum without fields whose `PartialEq` is derived, so the
/// comparison holds exactly when both are the same code. That is what the
/// contract claims; it is not proved here.
#[verifier::external_body]
pub(crate) fn same_key(a: &KeyCode, b: &KeyCode) -> (same: bool)
    ensures
        same == (*a == *b),
{
    a == b
}

} // verus!
