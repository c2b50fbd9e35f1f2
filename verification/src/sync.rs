//! The lock that serializes native calls on one engine instance.

use vstd::prelude::*;

verus! {

#[verifier::external_type_specification]
#[verifier::external_body]
#[verifier::reject_recursive_types(T)]
pub struct ExMutex<T: ?Sized>(std::sync::Mutex<T>);

/// Calls `std::sync::Mutex::new(())`: a fresh, unlocked mutex that guards no
/// data. Nothing is claimed of it beyond its type.
#[verifier::external_body]
pub(crate) fn new_call_lock() -> std::sync::Mutex<()> {
    std::sync::Mutex::new(())
}

} // verus!
