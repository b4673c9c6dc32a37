use vstd::prelude::*;

verus! {

/// `std::sync::Mutex`, declared so that the queues can be handed out behind a
/// lock. Verus sees nothing inside a value of it.
#[verifier::external_type_specification]
#[verifier::external_body]
#[verifier::reject_recursive_types(T)]
pub struct ExMutex<T: ?Sized>(std::sync::Mutex<T>);

/// Calls `std::sync::Mutex::new`, which puts `value` behind a new, unlocked
/// mutex. The lock is opaque to Verus, so nothing is stated of the result: that
/// it holds `value` is left to std's documentation.
#[verifier::external_body]
pub(crate) fn new_mutex<T>(value: T) -> std::sync::Mutex<T> {
    std::sync::Mutex::new(value)
}

} // verus!
