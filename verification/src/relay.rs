//! Relaying what a collaborator answered.

use vstd::prelude::*;

verus! {

/// What a call hands back once a collaborator has answered: the value that the call was
/// made for where the collaborator agreed, and the collaborator's error, unchanged, where
/// it did not.
pub open spec fn handed_back<T, E>(value: T, outcome: Result<(), E>) -> Result<T, E> {
    match outcome {
        Ok(_) => Ok(value),
        Err(error) => Err(error),
    }
}

/// Hands `value` back where the collaborator agreed, and the collaborator's error,
/// unchanged, where it did not.
pub fn hand_back<T, E>(value: T, outcome: Result<(), E>) -> (handed: Result<T, E>)
    ensures
        handed == handed_back(value, outcome),
{
    match outcome {
        Ok(_) => Ok(value),
        Err(error) => Err(error),
    }
}

} // verus!
