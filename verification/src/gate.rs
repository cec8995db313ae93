//! Gating: a batch is applied only when the stars already given and the
//! stars asked for add up to a multiple of the threshold.

use vstd::prelude::*;
use crate::error::StarError;

verus! {

/// Whether `starred + pending` is a multiple of `threshold`.
pub open spec fn gate_open(starred: nat, pending: nat, threshold: int) -> bool
    recommends
        threshold > 0,
{
    ((starred + pending) as int) % threshold == 0
}

/// Decides whether a run applies its batch.
///
/// A threshold that is not positive is refused before anything is computed.
pub fn evaluate_gate(starred: usize, pending: usize, threshold: i64) -> (r: Result<bool, StarError>)
    ensures
        threshold <= 0 ==> r == Err::<bool, StarError>(StarError::InvalidConfiguration),
        threshold > 0 ==> r == Ok::<bool, StarError>(
            gate_open(starred as nat, pending as nat, threshold as int),
        ),
{
    if threshold <= 0 {
        return Err(StarError::InvalidConfiguration);
    }
    let total: u128 = starred as u128 + pending as u128;
    let modulus: u128 = threshold as u128;
    Ok(total % modulus == 0)
}

} // verus!
