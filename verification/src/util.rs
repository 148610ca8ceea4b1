//! Small shared guards.

use vstd::prelude::*;
use crate::error::ContractError;

verus! {

/// Rejects an operation whose deadline has passed: with a deadline
/// given, the current block time must lie strictly before it; with
/// none, anything goes.
pub fn assert_deadline(blocktime: u64, deadline: Option<u64>) -> (r: Result<(), ContractError>)
    ensures
        r is Ok <==> (match deadline {
            None => true,
            Some(d) => blocktime < d,
        }),
        r matches Err(e) ==> e == ContractError::ExpiredDeadline,
{
    match deadline {
        Some(d) => {
            if blocktime >= d {
                Err(ContractError::ExpiredDeadline)
            } else {
                Ok(())
            }
        },
        None => Ok(()),
    }
}

} // verus!
