use vstd::prelude::*;

use crate::error::ContractError;

verus! {

/// Adds `amount` to the delegated total and returns the new total.
pub fn delegate_balance(total: &mut u128, amount: u128) -> (r: Result<u128, ContractError>)
    ensures
        r is Ok <==> *old(total) + amount <= u128::MAX,
        r is Ok ==> *final(total) == *old(total) + amount && r == Ok::<u128, ContractError>(
            *final(total),
        ),
        r is Err ==> *final(total) == *old(total) && r == Err::<u128, ContractError>(
            ContractError::Overflow {  },
        ),
{
    if *total > u128::MAX - amount {
        return Err(ContractError::Overflow {  });
    }
    *total = *total + amount;
    Ok(*total)
}

/// Takes `amount` from the delegated total and returns what is left.
pub fn undelegate_balance(total: &mut u128, amount: u128) -> (r: Result<u128, ContractError>)
    ensures
        r is Ok <==> amount <= *old(total),
        r is Ok ==> *final(total) == *old(total) - amount && r == Ok::<u128, ContractError>(
            *final(total),
        ),
        r is Err ==> *final(total) == *old(total) && r == Err::<u128, ContractError>(
            ContractError::InsufficientUndelegateAsset {  },
        ),
{
    if amount > *total {
        return Err(ContractError::InsufficientUndelegateAsset {  });
    }
    *total = *total - amount;
    Ok(*total)
}

} // verus!
