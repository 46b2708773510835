use vstd::prelude::*;

use crate::error::ContractError;
use crate::types::Coin;

verus! {

/// What a two-step transfer must still pay out once its sub-call succeeds.
#[derive(Debug, Clone, PartialEq, Eq)]
pub struct WithdrawInfo {
    pub to_address: String,
    pub amount: Coin,
}

/// Stages a withdraw context; one may be outstanding at a time.
pub fn set_withdraw_info(slot: &mut Option<WithdrawInfo>, to_address: String, amount: Coin) -> (r:
    Result<(), ContractError>)
    ensures
        r is Ok <==> old(slot).is_none(),
        r is Ok ==> *final(slot) == Some(WithdrawInfo { to_address, amount }),
        r is Err ==> *final(slot) == *old(slot) && r == Err::<(), ContractError>(
            ContractError::WithdrawNotFlushed {  },
        ),
{
    if slot.is_some() {
        return Err(ContractError::WithdrawNotFlushed {  });
    }
    *slot = Some(WithdrawInfo { to_address, amount });
    Ok(())
}

/// Takes the staged withdraw context out, leaving none.
pub fn get_withdraw_info(slot: &mut Option<WithdrawInfo>) -> (r: Result<WithdrawInfo, ContractError>)
    ensures
        *final(slot) == None::<WithdrawInfo>,
        match *old(slot) {
            Some(w) => r == Ok::<WithdrawInfo, ContractError>(w),
            None => r is Err && r->Err_0 is NotFound,
        },
{
    match slot.take() {
        Some(w) => Ok(w),
        None => Err(ContractError::NotFound { kind: "withdraw context".to_owned() }),
    }
}

/// Stages an unbond context; one may be outstanding at a time.
pub fn set_unbond_info(slot: &mut Option<WithdrawInfo>, to_address: String, amount: Coin) -> (r:
    Result<(), ContractError>)
    ensures
        r is Ok <==> old(slot).is_none(),
        r is Ok ==> *final(slot) == Some(WithdrawInfo { to_address, amount }),
        r is Err ==> *final(slot) == *old(slot) && r == Err::<(), ContractError>(
            ContractError::UnbondNotFlushed {  },
        ),
{
    if slot.is_some() {
        return Err(ContractError::UnbondNotFlushed {  });
    }
    *slot = Some(WithdrawInfo { to_address, amount });
    Ok(())
}

/// Takes the staged unbond context out, leaving none.
pub fn get_unbond_info(slot: &mut Option<WithdrawInfo>) -> (r: Result<WithdrawInfo, ContractError>)
    ensures
        *final(slot) == None::<WithdrawInfo>,
        match *old(slot) {
            Some(w) => r == Ok::<WithdrawInfo, ContractError>(w),
            None => r is Err && r->Err_0 is NotFound,
        },
{
    match slot.take() {
        Some(w) => Ok(w),
        None => Err(ContractError::NotFound { kind: "unbond context".to_owned() }),
    }
}

} // verus!
