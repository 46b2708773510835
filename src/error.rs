use vstd::prelude::*;

verus! {

/// Every way in which a call into one of the contracts can fail.
#[derive(Debug, Clone, PartialEq, Eq)]
pub enum ContractError {
    /// A stored item that the call needs is absent.
    NotFound { kind: String },
    Unauthorized {},
    RoleNotExist { addr: String, role: String },
    InvalidPubKey {},
    PublicKeyNotRegistered {},
    PausedError {},
    NotPausedError {},
    ReplyIdNotFound { id: u64 },
    InvalidArgument { msg: String },
    MustPayOne {},
    DelegateAssetNotMatches {},
    DenomNotFound { denom: String },
    AssetNotFound {},
    DepositAssetNotFound { val: String },
    InsufficientWithdrawableAsset {},
    InsufficientBondAmount {},
    InsufficientUndelegateAsset {},
    UnbondingNotFinished {},
    WithdrawNotFlushed {},
    UnbondNotFlushed {},
    /// An amount would leave the range of `u128`.
    Overflow {},
}

} // verus!
