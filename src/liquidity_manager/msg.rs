use vstd::prelude::*;

use crate::error::ContractError;
use crate::liquidity_manager::contract::{
    ConfigResponse, GetBalanceResponse, GetBondResponse, GetTotalDelegatesResponse,
    GetUnbondListResponse, GetUnbondResponse,
    LiquidityManager, PauseInfoResponse,
};
use crate::pause::is_open;
use crate::types::{Coin, Env, MessageInfo, Response};

verus! {

#[derive(Debug, Clone, PartialEq, Eq)]
pub struct InstantiateMsg {
    pub denom: String,
    pub lp_denom: String,
    pub unbonding_period: u64,
}

#[derive(Debug, Clone, PartialEq, Eq)]
pub enum ExecuteMsg {
    Deposit { depositor: Option<String> },
    Withdraw { withdrawer: Option<String>, amount: Coin },
    Delegate {},
    Undelegate {},
    Bond {},
    StartUnbond { amount: u128 },
    Unbond { unbond_id: u64 },
    ChangeOwner { new_owner: String },
    GrantRole { role: String, addr: String },
    RevokeRole { role: String, addr: String },
    Pause { expires_at: u64 },
    Release {},
    ChangeConfig { unbonding_period: u64 },
}

#[derive(Debug, Clone, Copy, PartialEq, Eq)]
pub enum MigrateMsg {
    Migrate {},
}

#[derive(Debug, Clone, PartialEq, Eq)]
pub enum QueryMsg {
    GetConfig {},
    PauseInfo {},
    GetBalance { depositor: String },
    GetTotalDelegates {},
    GetBond { bonder: String },
    GetUnbond { unbond_id: u64 },
    GetUnbondsByOwner { owner: String },
}

/// The answer to a query, one variant per query.
#[derive(Debug, Clone, PartialEq, Eq)]
pub enum QueryResponse {
    Config(ConfigResponse),
    PauseInfo(PauseInfoResponse),
    Balance(GetBalanceResponse),
    TotalDelegates(GetTotalDelegatesResponse),
    Bond(GetBondResponse),
    Unbond(GetUnbondResponse),
    Unbonds(GetUnbondListResponse),
}

/// Whether `msg` changes state outside the governance substrate.
pub open spec fn is_ledger_call(msg: ExecuteMsg) -> bool {
    ||| msg is Deposit
    ||| msg is Withdraw
    ||| msg is Delegate
    ||| msg is Undelegate
    ||| msg is Bond
    ||| msg is StartUnbond
    ||| msg is Unbond
}

impl LiquidityManager {
    /// Runs one execute message.
    pub fn execute(&mut self, env: &Env, info: MessageInfo, msg: ExecuteMsg) -> (r: Result<
        Response,
        ContractError,
    >)
        requires
            old(self).wf(),
        ensures
            final(self).wf(),
            r is Err ==> *final(self) == *old(self),
            is_ledger_call(msg) && !is_open(old(self).gov.paused, env.now) ==> r == Err::<
                Response,
                ContractError,
            >(ContractError::PausedError {  }),
    {
        match msg {
            ExecuteMsg::Deposit { depositor } => self.deposit(env, info, depositor),
            ExecuteMsg::Withdraw { withdrawer, amount } => self.withdraw(env, info, withdrawer, amount),
            ExecuteMsg::Delegate {  } => self.delegate(env, info),
            ExecuteMsg::Undelegate {  } => self.undelegate(env, info),
            ExecuteMsg::Bond {  } => self.bond_lp(env, info),
            ExecuteMsg::StartUnbond { amount } => self.start_unbond_lp(env, info, amount),
            ExecuteMsg::Unbond { unbond_id } => self.finish_unbond_lp(env, info, unbond_id),
            ExecuteMsg::ChangeOwner { new_owner } => self.change_owner(env, info, new_owner),
            ExecuteMsg::GrantRole { role, addr } => self.grant_role(env, info, role, addr),
            ExecuteMsg::RevokeRole { role, addr } => self.revoke_role(env, info, role, addr),
            ExecuteMsg::Pause { expires_at } => self.pause(env, info, expires_at),
            ExecuteMsg::Release {  } => self.release(env, info),
            ExecuteMsg::ChangeConfig { unbonding_period } => self.change_config(
                env,
                info,
                unbonding_period,
            ),
        }
    }

    /// Answers one query.
    pub fn query(&self, msg: QueryMsg) -> (r: Result<QueryResponse, ContractError>)
        requires
            self.wf(),
        ensures
            !(msg is GetUnbond) ==> r is Ok,
            msg is GetConfig ==> r == Ok::<QueryResponse, ContractError>(
                QueryResponse::Config(
                    ConfigResponse {
                        owner: self.gov.owner,
                        unbonding_period: self.config.unbonding_period,
                        denom: self.denom.denom,
                        lp_denom: self.denom.lp_denom,
                    },
                ),
            ),
            msg is PauseInfo ==> r == Ok::<QueryResponse, ContractError>(
                QueryResponse::PauseInfo(
                    PauseInfoResponse {
                        paused: self.gov.paused.paused,
                        expires_at: self.gov.paused.expires_at,
                    },
                ),
            ),
    {
        match msg {
            QueryMsg::GetConfig {  } => Ok(QueryResponse::Config(self.get_config())),
            QueryMsg::PauseInfo {  } => Ok(QueryResponse::PauseInfo(self.get_paused_info())),
            QueryMsg::GetBalance { depositor } => Ok(QueryResponse::Balance(self.get_balance(depositor))),
            QueryMsg::GetTotalDelegates {  } => Ok(QueryResponse::TotalDelegates(self.get_total_delegates())),
            QueryMsg::GetBond { bonder } => Ok(QueryResponse::Bond(self.get_bonds(&bonder))),
            QueryMsg::GetUnbond { unbond_id } => match self.get_unbond(unbond_id) {
                Ok(u) => Ok(QueryResponse::Unbond(u)),
                Err(e) => Err(e),
            },
            QueryMsg::GetUnbondsByOwner { owner } => Ok(
                QueryResponse::Unbonds(self.get_unbonds_by_owner(&owner)),
            ),
        }
    }

    /// Migration keeps the state as it is.
    pub fn migrate(&mut self, msg: MigrateMsg) -> (r: Result<Response, ContractError>)
        ensures
            r is Ok,
            *final(self) == *old(self),
    {
        Ok(Response::new())
    }
}

} // verus!
