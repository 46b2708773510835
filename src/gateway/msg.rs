use vstd::prelude::*;

use crate::error::ContractError;
use crate::gateway::contract::{ConfigResponse, Gateway};
use crate::pause::is_open;
use crate::types::{Coin, Env, MessageInfo, Response};

verus! {

#[derive(Debug, Clone, PartialEq, Eq)]
pub struct InstantiateMsg {
    pub liquidity_manager: String,
    pub denom_manager: String,
    pub public_key: Vec<u8>,
}

#[derive(Debug, Clone, PartialEq, Eq)]
pub enum ExecuteMsg {
    ChangeOwner { new_owner: String, new_public_key: Vec<u8> },
    ChangePublicKey { public_key: Vec<u8> },
    ChangeLiquidityManager { new_liquidity_manager: String },
    ChangeDenomManager { new_denom_manager: String },
    Send { to: String, op_id: u64, op_args: Vec<String> },
    /// `msgs` is the JSON of the host messages that `signature` signs.
    Execute { msgs: Vec<u8>, req_op_id: u64, signature: Vec<u8> },
    /// Pay `amount` of the gateway's pooled balance to `to`, in two steps.
    WithdrawTo { to: String, amount: Coin },
    Pause { expires_at: u64 },
    Release {},
}

#[derive(Debug, Clone, Copy, PartialEq, Eq)]
pub struct MigrateMsg {}

#[derive(Debug, Clone, Copy, PartialEq, Eq)]
pub enum QueryMsg {
    GetConfig {},
}

impl Gateway {
    /// Runs one execute message.
    pub fn execute_msg(&mut self, env: &Env, info: MessageInfo, msg: ExecuteMsg) -> (r: Result<
        Response,
        ContractError,
    >)
        requires
            old(self).wf(),
        ensures
            final(self).wf(),
            r is Err ==> *final(self) == *old(self),
            !(msg is Pause || msg is Release) && !is_open(old(self).gov.paused, env.now) ==> r
                == Err::<Response, ContractError>(ContractError::PausedError {  }),
    {
        match msg {
            ExecuteMsg::ChangeOwner { new_owner, new_public_key } => self.change_owner(
                env,
                info,
                new_owner,
                new_public_key,
            ),
            ExecuteMsg::ChangePublicKey { public_key } => self.change_public_key(env, info, public_key),
            ExecuteMsg::ChangeLiquidityManager { new_liquidity_manager } => self.change_liquidity_manager(
                env,
                info,
                new_liquidity_manager,
            ),
            ExecuteMsg::ChangeDenomManager { new_denom_manager } => self.change_denom_manager(
                env,
                info,
                new_denom_manager,
            ),
            ExecuteMsg::Send { to, op_id, op_args } => self.send(env, info, to, op_id, op_args),
            ExecuteMsg::Execute { msgs, req_op_id, signature } => self.execute(
                env,
                info,
                msgs,
                req_op_id,
                signature,
            ),
            ExecuteMsg::WithdrawTo { to, amount } => self.withdraw_to(env, info, to, amount),
            ExecuteMsg::Pause { expires_at } => self.pause(env, info, expires_at),
            ExecuteMsg::Release {  } => self.release(env, info),
        }
    }

    /// Answers one query.
    pub fn query(&self, msg: QueryMsg) -> (r: ConfigResponse)
        ensures
            r.owner == self.gov.owner,
            r.liquidity_manager == self.liquidity_manager,
            r.denom_manager == self.denom_manager,
    {
        match msg {
            QueryMsg::GetConfig {  } => self.get_config(),
        }
    }

    /// Migration keeps the state as it is.
    pub fn migrate(&mut self, msg: MigrateMsg) -> (r: Result<Response, ContractError>)
        ensures
            r is Ok,
            *final(self) == *old(self),
    {
        Ok(Response::new())
    }
}

} // verus!
