use vstd::prelude::*;

use crate::error::ContractError;
use crate::gov::{
    owner_call_outcome, pause_outcome, release_outcome, unit_of, with_pause, Governance,
    GATEWAY_ROLE,
};
use crate::liquidity_manager::balances::{deposit_fits, deposited, withdrawn, Balances};
use crate::liquidity_manager::bond::{
    finish_unbond_ok, owned_by, start_unbond_ok, BondInfo, Bonds, UnbondInfo,
};
use crate::liquidity_manager::delegates::{delegate_balance, undelegate_balance};
use crate::pause::{is_open, refreshed, unpaused, PauseInfo};
use crate::types::{
    action_attrs, attr, must_pay, paid_in, starts_with_action, sub_msg, Coin, Env, MessageInfo, Msg, ReplyOn,
    Response, SubMsg, Attribute, is_transfer, plain,
};

verus! {

/// Reply id of the token-factory denom creation made at instantiation.
pub const REPLY_CREATE_DENOM_SUCCESS: u64 = 1;

/// Reply id of a withdrawal's bank transfer, which reports back only on failure.
pub const REPLY_WITHDRAW_SUBMESSAGE_FAILURE: u64 = 2;

/// The pooled asset and its LP token.
#[derive(Debug, Clone, PartialEq, Eq)]
pub struct DenomInfo {
    pub denom: String,
    pub lp_denom: String,
}

#[derive(Debug, Clone, Copy, PartialEq, Eq)]
pub struct ConfigInfo {
    /// Seconds between the start of an unbond and its earliest finish.
    pub unbonding_period: u64,
}

/// The state of a liquidity manager.
pub struct LiquidityManager {
    pub gov: Governance,
    pub denom: DenomInfo,
    pub config: ConfigInfo,
    pub balances: Balances,
    /// LP tokens in circulation, which the pool backs.
    pub delegated: u128,
    pub bonds: Bonds,
}

/// The account that a call acts for: the one named, or else the caller.
pub open spec fn acting_for(named: Option<String>, sender: String) -> Seq<char> {
    match named {
        Some(a) => a@,
        None => sender@,
    }
}

fn acting_account(named: Option<String>, sender: &String) -> (r: String)
    ensures
        r@ == acting_for(named, *sender),
{
    match named {
        Some(a) => a,
        None => sender.clone(),
    }
}

impl LiquidityManager {
    pub open spec fn wf(&self) -> bool {
        &&& self.gov.wf()
        &&& self.balances.wf()
        &&& self.bonds.wf()
    }

    /// Whether `sender` may move the balance of `target`: its own, or anyone's when it is
    /// the owner or holds the gateway role.
    pub open spec fn may_act_for(&self, sender: Seq<char>, target: Seq<char>) -> bool {
        target == sender || sender == self.gov.owner@ || self.gov.has_role(GATEWAY_ROLE@, sender)
    }

    /// A fresh manager of `denom`, owned by the caller; it asks the token factory for the
    /// LP denomination `lp_subdenom`.
    pub fn instantiate(
        env: &Env,
        info: &MessageInfo,
        denom: String,
        lp_subdenom: String,
        unbonding_period: u64,
    ) -> (r: (LiquidityManager, Response))
        ensures
            r.0.wf(),
            r.0.gov.owner == info.sender,
            r.0.gov.paused == unpaused(),
            r.0.denom.denom == denom,
            r.0.denom.lp_denom@.len() == 0,
            r.0.config.unbonding_period == unbonding_period,
            r.0.balances@ == Map::<(Seq<char>, Seq<char>), nat>::empty(),
            r.0.delegated == 0,
            r.0.bonds.unbonds@.len() == 0,
            r.0.bonds.bonds@ == Map::<Seq<char>, BondInfo>::empty(),
            r.1.messages@ == seq![
                SubMsg {
                    id: REPLY_CREATE_DENOM_SUCCESS,
                    msg: Msg::CreateDenom { sender: env.contract_address, subdenom: lp_subdenom },
                    reply_on: ReplyOn::Success,
                },
            ],
    {
        let lm = LiquidityManager {
            gov: Governance::new(info.sender.clone()),
            denom: DenomInfo { denom, lp_denom: String::new() },
            config: ConfigInfo { unbonding_period },
            balances: Balances::new(),
            delegated: 0,
            bonds: Bonds::new(),
        };
        let create = SubMsg {
            id: REPLY_CREATE_DENOM_SUCCESS,
            msg: Msg::CreateDenom { sender: env.contract_address.clone(), subdenom: lp_subdenom },
            reply_on: ReplyOn::Success,
        };
        let resp = Response {
            messages: vec![create],
            attributes: vec![attr("method", "instantiate".to_owned()), attr("owner", info.sender.clone())],
        };
        proof {
            assert(resp.messages@ =~= seq![resp.messages@[0]]);
        }
        (lm, resp)
    }

    /// Continues after a sub-call: the LP denomination comes from the token factory's answer
    /// (`new_token_denom`); a failed withdrawal transfer is absorbed.
    pub fn reply(&mut self, id: u64, new_token_denom: Option<String>) -> (r: Result<
        Response,
        ContractError,
    >)
        requires
            old(self).wf(),
        ensures
            final(self).wf(),
            id == REPLY_WITHDRAW_SUBMESSAGE_FAILURE ==> r is Ok && *final(self) == *old(self),
            id == REPLY_CREATE_DENOM_SUCCESS ==> (r is Ok <==> new_token_denom is Some),
            id == REPLY_CREATE_DENOM_SUCCESS && new_token_denom is Some ==> final(self).denom
                == (DenomInfo {
                denom: old(self).denom.denom,
                lp_denom: new_token_denom->Some_0,
            }),
            id != REPLY_WITHDRAW_SUBMESSAGE_FAILURE && id != REPLY_CREATE_DENOM_SUCCESS ==> r
                == Err::<Response, ContractError>(ContractError::ReplyIdNotFound { id }),
            r is Err ==> *final(self) == *old(self),
            final(self).gov == old(self).gov,
            final(self).balances == old(self).balances,
            final(self).bonds == old(self).bonds,
            final(self).delegated == old(self).delegated,
            final(self).config == old(self).config,
    {
        if id == REPLY_WITHDRAW_SUBMESSAGE_FAILURE {
            Ok(Response::new())
        } else if id == REPLY_CREATE_DENOM_SUCCESS {
            match new_token_denom {
                Some(d) => {
                    self.denom.lp_denom = d;
                    let resp = Response {
                        messages: Vec::new(),
                        attributes: vec![
                            attr("action", "reply_instantiate".to_owned()),
                            attr("new_denom", self.denom.lp_denom.clone()),
                        ],
                    };
                    Ok(resp)
                },
                None => Err(ContractError::NotFound { kind: "create denom response".to_owned() }),
            }
        } else {
            Err(ContractError::ReplyIdNotFound { id })
        }
    }

    /// Credits the named depositor, or the caller, with every coin sent.
    pub fn deposit(&mut self, env: &Env, info: MessageInfo, depositor: Option<String>) -> (r:
        Result<Response, ContractError>)
        requires
            old(self).wf(),
        ensures
            final(self).wf(),
            !is_open(old(self).gov.paused, env.now) ==> r == Err::<Response, ContractError>(
                ContractError::PausedError {  },
            ),
            is_open(old(self).gov.paused, env.now) && info.funds@.len() == 0 ==> r == Err::<
                Response,
                ContractError,
            >(ContractError::AssetNotFound {  }),
            r is Ok <==> is_open(old(self).gov.paused, env.now) && info.funds@.len() > 0
                && deposit_fits(old(self).balances@, acting_for(depositor, info.sender), info.funds@),
            r is Ok ==> final(self).balances@ == deposited(
                old(self).balances@,
                acting_for(depositor, info.sender),
                info.funds@,
            ),
            r is Ok ==> final(self).gov == with_pause(old(self).gov, refreshed(old(self).gov.paused, env.now)),
            r is Ok ==> starts_with_action(r->Ok_0.attributes@, "deposit"@, info.sender@),
            r is Ok ==> r->Ok_0.messages@.len() == 0,
            r is Err ==> *final(self) == *old(self),
            final(self).bonds == old(self).bonds,
            final(self).delegated == old(self).delegated,
            final(self).denom == old(self).denom,
            final(self).config == old(self).config,
    {
        let p = match self.gov.check_open(env.now) {
            Ok(p) => p,
            Err(e) => {
                return Err(e);
            },
        };
        if info.funds.len() == 0 {
            return Err(ContractError::AssetNotFound {  });
        }
        let dep = acting_account(depositor, &info.sender);
        let funds = match self.balances.deposit_balance(info.funds, &dep) {
            Ok(f) => f,
            Err(e) => {
                return Err(e);
            },
        };
        self.gov.set_paused(p);
        let mut attributes = action_attrs("deposit", &info.sender);
        attributes.push(attr("depositor", dep));
        let mut i: usize = 0;
        while i < funds.len()
            invariant
                i <= funds@.len(),
                attributes@.len() >= 2,
                starts_with_action(attributes@, "deposit"@, info.sender@),
            decreases funds@.len() - i,
        {
            attributes.push(Attribute { key: funds[i].denom.clone(), value: funds[i].amount.to_string() });
            i = i + 1;
        }
        Ok(Response { messages: Vec::new(), attributes })
    }

    /// Takes `amount` from the named withdrawer's balance, or the caller's, and sends it there.
    pub fn withdraw(
        &mut self,
        env: &Env,
        info: MessageInfo,
        withdrawer: Option<String>,
        amount: Coin,
    ) -> (r: Result<Response, ContractError>)
        requires
            old(self).wf(),
        ensures
            final(self).wf(),
            !is_open(old(self).gov.paused, env.now) ==> r == Err::<Response, ContractError>(
                ContractError::PausedError {  },
            ),
            is_open(old(self).gov.paused, env.now) && !old(self).may_act_for(
                info.sender@,
                acting_for(withdrawer, info.sender),
            ) ==> r == Err::<Response, ContractError>(ContractError::Unauthorized {  }),
            r is Ok <==> is_open(old(self).gov.paused, env.now) && old(self).may_act_for(
                info.sender@,
                acting_for(withdrawer, info.sender),
            ) && old(self).balances@.contains_key((acting_for(withdrawer, info.sender), amount.denom@))
                && amount.amount <= old(self).balances@[(
                acting_for(withdrawer, info.sender),
                amount.denom@,
            )],
            r is Ok ==> final(self).balances@ == withdrawn(
                old(self).balances@,
                acting_for(withdrawer, info.sender),
                amount.denom@,
                amount.amount as nat,
            ),
            r is Ok ==> final(self).gov == with_pause(old(self).gov, refreshed(old(self).gov.paused, env.now)),
            r is Ok ==> r->Ok_0.messages@.len() == 1,
            r is Ok ==> r->Ok_0.messages@[0].id == REPLY_WITHDRAW_SUBMESSAGE_FAILURE,
            r is Ok ==> r->Ok_0.messages@[0].reply_on == ReplyOn::Error,
            r is Ok ==> r->Ok_0.messages@[0].msg is BankSend,
            r is Ok ==> r->Ok_0.messages@[0].msg->BankSend_to_address@ == acting_for(
                withdrawer,
                info.sender,
            ),
            r is Ok ==> r->Ok_0.messages@[0].msg->BankSend_amount@ == seq![amount],
            r is Ok ==> starts_with_action(r->Ok_0.attributes@, "withdraw"@, info.sender@),
            r is Err ==> *final(self) == *old(self),
            final(self).bonds == old(self).bonds,
            final(self).delegated == old(self).delegated,
            final(self).denom == old(self).denom,
            final(self).config == old(self).config,
    {
        let p = match self.gov.check_open(env.now) {
            Ok(p) => p,
            Err(e) => {
                return Err(e);
            },
        };
        let target = acting_account(withdrawer, &info.sender);
        if target != info.sender && self.gov.owner != info.sender {
            match self.gov.assert_role(&GATEWAY_ROLE.to_owned(), &info.sender) {
                Ok(()) => {},
                Err(_) => {
                    return Err(ContractError::Unauthorized {  });
                },
            }
        }
        let sent = match self.balances.withdraw_balance(&target, amount) {
            Ok(c) => c,
            Err(e) => {
                return Err(e);
            },
        };
        self.gov.set_paused(p);
        let mut attributes = action_attrs("withdraw", &info.sender);
        attributes.push(attr("withdrawer", target.clone()));
        let send = SubMsg {
            id: REPLY_WITHDRAW_SUBMESSAGE_FAILURE,
            msg: Msg::BankSend { to_address: target, amount: vec![sent] },
            reply_on: ReplyOn::Error,
        };
        Ok(Response { messages: vec![send], attributes })
    }
}

impl LiquidityManager {
    /// Mints LP tokens for the one coin of the pooled denomination sent, and sends them to
    /// the caller.
    pub fn delegate(&mut self, env: &Env, info: MessageInfo) -> (r: Result<Response, ContractError>)
        requires
            old(self).wf(),
        ensures
            final(self).wf(),
            !is_open(old(self).gov.paused, env.now) ==> r == Err::<Response, ContractError>(
                ContractError::PausedError {  },
            ),
            is_open(old(self).gov.paused, env.now) && paid_in(info.funds@, old(self).denom.denom@)
                is None ==> r == Err::<Response, ContractError>(
                ContractError::DelegateAssetNotMatches {  },
            ),
            r is Ok <==> is_open(old(self).gov.paused, env.now) && paid_in(
                info.funds@,
                old(self).denom.denom@,
            ) is Some && old(self).delegated + paid_in(info.funds@, old(self).denom.denom@)->Some_0
                <= u128::MAX,
            r is Ok ==> final(self).delegated == old(self).delegated + info.funds@[0].amount,
            r is Ok ==> r->Ok_0.messages@.len() == 2,
            r is Ok ==> r->Ok_0.messages@[0] == plain(
                Msg::Mint {
                    sender: env.contract_address,
                    amount: Coin { denom: old(self).denom.lp_denom, amount: info.funds@[0].amount },
                },
            ),
            r is Ok ==> is_transfer(
                r->Ok_0.messages@[1],
                env.contract_address@,
                info.sender@,
                seq![Coin { denom: old(self).denom.lp_denom, amount: info.funds@[0].amount }],
            ),
            r is Ok ==> final(self).gov == with_pause(old(self).gov, refreshed(old(self).gov.paused, env.now)),
            r is Ok ==> starts_with_action(r->Ok_0.attributes@, "delegate"@, info.sender@),
            r is Err ==> *final(self) == *old(self),
            final(self).balances == old(self).balances,
            final(self).bonds == old(self).bonds,
            final(self).denom == old(self).denom,
            final(self).config == old(self).config,
    {
        let p = match self.gov.check_open(env.now) {
            Ok(p) => p,
            Err(e) => {
                return Err(e);
            },
        };
        let amount = match must_pay(&info.funds, &self.denom.denom) {
            Some(a) => a,
            None => {
                return Err(ContractError::DelegateAssetNotMatches {  });
            },
        };
        let total = match delegate_balance(&mut self.delegated, amount) {
            Ok(t) => t,
            Err(e) => {
                return Err(e);
            },
        };
        self.gov.set_paused(p);
        let lp = Coin { denom: self.denom.lp_denom.clone(), amount };
        let mint = sub_msg(Msg::Mint { sender: env.contract_address.clone(), amount: lp.duplicate() });
        let send = sub_msg(
            Msg::Transfer {
                from_address: env.contract_address.clone(),
                to_address: info.sender.clone(),
                amount: vec![lp],
            },
        );
        let mut attributes = action_attrs("delegate", &info.sender);
        attributes.push(attr("amount", amount.to_string()));
        attributes.push(attr("total", total.to_string()));
        let messages = vec![mint, send];
        proof {
            assert(messages@[1].msg->Transfer_amount@ =~= seq![messages@[1].msg->Transfer_amount@[0]]);
        }
        Ok(Response { messages, attributes })
    }

    /// Burns the one coin of LP tokens sent, and pays out as much of the pooled denomination.
    pub fn undelegate(&mut self, env: &Env, info: MessageInfo) -> (r: Result<
        Response,
        ContractError,
    >)
        requires
            old(self).wf(),
        ensures
            final(self).wf(),
            !is_open(old(self).gov.paused, env.now) ==> r == Err::<Response, ContractError>(
                ContractError::PausedError {  },
            ),
            is_open(old(self).gov.paused, env.now) && paid_in(info.funds@, old(self).denom.lp_denom@)
                is None ==> r == Err::<Response, ContractError>(
                ContractError::DelegateAssetNotMatches {  },
            ),
            is_open(old(self).gov.paused, env.now) && paid_in(info.funds@, old(self).denom.lp_denom@)
                is Some && paid_in(info.funds@, old(self).denom.lp_denom@)->Some_0
                > old(self).delegated ==> r == Err::<Response, ContractError>(
                ContractError::InsufficientUndelegateAsset {  },
            ),
            r is Ok <==> is_open(old(self).gov.paused, env.now) && paid_in(
                info.funds@,
                old(self).denom.lp_denom@,
            ) is Some && paid_in(info.funds@, old(self).denom.lp_denom@)->Some_0
                <= old(self).delegated,
            r is Ok ==> final(self).delegated == old(self).delegated - info.funds@[0].amount,
            r is Ok ==> r->Ok_0.messages@.len() == 2,
            r is Ok ==> r->Ok_0.messages@[0] == plain(
                Msg::Burn {
                    sender: env.contract_address,
                    amount: Coin { denom: old(self).denom.lp_denom, amount: info.funds@[0].amount },
                },
            ),
            r is Ok ==> is_transfer(
                r->Ok_0.messages@[1],
                env.contract_address@,
                info.sender@,
                seq![Coin { denom: old(self).denom.denom, amount: info.funds@[0].amount }],
            ),
            r is Ok ==> final(self).gov == with_pause(old(self).gov, refreshed(old(self).gov.paused, env.now)),
            r is Ok ==> starts_with_action(r->Ok_0.attributes@, "undelegate"@, info.sender@),
            r is Err ==> *final(self) == *old(self),
            final(self).balances == old(self).balances,
            final(self).bonds == old(self).bonds,
            final(self).denom == old(self).denom,
            final(self).config == old(self).config,
    {
        let p = match self.gov.check_open(env.now) {
            Ok(p) => p,
            Err(e) => {
                return Err(e);
            },
        };
        let amount = match must_pay(&info.funds, &self.denom.lp_denom) {
            Some(a) => a,
            None => {
                return Err(ContractError::DelegateAssetNotMatches {  });
            },
        };
        let left = match undelegate_balance(&mut self.delegated, amount) {
            Ok(t) => t,
            Err(e) => {
                return Err(e);
            },
        };
        self.gov.set_paused(p);
        let burn = sub_msg(
            Msg::Burn {
                sender: env.contract_address.clone(),
                amount: Coin { denom: self.denom.lp_denom.clone(), amount },
            },
        );
        let send = sub_msg(
            Msg::Transfer {
                from_address: env.contract_address.clone(),
                to_address: info.sender.clone(),
                amount: vec![Coin { denom: self.denom.denom.clone(), amount }],
            },
        );
        let mut attributes = action_attrs("undelegate", &info.sender);
        attributes.push(attr("amount", amount.to_string()));
        attributes.push(attr("total", left.to_string()));
        let messages = vec![burn, send];
        proof {
            assert(messages@[1].msg->Transfer_amount@ =~= seq![messages@[1].msg->Transfer_amount@[0]]);
        }
        Ok(Response { messages, attributes })
    }

    /// Bonds the one coin of LP tokens sent, for the caller.
    pub fn bond_lp(&mut self, env: &Env, info: MessageInfo) -> (r: Result<Response, ContractError>)
        requires
            old(self).wf(),
        ensures
            final(self).wf(),
            !is_open(old(self).gov.paused, env.now) ==> r == Err::<Response, ContractError>(
                ContractError::PausedError {  },
            ),
            is_open(old(self).gov.paused, env.now) && paid_in(info.funds@, old(self).denom.lp_denom@)
                is None ==> r == Err::<Response, ContractError>(
                ContractError::DenomNotFound { denom: old(self).denom.lp_denom },
            ),
            r is Ok <==> is_open(old(self).gov.paused, env.now) && paid_in(
                info.funds@,
                old(self).denom.lp_denom@,
            ) is Some && old(self).bonds.bonded(info.sender@) + info.funds@[0].amount <= u128::MAX,
            r is Ok ==> final(self).bonds.bonded(info.sender@) == old(self).bonds.bonded(
                info.sender@,
            ) + info.funds@[0].amount,
            r is Ok ==> final(self).bonds.unbonds@ == old(self).bonds.unbonds@,
            r is Ok ==> forall|a: Seq<char>|
                a != info.sender@ ==> #[trigger] final(self).bonds.bonds@.contains_key(a)
                    == old(self).bonds.bonds@.contains_key(a) && (final(self).bonds.bonds@.contains_key(a)
                    ==> final(self).bonds.bonds@[a] == old(self).bonds.bonds@[a]),
            r is Ok ==> final(self).gov == with_pause(old(self).gov, refreshed(old(self).gov.paused, env.now)),
            r is Ok ==> starts_with_action(r->Ok_0.attributes@, "bond"@, info.sender@),
            r is Err ==> *final(self) == *old(self),
            final(self).balances == old(self).balances,
            final(self).delegated == old(self).delegated,
            final(self).denom == old(self).denom,
            final(self).config == old(self).config,
    {
        let p = match self.gov.check_open(env.now) {
            Ok(p) => p,
            Err(e) => {
                return Err(e);
            },
        };
        let amount = match must_pay(&info.funds, &self.denom.lp_denom) {
            Some(a) => a,
            None => {
                return Err(ContractError::DenomNotFound { denom: self.denom.lp_denom.clone() });
            },
        };
        let info_after = match self.bonds.bond(env.now, &info.sender, amount) {
            Ok(b) => b,
            Err(e) => {
                return Err(e);
            },
        };
        self.gov.set_paused(p);
        let mut attributes = action_attrs("bond", &info.sender);
        attributes.push(attr("amount", info_after.amount.to_string()));
        Ok(Response { messages: Vec::new(), attributes })
    }

    /// Starts unbonding `amount` of the caller's bond.
    pub fn start_unbond_lp(&mut self, env: &Env, info: MessageInfo, amount: u128) -> (r: Result<
        Response,
        ContractError,
    >)
        requires
            old(self).wf(),
        ensures
            final(self).wf(),
            !is_open(old(self).gov.paused, env.now) ==> r == Err::<Response, ContractError>(
                ContractError::PausedError {  },
            ),
            r is Ok <==> is_open(old(self).gov.paused, env.now) && start_unbond_ok(
                old(self).bonds,
                env.now,
                old(self).config.unbonding_period,
                info.sender@,
                amount,
            ),
            r is Ok ==> final(self).bonds.unbonds@ == old(self).bonds.unbonds@.push(
                UnbondInfo {
                    unbond_id: old(self).bonds.next_unbond_id,
                    owner: info.sender,
                    amount,
                    unbond_time: (env.now + old(self).config.unbonding_period) as u64,
                },
            ),
            r is Ok ==> final(self).bonds.bonds@ == old(self).bonds.bonds@,
            r is Ok ==> final(self).bonds.next_unbond_id == old(self).bonds.next_unbond_id + 1,
            r is Ok ==> final(self).gov == with_pause(old(self).gov, refreshed(old(self).gov.paused, env.now)),
            r is Ok ==> starts_with_action(r->Ok_0.attributes@, "start_unbond"@, info.sender@),
            r is Err ==> *final(self) == *old(self),
            final(self).balances == old(self).balances,
            final(self).delegated == old(self).delegated,
            final(self).denom == old(self).denom,
            final(self).config == old(self).config,
    {
        let p = match self.gov.check_open(env.now) {
            Ok(p) => p,
            Err(e) => {
                return Err(e);
            },
        };
        let u = match self.bonds.start_unbond(env.now, self.config.unbonding_period, &info.sender, amount) {
            Ok(u) => u,
            Err(e) => {
                return Err(e);
            },
        };
        self.gov.set_paused(p);
        let mut attributes = action_attrs("start_unbond", &info.sender);
        attributes.push(attr("unbond_id", u.unbond_id.to_string()));
        attributes.push(attr("amount", u.amount.to_string()));
        Ok(Response { messages: Vec::new(), attributes })
    }

    /// Finishes the caller's unbond `unbond_id` and returns its LP tokens.
    pub fn finish_unbond_lp(&mut self, env: &Env, info: MessageInfo, unbond_id: u64) -> (r: Result<
        Response,
        ContractError,
    >)
        requires
            old(self).wf(),
        ensures
            final(self).wf(),
            !is_open(old(self).gov.paused, env.now) ==> r == Err::<Response, ContractError>(
                ContractError::PausedError {  },
            ),
            r is Ok <==> is_open(old(self).gov.paused, env.now) && finish_unbond_ok(
                old(self).bonds,
                env.now,
                info.sender@,
                unbond_id,
            ),
            r is Ok ==> exists|i: int|
                0 <= i < old(self).bonds.unbonds@.len() && old(self).bonds.unbonds@[i].unbond_id
                    == unbond_id && final(self).bonds.unbonds@ == old(self).bonds.unbonds@.remove(i)
                    && final(self).bonds.bonded(info.sender@) == old(self).bonds.bonded(info.sender@)
                    - old(self).bonds.unbonds@[i].amount && r->Ok_0.messages@.len() == 1
                    && is_transfer(
                    r->Ok_0.messages@[0],
                    env.contract_address@,
                    info.sender@,
                    seq![
                        Coin {
                            denom: old(self).denom.lp_denom,
                            amount: old(self).bonds.unbonds@[i].amount,
                        },
                    ],
                ),
            r is Ok ==> final(self).gov == with_pause(old(self).gov, refreshed(old(self).gov.paused, env.now)),
            r is Ok ==> starts_with_action(r->Ok_0.attributes@, "finish_unbond"@, info.sender@),
            r is Err ==> *final(self) == *old(self),
            final(self).balances == old(self).balances,
            final(self).delegated == old(self).delegated,
            final(self).denom == old(self).denom,
            final(self).config == old(self).config,
    {
        let p = match self.gov.check_open(env.now) {
            Ok(p) => p,
            Err(e) => {
                return Err(e);
            },
        };
        let u = match self.bonds.finish_unbond(env.now, &info.sender, unbond_id) {
            Ok(u) => u,
            Err(e) => {
                return Err(e);
            },
        };
        self.gov.set_paused(p);
        let send = sub_msg(
            Msg::Transfer {
                from_address: env.contract_address.clone(),
                to_address: info.sender.clone(),
                amount: vec![Coin { denom: self.denom.lp_denom.clone(), amount: u.amount }],
            },
        );
        let mut attributes = action_attrs("finish_unbond", &info.sender);
        attributes.push(attr("unbond_id", u.unbond_id.to_string()));
        attributes.push(attr("amount", u.amount.to_string()));
        let messages = vec![send];
        proof {
            assert(messages@[0].msg->Transfer_amount@ =~= seq![messages@[0].msg->Transfer_amount@[0]]);
        }
        Ok(Response { messages, attributes })
    }
}

/// The contract's configuration as a query answers it.
#[derive(Debug, Clone, PartialEq, Eq)]
pub struct ConfigResponse {
    pub owner: String,
    pub unbonding_period: u64,
    pub denom: String,
    pub lp_denom: String,
}

#[derive(Debug, Clone, Copy, PartialEq, Eq)]
pub struct PauseInfoResponse {
    pub paused: bool,
    pub expires_at: Option<u64>,
}

#[derive(Debug, Clone, PartialEq, Eq)]
pub struct GetBalanceResponse {
    pub depositor: String,
    pub assets: Vec<Coin>,
}

#[derive(Debug, Clone, Copy, PartialEq, Eq)]
pub struct GetBondResponse {
    pub amount: u128,
    pub bond_time: u64,
}

#[derive(Debug, Clone, PartialEq, Eq)]
pub struct GetUnbondResponse {
    pub unbond_id: u64,
    pub owner: String,
    pub amount: u128,
    pub unbond_time: u64,
}

/// The LP tokens in circulation, in the LP denomination.
#[derive(Debug, Clone, PartialEq, Eq)]
pub struct GetTotalDelegatesResponse {
    pub amount: Coin,
}

#[derive(Debug, Clone, PartialEq, Eq)]
pub struct GetUnbondListResponse {
    pub items: Vec<GetUnbondResponse>,
}

pub open spec fn unbond_response(u: UnbondInfo) -> GetUnbondResponse {
    GetUnbondResponse {
        unbond_id: u.unbond_id,
        owner: u.owner,
        amount: u.amount,
        unbond_time: u.unbond_time,
    }
}

fn to_unbond_response(u: UnbondInfo) -> (r: GetUnbondResponse)
    ensures
        r == unbond_response(u),
{
    GetUnbondResponse {
        unbond_id: u.unbond_id,
        owner: u.owner,
        amount: u.amount,
        unbond_time: u.unbond_time,
    }
}

impl LiquidityManager {
    pub fn pause(&mut self, env: &Env, info: MessageInfo, expires_at: u64) -> (r: Result<
        Response,
        ContractError,
    >)
        requires
            old(self).wf(),
        ensures
            final(self).wf(),
            pause_outcome(
                unit_of(r),
                old(self).gov.paused,
                old(self).gov.owner@,
                env.now,
                info.sender@,
                expires_at,
            ),
            r is Ok ==> final(self).gov == with_pause(
                old(self).gov,
                PauseInfo { paused: true, expires_at: Some(expires_at) },
            ),
            r is Ok ==> starts_with_action(r->Ok_0.attributes@, "pause"@, info.sender@),
            r is Err ==> *final(self) == *old(self),
            final(self).balances == old(self).balances,
            final(self).bonds == old(self).bonds,
            final(self).delegated == old(self).delegated,
            final(self).denom == old(self).denom,
            final(self).config == old(self).config,
    {
        match self.gov.pause(env.now, &info.sender, expires_at) {
            Ok(()) => {},
            Err(e) => {
                return Err(e);
            },
        }
        let mut attributes = action_attrs("pause", &info.sender);
        attributes.push(attr("expires_at", expires_at.to_string()));
        Ok(Response { messages: Vec::new(), attributes })
    }

    pub fn release(&mut self, env: &Env, info: MessageInfo) -> (r: Result<Response, ContractError>)
        requires
            old(self).wf(),
        ensures
            final(self).wf(),
            unit_of(r) == release_outcome(old(self).gov.paused, old(self).gov.owner@, env.now, info.sender@),
            r is Ok ==> final(self).gov == with_pause(old(self).gov, unpaused()),
            r is Ok ==> starts_with_action(r->Ok_0.attributes@, "release"@, info.sender@),
            r is Err ==> *final(self) == *old(self),
            final(self).balances == old(self).balances,
            final(self).bonds == old(self).bonds,
            final(self).delegated == old(self).delegated,
            final(self).denom == old(self).denom,
            final(self).config == old(self).config,
    {
        match self.gov.release(env.now, &info.sender) {
            Ok(()) => {},
            Err(e) => {
                return Err(e);
            },
        }
        Ok(Response { messages: Vec::new(), attributes: action_attrs("release", &info.sender) })
    }

    pub fn change_owner(&mut self, env: &Env, info: MessageInfo, new_owner: String) -> (r: Result<
        Response,
        ContractError,
    >)
        requires
            old(self).wf(),
        ensures
            final(self).wf(),
            unit_of(r) == unit_of(
                owner_call_outcome(old(self).gov.paused, old(self).gov.owner@, env.now, info.sender@),
            ),
            r is Ok ==> final(self).gov == (Governance {
                owner: new_owner,
                paused: refreshed(old(self).gov.paused, env.now),
                ..old(self).gov
            }),
            r is Ok ==> starts_with_action(r->Ok_0.attributes@, "change_owner"@, info.sender@),
            r is Err ==> *final(self) == *old(self),
            final(self).balances == old(self).balances,
            final(self).bonds == old(self).bonds,
            final(self).delegated == old(self).delegated,
            final(self).denom == old(self).denom,
            final(self).config == old(self).config,
    {
        match self.gov.change_owner_call(env.now, &info.sender, new_owner) {
            Ok(()) => {},
            Err(e) => {
                return Err(e);
            },
        }
        let mut attributes = action_attrs("change_owner", &info.sender);
        attributes.push(attr("new_owner", self.gov.owner.clone()));
        Ok(Response { messages: Vec::new(), attributes })
    }

    pub fn grant_role(&mut self, env: &Env, info: MessageInfo, role: String, addr: String) -> (r:
        Result<Response, ContractError>)
        requires
            old(self).wf(),
        ensures
            final(self).wf(),
            unit_of(r) == unit_of(
                owner_call_outcome(old(self).gov.paused, old(self).gov.owner@, env.now, info.sender@),
            ),
            r is Ok ==> final(self).gov.paused == refreshed(old(self).gov.paused, env.now),
            r is Ok ==> final(self).gov.owner == old(self).gov.owner,
            r is Ok ==> forall|ro: Seq<char>, a: Seq<char>|
                final(self).gov.has_role(ro, a) == (old(self).gov.has_role(ro, a) || (ro == role@
                    && a == addr@)),
            r is Ok ==> starts_with_action(r->Ok_0.attributes@, "grant_role"@, info.sender@),
            r is Err ==> *final(self) == *old(self),
            final(self).balances == old(self).balances,
            final(self).bonds == old(self).bonds,
            final(self).delegated == old(self).delegated,
            final(self).denom == old(self).denom,
            final(self).config == old(self).config,
    {
        let (role, addr) = match self.gov.grant_role_call(env.now, &info.sender, role, addr) {
            Ok(x) => x,
            Err(e) => {
                return Err(e);
            },
        };
        let mut attributes = action_attrs("grant_role", &info.sender);
        attributes.push(attr("role", role));
        attributes.push(attr("addr", addr));
        Ok(Response { messages: Vec::new(), attributes })
    }

    pub fn revoke_role(&mut self, env: &Env, info: MessageInfo, role: String, addr: String) -> (r:
        Result<Response, ContractError>)
        requires
            old(self).wf(),
        ensures
            final(self).wf(),
            r is Ok <==> owner_call_outcome(old(self).gov.paused, old(self).gov.owner@, env.now, info.sender@) is Ok
                && old(self).gov.has_role(role@, addr@),
            owner_call_outcome(old(self).gov.paused, old(self).gov.owner@, env.now, info.sender@) is Ok
                && !old(self).gov.has_role(role@, addr@) ==> r == Err::<Response, ContractError>(
                ContractError::RoleNotExist { addr, role },
            ),
            r is Ok ==> final(self).gov.paused == refreshed(old(self).gov.paused, env.now),
            r is Ok ==> final(self).gov.owner == old(self).gov.owner,
            r is Ok ==> forall|ro: Seq<char>, a: Seq<char>|
                final(self).gov.has_role(ro, a) == (old(self).gov.has_role(ro, a) && !(ro == role@
                    && a == addr@)),
            r is Ok ==> starts_with_action(r->Ok_0.attributes@, "revoke_role"@, info.sender@),
            r is Err ==> *final(self) == *old(self),
            final(self).balances == old(self).balances,
            final(self).bonds == old(self).bonds,
            final(self).delegated == old(self).delegated,
            final(self).denom == old(self).denom,
            final(self).config == old(self).config,
    {
        let (role, addr) = match self.gov.revoke_role_call(env.now, &info.sender, role, addr) {
            Ok(x) => x,
            Err(e) => {
                return Err(e);
            },
        };
        let mut attributes = action_attrs("revoke_role", &info.sender);
        attributes.push(attr("role", role));
        attributes.push(attr("addr", addr));
        Ok(Response { messages: Vec::new(), attributes })
    }

    /// `ChangeConfig(unbonding_period)`: owner only, not while paused.
    pub fn change_config(&mut self, env: &Env, info: MessageInfo, unbonding_period: u64) -> (r:
        Result<Response, ContractError>)
        requires
            old(self).wf(),
        ensures
            final(self).wf(),
            unit_of(r) == unit_of(
                owner_call_outcome(old(self).gov.paused, old(self).gov.owner@, env.now, info.sender@),
            ),
            r is Ok ==> final(self).config.unbonding_period == unbonding_period,
            r is Ok ==> final(self).gov == with_pause(old(self).gov, refreshed(old(self).gov.paused, env.now)),
            r is Ok ==> starts_with_action(r->Ok_0.attributes@, "change_config"@, info.sender@),
            r is Err ==> *final(self) == *old(self),
            final(self).balances == old(self).balances,
            final(self).bonds == old(self).bonds,
            final(self).delegated == old(self).delegated,
            final(self).denom == old(self).denom,
    {
        let p = match self.gov.check_owner_call(env.now, &info.sender) {
            Ok(p) => p,
            Err(e) => {
                return Err(e);
            },
        };
        self.gov.set_paused(p);
        self.config = ConfigInfo { unbonding_period };
        let mut attributes = action_attrs("change_config", &info.sender);
        attributes.push(attr("unbonding_period", unbonding_period.to_string()));
        Ok(Response { messages: Vec::new(), attributes })
    }

    pub fn get_config(&self) -> (r: ConfigResponse)
        ensures
            r == (ConfigResponse {
                owner: self.gov.owner,
                unbonding_period: self.config.unbonding_period,
                denom: self.denom.denom,
                lp_denom: self.denom.lp_denom,
            }),
    {
        ConfigResponse {
            owner: self.gov.owner.clone(),
            unbonding_period: self.config.unbonding_period,
            denom: self.denom.denom.clone(),
            lp_denom: self.denom.lp_denom.clone(),
        }
    }

    /// The stored pause state, as it was last written.
    pub fn get_paused_info(&self) -> (r: PauseInfoResponse)
        ensures
            r == (PauseInfoResponse {
                paused: self.gov.paused.paused,
                expires_at: self.gov.paused.expires_at,
            }),
    {
        PauseInfoResponse { paused: self.gov.paused.paused, expires_at: self.gov.paused.expires_at }
    }

    pub fn get_balance(&self, depositor: String) -> (r: GetBalanceResponse)
        requires
            self.wf(),
        ensures
            r.depositor == depositor,
            forall|i: int|
                0 <= i < r.assets@.len() ==> self.balances@.contains_key(
                    (depositor@, #[trigger] r.assets@[i].denom@),
                ) && self.balances@[(depositor@, r.assets@[i].denom@)] == r.assets@[i].amount,
            forall|d: Seq<char>|
                #[trigger] self.balances@.contains_key((depositor@, d)) ==> exists|i: int|
                    0 <= i < r.assets@.len() && r.assets@[i].denom@ == d,
            forall|i: int, j: int|
                0 <= i < r.assets@.len() && 0 <= j < r.assets@.len() && #[trigger] r.assets@[i].denom@
                    == #[trigger] r.assets@[j].denom@ ==> i == j,
    {
        let assets = self.balances.inquiry_balance(&depositor);
        GetBalanceResponse { depositor, assets }
    }

    pub fn get_total_delegates(&self) -> (r: GetTotalDelegatesResponse)
        ensures
            r.amount == (Coin { denom: self.denom.lp_denom, amount: self.delegated }),
    {
        GetTotalDelegatesResponse {
            amount: Coin { denom: self.denom.lp_denom.clone(), amount: self.delegated },
        }
    }

    pub fn get_bonds(&self, bonder: &String) -> (r: GetBondResponse)
        requires
            self.wf(),
        ensures
            r.amount == self.bonds.bonded(bonder@),
            self.bonds.bonds@.contains_key(bonder@) ==> r.bond_time
                == self.bonds.bonds@[bonder@].bond_time,
            !self.bonds.bonds@.contains_key(bonder@) ==> r.bond_time == 0,
    {
        let b = self.bonds.query_bond(bonder);
        GetBondResponse { amount: b.amount, bond_time: b.bond_time }
    }

    pub fn get_unbond(&self, unbond_id: u64) -> (r: Result<GetUnbondResponse, ContractError>)
        ensures
            r is Ok <==> crate::liquidity_manager::bond::has_unbond(self.bonds.unbonds@, unbond_id),
            r is Ok ==> exists|i: int|
                0 <= i < self.bonds.unbonds@.len() && unbond_response(self.bonds.unbonds@[i])
                    == r->Ok_0,
            r is Ok ==> r->Ok_0.unbond_id == unbond_id,
    {
        match self.bonds.query_unbond(unbond_id) {
            Ok(u) => Ok(to_unbond_response(u)),
            Err(e) => Err(e),
        }
    }

    pub fn get_unbonds_by_owner(&self, owner: &String) -> (r: GetUnbondListResponse)
        ensures
            r.items@ == owned_by(self.bonds.unbonds@, owner@).map_values(
                |u: UnbondInfo| unbond_response(u),
            ),
    {
        let us = self.bonds.query_unbonds_by_owner(owner);
        let ghost src = us@;
        let mut items: Vec<GetUnbondResponse> = Vec::new();
        let mut rest = us;
        let mut i: usize = 0;
        let n = rest.len();
        while i < n
            invariant
                n == src.len(),
                i <= n,
                rest@ == src.subrange(i as int, n as int),
                items@ == src.take(i as int).map_values(|u: UnbondInfo| unbond_response(u)),
            decreases n - i,
        {
            let u = rest.remove(0);
            items.push(to_unbond_response(u));
            proof {
                assert(items@ =~= src.take(i + 1).map_values(|u: UnbondInfo| unbond_response(u)));
                assert(rest@ =~= src.subrange(i + 1, n as int));
            }
            i = i + 1;
        }
        proof {
            assert(src.take(n as int) =~= src);
        }
        GetUnbondListResponse { items }
    }
}

} // verus!
