use vstd::prelude::*;
use vstd::string::StringExecFns;

use crate::context::{get_withdraw_info, set_withdraw_info, WithdrawInfo};
use crate::error::ContractError;
use crate::gateway::crypto::{assert_key_of, derived_address, hex_of, secp256k1_outcome, sha256_of, to_hex, verify_batch};
use crate::gov::{owner_call_outcome, pause_outcome, release_outcome, unit_of, with_pause, Governance};
use crate::pause::{is_open, refreshed, unpaused, PauseInfo};
use crate::types::{
    action_attrs, attr, paid_one, one_coin, plain, starts_with_action, Coin, Env, MessageInfo, Msg,
    ReplyOn, Response, SubMsg,
};

verus! {

/// The bech32 prefix of account addresses on the host chain.
pub const ADDRESS_PREFIX: &'static str = "osmo";

/// Reply id of the liquidity manager's withdrawal in a two-step withdraw.
pub const REPLY_WITHDRAW_SUBMESSAGE_SUCCESS: u64 = 3;

/// The state of a gateway.
pub struct Gateway {
    pub gov: Governance,
    pub liquidity_manager: String,
    pub denom_manager: String,
    /// The relayer's compressed secp256k1 key.
    pub public_key: Option<Vec<u8>>,
    /// The staged two-step withdraw, if any.
    pub withdraw: Option<WithdrawInfo>,
}

#[derive(Debug, Clone, PartialEq, Eq)]
pub struct ConfigResponse {
    pub owner: String,
    pub liquidity_manager: String,
    pub denom_manager: String,
    pub public_key: Option<Vec<u8>>,
}

/// `c` as text: its amount in decimal followed by its denomination.
fn coin_text(c: &Coin) -> (r: String) {
    c.amount.to_string().concat(c.denom.as_str())
}

impl Gateway {
    /// A registered key derives to the owner's address.
    pub open spec fn wf(&self) -> bool {
        &&& self.gov.wf()
        &&& self.public_key is Some ==> derived_address(
            ADDRESS_PREFIX@,
            self.public_key->Some_0@,
        ) == Some(self.gov.owner@)
    }

    /// A gateway owned by `owner` with no relayer key registered yet.
    pub fn new(owner: String, liquidity_manager: String, denom_manager: String) -> (r: Gateway)
        ensures
            r.wf(),
            r.gov.owner == owner,
            r.gov.paused == unpaused(),
            r.liquidity_manager == liquidity_manager,
            r.denom_manager == denom_manager,
            r.public_key is None,
            r.withdraw is None,
    {
        Gateway {
            gov: Governance::new(owner),
            liquidity_manager,
            denom_manager,
            public_key: None,
            withdraw: None,
        }
    }

    /// A gateway owned by the caller, whose relayer key must derive to the caller's address.
    pub fn instantiate(
        env: &Env,
        info: &MessageInfo,
        liquidity_manager: String,
        denom_manager: String,
        public_key: Vec<u8>,
    ) -> (r: Result<(Gateway, Response), ContractError>)
        ensures
            r is Ok <==> derived_address(ADDRESS_PREFIX@, public_key@) == Some(info.sender@),
            r is Err ==> r->Err_0 == (ContractError::InvalidPubKey {  }),
            r is Ok ==> r->Ok_0.0.wf(),
            r is Ok ==> r->Ok_0.0.gov.owner == info.sender,
            r is Ok ==> r->Ok_0.0.gov.paused == unpaused(),
            r is Ok ==> r->Ok_0.0.public_key == Some(public_key),
            r is Ok ==> r->Ok_0.0.liquidity_manager == liquidity_manager,
            r is Ok ==> r->Ok_0.0.denom_manager == denom_manager,
            r is Ok ==> (r->Ok_0.0.withdraw is None),
    {
        match assert_key_of(&public_key, ADDRESS_PREFIX, &info.sender) {
            Ok(()) => {},
            Err(e) => {
                return Err(e);
            },
        }
        let mut g = Gateway::new(info.sender.clone(), liquidity_manager, denom_manager);
        g.public_key = Some(public_key);
        let resp = Response {
            messages: Vec::new(),
            attributes: vec![attr("method", "instantiate".to_owned()), attr("owner", info.sender.clone())],
        };
        Ok((g, resp))
    }

    /// `ChangeOwner(new_owner, new_public_key)`: owner only, not while paused; the new key
    /// must derive to the new owner.
    pub fn change_owner(
        &mut self,
        env: &Env,
        info: MessageInfo,
        new_owner: String,
        new_public_key: Vec<u8>,
    ) -> (r: Result<Response, ContractError>)
        requires
            old(self).wf(),
        ensures
            final(self).wf(),
            owner_call_outcome(old(self).gov.paused, old(self).gov.owner@, env.now, info.sender@) is Err
                ==> unit_of(r) == unit_of(
                owner_call_outcome(old(self).gov.paused, old(self).gov.owner@, env.now, info.sender@),
            ),
            r is Ok <==> owner_call_outcome(old(self).gov.paused, old(self).gov.owner@, env.now, info.sender@) is Ok
                && derived_address(ADDRESS_PREFIX@, new_public_key@) == Some(new_owner@),
            owner_call_outcome(old(self).gov.paused, old(self).gov.owner@, env.now, info.sender@) is Ok
                && derived_address(ADDRESS_PREFIX@, new_public_key@) != Some(new_owner@) ==> r
                == Err::<Response, ContractError>(ContractError::InvalidPubKey {  }),
            r is Ok ==> final(self).gov == (Governance {
                owner: new_owner,
                paused: refreshed(old(self).gov.paused, env.now),
                ..old(self).gov
            }),
            r is Ok ==> final(self).public_key == Some(new_public_key),
            r is Ok ==> starts_with_action(r->Ok_0.attributes@, "change_owner"@, info.sender@),
            r is Err ==> *final(self) == *old(self),
            final(self).liquidity_manager == old(self).liquidity_manager,
            final(self).denom_manager == old(self).denom_manager,
            final(self).withdraw == old(self).withdraw,
    {
        let p = match self.gov.check_owner_call(env.now, &info.sender) {
            Ok(p) => p,
            Err(e) => {
                return Err(e);
            },
        };
        match assert_key_of(&new_public_key, ADDRESS_PREFIX, &new_owner) {
            Ok(()) => {},
            Err(e) => {
                return Err(e);
            },
        }
        let key_hex = to_hex(&new_public_key);
        let mut attributes = action_attrs("change_owner", &info.sender);
        attributes.push(attr("new_owner", new_owner.clone()));
        attributes.push(attr("new_public_key", key_hex));
        self.gov.change_owner(new_owner);
        self.gov.set_paused(p);
        self.public_key = Some(new_public_key);
        Ok(Response { messages: Vec::new(), attributes })
    }

    /// `ChangePublicKey(public_key)`: owner only, not while paused; the key must derive to
    /// the owner.
    pub fn change_public_key(&mut self, env: &Env, info: MessageInfo, public_key: Vec<u8>) -> (r:
        Result<Response, ContractError>)
        requires
            old(self).wf(),
        ensures
            final(self).wf(),
            owner_call_outcome(old(self).gov.paused, old(self).gov.owner@, env.now, info.sender@) is Err
                ==> unit_of(r) == unit_of(
                owner_call_outcome(old(self).gov.paused, old(self).gov.owner@, env.now, info.sender@),
            ),
            r is Ok <==> owner_call_outcome(old(self).gov.paused, old(self).gov.owner@, env.now, info.sender@) is Ok
                && derived_address(ADDRESS_PREFIX@, public_key@) == Some(info.sender@),
            owner_call_outcome(old(self).gov.paused, old(self).gov.owner@, env.now, info.sender@) is Ok
                && derived_address(ADDRESS_PREFIX@, public_key@) != Some(info.sender@) ==> r
                == Err::<Response, ContractError>(ContractError::InvalidPubKey {  }),
            r is Ok ==> final(self).public_key == Some(public_key),
            r is Ok ==> final(self).gov == with_pause(old(self).gov, refreshed(old(self).gov.paused, env.now)),
            r is Ok ==> starts_with_action(r->Ok_0.attributes@, "change_public_key"@, info.sender@),
            r is Ok ==> r->Ok_0.attributes@.len() == 3 && r->Ok_0.attributes@[2].value@ == hex_of(public_key@),
            r is Err ==> *final(self) == *old(self),
            final(self).liquidity_manager == old(self).liquidity_manager,
            final(self).denom_manager == old(self).denom_manager,
            final(self).withdraw == old(self).withdraw,
    {
        let p = match self.gov.check_owner_call(env.now, &info.sender) {
            Ok(p) => p,
            Err(e) => {
                return Err(e);
            },
        };
        match assert_key_of(&public_key, ADDRESS_PREFIX, &info.sender) {
            Ok(()) => {},
            Err(e) => {
                return Err(e);
            },
        }
        let mut attributes = action_attrs("change_public_key", &info.sender);
        attributes.push(attr("public_key", to_hex(&public_key)));
        self.gov.set_paused(p);
        self.public_key = Some(public_key);
        Ok(Response { messages: Vec::new(), attributes })
    }

    /// `ChangeLiquidityManager(new_liquidity_manager)`: owner only, not while paused.
    pub fn change_liquidity_manager(&mut self, env: &Env, info: MessageInfo, new_liquidity_manager: String) -> (r:
        Result<Response, ContractError>)
        requires
            old(self).wf(),
        ensures
            final(self).wf(),
            unit_of(r) == unit_of(
                owner_call_outcome(old(self).gov.paused, old(self).gov.owner@, env.now, info.sender@),
            ),
            r is Ok ==> final(self).liquidity_manager == new_liquidity_manager,
            r is Ok ==> final(self).gov == with_pause(old(self).gov, refreshed(old(self).gov.paused, env.now)),
            r is Ok ==> starts_with_action(r->Ok_0.attributes@, "change_liquidity_manager"@, info.sender@),
            r is Err ==> *final(self) == *old(self),
            final(self).public_key == old(self).public_key,
            final(self).denom_manager == old(self).denom_manager,
            final(self).withdraw == old(self).withdraw,
    {
        let p = match self.gov.check_owner_call(env.now, &info.sender) {
            Ok(p) => p,
            Err(e) => {
                return Err(e);
            },
        };
        self.gov.set_paused(p);
        let mut attributes = action_attrs("change_liquidity_manager", &info.sender);
        attributes.push(attr("new_liquidity_manager", new_liquidity_manager.clone()));
        self.liquidity_manager = new_liquidity_manager;
        Ok(Response { messages: Vec::new(), attributes })
    }

    /// `ChangeDenomManager(new_denom_manager)`: owner only, not while paused.
    pub fn change_denom_manager(&mut self, env: &Env, info: MessageInfo, new_denom_manager: String) -> (r:
        Result<Response, ContractError>)
        requires
            old(self).wf(),
        ensures
            final(self).wf(),
            unit_of(r) == unit_of(
                owner_call_outcome(old(self).gov.paused, old(self).gov.owner@, env.now, info.sender@),
            ),
            r is Ok ==> final(self).denom_manager == new_denom_manager,
            r is Ok ==> final(self).gov == with_pause(old(self).gov, refreshed(old(self).gov.paused, env.now)),
            r is Ok ==> starts_with_action(r->Ok_0.attributes@, "change_denom_manager"@, info.sender@),
            r is Err ==> *final(self) == *old(self),
            final(self).public_key == old(self).public_key,
            final(self).liquidity_manager == old(self).liquidity_manager,
            final(self).withdraw == old(self).withdraw,
    {
        let p = match self.gov.check_owner_call(env.now, &info.sender) {
            Ok(p) => p,
            Err(e) => {
                return Err(e);
            },
        };
        self.gov.set_paused(p);
        let mut attributes = action_attrs("change_denom_manager", &info.sender);
        attributes.push(attr("new_liquidity_manager", new_denom_manager.clone()));
        self.denom_manager = new_denom_manager;
        Ok(Response { messages: Vec::new(), attributes })
    }

    /// `Send(to, op_id, op_args)`: forwards the one coin sent into the liquidity manager,
    /// with this gateway as depositor, and records the transfer for the relayer.
    pub fn send(
        &mut self,
        env: &Env,
        info: MessageInfo,
        to: String,
        op_id: u64,
        op_args: Vec<String>,
    ) -> (r: Result<Response, ContractError>)
        requires
            old(self).wf(),
        ensures
            final(self).wf(),
            !is_open(old(self).gov.paused, env.now) ==> r == Err::<Response, ContractError>(
                ContractError::PausedError {  },
            ),
            is_open(old(self).gov.paused, env.now) && paid_one(info.funds@) is None ==> r == Err::<
                Response,
                ContractError,
            >(ContractError::MustPayOne {  }),
            r is Ok <==> is_open(old(self).gov.paused, env.now) && paid_one(info.funds@) is Some,
            r is Ok ==> r->Ok_0.messages@ == seq![
                plain(
                    Msg::Deposit {
                        contract_addr: old(self).liquidity_manager,
                        depositor: env.contract_address,
                        funds: info.funds,
                    },
                ),
            ],
            r is Ok ==> starts_with_action(r->Ok_0.attributes@, "send"@, info.sender@),
            r is Ok ==> final(self).gov == with_pause(old(self).gov, refreshed(old(self).gov.paused, env.now)),
            r is Err ==> *final(self) == *old(self),
            final(self).public_key == old(self).public_key,
            final(self).liquidity_manager == old(self).liquidity_manager,
            final(self).denom_manager == old(self).denom_manager,
            final(self).withdraw == old(self).withdraw,
    {
        let p = match self.gov.check_open(env.now) {
            Ok(p) => p,
            Err(e) => {
                return Err(e);
            },
        };
        let paid = match one_coin(&info.funds) {
            Some(c) => c,
            None => {
                return Err(ContractError::MustPayOne {  });
            },
        };
        self.gov.set_paused(p);
        let mut attributes = action_attrs("send", &info.sender);
        attributes.push(attr("amount", coin_text(&paid)));
        attributes.push(attr("to", to));
        attributes.push(attr("op_id", op_id.to_string()));
        attributes.push(attr("op_args", crate::gateway::json::json_string_list(&op_args)));
        let deposit = SubMsg {
            id: 0,
            msg: Msg::Deposit {
                contract_addr: self.liquidity_manager.clone(),
                depositor: env.contract_address.clone(),
                funds: info.funds,
            },
            reply_on: ReplyOn::Never,
        };
        let messages = vec![deposit];
        proof {
            assert(messages@ =~= seq![messages@[0]]);
        }
        Ok(Response { messages, attributes })
    }

    /// `Execute(msgs, signature)`: owner only, not while paused; the batch `msgs` (the JSON
    /// bytes that the relayer signed) is dispatched if `signature` signs its SHA-256 under
    /// the registered key.
    pub fn execute(
        &mut self,
        env: &Env,
        info: MessageInfo,
        msgs: Vec<u8>,
        req_op_id: u64,
        signature: Vec<u8>,
    ) -> (r: Result<Response, ContractError>)
        requires
            old(self).wf(),
        ensures
            final(self).wf(),
            owner_call_outcome(old(self).gov.paused, old(self).gov.owner@, env.now, info.sender@) is Err
                ==> unit_of(r) == unit_of(
                owner_call_outcome(old(self).gov.paused, old(self).gov.owner@, env.now, info.sender@),
            ),
            owner_call_outcome(old(self).gov.paused, old(self).gov.owner@, env.now, info.sender@) is Ok
                && old(self).public_key is None ==> r == Err::<Response, ContractError>(
                ContractError::PublicKeyNotRegistered {  },
            ),
            r is Ok <==> owner_call_outcome(old(self).gov.paused, old(self).gov.owner@, env.now, info.sender@) is Ok
                && old(self).public_key is Some && secp256k1_outcome(
                sha256_of(msgs@),
                signature@,
                old(self).public_key->Some_0@,
            ) == Some(true),
            owner_call_outcome(old(self).gov.paused, old(self).gov.owner@, env.now, info.sender@) is Ok
                && old(self).public_key is Some && secp256k1_outcome(
                sha256_of(msgs@),
                signature@,
                old(self).public_key->Some_0@,
            ) != Some(true) ==> r == Err::<Response, ContractError>(ContractError::InvalidPubKey {  }),
            r is Ok ==> r->Ok_0.messages@ == seq![plain(Msg::Relayed { msgs })],
            r is Ok ==> starts_with_action(r->Ok_0.attributes@, "execute"@, info.sender@),
            r is Ok ==> final(self).gov == with_pause(old(self).gov, refreshed(old(self).gov.paused, env.now)),
            r is Err ==> *final(self) == *old(self),
            final(self).public_key == old(self).public_key,
            final(self).liquidity_manager == old(self).liquidity_manager,
            final(self).denom_manager == old(self).denom_manager,
            final(self).withdraw == old(self).withdraw,
    {
        let p = match self.gov.check_owner_call(env.now, &info.sender) {
            Ok(p) => p,
            Err(e) => {
                return Err(e);
            },
        };
        match &self.public_key {
            Some(pk) => match verify_batch(&msgs, &signature, pk) {
                Ok(()) => {},
                Err(e) => {
                    return Err(e);
                },
            },
            None => {
                return Err(ContractError::PublicKeyNotRegistered {  });
            },
        }
        self.gov.set_paused(p);
        let mut attributes = action_attrs("execute", &info.sender);
        attributes.push(attr("req_op_id", req_op_id.to_string()));
        let messages = vec![SubMsg { id: 0, msg: Msg::Relayed { msgs }, reply_on: ReplyOn::Never }];
        proof {
            assert(messages@ =~= seq![messages@[0]]);
        }
        Ok(Response { messages, attributes })
    }

    /// Starts a two-step withdraw of `amount` to `to`: owner only, not while paused, and only
    /// when no earlier one is outstanding. The gateway's own balance at the liquidity manager
    /// is withdrawn, and `reply` pays it on.
    pub fn withdraw_to(&mut self, env: &Env, info: MessageInfo, to: String, amount: Coin) -> (r:
        Result<Response, ContractError>)
        requires
            old(self).wf(),
        ensures
            final(self).wf(),
            owner_call_outcome(old(self).gov.paused, old(self).gov.owner@, env.now, info.sender@) is Err
                ==> unit_of(r) == unit_of(
                owner_call_outcome(old(self).gov.paused, old(self).gov.owner@, env.now, info.sender@),
            ),
            owner_call_outcome(old(self).gov.paused, old(self).gov.owner@, env.now, info.sender@) is Ok
                && old(self).withdraw is Some ==> r == Err::<Response, ContractError>(
                ContractError::WithdrawNotFlushed {  },
            ),
            r is Ok <==> owner_call_outcome(old(self).gov.paused, old(self).gov.owner@, env.now, info.sender@) is Ok
                && old(self).withdraw is None,
            r is Ok ==> final(self).withdraw == Some(WithdrawInfo { to_address: to, amount }),
            r is Ok ==> r->Ok_0.messages@ == seq![
                SubMsg {
                    id: REPLY_WITHDRAW_SUBMESSAGE_SUCCESS,
                    msg: Msg::Withdraw {
                        contract_addr: old(self).liquidity_manager,
                        withdrawer: env.contract_address,
                        amount,
                    },
                    reply_on: ReplyOn::Success,
                },
            ],
            r is Ok ==> starts_with_action(r->Ok_0.attributes@, "withdraw"@, info.sender@),
            r is Ok ==> final(self).gov == with_pause(old(self).gov, refreshed(old(self).gov.paused, env.now)),
            r is Err ==> *final(self) == *old(self),
            final(self).public_key == old(self).public_key,
            final(self).liquidity_manager == old(self).liquidity_manager,
            final(self).denom_manager == old(self).denom_manager,
    {
        let p = match self.gov.check_owner_call(env.now, &info.sender) {
            Ok(p) => p,
            Err(e) => {
                return Err(e);
            },
        };
        match set_withdraw_info(&mut self.withdraw, to.clone(), amount.duplicate()) {
            Ok(()) => {},
            Err(e) => {
                return Err(e);
            },
        }
        self.gov.set_paused(p);
        let mut attributes = action_attrs("withdraw", &info.sender);
        attributes.push(attr("to", to));
        let call = SubMsg {
            id: REPLY_WITHDRAW_SUBMESSAGE_SUCCESS,
            msg: Msg::Withdraw {
                contract_addr: self.liquidity_manager.clone(),
                withdrawer: env.contract_address.clone(),
                amount,
            },
            reply_on: ReplyOn::Success,
        };
        let messages = vec![call];
        proof {
            assert(messages@ =~= seq![messages@[0]]);
        }
        Ok(Response { messages, attributes })
    }

    /// Completes a two-step withdraw: the staged context is taken out and paid to its
    /// recipient.
    pub fn reply(&mut self, id: u64) -> (r: Result<Response, ContractError>)
        requires
            old(self).wf(),
        ensures
            final(self).wf(),
            id != REPLY_WITHDRAW_SUBMESSAGE_SUCCESS ==> r == Err::<Response, ContractError>(
                ContractError::ReplyIdNotFound { id },
            ),
            r is Ok <==> id == REPLY_WITHDRAW_SUBMESSAGE_SUCCESS && old(self).withdraw is Some,
            r is Ok ==> final(self).withdraw is None,
            r is Ok ==> r->Ok_0.messages@.len() == 1 && r->Ok_0.messages@[0].msg is BankSend
                && r->Ok_0.messages@[0].msg->BankSend_to_address
                == old(self).withdraw->Some_0.to_address
                && r->Ok_0.messages@[0].msg->BankSend_amount@ == seq![
                old(self).withdraw->Some_0.amount,
            ],
            r is Err ==> *final(self) == *old(self),
            final(self).gov == old(self).gov,
            final(self).public_key == old(self).public_key,
            final(self).liquidity_manager == old(self).liquidity_manager,
            final(self).denom_manager == old(self).denom_manager,
    {
        if id != REPLY_WITHDRAW_SUBMESSAGE_SUCCESS {
            return Err(ContractError::ReplyIdNotFound { id });
        }
        if self.withdraw.is_none() {
            return Err(ContractError::NotFound { kind: "withdraw context".to_owned() });
        }
        let ctx = match get_withdraw_info(&mut self.withdraw) {
            Ok(w) => w,
            Err(e) => {
                return Err(e);
            },
        };
        let attributes = vec![
            attr("action", "reply_withdraw".to_owned()),
            attr("to", ctx.to_address.clone()),
            attr("amount", coin_text(&ctx.amount)),
        ];
        let send = SubMsg {
            id: 0,
            msg: Msg::BankSend { to_address: ctx.to_address, amount: vec![ctx.amount] },
            reply_on: ReplyOn::Never,
        };
        Ok(Response { messages: vec![send], attributes })
    }

    pub fn pause(&mut self, env: &Env, info: MessageInfo, expires_at: u64) -> (r: Result<
        Response,
        ContractError,
    >)
        requires
            old(self).wf(),
        ensures
            final(self).wf(),
            pause_outcome(
                unit_of(r),
                old(self).gov.paused,
                old(self).gov.owner@,
                env.now,
                info.sender@,
                expires_at,
            ),
            r is Ok ==> final(self).gov == with_pause(
                old(self).gov,
                PauseInfo { paused: true, expires_at: Some(expires_at) },
            ),
            r is Ok ==> starts_with_action(r->Ok_0.attributes@, "pause"@, info.sender@),
            r is Err ==> *final(self) == *old(self),
            final(self).public_key == old(self).public_key,
            final(self).liquidity_manager == old(self).liquidity_manager,
            final(self).denom_manager == old(self).denom_manager,
            final(self).withdraw == old(self).withdraw,
    {
        match self.gov.pause(env.now, &info.sender, expires_at) {
            Ok(()) => {},
            Err(e) => {
                return Err(e);
            },
        }
        let mut attributes = action_attrs("pause", &info.sender);
        attributes.push(attr("expires_at", expires_at.to_string()));
        Ok(Response { messages: Vec::new(), attributes })
    }

    pub fn release(&mut self, env: &Env, info: MessageInfo) -> (r: Result<Response, ContractError>)
        requires
            old(self).wf(),
        ensures
            final(self).wf(),
            unit_of(r) == release_outcome(old(self).gov.paused, old(self).gov.owner@, env.now, info.sender@),
            r is Ok ==> final(self).gov == with_pause(old(self).gov, unpaused()),
            r is Ok ==> starts_with_action(r->Ok_0.attributes@, "release"@, info.sender@),
            r is Err ==> *final(self) == *old(self),
            final(self).public_key == old(self).public_key,
            final(self).liquidity_manager == old(self).liquidity_manager,
            final(self).denom_manager == old(self).denom_manager,
            final(self).withdraw == old(self).withdraw,
    {
        match self.gov.release(env.now, &info.sender) {
            Ok(()) => {},
            Err(e) => {
                return Err(e);
            },
        }
        Ok(Response { messages: Vec::new(), attributes: action_attrs("release", &info.sender) })
    }

    pub fn get_config(&self) -> (r: ConfigResponse)
        ensures
            r.owner == self.gov.owner,
            r.liquidity_manager == self.liquidity_manager,
            r.denom_manager == self.denom_manager,
            r.public_key.is_some() == self.public_key.is_some(),
            self.public_key is Some ==> r.public_key->Some_0@ == self.public_key->Some_0@,
    {
        let public_key = match &self.public_key {
            Some(k) => Some(k.clone()),
            None => None,
        };
        ConfigResponse {
            owner: self.gov.owner.clone(),
            liquidity_manager: self.liquidity_manager.clone(),
            denom_manager: self.denom_manager.clone(),
            public_key,
        }
    }
}

} // verus!
