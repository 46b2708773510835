use vstd::prelude::*;

use crate::error::ContractError;
use crate::gov::{owner_call_outcome, pause_outcome, release_outcome, unit_of, with_pause, Governance};
use crate::pause::{refreshed, unpaused, PauseInfo};
use crate::store::StrMap;
use crate::types::{action_attrs, attr, starts_with_action, Env, MessageInfo, Response};

verus! {

/// Token -> denomination aliases.
pub struct Aliases {
    pub map: StrMap<String>,
}

impl Aliases {
    pub open spec fn wf(&self) -> bool {
        self.map.wf()
    }

    /// The aliases as a map of texts.
    pub open spec fn aliases(&self) -> Map<Seq<char>, Seq<char>> {
        self.map@.map_values(|d: String| d@)
    }

    pub fn new() -> (r: Aliases)
        ensures
            r.wf(),
            r.aliases() == Map::<Seq<char>, Seq<char>>::empty(),
    {
        let r = Aliases { map: StrMap::new() };
        assert(r.aliases() =~= Map::<Seq<char>, Seq<char>>::empty());
        r
    }

    /// The denomination that `token` stands for.
    pub fn convert_denoms(&self, token: String) -> (r: Result<String, ContractError>)
        requires
            self.wf(),
        ensures
            r is Ok <==> self.aliases().contains_key(token@),
            r is Ok ==> r->Ok_0@ == self.aliases()[token@],
            r is Err ==> r == Err::<String, ContractError>(ContractError::DenomNotFound { denom: token }),
    {
        match self.map.get(&token) {
            Some(d) => Ok(d.clone()),
            None => Err(ContractError::DenomNotFound { denom: token }),
        }
    }

    /// Makes `token` stand for `alias`, replacing any earlier alias.
    pub fn add_alias(&mut self, token: String, alias: String) -> (r: (String, String))
        requires
            old(self).wf(),
        ensures
            final(self).wf(),
            final(self).aliases() == old(self).aliases().insert(token@, alias@),
            r == (token, alias),
    {
        let ghost before = self.aliases();
        self.map.insert(token.clone(), alias.clone());
        proof {
            assert(self.aliases() =~= before.insert(token@, alias@));
        }
        (token, alias)
    }
}

/// The state of a denom manager.
pub struct DenomManager {
    pub gov: Governance,
    pub denoms: Aliases,
}

#[derive(Debug, Clone, PartialEq, Eq)]
pub struct ConfigResponse {
    pub owner: String,
}

#[derive(Debug, Clone, PartialEq, Eq)]
pub struct ConvertResponse {
    pub denom: String,
}

#[derive(Debug, Clone, Copy, PartialEq, Eq)]
pub struct InstantiateMsg {}

#[derive(Debug, Clone, PartialEq, Eq)]
pub enum ExecuteMsg {
    AddAlias { token: String, denom: String },
    ChangeOwner { new_owner: String },
    GrantRole { role: String, addr: String },
    RevokeRole { role: String, addr: String },
    Pause { expires_at: u64 },
    Release {},
}

#[derive(Debug, Clone, Copy, PartialEq, Eq)]
pub enum MigrateMsg {
    Migrate {},
}

#[derive(Debug, Clone, PartialEq, Eq)]
pub enum QueryMsg {
    GetConfig {},
    Convert { token: String },
}

#[derive(Debug, Clone, PartialEq, Eq)]
pub enum QueryResponse {
    Config(ConfigResponse),
    Convert(ConvertResponse),
}

impl DenomManager {
    pub open spec fn wf(&self) -> bool {
        self.gov.wf() && self.denoms.wf()
    }

    /// A manager owned by the caller, with no aliases.
    pub fn instantiate(info: &MessageInfo, msg: InstantiateMsg) -> (r: (DenomManager, Response))
        ensures
            r.0.wf(),
            r.0.gov.owner == info.sender,
            r.0.gov.paused == unpaused(),
            r.0.denoms.aliases() == Map::<Seq<char>, Seq<char>>::empty(),
    {
        let dm = DenomManager { gov: Governance::new(info.sender.clone()), denoms: Aliases::new() };
        let resp = Response {
            messages: Vec::new(),
            attributes: vec![attr("method", "instantiate".to_owned()), attr("owner", info.sender.clone())],
        };
        (dm, resp)
    }

    /// `AddAlias(token, denom)`: owner only, not while paused.
    pub fn add_alias(&mut self, env: &Env, info: MessageInfo, token: String, denom: String) -> (r:
        Result<Response, ContractError>)
        requires
            old(self).wf(),
        ensures
            final(self).wf(),
            unit_of(r) == unit_of(
                owner_call_outcome(old(self).gov.paused, old(self).gov.owner@, env.now, info.sender@),
            ),
            r is Ok ==> final(self).denoms.aliases() == old(self).denoms.aliases().insert(token@, denom@),
            r is Ok ==> final(self).gov == with_pause(old(self).gov, refreshed(old(self).gov.paused, env.now)),
            r is Ok ==> starts_with_action(r->Ok_0.attributes@, "add_alias"@, info.sender@),
            r is Err ==> *final(self) == *old(self),
    {
        let p = match self.gov.check_owner_call(env.now, &info.sender) {
            Ok(p) => p,
            Err(e) => {
                return Err(e);
            },
        };
        self.gov.set_paused(p);
        let (token, denom) = self.denoms.add_alias(token, denom);
        let mut attributes = action_attrs("add_alias", &info.sender);
        attributes.push(attr("token", token));
        attributes.push(attr("alias", denom));
        Ok(Response { messages: Vec::new(), attributes })
    }

    pub fn pause(&mut self, env: &Env, info: MessageInfo, expires_at: u64) -> (r: Result<
        Response,
        ContractError,
    >)
        requires
            old(self).wf(),
        ensures
            final(self).wf(),
            pause_outcome(
                unit_of(r),
                old(self).gov.paused,
                old(self).gov.owner@,
                env.now,
                info.sender@,
                expires_at,
            ),
            r is Ok ==> final(self).gov == with_pause(
                old(self).gov,
                PauseInfo { paused: true, expires_at: Some(expires_at) },
            ),
            r is Ok ==> starts_with_action(r->Ok_0.attributes@, "pause"@, info.sender@),
            r is Err ==> *final(self) == *old(self),
            final(self).denoms == old(self).denoms,
    {
        match self.gov.pause(env.now, &info.sender, expires_at) {
            Ok(()) => {},
            Err(e) => {
                return Err(e);
            },
        }
        let mut attributes = action_attrs("pause", &info.sender);
        attributes.push(attr("expires_at", expires_at.to_string()));
        Ok(Response { messages: Vec::new(), attributes })
    }

    pub fn release(&mut self, env: &Env, info: MessageInfo) -> (r: Result<Response, ContractError>)
        requires
            old(self).wf(),
        ensures
            final(self).wf(),
            unit_of(r) == release_outcome(old(self).gov.paused, old(self).gov.owner@, env.now, info.sender@),
            r is Ok ==> final(self).gov == with_pause(old(self).gov, unpaused()),
            r is Ok ==> starts_with_action(r->Ok_0.attributes@, "release"@, info.sender@),
            r is Err ==> *final(self) == *old(self),
            final(self).denoms == old(self).denoms,
    {
        match self.gov.release(env.now, &info.sender) {
            Ok(()) => {},
            Err(e) => {
                return Err(e);
            },
        }
        Ok(Response { messages: Vec::new(), attributes: action_attrs("release", &info.sender) })
    }

    pub fn change_owner(&mut self, env: &Env, info: MessageInfo, new_owner: String) -> (r: Result<
        Response,
        ContractError,
    >)
        requires
            old(self).wf(),
        ensures
            final(self).wf(),
            unit_of(r) == unit_of(
                owner_call_outcome(old(self).gov.paused, old(self).gov.owner@, env.now, info.sender@),
            ),
            r is Ok ==> final(self).gov == (Governance {
                owner: new_owner,
                paused: refreshed(old(self).gov.paused, env.now),
                ..old(self).gov
            }),
            r is Ok ==> starts_with_action(r->Ok_0.attributes@, "change_owner"@, info.sender@),
            r is Err ==> *final(self) == *old(self),
            final(self).denoms == old(self).denoms,
    {
        match self.gov.change_owner_call(env.now, &info.sender, new_owner) {
            Ok(()) => {},
            Err(e) => {
                return Err(e);
            },
        }
        let mut attributes = action_attrs("change_owner", &info.sender);
        attributes.push(attr("new_owner", self.gov.owner.clone()));
        Ok(Response { messages: Vec::new(), attributes })
    }

    pub fn grant_role(&mut self, env: &Env, info: MessageInfo, role: String, addr: String) -> (r:
        Result<Response, ContractError>)
        requires
            old(self).wf(),
        ensures
            final(self).wf(),
            unit_of(r) == unit_of(
                owner_call_outcome(old(self).gov.paused, old(self).gov.owner@, env.now, info.sender@),
            ),
            r is Ok ==> forall|ro: Seq<char>, a: Seq<char>|
                final(self).gov.has_role(ro, a) == (old(self).gov.has_role(ro, a) || (ro == role@
                    && a == addr@)),
            r is Ok ==> starts_with_action(r->Ok_0.attributes@, "grant_role"@, info.sender@),
            r is Err ==> *final(self) == *old(self),
            final(self).denoms == old(self).denoms,
    {
        let (role, addr) = match self.gov.grant_role_call(env.now, &info.sender, role, addr) {
            Ok(x) => x,
            Err(e) => {
                return Err(e);
            },
        };
        let mut attributes = action_attrs("grant_role", &info.sender);
        attributes.push(attr("role", role));
        attributes.push(attr("addr", addr));
        Ok(Response { messages: Vec::new(), attributes })
    }

    pub fn revoke_role(&mut self, env: &Env, info: MessageInfo, role: String, addr: String) -> (r:
        Result<Response, ContractError>)
        requires
            old(self).wf(),
        ensures
            final(self).wf(),
            r is Ok <==> owner_call_outcome(old(self).gov.paused, old(self).gov.owner@, env.now, info.sender@) is Ok
                && old(self).gov.has_role(role@, addr@),
            owner_call_outcome(old(self).gov.paused, old(self).gov.owner@, env.now, info.sender@) is Ok
                && !old(self).gov.has_role(role@, addr@) ==> r == Err::<Response, ContractError>(
                ContractError::RoleNotExist { addr, role },
            ),
            r is Ok ==> forall|ro: Seq<char>, a: Seq<char>|
                final(self).gov.has_role(ro, a) == (old(self).gov.has_role(ro, a) && !(ro == role@
                    && a == addr@)),
            r is Ok ==> starts_with_action(r->Ok_0.attributes@, "revoke_role"@, info.sender@),
            r is Err ==> *final(self) == *old(self),
            final(self).denoms == old(self).denoms,
    {
        let (role, addr) = match self.gov.revoke_role_call(env.now, &info.sender, role, addr) {
            Ok(x) => x,
            Err(e) => {
                return Err(e);
            },
        };
        let mut attributes = action_attrs("revoke_role", &info.sender);
        attributes.push(attr("role", role));
        attributes.push(attr("addr", addr));
        Ok(Response { messages: Vec::new(), attributes })
    }

    pub fn get_config(&self) -> (r: ConfigResponse)
        ensures
            r.owner == self.gov.owner,
    {
        ConfigResponse { owner: self.gov.owner.clone() }
    }

    pub fn get_convert(&self, token: String) -> (r: Result<ConvertResponse, ContractError>)
        requires
            self.wf(),
        ensures
            r is Ok <==> self.denoms.aliases().contains_key(token@),
            r is Ok ==> r->Ok_0.denom@ == self.denoms.aliases()[token@],
            r is Err ==> r == Err::<ConvertResponse, ContractError>(
                ContractError::DenomNotFound { denom: token },
            ),
    {
        match self.denoms.convert_denoms(token) {
            Ok(denom) => Ok(ConvertResponse { denom }),
            Err(e) => Err(e),
        }
    }

    /// Runs one execute message.
    pub fn execute(&mut self, env: &Env, info: MessageInfo, msg: ExecuteMsg) -> (r: Result<
        Response,
        ContractError,
    >)
        requires
            old(self).wf(),
        ensures
            final(self).wf(),
            r is Err ==> *final(self) == *old(self),
            msg is AddAlias && !crate::pause::is_open(old(self).gov.paused, env.now) ==> r == Err::<
                Response,
                ContractError,
            >(ContractError::PausedError {  }),
    {
        match msg {
            ExecuteMsg::AddAlias { token, denom } => self.add_alias(env, info, token, denom),
            ExecuteMsg::ChangeOwner { new_owner } => self.change_owner(env, info, new_owner),
            ExecuteMsg::GrantRole { role, addr } => self.grant_role(env, info, role, addr),
            ExecuteMsg::RevokeRole { role, addr } => self.revoke_role(env, info, role, addr),
            ExecuteMsg::Pause { expires_at } => self.pause(env, info, expires_at),
            ExecuteMsg::Release {  } => self.release(env, info),
        }
    }

    /// Answers one query.
    pub fn query(&self, msg: QueryMsg) -> (r: Result<QueryResponse, ContractError>)
        requires
            self.wf(),
        ensures
            msg is GetConfig ==> r is Ok,
            msg is Convert ==> (r is Ok <==> self.denoms.aliases().contains_key(msg->Convert_token@)),
    {
        match msg {
            QueryMsg::GetConfig {  } => Ok(QueryResponse::Config(self.get_config())),
            QueryMsg::Convert { token } => match self.get_convert(token) {
                Ok(c) => Ok(QueryResponse::Convert(c)),
                Err(e) => Err(e),
            },
        }
    }

    /// Migration keeps the state as it is.
    pub fn migrate(&mut self, msg: MigrateMsg) -> (r: Result<Response, ContractError>)
        ensures
            r is Ok,
            *final(self) == *old(self),
    {
        Ok(Response::new())
    }
}

} // verus!
