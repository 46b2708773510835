use vstd::prelude::*;

use crate::error::ContractError;
use crate::pause::{is_open, refreshed, unpaused, PauseInfo};
use crate::store::StrMap;

verus! {

/// The only role defined so far: the gateway that may act for other accounts.
pub const GATEWAY_ROLE: &'static str = "gateway_role";

/// Owner, role grants and pause state, which every contract holds.
pub struct Governance {
    pub owner: String,
    /// role -> granted address -> `true`
    pub roles: StrMap<StrMap<bool>>,
    pub paused: PauseInfo,
}

impl Governance {
    pub open spec fn wf(&self) -> bool {
        &&& self.roles.wf()
        &&& forall|r: Seq<char>| #[trigger] self.roles@.contains_key(r) ==> self.roles@[r].wf()
        &&& self.paused.wf()
    }

    /// Whether `addr` holds `role`.
    pub closed spec fn has_role(&self, role: Seq<char>, addr: Seq<char>) -> bool {
        self.roles@.contains_key(role) && self.roles@[role]@.contains_key(addr)
    }

    /// A governance state with `owner`, no grants and no pause.
    pub fn new(owner: String) -> (r: Governance)
        ensures
            r.wf(),
            r.owner == owner,
            r.paused == unpaused(),
            forall|role: Seq<char>, a: Seq<char>| !r.has_role(role, a),
    {
        Governance { owner, roles: StrMap::new(), paused: PauseInfo::new() }
    }

    pub fn assert_owned(&self, sender: &String) -> (r: Result<(), ContractError>)
        ensures
            r is Ok <==> sender@ == self.owner@,
            r is Err ==> r == Err::<(), ContractError>(ContractError::Unauthorized {  }),
    {
        if self.owner != *sender {
            return Err(ContractError::Unauthorized {  });
        }
        Ok(())
    }

    pub fn assert_role(&self, role: &String, addr: &String) -> (r: Result<(), ContractError>)
        requires
            self.wf(),
        ensures
            r is Ok <==> self.has_role(role@, addr@),
            r is Err ==> r == Err::<(), ContractError>(
                ContractError::RoleNotExist { addr: *addr, role: *role },
            ),
    {
        match self.roles.get(role) {
            Some(grants) => {
                if grants.contains_key(addr) {
                    return Ok(());
                }
            },
            None => {},
        }
        Err(ContractError::RoleNotExist { addr: addr.clone(), role: role.clone() })
    }

    pub fn change_owner(&mut self, new_owner: String)
        requires
            old(self).wf(),
        ensures
            final(self).wf(),
            *final(self) == (Governance { owner: new_owner, ..*old(self) }),
    {
        self.owner = new_owner;
    }

    pub fn grant_role(&mut self, role: String, addr: String) -> (r: (String, String))
        requires
            old(self).wf(),
        ensures
            final(self).wf(),
            r == (role, addr),
            final(self).owner == old(self).owner,
            final(self).paused == old(self).paused,
            forall|ro: Seq<char>, a: Seq<char>|
                final(self).has_role(ro, a) == (old(self).has_role(ro, a) || (ro == role@ && a
                    == addr@)),
    {
        let mut grants = match self.roles.remove(&role) {
            Some(g) => g,
            None => StrMap::new(),
        };
        grants.insert(addr.clone(), true);
        self.roles.insert(role.clone(), grants);
        (role, addr)
    }

    pub fn revoke_role(&mut self, role: String, addr: String) -> (r: Result<
        (String, String),
        ContractError,
    >)
        requires
            old(self).wf(),
        ensures
            final(self).wf(),
            r is Ok <==> old(self).has_role(role@, addr@),
            r is Ok ==> r == Ok::<(String, String), ContractError>((role, addr)),
            r is Err ==> r == Err::<(String, String), ContractError>(
                ContractError::RoleNotExist { addr: addr, role: role },
            ),
            r is Err ==> *final(self) == *old(self),
            final(self).owner == old(self).owner,
            final(self).paused == old(self).paused,
            forall|ro: Seq<char>, a: Seq<char>|
                final(self).has_role(ro, a) == (old(self).has_role(ro, a) && !(ro == role@ && a
                    == addr@)),
    {
        match self.assert_role(&role, &addr) {
            Ok(()) => {},
            Err(e) => {
                return Err(e);
            },
        }
        let mut grants = match self.roles.remove(&role) {
            Some(g) => g,
            None => StrMap::new(),
        };
        grants.remove(&addr);
        self.roles.insert(role.clone(), grants);
        Ok((role, addr))
    }

    /// Stores the pause state `p`.
    pub fn set_paused(&mut self, p: PauseInfo)
        requires
            old(self).wf(),
            p.wf(),
        ensures
            final(self).wf(),
            *final(self) == with_pause(*old(self), p),
    {
        self.paused = p;
    }

    /// The first step of every state-changing call: the pause as it reads at `now`, if it
    /// lets the call through.
    pub fn check_open(&self, now: u64) -> (r: Result<PauseInfo, ContractError>)
        requires
            self.wf(),
        ensures
            r is Ok ==> r->Ok_0.wf(),
            is_open(self.paused, now) ==> r == Ok::<PauseInfo, ContractError>(
                refreshed(self.paused, now),
            ),
            !is_open(self.paused, now) ==> r == Err::<PauseInfo, ContractError>(
                ContractError::PausedError {  },
            ),
    {
        self.paused.refresh(now).assert_not_paused()
    }

    /// Pause until `expires_at`: owner only, not while paused, and only into the future.
    pub fn pause(&mut self, now: u64, sender: &String, expires_at: u64) -> (r: Result<
        (),
        ContractError,
    >)
        requires
            old(self).wf(),
        ensures
            final(self).wf(),
            pause_outcome(r, old(self).paused, old(self).owner@, now, sender@, expires_at),
            r is Ok ==> *final(self) == with_pause(
                *old(self),
                PauseInfo { paused: true, expires_at: Some(expires_at) },
            ),
            r is Ok ==> final(self).owner == old(self).owner,
            r is Ok ==> forall|ro: Seq<char>, a: Seq<char>|
                final(self).has_role(ro, a) == old(self).has_role(ro, a),
            r is Err ==> *final(self) == *old(self),
    {
        let p = match self.check_open(now) {
            Ok(p) => p,
            Err(e) => {
                return Err(e);
            },
        };
        match self.assert_owned(sender) {
            Ok(()) => {},
            Err(e) => {
                return Err(e);
            },
        }
        if now >= expires_at {
            return Err(
                ContractError::InvalidArgument { msg: "expires_at must be in the future".to_owned() },
            );
        }
        self.paused = PauseInfo { paused: true, expires_at: Some(expires_at) };
        Ok(())
    }

    /// Lift a pause: owner only, and only while paused.
    pub fn release(&mut self, now: u64, sender: &String) -> (r: Result<(), ContractError>)
        requires
            old(self).wf(),
        ensures
            final(self).wf(),
            r == release_outcome(old(self).paused, old(self).owner@, now, sender@),
            r is Ok ==> *final(self) == with_pause(*old(self), unpaused()),
            r is Ok ==> final(self).owner == old(self).owner,
            r is Ok ==> forall|ro: Seq<char>, a: Seq<char>|
                final(self).has_role(ro, a) == old(self).has_role(ro, a),
            r is Err ==> *final(self) == *old(self),
    {
        match self.paused.refresh(now).assert_paused() {
            Ok(_) => {},
            Err(e) => {
                return Err(e);
            },
        }
        match self.assert_owned(sender) {
            Ok(()) => {},
            Err(e) => {
                return Err(e);
            },
        }
        self.paused = PauseInfo::new();
        Ok(())
    }

    /// The checks of an owner-only call: not paused at `now`, then the owner.
    pub fn check_owner_call(&self, now: u64, sender: &String) -> (r: Result<
        PauseInfo,
        ContractError,
    >)
        requires
            self.wf(),
        ensures
            r is Ok ==> r->Ok_0.wf(),
            r == owner_call_outcome(self.paused, self.owner@, now, sender@),
    {
        let p = match self.check_open(now) {
            Ok(p) => p,
            Err(e) => {
                return Err(e);
            },
        };
        match self.assert_owned(sender) {
            Ok(()) => {},
            Err(e) => {
                return Err(e);
            },
        }
        Ok(p)
    }
}

impl Governance {
    /// `ChangeOwner(new_owner)`: owner only, not while paused.
    pub fn change_owner_call(&mut self, now: u64, sender: &String, new_owner: String) -> (r: Result<
        (),
        ContractError,
    >)
        requires
            old(self).wf(),
        ensures
            final(self).wf(),
            r is Ok <==> owner_call_outcome(old(self).paused, old(self).owner@, now, sender@) is Ok,
            r is Err ==> r->Err_0 == owner_call_outcome(
                old(self).paused,
                old(self).owner@,
                now,
                sender@,
            )->Err_0,
            r is Err ==> *final(self) == *old(self),
            r is Ok ==> *final(self) == (Governance {
                owner: new_owner,
                paused: refreshed(old(self).paused, now),
                ..*old(self)
            }),
    {
        let p = match self.check_owner_call(now, sender) {
            Ok(p) => p,
            Err(e) => {
                return Err(e);
            },
        };
        self.owner = new_owner;
        self.paused = p;
        Ok(())
    }

    /// `GrantRole(role, addr)`: owner only, not while paused.
    pub fn grant_role_call(&mut self, now: u64, sender: &String, role: String, addr: String) -> (r:
        Result<(String, String), ContractError>)
        requires
            old(self).wf(),
        ensures
            final(self).wf(),
            r is Ok <==> owner_call_outcome(old(self).paused, old(self).owner@, now, sender@) is Ok,
            r is Err ==> r->Err_0 == owner_call_outcome(
                old(self).paused,
                old(self).owner@,
                now,
                sender@,
            )->Err_0,
            r is Err ==> *final(self) == *old(self),
            r is Ok ==> r->Ok_0 == (role, addr),
            r is Ok ==> final(self).owner == old(self).owner,
            r is Ok ==> final(self).paused == refreshed(old(self).paused, now),
            r is Ok ==> forall|ro: Seq<char>, a: Seq<char>|
                final(self).has_role(ro, a) == (old(self).has_role(ro, a) || (ro == role@ && a
                    == addr@)),
    {
        let p = match self.check_owner_call(now, sender) {
            Ok(p) => p,
            Err(e) => {
                return Err(e);
            },
        };
        let granted = self.grant_role(role, addr);
        self.paused = p;
        Ok(granted)
    }

    /// `RevokeRole(role, addr)`: owner only, not while paused, and only a granted pair.
    pub fn revoke_role_call(&mut self, now: u64, sender: &String, role: String, addr: String) -> (r:
        Result<(String, String), ContractError>)
        requires
            old(self).wf(),
        ensures
            final(self).wf(),
            r is Ok <==> owner_call_outcome(old(self).paused, old(self).owner@, now, sender@) is Ok
                && old(self).has_role(role@, addr@),
            owner_call_outcome(old(self).paused, old(self).owner@, now, sender@) is Err ==> r is Err
                && r->Err_0 == owner_call_outcome(
                old(self).paused,
                old(self).owner@,
                now,
                sender@,
            )->Err_0,
            owner_call_outcome(old(self).paused, old(self).owner@, now, sender@) is Ok
                && !old(self).has_role(role@, addr@) ==> r == Err::<(String, String), ContractError>(
                ContractError::RoleNotExist { addr, role },
            ),
            r is Err ==> *final(self) == *old(self),
            r is Ok ==> r->Ok_0 == (role, addr),
            r is Ok ==> final(self).owner == old(self).owner,
            r is Ok ==> final(self).paused == refreshed(old(self).paused, now),
            r is Ok ==> forall|ro: Seq<char>, a: Seq<char>|
                final(self).has_role(ro, a) == (old(self).has_role(ro, a) && !(ro == role@ && a
                    == addr@)),
    {
        let p = match self.check_owner_call(now, sender) {
            Ok(p) => p,
            Err(e) => {
                return Err(e);
            },
        };
        let revoked = match self.revoke_role(role, addr) {
            Ok(x) => x,
            Err(e) => {
                return Err(e);
            },
        };
        self.paused = p;
        Ok(revoked)
    }
}

/// A result with its success value dropped.
pub open spec fn unit_of<T>(r: Result<T, ContractError>) -> Result<(), ContractError> {
    match r {
        Ok(_) => Ok(()),
        Err(e) => Err(e),
    }
}

/// The governance state with its pause replaced.
pub open spec fn with_pause(g: Governance, p: PauseInfo) -> Governance {
    Governance { paused: p, ..g }
}

/// What the checks of an owner-only call give: the refreshed pause, or the first failure.
pub open spec fn owner_call_outcome(p: PauseInfo, owner: Seq<char>, now: u64, sender: Seq<char>) -> Result<
    PauseInfo,
    ContractError,
> {
    if !is_open(p, now) {
        Err(ContractError::PausedError {  })
    } else if sender != owner {
        Err(ContractError::Unauthorized {  })
    } else {
        Ok(refreshed(p, now))
    }
}

/// Whether `r` is the result that a `Pause(expires_at)` call must give.
pub open spec fn pause_outcome(
    r: Result<(), ContractError>,
    p: PauseInfo,
    owner: Seq<char>,
    now: u64,
    sender: Seq<char>,
    expires_at: u64,
) -> bool {
    if !is_open(p, now) {
        r == Err::<(), ContractError>(ContractError::PausedError {  })
    } else if sender != owner {
        r == Err::<(), ContractError>(ContractError::Unauthorized {  })
    } else if now >= expires_at {
        r is Err && r->Err_0 is InvalidArgument
    } else {
        r is Ok
    }
}

/// The result of a `Release()` call.
pub open spec fn release_outcome(p: PauseInfo, owner: Seq<char>, now: u64, sender: Seq<char>) -> Result<
    (),
    ContractError,
> {
    if !refreshed(p, now).paused {
        Err(ContractError::NotPausedError {  })
    } else if sender != owner {
        Err(ContractError::Unauthorized {  })
    } else {
        Ok(())
    }
}

} // verus!
