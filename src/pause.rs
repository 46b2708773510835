use vstd::prelude::*;

use crate::error::ContractError;

verus! {

/// The circuit breaker: while `paused`, state-changing calls fail until `expires_at`.
#[derive(Debug, Clone, Copy, PartialEq, Eq)]
pub struct PauseInfo {
    pub paused: bool,
    pub expires_at: Option<u64>,
}

/// The unpaused state.
pub open spec fn unpaused() -> PauseInfo {
    PauseInfo { paused: false, expires_at: None }
}

/// What a stored pause state reads as at time `now`: a pause whose expiry has come is cleared.
pub open spec fn refreshed(p: PauseInfo, now: u64) -> PauseInfo {
    if p.paused && p.expires_at is Some && p.expires_at->Some_0 <= now {
        unpaused()
    } else {
        p
    }
}

/// Whether a state-changing call at time `now` gets past the pause.
pub open spec fn is_open(p: PauseInfo, now: u64) -> bool {
    !refreshed(p, now).paused
}

impl PauseInfo {
    /// A pause is on exactly when it has an expiry.
    pub open spec fn wf(self) -> bool {
        self.paused <==> self.expires_at is Some
    }

    pub fn new() -> (r: PauseInfo)
        ensures
            r == unpaused(),
            r.wf(),
    {
        PauseInfo { paused: false, expires_at: None }
    }

    /// Clears a pause whose expiry is at or before `now`; otherwise returns `self`.
    pub fn refresh(self, now: u64) -> (r: PauseInfo)
        ensures
            r == refreshed(self, now),
            self.wf() ==> r.wf(),
    {
        if self.paused {
            if let Some(expiry) = self.expires_at {
                if expiry <= now {
                    return PauseInfo::new();
                }
            }
        }
        self
    }

    pub fn assert_paused(self) -> (r: Result<PauseInfo, ContractError>)
        ensures
            self.paused ==> r == Ok::<PauseInfo, ContractError>(self),
            !self.paused ==> r == Err::<PauseInfo, ContractError>(ContractError::NotPausedError {  }),
    {
        if !self.paused {
            return Err(ContractError::NotPausedError {  });
        }
        Ok(self)
    }

    pub fn assert_not_paused(self) -> (r: Result<PauseInfo, ContractError>)
        ensures
            !self.paused ==> r == Ok::<PauseInfo, ContractError>(self),
            self.paused ==> r == Err::<PauseInfo, ContractError>(ContractError::PausedError {  }),
    {
        if self.paused {
            return Err(ContractError::PausedError {  });
        }
        Ok(self)
    }
}

impl Default for PauseInfo {
    fn default() -> (r: PauseInfo)
        ensures
            r == unpaused(),
    {
        PauseInfo::new()
    }
}

/// After a pause that expires at `e` is set, every call before `e` is held back, and
/// the first call at or after `e` finds the pause cleared.
pub proof fn lemma_pause_holds_calls(e: u64, t: u64)
    ensures
        t < e ==> !is_open(PauseInfo { paused: true, expires_at: Some(e) }, t),
        t >= e ==> refreshed(PauseInfo { paused: true, expires_at: Some(e) }, t) == unpaused(),
        t >= e ==> is_open(PauseInfo { paused: true, expires_at: Some(e) }, t),
{
}

/// Refreshing twice at one time is refreshing once.
pub proof fn lemma_refresh_idempotent(p: PauseInfo, now: u64)
    ensures
        refreshed(refreshed(p, now), now) == refreshed(p, now),
{
}

} // verus!
