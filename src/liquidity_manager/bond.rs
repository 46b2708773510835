use vstd::prelude::*;

use crate::error::ContractError;
use crate::store::StrMap;

verus! {

/// LP tokens locked by one account.
#[derive(Debug, Clone, Copy, PartialEq, Eq)]
pub struct BondInfo {
    pub amount: u128,
    pub bond_time: u64,
}

/// A pending unbond: `amount` leaves the bond at `unbond_time`.
#[derive(Debug, Clone, PartialEq, Eq)]
pub struct UnbondInfo {
    pub unbond_id: u64,
    pub owner: String,
    pub amount: u128,
    /// When the unbond may be finished (start time plus the unbonding period).
    pub unbond_time: u64,
}

impl UnbondInfo {
    pub fn duplicate(&self) -> (r: UnbondInfo)
        ensures
            r == *self,
    {
        UnbondInfo {
            unbond_id: self.unbond_id,
            owner: self.owner.clone(),
            amount: self.amount,
            unbond_time: self.unbond_time,
        }
    }
}

/// The total pending in `us` for `owner`.
pub open spec fn pending_sum(us: Seq<UnbondInfo>, owner: Seq<char>) -> nat
    decreases us.len(),
{
    if us.len() == 0 {
        0
    } else {
        pending_sum(us.drop_last(), owner) + if us.last().owner@ == owner {
            us.last().amount as nat
        } else {
            0
        }
    }
}

/// The unbonds of `us` that belong to `owner`, in their order.
pub open spec fn owned_by(us: Seq<UnbondInfo>, owner: Seq<char>) -> Seq<UnbondInfo>
    decreases us.len(),
{
    if us.len() == 0 {
        us
    } else if us.last().owner@ == owner {
        owned_by(us.drop_last(), owner).push(us.last())
    } else {
        owned_by(us.drop_last(), owner)
    }
}

/// The index of the unbond with id `id` in `us`, if any.
pub open spec fn has_unbond(us: Seq<UnbondInfo>, id: u64) -> bool {
    exists|i: int| 0 <= i < us.len() && us[i].unbond_id == id
}

pub proof fn lemma_pending_prefix(us: Seq<UnbondInfo>, i: int, owner: Seq<char>)
    requires
        0 <= i <= us.len(),
    ensures
        pending_sum(us.take(i), owner) <= pending_sum(us, owner),
    decreases us.len() - i,
{
    if i < us.len() {
        lemma_pending_prefix(us, i + 1, owner);
        assert(us.take(i + 1).drop_last() =~= us.take(i));
    } else {
        assert(us.take(i) =~= us);
    }
}

pub proof fn lemma_pending_remove(us: Seq<UnbondInfo>, i: int, owner: Seq<char>)
    requires
        0 <= i < us.len(),
    ensures
        pending_sum(us, owner) == pending_sum(us.remove(i), owner) + if us[i].owner@ == owner {
            us[i].amount as nat
        } else {
            0
        },
    decreases us.len(),
{
    if i == us.len() - 1 {
        assert(us.remove(i) =~= us.drop_last());
    } else {
        lemma_pending_remove(us.drop_last(), i, owner);
        assert(us.remove(i).drop_last() =~= us.drop_last().remove(i));
        assert(us.remove(i).last() == us.last());
    }
}

/// Bonding `x`, starting an unbond of `x` and finishing that unbond leaves the account's bond
/// and the pending unbonds as they were. The three steps are given by what `bond`,
/// `start_unbond` and `finish_unbond` promise.
pub proof fn lemma_bond_unbond_round_trip(
    b0: Bonds,
    b1: Bonds,
    b2: Bonds,
    b3: Bonds,
    a: Seq<char>,
    x: u128,
    u: UnbondInfo,
    i: int,
)
    requires
        b0.wf(),
        b1.bonded(a) == b0.bonded(a) + x,
        b1.unbonds@ == b0.unbonds@,
        b1.next_unbond_id == b0.next_unbond_id,
        b2.unbonds@ == b1.unbonds@.push(u),
        u.unbond_id == b1.next_unbond_id,
        u.amount == x,
        b2.bonds@ == b1.bonds@,
        0 <= i < b2.unbonds@.len(),
        b2.unbonds@[i].unbond_id == u.unbond_id,
        b3.unbonds@ == b2.unbonds@.remove(i),
        b3.bonded(a) == b2.bonded(a) - b2.unbonds@[i].amount,
    ensures
        b3.bonded(a) == b0.bonded(a),
        b3.unbonds@ == b0.unbonds@,
{
    if i < b0.unbonds@.len() {
        assert(b0.unbonds@[i].unbond_id < b0.next_unbond_id);
    }
    assert(i == b0.unbonds@.len());
    assert(b2.unbonds@.remove(i) =~= b0.unbonds@);
}

/// Bonds per account, and the pending unbonds in the order of their ids.
pub struct Bonds {
    pub bonds: StrMap<BondInfo>,
    pub unbonds: Vec<UnbondInfo>,
    /// The id that the next unbond gets.
    pub next_unbond_id: u64,
}

impl Bonds {
    /// The amount bonded by `a`; an account without a bond has none.
    pub open spec fn bonded(&self, a: Seq<char>) -> nat {
        if self.bonds@.contains_key(a) {
            self.bonds@[a].amount as nat
        } else {
            0
        }
    }

    /// Ids increase along the pending list and stay below the next id; no account has
    /// more pending than it has bonded.
    pub open spec fn wf(&self) -> bool {
        &&& self.bonds.wf()
        &&& forall|i: int, j: int|
            0 <= i < j < self.unbonds@.len() ==> (#[trigger] self.unbonds@[i]).unbond_id
                < (#[trigger] self.unbonds@[j]).unbond_id
        &&& forall|i: int|
            0 <= i < self.unbonds@.len() ==> (#[trigger] self.unbonds@[i]).unbond_id
                < self.next_unbond_id
        &&& forall|a: Seq<char>| #[trigger] pending_sum(self.unbonds@, a) <= self.bonded(a)
    }

    /// No bonds, no unbonds, and the first unbond id is 0.
    pub fn new() -> (r: Bonds)
        ensures
            r.wf(),
            r.bonds@ == Map::<Seq<char>, BondInfo>::empty(),
            r.unbonds@.len() == 0,
            r.next_unbond_id == 0,
    {
        Bonds { bonds: StrMap::new(), unbonds: Vec::new(), next_unbond_id: 0 }
    }

    /// Restarts unbond ids at 0.
    pub fn init_unbonds_id(&mut self)
        requires
            old(self).unbonds@.len() == 0,
            old(self).wf(),
        ensures
            final(self).wf(),
            final(self).next_unbond_id == 0,
            final(self).bonds@ == old(self).bonds@,
            final(self).unbonds@ == old(self).unbonds@,
    {
        self.next_unbond_id = 0;
    }

    /// Adds `amount` to the bond of `bonder`; a first bond is timed `now`.
    pub fn bond(&mut self, now: u64, bonder: &String, amount: u128) -> (r: Result<
        BondInfo,
        ContractError,
    >)
        requires
            old(self).wf(),
        ensures
            final(self).wf(),
            r is Ok <==> old(self).bonded(bonder@) + amount <= u128::MAX,
            r is Err ==> r == Err::<BondInfo, ContractError>(ContractError::Overflow {  }),
            r is Err ==> *final(self) == *old(self),
            r is Ok ==> r->Ok_0.amount == old(self).bonded(bonder@) + amount,
            r is Ok ==> r->Ok_0.bond_time == if old(self).bonds@.contains_key(bonder@) {
                old(self).bonds@[bonder@].bond_time
            } else {
                now
            },
            r is Ok ==> final(self).bonds@ == old(self).bonds@.insert(bonder@, r->Ok_0),
            final(self).unbonds@ == old(self).unbonds@,
            final(self).next_unbond_id == old(self).next_unbond_id,
    {
        let info = match self.bonds.get(bonder) {
            Some(b) => {
                if b.amount > u128::MAX - amount {
                    return Err(ContractError::Overflow {  });
                }
                BondInfo { amount: b.amount + amount, bond_time: b.bond_time }
            },
            None => BondInfo { amount, bond_time: now },
        };
        let ghost old_self = *self;
        self.bonds.insert(bonder.clone(), info);
        proof {
            assert forall|a: Seq<char>| #[trigger] pending_sum(self.unbonds@, a) <= self.bonded(a) by {
                assert(pending_sum(old_self.unbonds@, a) <= old_self.bonded(a));
            }
        }
        Ok(info)
    }

    /// The total pending for `owner`.
    fn pending_of(&self, owner: &String) -> (r: u128)
        requires
            self.wf(),
        ensures
            r == pending_sum(self.unbonds@, owner@),
    {
        let mut total: u128 = 0;
        let mut i: usize = 0;
        proof {
            assert(pending_sum(self.unbonds@, owner@) <= self.bonded(owner@));
        }
        while i < self.unbonds.len()
            invariant
                self.wf(),
                i <= self.unbonds@.len(),
                total == pending_sum(self.unbonds@.take(i as int), owner@),
                pending_sum(self.unbonds@, owner@) <= u128::MAX,
            decreases self.unbonds@.len() - i,
        {
            proof {
                assert(self.unbonds@.take(i + 1).drop_last() =~= self.unbonds@.take(i as int));
                lemma_pending_prefix(self.unbonds@, i + 1, owner@);
            }
            if self.unbonds[i].owner == *owner {
                total = total + self.unbonds[i].amount;
            }
            i = i + 1;
        }
        proof {
            assert(self.unbonds@.take(i as int) =~= self.unbonds@);
        }
        total
    }

    /// Starts unbonding `amount` of `bonder`'s bond; it may finish `unbonding_period`
    /// seconds after `now`.
    pub fn start_unbond(
        &mut self,
        now: u64,
        unbonding_period: u64,
        bonder: &String,
        amount: u128,
    ) -> (r: Result<UnbondInfo, ContractError>)
        requires
            old(self).wf(),
        ensures
            final(self).wf(),
            r is Ok <==> start_unbond_ok(*old(self), now, unbonding_period, bonder@, amount),
            !old(self).bonds@.contains_key(bonder@) ==> r is Err && r->Err_0 is NotFound,
            old(self).bonds@.contains_key(bonder@) && amount + pending_sum(
                old(self).unbonds@,
                bonder@,
            ) > old(self).bonded(bonder@) ==> r == Err::<UnbondInfo, ContractError>(
                ContractError::InsufficientBondAmount {  },
            ),
            r is Err ==> *final(self) == *old(self),
            r is Ok ==> r->Ok_0.unbond_id == old(self).next_unbond_id,
            r is Ok ==> r->Ok_0.owner == *bonder,
            r is Ok ==> r->Ok_0.amount == amount,
            r is Ok ==> r->Ok_0.unbond_time == now + unbonding_period,
            r is Ok ==> final(self).unbonds@ == old(self).unbonds@.push(r->Ok_0),
            r is Ok ==> final(self).next_unbond_id == old(self).next_unbond_id + 1,
            r is Ok ==> final(self).bonds@ == old(self).bonds@,
    {
        let b = match self.bonds.get(bonder) {
            Some(b) => *b,
            None => {
                return Err(ContractError::NotFound { kind: "bond".to_owned() });
            },
        };
        let pending = self.pending_of(bonder);
        proof {
            assert(pending_sum(self.unbonds@, bonder@) <= self.bonded(bonder@));
        }
        let available = b.amount - pending;
        if amount > available {
            return Err(ContractError::InsufficientBondAmount {  });
        }
        if now > u64::MAX - unbonding_period || self.next_unbond_id == u64::MAX {
            return Err(ContractError::Overflow {  });
        }
        let unbond_id = self.next_unbond_id;
        let u = UnbondInfo { unbond_id, owner: bonder.clone(), amount, unbond_time: now + unbonding_period };
        let ghost old_self = *self;
        self.unbonds.push(u.duplicate());
        self.next_unbond_id = unbond_id + 1;
        proof {
            assert forall|a: Seq<char>| #[trigger] pending_sum(self.unbonds@, a) <= self.bonded(a) by {
                assert(self.unbonds@.drop_last() =~= old_self.unbonds@);
                assert(pending_sum(old_self.unbonds@, a) <= old_self.bonded(a));
            }
        }
        Ok(u)
    }

    /// The position of unbond `id`, if it is pending.
    fn find_unbond(&self, id: u64) -> (r: Option<usize>)
        ensures
            match r {
                Some(i) => i < self.unbonds@.len() && self.unbonds@[i as int].unbond_id == id,
                None => !has_unbond(self.unbonds@, id),
            },
    {
        let mut i: usize = 0;
        while i < self.unbonds.len()
            invariant
                i <= self.unbonds@.len(),
                forall|j: int| 0 <= j < i ==> self.unbonds@[j].unbond_id != id,
            decreases self.unbonds@.len() - i,
        {
            if self.unbonds[i].unbond_id == id {
                return Some(i);
            }
            i = i + 1;
        }
        None
    }

    /// Finishes unbond `unbond_id` of `bonder` once its time has come: the unbond goes
    /// and its amount leaves the bond; a bond that reaches zero is removed.
    pub fn finish_unbond(&mut self, now: u64, bonder: &String, unbond_id: u64) -> (r: Result<
        UnbondInfo,
        ContractError,
    >)
        requires
            old(self).wf(),
        ensures
            final(self).wf(),
            r is Ok <==> finish_unbond_ok(*old(self), now, bonder@, unbond_id),
            r is Err ==> *final(self) == *old(self),
            !has_unbond(old(self).unbonds@, unbond_id) ==> r is Err && r->Err_0 is NotFound,
            r is Ok ==> r->Ok_0.unbond_id == unbond_id && r->Ok_0.owner@ == bonder@,
            r is Ok ==> exists|i: int|
                0 <= i < old(self).unbonds@.len() && old(self).unbonds@[i] == r->Ok_0
                    && final(self).unbonds@ == old(self).unbonds@.remove(i),
            r is Ok ==> final(self).bonded(bonder@) == old(self).bonded(bonder@) - r->Ok_0.amount,
            r is Ok ==> forall|a: Seq<char>|
                a != bonder@ ==> #[trigger] final(self).bonds@.contains_key(a)
                    == old(self).bonds@.contains_key(a) && (final(self).bonds@.contains_key(a)
                    ==> final(self).bonds@[a] == old(self).bonds@[a]),
            r is Ok ==> final(self).next_unbond_id == old(self).next_unbond_id,
    {
        let i = match self.find_unbond(unbond_id) {
            Some(i) => i,
            None => {
                return Err(ContractError::NotFound { kind: "unbond".to_owned() });
            },
        };
        let b = match self.bonds.get(bonder) {
            Some(b) => *b,
            None => {
                return Err(ContractError::NotFound { kind: "bond".to_owned() });
            },
        };
        if self.unbonds[i].owner != *bonder {
            return Err(ContractError::Unauthorized {  });
        }
        if self.unbonds[i].unbond_time > now {
            return Err(ContractError::UnbondingNotFinished {  });
        }
        let ghost old_self = *self;
        proof {
            lemma_pending_remove(self.unbonds@, i as int, bonder@);
            assert(pending_sum(self.unbonds@, bonder@) <= self.bonded(bonder@));
        }
        let u = self.unbonds.remove(i);
        let left = b.amount - u.amount;
        if left == 0 {
            self.bonds.remove(bonder);
        } else {
            self.bonds.insert(bonder.clone(), BondInfo { amount: left, bond_time: b.bond_time });
        }
        proof {
            assert forall|a: Seq<char>| #[trigger] pending_sum(self.unbonds@, a) <= self.bonded(a) by {
                lemma_pending_remove(old_self.unbonds@, i as int, a);
                assert(pending_sum(old_self.unbonds@, a) <= old_self.bonded(a));
            }
            assert forall|p: int, q: int|
                0 <= p < q < self.unbonds@.len() implies (#[trigger] self.unbonds@[p]).unbond_id
                < (#[trigger] self.unbonds@[q]).unbond_id by {
                let p2 = if p < i { p } else { p + 1 };
                let q2 = if q < i { q } else { q + 1 };
                assert(old_self.unbonds@[p2].unbond_id < old_self.unbonds@[q2].unbond_id);
            }
            assert forall|p: int| 0 <= p < self.unbonds@.len() implies (
            #[trigger] self.unbonds@[p]).unbond_id < self.next_unbond_id by {
                let p2 = if p < i { p } else { p + 1 };
                assert(old_self.unbonds@[p2].unbond_id < old_self.next_unbond_id);
            }
        }
        Ok(u)
    }

    /// The bond of `bonder`, or a zero bond at time 0 where there is none.
    pub fn query_bond(&self, bonder: &String) -> (r: BondInfo)
        requires
            self.wf(),
        ensures
            self.bonds@.contains_key(bonder@) ==> r == self.bonds@[bonder@],
            !self.bonds@.contains_key(bonder@) ==> r == (BondInfo { amount: 0, bond_time: 0 }),
    {
        match self.bonds.get(bonder) {
            Some(b) => *b,
            None => BondInfo { amount: 0, bond_time: 0 },
        }
    }

    /// The pending unbond `unbond_id`.
    pub fn query_unbond(&self, unbond_id: u64) -> (r: Result<UnbondInfo, ContractError>)
        ensures
            r is Ok <==> has_unbond(self.unbonds@, unbond_id),
            r is Ok ==> exists|i: int|
                0 <= i < self.unbonds@.len() && self.unbonds@[i] == r->Ok_0,
            r is Ok ==> r->Ok_0.unbond_id == unbond_id,
            r is Err ==> r->Err_0 is NotFound,
    {
        match self.find_unbond(unbond_id) {
            Some(i) => Ok(self.unbonds[i].duplicate()),
            None => Err(ContractError::NotFound { kind: "unbond".to_owned() }),
        }
    }

    /// The pending unbonds of `owner`, in the order of their ids.
    pub fn get_unbonds_by_owner(&self, owner: &String) -> (r: Vec<UnbondInfo>)
        ensures
            r@ == owned_by(self.unbonds@, owner@),
    {
        let mut out: Vec<UnbondInfo> = Vec::new();
        let mut i: usize = 0;
        while i < self.unbonds.len()
            invariant
                i <= self.unbonds@.len(),
                out@ == owned_by(self.unbonds@.take(i as int), owner@),
            decreases self.unbonds@.len() - i,
        {
            proof {
                assert(self.unbonds@.take(i + 1).drop_last() =~= self.unbonds@.take(i as int));
            }
            if self.unbonds[i].owner == *owner {
                out.push(self.unbonds[i].duplicate());
            }
            i = i + 1;
        }
        proof {
            assert(self.unbonds@.take(i as int) =~= self.unbonds@);
        }
        out
    }

    /// The pending unbonds of `bonder`.
    pub fn query_unbonds_by_owner(&self, bonder: &String) -> (r: Vec<UnbondInfo>)
        ensures
            r@ == owned_by(self.unbonds@, bonder@),
    {
        self.get_unbonds_by_owner(bonder)
    }
}

/// When `start_unbond` succeeds.
pub open spec fn start_unbond_ok(
    b: Bonds,
    now: u64,
    unbonding_period: u64,
    bonder: Seq<char>,
    amount: u128,
) -> bool {
    &&& b.bonds@.contains_key(bonder)
    &&& amount + pending_sum(b.unbonds@, bonder) <= b.bonded(bonder)
    &&& now + unbonding_period <= u64::MAX
    &&& b.next_unbond_id < u64::MAX
}

/// When `finish_unbond` succeeds.
pub open spec fn finish_unbond_ok(b: Bonds, now: u64, bonder: Seq<char>, unbond_id: u64) -> bool {
    exists|i: int|
        0 <= i < b.unbonds@.len() && b.unbonds@[i].unbond_id == unbond_id && b.bonds@.contains_key(
            bonder,
        ) && b.unbonds@[i].owner@ == bonder && b.unbonds@[i].unbond_time <= now
}

} // verus!
