use vstd::prelude::*;

use crate::error::ContractError;
use crate::store::StrMap;
use crate::types::Coin;
use vstd::set::fold::{is_fun_commutative, lemma_fold_empty, lemma_fold_insert};

verus! {

/// The amount of `denom` among `coins`.
pub open spec fn sum_denom(coins: Seq<Coin>, denom: Seq<char>) -> nat
    decreases coins.len(),
{
    if coins.len() == 0 {
        0
    } else {
        sum_denom(coins.drop_last(), denom) + if coins.last().denom@ == denom {
            coins.last().amount as nat
        } else {
            0
        }
    }
}

/// The balance of key `k` in ledger `m`; an absent key holds nothing.
pub open spec fn bal(m: Map<(Seq<char>, Seq<char>), nat>, k: (Seq<char>, Seq<char>)) -> nat {
    if m.contains_key(k) {
        m[k]
    } else {
        0
    }
}

/// Whether `coins` names `denom`.
pub open spec fn names_denom(coins: Seq<Coin>, denom: Seq<char>) -> bool {
    exists|j: int| 0 <= j < coins.len() && coins[j].denom@ == denom
}

/// The ledger after `depositor` is credited with `coins`.
pub open spec fn deposited(
    m: Map<(Seq<char>, Seq<char>), nat>,
    depositor: Seq<char>,
    coins: Seq<Coin>,
) -> Map<(Seq<char>, Seq<char>), nat> {
    Map::new(
        |k: (Seq<char>, Seq<char>)| m.contains_key(k) || (k.0 == depositor && names_denom(coins, k.1)),
        |k: (Seq<char>, Seq<char>)|
            if k.0 == depositor {
                bal(m, k) + sum_denom(coins, k.1)
            } else {
                m[k]
            },
    )
}

/// Whether crediting `depositor` with `coins` keeps every balance within `u128`.
pub open spec fn deposit_fits(
    m: Map<(Seq<char>, Seq<char>), nat>,
    depositor: Seq<char>,
    coins: Seq<Coin>,
) -> bool {
    forall|j: int|
        0 <= j < coins.len() ==> bal(m, (depositor, #[trigger] coins[j].denom@)) + sum_denom(
            coins,
            coins[j].denom@,
        ) <= u128::MAX
}

/// The ledger after `amount` of `denom` is taken from `withdrawer`.
pub open spec fn withdrawn(
    m: Map<(Seq<char>, Seq<char>), nat>,
    withdrawer: Seq<char>,
    denom: Seq<char>,
    amount: nat,
) -> Map<(Seq<char>, Seq<char>), nat> {
    m.insert((withdrawer, denom), (m[(withdrawer, denom)] - amount) as nat)
}

pub proof fn lemma_sum_denom_prefix(coins: Seq<Coin>, i: int, denom: Seq<char>)
    requires
        0 <= i <= coins.len(),
    ensures
        sum_denom(coins.take(i), denom) <= sum_denom(coins, denom),
    decreases coins.len() - i,
{
    if i < coins.len() {
        lemma_sum_denom_prefix(coins, i + 1, denom);
        assert(coins.take(i + 1).drop_last() =~= coins.take(i));
    } else {
        assert(coins.take(i) =~= coins);
    }
}

proof fn lemma_sum_absent(coins: Seq<Coin>, denom: Seq<char>)
    requires
        !names_denom(coins, denom),
    ensures
        sum_denom(coins, denom) == 0,
    decreases coins.len(),
{
    if coins.len() > 0 {
        assert(coins[coins.len() - 1].denom@ != denom);
        assert forall|j: int| 0 <= j < coins.drop_last().len() implies coins.drop_last()[j].denom@ != denom by {
            assert(coins[j].denom@ != denom);
        }
        lemma_sum_absent(coins.drop_last(), denom);
    }
}

proof fn lemma_names_prefix(coins: Seq<Coin>, i: int, denom: Seq<char>)
    requires
        0 <= i < coins.len(),
    ensures
        names_denom(coins.take(i + 1), denom) == (names_denom(coins.take(i), denom)
            || coins[i].denom@ == denom),
{
    if names_denom(coins.take(i + 1), denom) && coins[i].denom@ != denom {
        let t = coins.take(i + 1);
        let j = choose|j: int| 0 <= j < t.len() && t[j].denom@ == denom;
        assert(coins.take(i)[j].denom@ == denom);
    }
    if names_denom(coins.take(i), denom) {
        let t = coins.take(i);
        let j = choose|j: int| 0 <= j < t.len() && t[j].denom@ == denom;
        assert(coins.take(i + 1)[j].denom@ == denom);
    }
    if coins[i].denom@ == denom {
        assert(coins.take(i + 1)[i].denom@ == denom);
    }
}

/// Depositing one coin and then withdrawing the same coin gives every balance back; only an
/// entry of zero may remain where there was none.
pub proof fn lemma_deposit_withdraw_round_trip(
    m: Map<(Seq<char>, Seq<char>), nat>,
    depositor: Seq<char>,
    c: Coin,
)
    ensures
        forall|k: (Seq<char>, Seq<char>)|
            bal(withdrawn(deposited(m, depositor, seq![c]), depositor, c.denom@, c.amount as nat), k)
                == bal(m, k),
        withdrawn(deposited(m, depositor, seq![c]), depositor, c.denom@, c.amount as nat).dom()
            == m.dom().insert((depositor, c.denom@)),
        m.contains_key((depositor, c.denom@)) ==> withdrawn(
            deposited(m, depositor, seq![c]),
            depositor,
            c.denom@,
            c.amount as nat,
        ) == m,
{
    let coins = seq![c];
    assert(coins.drop_last() =~= Seq::<Coin>::empty());
    assert(coins.last() == c);
    assert(sum_denom(Seq::<Coin>::empty(), c.denom@) == 0);
    assert(sum_denom(coins, c.denom@) == c.amount as nat);
    assert(names_denom(coins, c.denom@)) by {
        assert(coins[0].denom@ == c.denom@);
    }
    let d = deposited(m, depositor, coins);
    let w = withdrawn(d, depositor, c.denom@, c.amount as nat);
    assert forall|k: (Seq<char>, Seq<char>)| bal(w, k) == bal(m, k) by {
        if k.0 == depositor && k.1 != c.denom@ {
            assert(sum_denom(Seq::<Coin>::empty(), k.1) == 0);
            assert(sum_denom(coins, k.1) == 0);
            if names_denom(coins, k.1) {
                let j = choose|j: int| 0 <= j < coins.len() && coins[j].denom@ == k.1;
                assert(j == 0);
            }
        }
    }
    assert(w.dom() =~= m.dom().insert((depositor, c.denom@))) by {
        assert forall|k: (Seq<char>, Seq<char>)| w.dom().contains(k) implies m.dom().insert(
            (depositor, c.denom@),
        ).contains(k) by {
            if k.0 == depositor && names_denom(coins, k.1) {
                let j = choose|j: int| 0 <= j < coins.len() && coins[j].denom@ == k.1;
                assert(j == 0);
            }
        }
    }
    if m.contains_key((depositor, c.denom@)) {
        assert(w =~= m);
    }
}

/// The ledger moves exactly with the coins that move: a deposit raises the depositor's
/// balance of each denomination by the amount of it that was sent in, and a withdrawal
/// lowers one balance by the amount that is sent out; every other balance stays.
pub proof fn lemma_ledger_moves_with_funds(
    m: Map<(Seq<char>, Seq<char>), nat>,
    depositor: Seq<char>,
    coins: Seq<Coin>,
    withdrawer: Seq<char>,
    denom: Seq<char>,
    amount: nat,
)
    requires
        m.contains_key((withdrawer, denom)),
        amount <= m[(withdrawer, denom)],
    ensures
        forall|k: (Seq<char>, Seq<char>)|
            #[trigger] bal(deposited(m, depositor, coins), k) == bal(m, k) + if k.0 == depositor {
                sum_denom(coins, k.1)
            } else {
                0
            },
        forall|k: (Seq<char>, Seq<char>)|
            #[trigger] bal(withdrawn(m, withdrawer, denom, amount), k) == bal(m, k) - if k == (
                withdrawer,
                denom,
            ) {
                amount
            } else {
                0
            },
{
    assert forall|k: (Seq<char>, Seq<char>)| #[trigger]
        bal(deposited(m, depositor, coins), k) == bal(m, k) + if k.0 == depositor {
            sum_denom(coins, k.1)
        } else {
            0
        } by {
        if k.0 == depositor && !m.contains_key(k) && !names_denom(coins, k.1) {
            lemma_sum_absent(coins, k.1);
        }
    }
}

/// What key `k` contributes to the total of denomination `d` in ledger `m`.
pub open spec fn weight(m: Map<(Seq<char>, Seq<char>), nat>, d: Seq<char>, k: (Seq<char>, Seq<char>)) -> nat {
    if k.1 == d && m.contains_key(k) {
        m[k]
    } else {
        0
    }
}

pub open spec fn adder(m: Map<(Seq<char>, Seq<char>), nat>, d: Seq<char>) -> spec_fn(
    nat,
    (Seq<char>, Seq<char>),
) -> nat {
    |acc: nat, k: (Seq<char>, Seq<char>)| acc + weight(m, d, k)
}

/// The total of denomination `d` in ledger `m`, over all depositors.
pub open spec fn denom_total(m: Map<(Seq<char>, Seq<char>), nat>, d: Seq<char>) -> nat {
    m.dom().fold(0nat, adder(m, d))
}

proof fn lemma_adder_commutative(m: Map<(Seq<char>, Seq<char>), nat>, d: Seq<char>)
    ensures
        is_fun_commutative(adder(m, d)),
{
    assert forall|a1: (Seq<char>, Seq<char>), a2: (Seq<char>, Seq<char>), b: nat| #[trigger]
        adder(m, d)(adder(m, d)(b, a2), a1) == adder(m, d)(adder(m, d)(b, a1), a2) by {}
}

proof fn lemma_fold_agree(
    s: Set<(Seq<char>, Seq<char>)>,
    m1: Map<(Seq<char>, Seq<char>), nat>,
    m2: Map<(Seq<char>, Seq<char>), nat>,
    d: Seq<char>,
)
    requires
        s.finite(),
        forall|k: (Seq<char>, Seq<char>)| s.contains(k) ==> weight(m1, d, k) == weight(m2, d, k),
    ensures
        s.fold(0nat, adder(m1, d)) == s.fold(0nat, adder(m2, d)),
    decreases s.len(),
{
    lemma_adder_commutative(m1, d);
    lemma_adder_commutative(m2, d);
    if s.len() == 0 {
        assert(s =~= Set::<(Seq<char>, Seq<char>)>::empty());
        lemma_fold_empty(0nat, adder(m1, d));
        lemma_fold_empty(0nat, adder(m2, d));
    } else {
        let a = s.choose();
        let r = s.remove(a);
        lemma_fold_agree(r, m1, m2, d);
        lemma_fold_insert(r, 0nat, adder(m1, d), a);
        lemma_fold_insert(r, 0nat, adder(m2, d), a);
        assert(r.insert(a) =~= s);
    }
}

/// Setting key `k` to `v` moves the total of `k`'s denomination from what `k` held to `v`.
pub proof fn lemma_total_insert(
    m: Map<(Seq<char>, Seq<char>), nat>,
    k: (Seq<char>, Seq<char>),
    v: nat,
    d: Seq<char>,
)
    requires
        m.dom().finite(),
    ensures
        m.insert(k, v).dom().finite(),
        denom_total(m.insert(k, v), d) + weight(m, d, k) == denom_total(m, d) + if k.1 == d {
            v
        } else {
            0
        },
{
    let m2 = m.insert(k, v);
    let r = m.dom().remove(k);
    lemma_adder_commutative(m, d);
    lemma_adder_commutative(m2, d);
    lemma_fold_agree(r, m, m2, d);
    assert(m2.dom() =~= r.insert(k));
    lemma_fold_insert(r, 0nat, adder(m2, d), k);
    if m.contains_key(k) {
        assert(m.dom() =~= r.insert(k));
        lemma_fold_insert(r, 0nat, adder(m, d), k);
    } else {
        assert(m.dom() =~= r);
    }
}

/// Crediting `c` to `depositor`.
pub open spec fn credited(
    m: Map<(Seq<char>, Seq<char>), nat>,
    depositor: Seq<char>,
    c: Coin,
) -> Map<(Seq<char>, Seq<char>), nat> {
    m.insert((depositor, c.denom@), (bal(m, (depositor, c.denom@)) + c.amount) as nat)
}

proof fn lemma_deposited_step(m: Map<(Seq<char>, Seq<char>), nat>, depositor: Seq<char>, coins: Seq<Coin>)
    requires
        coins.len() > 0,
    ensures
        deposited(m, depositor, coins) == credited(
            deposited(m, depositor, coins.drop_last()),
            depositor,
            coins.last(),
        ),
{
    let n = coins.len() - 1;
    assert(coins.take(n + 1) =~= coins);
    assert(coins.take(n) =~= coins.drop_last());
    assert forall|d: Seq<char>| names_denom(coins, d) == (names_denom(coins.drop_last(), d)
        || coins.last().denom@ == d) by {
        lemma_names_prefix(coins, n, d);
    }
    let a = deposited(m, depositor, coins);
    let b = credited(deposited(m, depositor, coins.drop_last()), depositor, coins.last());
    assert forall|k: (Seq<char>, Seq<char>)| #[trigger] a.contains_key(k) == b.contains_key(k) && (
    a.contains_key(k) ==> a[k] == b[k]) by {
        if k.0 == depositor && !names_denom(coins.drop_last(), k.1) {
            lemma_sum_absent(coins.drop_last(), k.1);
        }
    }
    assert(a =~= b);
}

/// A deposit raises each denomination's total by exactly the amount of it sent in.
pub proof fn lemma_deposit_total(m: Map<(Seq<char>, Seq<char>), nat>, depositor: Seq<char>, coins: Seq<Coin>, d: Seq<char>)
    requires
        m.dom().finite(),
    ensures
        deposited(m, depositor, coins).dom().finite(),
        denom_total(deposited(m, depositor, coins), d) == denom_total(m, d) + sum_denom(coins, d),
    decreases coins.len(),
{
    if coins.len() == 0 {
        assert(deposited(m, depositor, coins) =~= m);
    } else {
        lemma_deposit_total(m, depositor, coins.drop_last(), d);
        lemma_deposited_step(m, depositor, coins);
        let prev = deposited(m, depositor, coins.drop_last());
        let c = coins.last();
        lemma_total_insert(prev, (depositor, c.denom@), (bal(prev, (depositor, c.denom@)) + c.amount) as nat, d);
    }
}

/// A withdrawal lowers its denomination's total by exactly the amount sent out.
pub proof fn lemma_withdraw_total(
    m: Map<(Seq<char>, Seq<char>), nat>,
    withdrawer: Seq<char>,
    denom: Seq<char>,
    amount: nat,
    d: Seq<char>,
)
    requires
        m.dom().finite(),
        m.contains_key((withdrawer, denom)),
        amount <= m[(withdrawer, denom)],
    ensures
        withdrawn(m, withdrawer, denom, amount).dom().finite(),
        denom_total(withdrawn(m, withdrawer, denom, amount), d) + if denom == d {
            amount
        } else {
            0
        } == denom_total(m, d),
{
    lemma_total_insert(m, (withdrawer, denom), (m[(withdrawer, denom)] - amount) as nat, d);
}

/// The ledger never claims more than the contract holds: if every denomination's total is
/// within the holdings `held`, it stays within them after a deposit, whose coins arrive with
/// the call, and after a withdrawal, whose coin leaves the contract.
pub proof fn lemma_ledger_within_holdings(
    m: Map<(Seq<char>, Seq<char>), nat>,
    held: spec_fn(Seq<char>) -> nat,
    depositor: Seq<char>,
    coins: Seq<Coin>,
    withdrawer: Seq<char>,
    denom: Seq<char>,
    amount: nat,
)
    requires
        m.dom().finite(),
        forall|d: Seq<char>| denom_total(m, d) <= held(d),
    ensures
        forall|d: Seq<char>|
            #[trigger] denom_total(deposited(m, depositor, coins), d) <= held(d) + sum_denom(coins, d),
        m.contains_key((withdrawer, denom)) && amount <= m[(withdrawer, denom)] ==> forall|d: Seq<char>|
            #[trigger] denom_total(withdrawn(m, withdrawer, denom, amount), d) + if denom == d {
                amount
            } else {
                0
            } <= held(d),
{
    assert forall|d: Seq<char>| #[trigger] denom_total(deposited(m, depositor, coins), d) <= held(d)
        + sum_denom(coins, d) by {
        lemma_deposit_total(m, depositor, coins, d);
    }
    if m.contains_key((withdrawer, denom)) && amount <= m[(withdrawer, denom)] {
        assert forall|d: Seq<char>| #[trigger] denom_total(withdrawn(m, withdrawer, denom, amount), d)
            + if denom == d {
            amount
        } else {
            0
        } <= held(d) by {
            lemma_withdraw_total(m, withdrawer, denom, amount, d);
        }
    }
}

/// Per-depositor, per-denomination balances.
pub struct Balances {
    /// depositor -> denom -> amount
    pub accounts: StrMap<StrMap<u128>>,
}

impl View for Balances {
    type V = Map<(Seq<char>, Seq<char>), nat>;

    closed spec fn view(&self) -> Map<(Seq<char>, Seq<char>), nat> {
        Map::new(
            |k: (Seq<char>, Seq<char>)|
                self.accounts@.contains_key(k.0) && self.accounts@[k.0]@.contains_key(k.1),
            |k: (Seq<char>, Seq<char>)| self.accounts@[k.0]@[k.1] as nat,
        )
    }
}

impl Balances {
    pub closed spec fn wf(&self) -> bool {
        &&& self.accounts.wf()
        &&& forall|d: Seq<char>| #[trigger] self.accounts@.contains_key(d) ==> self.accounts@[d].wf()
    }

    /// The entries of the depositors in `owners`.
    pub closed spec fn entries_of(&self, owners: Set<Seq<char>>) -> Set<(Seq<char>, Seq<char>)> {
        Set::new(
            |k: (Seq<char>, Seq<char>)|
                owners.contains(k.0) && self.accounts@.contains_key(k.0)
                    && self.accounts@[k.0]@.contains_key(k.1),
        )
    }

    proof fn lemma_entries_of_finite(&self, owners: Set<Seq<char>>)
        requires
            self.wf(),
            owners.finite(),
        ensures
            self.entries_of(owners).finite(),
        decreases owners.len(),
    {
        if owners.len() == 0 {
            assert(owners =~= Set::<Seq<char>>::empty());
            assert(self.entries_of(owners) =~= Set::<(Seq<char>, Seq<char>)>::empty());
        } else {
            let a = owners.choose();
            let rest = owners.remove(a);
            self.lemma_entries_of_finite(rest);
            if self.accounts@.contains_key(a) {
                let inner = self.accounts@[a];
                inner.lemma_entries();
                let f = |d: Seq<char>| (a, d);
                inner@.dom().lemma_map_finite(f);
                vstd::set::axiom_set_union_finite(self.entries_of(rest), inner@.dom().map(f));
                assert(self.entries_of(owners) =~= self.entries_of(rest).union(inner@.dom().map(f))) by {
                    assert forall|k: (Seq<char>, Seq<char>)| #[trigger] self.entries_of(owners).contains(k)
                        && k.0 == a implies inner@.dom().map(f).contains(k) by {
                        assert(f(k.1) == k);
                    }
                }
            } else {
                assert(self.entries_of(owners) =~= self.entries_of(rest));
            }
        }
    }

    /// A ledger has finitely many entries.
    pub proof fn lemma_finite(&self)
        requires
            self.wf(),
        ensures
            self@.dom().finite(),
    {
        self.accounts.lemma_entries();
        self.lemma_entries_of_finite(self.accounts@.dom());
        assert(self@.dom() =~= self.entries_of(self.accounts@.dom()));
    }

    pub fn new() -> (r: Balances)
        ensures
            r.wf(),
            r@ == Map::<(Seq<char>, Seq<char>), nat>::empty(),
    {
        let r = Balances { accounts: StrMap::new() };
        assert(r@ =~= Map::<(Seq<char>, Seq<char>), nat>::empty());
        r
    }

    /// The stored balance of `denom` for `depositor`, if there is an entry.
    pub fn balance_of(&self, depositor: &String, denom: &String) -> (r: Option<u128>)
        requires
            self.wf(),
        ensures
            match r {
                Some(a) => self@.contains_key((depositor@, denom@)) && self@[(depositor@, denom@)]
                    == a,
                None => !self@.contains_key((depositor@, denom@)),
            },
    {
        match self.accounts.get(depositor) {
            Some(acct) => match acct.get(denom) {
                Some(a) => Some(*a),
                None => None,
            },
            None => None,
        }
    }

    /// Whether crediting `depositor` with `funds` keeps every balance within `u128`.
    pub fn can_deposit(&self, depositor: &String, funds: &Vec<Coin>) -> (r: bool)
        requires
            self.wf(),
        ensures
            r == deposit_fits(self@, depositor@, funds@),
    {
        let mut j: usize = 0;
        while j < funds.len()
            invariant
                self.wf(),
                j <= funds@.len(),
                forall|q: int|
                    0 <= q < j ==> bal(self@, (depositor@, #[trigger] funds@[q].denom@))
                        + sum_denom(funds@, funds@[q].denom@) <= u128::MAX,
            decreases funds@.len() - j,
        {
            let denom = &funds[j].denom;
            let cur: u128 = match self.balance_of(depositor, denom) {
                Some(a) => a,
                None => 0,
            };
            let mut total: u128 = cur;
            let mut q: usize = 0;
            while q < funds.len()
                invariant
                    j < funds@.len(),
                    q <= funds@.len(),
                    *denom == funds@[j as int].denom,
                    cur == bal(self@, (depositor@, denom@)),
                    total == cur + sum_denom(funds@.take(q as int), denom@),
                decreases funds@.len() - q,
            {
                proof {
                    assert(funds@.take(q + 1).drop_last() =~= funds@.take(q as int));
                }
                if funds[q].denom == *denom {
                    if total > u128::MAX - funds[q].amount {
                        proof {
                            lemma_sum_denom_prefix(funds@, q + 1, denom@);
                        }
                        return false;
                    }
                    total = total + funds[q].amount;
                }
                q = q + 1;
            }
            proof {
                assert(funds@.take(q as int) =~= funds@);
            }
            j = j + 1;
        }
        true
    }

    /// Credits `depositor` with every coin of `funds`, and hands `funds` back.
    pub fn deposit_balance(&mut self, funds: Vec<Coin>, depositor: &String) -> (r: Result<
        Vec<Coin>,
        ContractError,
    >)
        requires
            old(self).wf(),
        ensures
            final(self).wf(),
            r is Ok <==> deposit_fits(old(self)@, depositor@, funds@),
            r is Ok ==> r == Ok::<Vec<Coin>, ContractError>(funds),
            r is Ok ==> final(self)@ == deposited(old(self)@, depositor@, funds@),
            r is Err ==> r == Err::<Vec<Coin>, ContractError>(ContractError::Overflow {  }),
            r is Err ==> *final(self) == *old(self),
    {
        if !self.can_deposit(depositor, &funds) {
            return Err(ContractError::Overflow {  });
        }
        let ghost m0 = self@;
        let mut acct = match self.accounts.remove(depositor) {
            Some(a) => a,
            None => StrMap::new(),
        };
        let ghost a0 = acct@;
        proof {
            assert forall|d: Seq<char>| a0.contains_key(d) <==> m0.contains_key((depositor@, d)) by {}
        }
        let mut i: usize = 0;
        while i < funds.len()
            invariant
                acct.wf(),
                i <= funds@.len(),
                deposit_fits(m0, depositor@, funds@),
                forall|d: Seq<char>|
                    #[trigger] acct@.contains_key(d) <==> (m0.contains_key((depositor@, d))
                        || names_denom(funds@.take(i as int), d)),
                forall|d: Seq<char>|
                    #[trigger] acct@.contains_key(d) ==> acct@[d] == bal(m0, (depositor@, d))
                        + sum_denom(funds@.take(i as int), d),
            decreases funds@.len() - i,
        {
            let c = &funds[i];
            let cur: u128 = match acct.get(&c.denom) {
                Some(a) => *a,
                None => 0,
            };
            proof {
                assert(funds@.take(i + 1).drop_last() =~= funds@.take(i as int));
                lemma_sum_denom_prefix(funds@, i + 1, c.denom@);
                assert(bal(m0, (depositor@, funds@[i as int].denom@)) + sum_denom(
                    funds@,
                    funds@[i as int].denom@,
                ) <= u128::MAX);
                assert forall|d: Seq<char>| names_denom(funds@.take(i + 1), d) == (names_denom(
                    funds@.take(i as int),
                    d,
                ) || funds@[i as int].denom@ == d) by {
                    lemma_names_prefix(funds@, i as int, d);
                }
            }
            let ghost before = acct@;
            acct.insert(c.denom.clone(), cur + c.amount);
            proof {
                let cd = funds@[i as int].denom@;
                if !before.contains_key(cd) {
                    lemma_sum_absent(funds@.take(i as int), cd);
                }
                assert forall|d: Seq<char>| #[trigger] acct@.contains_key(d) implies acct@[d] == bal(
                    m0,
                    (depositor@, d),
                ) + sum_denom(funds@.take(i + 1), d) by {
                    if d != cd {
                        assert(before.contains_key(d));
                    }
                }
            }
            i = i + 1;
        }
        proof {
            assert(funds@.take(i as int) =~= funds@);
        }
        self.accounts.insert(depositor.clone(), acct);
        proof {
            let want = deposited(m0, depositor@, funds@);
            assert forall|k: (Seq<char>, Seq<char>)| #[trigger] self@.contains_key(k) == want.contains_key(k)
                && (self@.contains_key(k) ==> self@[k] == want[k]) by {
                if k.0 != depositor@ {
                    assert(self.accounts@.contains_key(k.0) == old(self).accounts@.contains_key(k.0));
                }
            }
            assert(self@ =~= want);
        }
        Ok(funds)
    }

    /// The balances of `depositor`, one coin per denomination held.
    pub fn inquiry_balance(&self, depositor: &String) -> (r: Vec<Coin>)
        requires
            self.wf(),
        ensures
            forall|i: int|
                0 <= i < r@.len() ==> self@.contains_key((depositor@, #[trigger] r@[i].denom@))
                    && self@[(depositor@, r@[i].denom@)] == r@[i].amount,
            forall|d: Seq<char>|
                #[trigger] self@.contains_key((depositor@, d)) ==> exists|i: int|
                    0 <= i < r@.len() && r@[i].denom@ == d,
            forall|i: int, j: int|
                0 <= i < r@.len() && 0 <= j < r@.len() && #[trigger] r@[i].denom@
                    == #[trigger] r@[j].denom@ ==> i == j,
    {
        let mut out: Vec<Coin> = Vec::new();
        match self.accounts.get(depositor) {
            Some(acct) => {
                proof {
                    acct.lemma_entries();
                }
                let mut i: usize = 0;
                while i < acct.len()
                    invariant
                        acct.wf(),
                        self.wf(),
                        self.accounts@.contains_key(depositor@),
                        *acct == self.accounts@[depositor@],
                        i <= acct.spec_len(),
                        out@.len() == i,
                        forall|q: int|
                            0 <= q < i ==> (#[trigger] out@[q]).denom@ == acct.key_at(q)
                                && acct@.contains_key(acct.key_at(q)) && out@[q].amount
                                == acct@[acct.key_at(q)],
                    decreases acct.spec_len() - i,
                {
                    let (k, v) = acct.entry(i);
                    out.push(Coin { denom: k.clone(), amount: *v });
                    i = i + 1;
                }
                proof {
                    acct.lemma_entries();
                    assert forall|d: Seq<char>| #[trigger] self@.contains_key((depositor@, d)) implies exists|q: int|
                        0 <= q < out@.len() && out@[q].denom@ == d by {
                        assert(acct@.contains_key(d));
                        let q = choose|q: int| 0 <= q < acct.spec_len() && acct.key_at(q) == d;
                        assert(out@[q].denom@ == d);
                    }
                    assert forall|a: int, b: int|
                        0 <= a < out@.len() && 0 <= b < out@.len() && #[trigger] out@[a].denom@
                            == #[trigger] out@[b].denom@ implies a == b by {
                        assert(acct.key_at(a) == acct.key_at(b));
                    }
                }
            },
            None => {},
        }
        out
    }

    /// Takes `claim` from `withdrawer`'s balance and hands it back.
    pub fn withdraw_balance(&mut self, withdrawer: &String, claim: Coin) -> (r: Result<
        Coin,
        ContractError,
    >)
        requires
            old(self).wf(),
        ensures
            final(self).wf(),
            !old(self)@.contains_key((withdrawer@, claim.denom@)) ==> r == Err::<
                Coin,
                ContractError,
            >(ContractError::DepositAssetNotFound { val: claim.denom }),
            old(self)@.contains_key((withdrawer@, claim.denom@)) && old(self)@[(
                withdrawer@,
                claim.denom@,
            )] < claim.amount ==> r == Err::<Coin, ContractError>(
                ContractError::InsufficientWithdrawableAsset {  },
            ),
            r is Ok <==> old(self)@.contains_key((withdrawer@, claim.denom@)) && claim.amount
                <= old(self)@[(withdrawer@, claim.denom@)],
            r is Ok ==> r == Ok::<Coin, ContractError>(claim),
            r is Ok ==> final(self)@ == withdrawn(
                old(self)@,
                withdrawer@,
                claim.denom@,
                claim.amount as nat,
            ),
            r is Err ==> *final(self) == *old(self),
    {
        let cur = match self.balance_of(withdrawer, &claim.denom) {
            Some(a) => a,
            None => {
                return Err(ContractError::DepositAssetNotFound { val: claim.denom });
            },
        };
        if cur < claim.amount {
            return Err(ContractError::InsufficientWithdrawableAsset {  });
        }
        let ghost m0 = self@;
        let mut acct = match self.accounts.remove(withdrawer) {
            Some(a) => a,
            None => StrMap::new(),
        };
        acct.insert(claim.denom.clone(), cur - claim.amount);
        self.accounts.insert(withdrawer.clone(), acct);
        proof {
            let want = withdrawn(m0, withdrawer@, claim.denom@, claim.amount as nat);
            assert forall|k: (Seq<char>, Seq<char>)| #[trigger] self@.contains_key(k) == want.contains_key(k)
                && (self@.contains_key(k) ==> self@[k] == want[k]) by {
                if k.0 != withdrawer@ {
                    assert(self.accounts@.contains_key(k.0) == old(self).accounts@.contains_key(k.0));
                }
            }
            assert(self@ =~= want);
        }
        Ok(claim)
    }
}

} // verus!
