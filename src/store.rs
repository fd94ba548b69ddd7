//! Owned key-value stores for balances and allowances. An absent entry
//! reads as zero.
use vstd::prelude::*;

use crate::amount::Amount;

verus! {

/// An opaque 160-bit account identifier, held as its high 32 bits and its
/// low 128 bits.
#[derive(Clone, Copy, PartialEq, Eq, Structural, Debug, Hash)]
pub struct AccountId {
    pub hi: u32,
    pub lo: u128,
}

/// The sum of the amounts held by a sequence of balance entries.
pub open spec fn balance_sum(s: Seq<(AccountId, Amount)>) -> nat
    decreases s.len(),
{
    if s.len() == 0 {
        0
    } else {
        balance_sum(s.drop_last()) + s.last().1.value()
    }
}

proof fn lemma_balance_sum_update(s: Seq<(AccountId, Amount)>, i: int, e: (AccountId, Amount))
    requires
        0 <= i < s.len(),
    ensures
        balance_sum(s.update(i, e)) == balance_sum(s) - s[i].1.value() + e.1.value(),
    decreases s.len(),
{
    if i == s.len() - 1 {
        assert(s.update(i, e).drop_last() =~= s.drop_last());
    } else {
        lemma_balance_sum_update(s.drop_last(), i, e);
        assert(s.update(i, e).drop_last() =~= s.drop_last().update(i, e));
    }
}

proof fn lemma_entry_le_sum(s: Seq<(AccountId, Amount)>, i: int)
    requires
        0 <= i < s.len(),
    ensures
        s[i].1.value() <= balance_sum(s),
    decreases s.len(),
{
    if i < s.len() - 1 {
        lemma_entry_le_sum(s.drop_last(), i);
    }
}

proof fn lemma_two_entries_le_sum(s: Seq<(AccountId, Amount)>, i: int, j: int)
    requires
        0 <= i < s.len(),
        0 <= j < s.len(),
        i != j,
    ensures
        s[i].1.value() + s[j].1.value() <= balance_sum(s),
    decreases s.len(),
{
    let n = s.len() - 1;
    if i == n {
        lemma_entry_le_sum(s.drop_last(), j);
    } else if j == n {
        lemma_entry_le_sum(s.drop_last(), i);
    } else {
        lemma_two_entries_le_sum(s.drop_last(), i, j);
    }
}

/// The sum of the balances in `m`, over every account that has an entry.
pub open spec fn sum_of_balances(m: Map<AccountId, nat>) -> nat {
    m.dom().fold(0nat, |acc: nat, k: AccountId| acc + m[k])
}

/// The accounts named by a sequence of balance entries.
pub open spec fn entry_keys(s: Seq<(AccountId, Amount)>) -> Set<AccountId>
    decreases s.len(),
{
    if s.len() == 0 {
        Set::empty()
    } else {
        entry_keys(s.drop_last()).insert(s.last().0)
    }
}

proof fn lemma_entry_keys(s: Seq<(AccountId, Amount)>)
    ensures
        entry_keys(s).finite(),
        forall|k: AccountId|
            #[trigger] entry_keys(s).contains(k) <==> exists|i: int|
                0 <= i < s.len() && #[trigger] s[i].0 == k,
    decreases s.len(),
{
    if s.len() > 0 {
        let t = s.drop_last();
        lemma_entry_keys(t);
        assert forall|k: AccountId| #[trigger] entry_keys(s).contains(k) implies exists|i: int|
            0 <= i < s.len() && #[trigger] s[i].0 == k by {
            if k != s.last().0 {
                let i = choose|i: int| 0 <= i < t.len() && t[i].0 == k;
                assert(s[i].0 == k);
            } else {
                assert(s[s.len() - 1].0 == k);
            }
        }
        assert forall|k: AccountId| (exists|i: int| 0 <= i < s.len() && #[trigger] s[i].0 == k)
            implies #[trigger] entry_keys(s).contains(k) by {
            let i = choose|i: int| 0 <= i < s.len() && s[i].0 == k;
            if i < s.len() - 1 {
                assert(t[i].0 == k);
            }
        }
    }
}

/// For entries with distinct accounts whose amounts agree with `m`, their
/// sum is the fold of `m` over their accounts.
proof fn lemma_balance_sum_is_fold(s: Seq<(AccountId, Amount)>, m: Map<AccountId, nat>)
    requires
        forall|i: int, j: int| 0 <= i < j < s.len() ==> #[trigger] s[i].0 != #[trigger] s[j].0,
        forall|i: int| 0 <= i < s.len() ==> m[#[trigger] s[i].0] == s[i].1.value(),
    ensures
        balance_sum(s) == entry_keys(s).fold(0nat, |acc: nat, k: AccountId| acc + m[k]),
    decreases s.len(),
{
    let f = |acc: nat, k: AccountId| acc + m[k];
    if s.len() == 0 {
        vstd::set::fold::lemma_fold_empty(0nat, f);
    } else {
        let t = s.drop_last();
        let n = s.len() - 1;
        assert forall|i: int, j: int| 0 <= i < j < t.len() implies #[trigger] t[i].0
            != #[trigger] t[j].0 by {
            assert(s[i] == t[i] && s[j] == t[j]);
        }
        assert forall|i: int| 0 <= i < t.len() implies m[#[trigger] t[i].0] == t[i].1.value() by {
            assert(s[i] == t[i]);
        }
        lemma_balance_sum_is_fold(t, m);
        lemma_entry_keys(t);
        if entry_keys(t).contains(s[n].0) {
            let i = choose|i: int| 0 <= i < t.len() && t[i].0 == s[n].0;
            assert(s[i].0 == s[n].0);
        }
        assert(vstd::set::fold::is_fun_commutative(f));
        vstd::set::fold::lemma_fold_insert(entry_keys(t), 0nat, f, s[n].0);
    }
}

/// Balances by account.
pub struct BalanceStore {
    entries: Vec<(AccountId, Amount)>,
    contents: Ghost<Map<AccountId, nat>>,
}

impl View for BalanceStore {
    type V = Map<AccountId, nat>;

    closed spec fn view(&self) -> Map<AccountId, nat> {
        self.contents@
    }
}

impl BalanceStore {
    /// Each account has at most one entry, the entries are exactly the
    /// keys of the view, and each entry holds the view's value.
    pub closed spec fn wf(&self) -> bool {
        &&& forall|i: int, j: int|
            0 <= i < j < self.entries@.len() ==> #[trigger] self.entries@[i].0
                != #[trigger] self.entries@[j].0
        &&& forall|i: int|
            0 <= i < self.entries@.len() ==> self.contents@.contains_key(
                #[trigger] self.entries@[i].0,
            ) && self.contents@[self.entries@[i].0] == self.entries@[i].1.value()
        &&& forall|k: AccountId| #[trigger]
            self.contents@.contains_key(k) ==> exists|i: int|
                0 <= i < self.entries@.len() && #[trigger] self.entries@[i].0 == k
    }

    /// The balance of `k`: zero where the store has no entry.
    pub open spec fn balance(&self, k: AccountId) -> nat {
        if self@.contains_key(k) {
            self@[k]
        } else {
            0
        }
    }

    /// The sum of the balances of all accounts that have an entry.
    pub closed spec fn sum(&self) -> nat {
        balance_sum(self.entries@)
    }

    /// An empty store.
    pub fn new() -> (r: BalanceStore)
        ensures
            r.wf(),
            r@ == Map::<AccountId, nat>::empty(),
            r.sum() == 0,
    {
        BalanceStore { entries: Vec::new(), contents: Ghost(Map::empty()) }
    }

    fn find(&self, k: AccountId) -> (r: Option<usize>)
        requires
            self.wf(),
        ensures
            r is Some ==> r->Some_0 < self.entries@.len() && self.entries@[r->Some_0 as int].0 == k,
            r is None ==> !self@.contains_key(k),
    {
        let mut i: usize = 0;
        while i < self.entries.len()
            invariant
                self.wf(),
                0 <= i <= self.entries@.len(),
                forall|j: int| 0 <= j < i ==> #[trigger] self.entries@[j].0 != k,
            decreases self.entries@.len() - i,
        {
            if self.entries[i].0 == k {
                return Some(i);
            }
            i = i + 1;
        }
        None
    }

    /// The balance of `k`, zero where absent.
    pub fn get(&self, k: AccountId) -> (r: Amount)
        requires
            self.wf(),
        ensures
            r.value() == self.balance(k),
    {
        match self.find(k) {
            Some(i) => self.entries[i].1,
            None => Amount::zero(),
        }
    }

    /// Sets the balance of `k` to `v`.
    pub fn set(&mut self, k: AccountId, v: Amount)
        requires
            old(self).wf(),
        ensures
            final(self).wf(),
            final(self)@ == old(self)@.insert(k, v.value()),
            final(self).sum() == old(self).sum() - old(self).balance(k) + v.value(),
    {
        let ghost old_entries = self.entries@;
        let ghost old_contents = self.contents@;
        let idx: usize = match self.find(k) {
            Some(i) => {
                proof {
                    lemma_balance_sum_update(self.entries@, i as int, (k, v));
                }
                self.entries.set(i, (k, v));
                i
            },
            None => {
                proof {
                    assert((self.entries@.push((k, v))).drop_last() =~= self.entries@);
                }
                self.entries.push((k, v));
                self.entries.len() - 1
            },
        };
        self.contents = Ghost(self.contents@.insert(k, v.value()));
        assert forall|j: AccountId| #[trigger]
            self.contents@.contains_key(j) implies exists|i: int|
            0 <= i < self.entries@.len() && #[trigger] self.entries@[i].0 == j by {
            if j == k {
                assert(self.entries@[idx as int].0 == k);
            } else {
                assert(old_contents.contains_key(j));
                let i = choose|i: int| 0 <= i < old_entries.len() && old_entries[i].0 == j;
                assert(self.entries@[i].0 == j);
            }
        }
    }

    /// The sum over the entries is the sum of the balances in the view.
    pub proof fn lemma_sum_is_sum_of_balances(&self)
        requires
            self.wf(),
        ensures
            self.sum() == sum_of_balances(self@),
    {
        lemma_entry_keys(self.entries@);
        assert(self@.dom() =~= entry_keys(self.entries@));
        lemma_balance_sum_is_fold(self.entries@, self@);
    }

    /// One balance never exceeds the sum.
    pub proof fn lemma_balance_le_sum(&self, a: AccountId)
        requires
            self.wf(),
        ensures
            self.balance(a) <= self.sum(),
    {
        if self@.contains_key(a) {
            let i = choose|i: int| 0 <= i < self.entries@.len() && self.entries@[i].0 == a;
            lemma_entry_le_sum(self.entries@, i);
        }
    }

    /// The balances of two distinct accounts together never exceed the sum.
    pub proof fn lemma_two_balances_le_sum(&self, a: AccountId, b: AccountId)
        requires
            self.wf(),
            a != b,
        ensures
            self.balance(a) + self.balance(b) <= self.sum(),
    {
        if self@.contains_key(a) && self@.contains_key(b) {
            let i = choose|i: int| 0 <= i < self.entries@.len() && self.entries@[i].0 == a;
            let j = choose|j: int| 0 <= j < self.entries@.len() && self.entries@[j].0 == b;
            lemma_two_entries_le_sum(self.entries@, i, j);
        } else {
            self.lemma_balance_le_sum(a);
            self.lemma_balance_le_sum(b);
        }
    }
}

/// Allowances by (owner, spender) pair.
pub struct AllowanceStore {
    entries: Vec<(AccountId, AccountId, Amount)>,
    contents: Ghost<Map<(AccountId, AccountId), nat>>,
}

impl View for AllowanceStore {
    type V = Map<(AccountId, AccountId), nat>;

    closed spec fn view(&self) -> Map<(AccountId, AccountId), nat> {
        self.contents@
    }
}

impl AllowanceStore {
    /// Each pair has at most one entry, the entries are exactly the keys of
    /// the view, and each entry holds the view's value.
    pub closed spec fn wf(&self) -> bool {
        &&& forall|i: int, j: int|
            0 <= i < j < self.entries@.len() ==> (#[trigger] self.entries@[i].0, self.entries@[i].1)
                != (#[trigger] self.entries@[j].0, self.entries@[j].1)
        &&& forall|i: int|
            0 <= i < self.entries@.len() ==> self.contents@.contains_key(
                (#[trigger] self.entries@[i].0, self.entries@[i].1),
            ) && self.contents@[(self.entries@[i].0, self.entries@[i].1)]
                == self.entries@[i].2.value()
        &&& forall|k: (AccountId, AccountId)| #[trigger]
            self.contents@.contains_key(k) ==> exists|i: int|
                0 <= i < self.entries@.len() && (#[trigger] self.entries@[i].0, self.entries@[i].1)
                    == k
    }

    /// The amount `spender` may move out of `owner`'s balance: zero where
    /// the store has no entry.
    pub open spec fn allowance(&self, owner: AccountId, spender: AccountId) -> nat {
        if self@.contains_key((owner, spender)) {
            self@[(owner, spender)]
        } else {
            0
        }
    }

    /// An empty store.
    pub fn new() -> (r: AllowanceStore)
        ensures
            r.wf(),
            r@ == Map::<(AccountId, AccountId), nat>::empty(),
    {
        AllowanceStore { entries: Vec::new(), contents: Ghost(Map::empty()) }
    }

    fn find(&self, owner: AccountId, spender: AccountId) -> (r: Option<usize>)
        requires
            self.wf(),
        ensures
            r is Some ==> r->Some_0 < self.entries@.len() && self.entries@[r->Some_0 as int].0
                == owner && self.entries@[r->Some_0 as int].1 == spender,
            r is None ==> !self@.contains_key((owner, spender)),
    {
        let mut i: usize = 0;
        while i < self.entries.len()
            invariant
                self.wf(),
                0 <= i <= self.entries@.len(),
                forall|j: int|
                    0 <= j < i ==> (#[trigger] self.entries@[j].0, self.entries@[j].1) != (
                        owner,
                        spender,
                    ),
            decreases self.entries@.len() - i,
        {
            if self.entries[i].0 == owner && self.entries[i].1 == spender {
                return Some(i);
            }
            i = i + 1;
        }
        None
    }

    /// The allowance of `spender` over `owner`, zero where absent.
    pub fn get(&self, owner: AccountId, spender: AccountId) -> (r: Amount)
        requires
            self.wf(),
        ensures
            r.value() == self.allowance(owner, spender),
    {
        match self.find(owner, spender) {
            Some(i) => self.entries[i].2,
            None => Amount::zero(),
        }
    }

    /// Sets the allowance of `spender` over `owner` to `v`.
    pub fn set(&mut self, owner: AccountId, spender: AccountId, v: Amount)
        requires
            old(self).wf(),
        ensures
            final(self).wf(),
            final(self)@ == old(self)@.insert((owner, spender), v.value()),
    {
        let ghost old_entries = self.entries@;
        let ghost old_contents = self.contents@;
        let idx: usize = match self.find(owner, spender) {
            Some(i) => {
                self.entries.set(i, (owner, spender, v));
                i
            },
            None => {
                self.entries.push((owner, spender, v));
                self.entries.len() - 1
            },
        };
        self.contents = Ghost(self.contents@.insert((owner, spender), v.value()));
        assert forall|j: (AccountId, AccountId)| #[trigger]
            self.contents@.contains_key(j) implies exists|i: int|
            0 <= i < self.entries@.len() && (#[trigger] self.entries@[i].0, self.entries@[i].1)
                == j by {
            if j == (owner, spender) {
                assert((self.entries@[idx as int].0, self.entries@[idx as int].1) == j);
            } else {
                assert(old_contents.contains_key(j));
                let i = choose|i: int|
                    0 <= i < old_entries.len() && (old_entries[i].0, old_entries[i].1) == j;
                assert((self.entries@[i].0, self.entries@[i].1) == j);
            }
        }
    }

    /// Removes the entry of `spender` over `owner`, if there is one.
    pub fn remove(&mut self, owner: AccountId, spender: AccountId)
        requires
            old(self).wf(),
        ensures
            final(self).wf(),
            final(self)@ == old(self)@.remove((owner, spender)),
    {
        let ghost old_entries = self.entries@;
        let ghost old_contents = self.contents@;
        match self.find(owner, spender) {
            Some(i) => {
                self.entries.remove(i);
                self.contents = Ghost(self.contents@.remove((owner, spender)));
                assert forall|a: int, b: int|
                    0 <= a < b < self.entries@.len() implies (#[trigger] self.entries@[a].0,
                    self.entries@[a].1) != (#[trigger] self.entries@[b].0, self.entries@[b].1) by {
                    let oa = if a < i { a } else { a + 1 };
                    let ob = if b < i { b } else { b + 1 };
                    assert(self.entries@[a] == old_entries[oa]);
                    assert(self.entries@[b] == old_entries[ob]);
                }
                assert forall|a: int| 0 <= a < self.entries@.len() implies self.contents@.contains_key(
                    (#[trigger] self.entries@[a].0, self.entries@[a].1),
                ) && self.contents@[(self.entries@[a].0, self.entries@[a].1)]
                    == self.entries@[a].2.value() by {
                    let oa = if a < i { a } else { a + 1 };
                    assert(self.entries@[a] == old_entries[oa]);
                    assert(old_entries[i as int] != old_entries[oa]);
                }
                assert forall|j: (AccountId, AccountId)| #[trigger]
                    self.contents@.contains_key(j) implies exists|a: int|
                    0 <= a < self.entries@.len() && (#[trigger] self.entries@[a].0,
                    self.entries@[a].1) == j by {
                    assert(old_contents.contains_key(j));
                    let oa = choose|oa: int|
                        0 <= oa < old_entries.len() && (old_entries[oa].0, old_entries[oa].1) == j;
                    if oa < i {
                        assert(self.entries@[oa] == old_entries[oa]);
                    } else {
                        assert(self.entries@[oa - 1] == old_entries[oa]);
                    }
                }
            },
            None => {
                assert(self.contents@.remove((owner, spender)) =~= self.contents@);
            },
        }
    }
}

} // verus!
