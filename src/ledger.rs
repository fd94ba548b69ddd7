//! The ledger: transfers, delegated transfers, allowance management, minting
//! and burning. Every operation validates before it mutates, so a failed
//! call leaves the ledger exactly as it was.
use vstd::prelude::*;

use crate::amount::{amount_max, checked_add, is_zero, less_than, saturating_add, saturating_sub, Amount};
use crate::store::{sum_of_balances, AccountId, AllowanceStore, BalanceStore};

verus! {

/// Why an operation was refused.
#[derive(Debug, PartialEq, Eq)]
pub enum PSP22Error {
    /// A mint would take the total supply past the largest amount.
    CapacityExceeded(String),
    /// A debit exceeds the balance it is taken from.
    InsufficientBalance,
    /// A delegated transfer exceeds what the owner approved.
    InsufficientAllowance,
}

/// The balance of `a` in `b`: zero where `b` has no entry.
pub open spec fn balance_in(b: Map<AccountId, nat>, a: AccountId) -> nat {
    if b.contains_key(a) {
        b[a]
    } else {
        0
    }
}

/// `b` after moving `v` from `from` to `to`.
pub open spec fn moved(b: Map<AccountId, nat>, from: AccountId, to: AccountId, v: nat) -> Map<
    AccountId,
    nat,
> {
    b.insert(to, balance_in(b, to) + v).insert(from, (balance_in(b, from) - v) as nat)
}

/// The ledger as a mathematical value.
pub struct LedgerState {
    pub supply: nat,
    pub balances: Map<AccountId, nat>,
    pub allowances: Map<(AccountId, AccountId), nat>,
}

impl LedgerState {
    /// The balance of `a`: zero where it has no entry.
    pub open spec fn balance(self, a: AccountId) -> nat {
        balance_in(self.balances, a)
    }

    /// The allowance of `spender` over `owner`: zero where there is no entry.
    pub open spec fn allowance(self, owner: AccountId, spender: AccountId) -> nat {
        if self.allowances.contains_key((owner, spender)) {
            self.allowances[(owner, spender)]
        } else {
            0
        }
    }

    /// No account holds an allowance over itself.
    pub open spec fn no_self_allowance(self) -> bool {
        forall|a: AccountId| !(#[trigger] self.allowances.contains_key((a, a)))
    }

    /// This state with its balances replaced by `b`.
    pub open spec fn with_balances(self, b: Map<AccountId, nat>) -> LedgerState {
        LedgerState { supply: self.supply, balances: b, allowances: self.allowances }
    }

    /// This state with its allowances replaced by `a`.
    pub open spec fn with_allowances(self, a: Map<(AccountId, AccountId), nat>) -> LedgerState {
        LedgerState { supply: self.supply, balances: self.balances, allowances: a }
    }

    /// What `transfer` returns.
    pub open spec fn transfer_result(self, caller: AccountId, to: AccountId, v: nat) -> Result<
        (),
        PSP22Error,
    > {
        if caller != to && v != 0 && self.balance(caller) < v {
            Err(PSP22Error::InsufficientBalance)
        } else {
            Ok(())
        }
    }

    /// The state after `transfer`.
    pub open spec fn after_transfer(self, caller: AccountId, to: AccountId, v: nat) -> LedgerState {
        if caller == to || v == 0 || self.balance(caller) < v {
            self
        } else {
            self.with_balances(moved(self.balances, caller, to, v))
        }
    }

    /// What `transfer_from` returns.
    pub open spec fn transfer_from_result(
        self,
        caller: AccountId,
        from: AccountId,
        to: AccountId,
        v: nat,
    ) -> Result<(), PSP22Error> {
        if from == to || v == 0 {
            Ok(())
        } else if caller == from {
            self.transfer_result(caller, to, v)
        } else if self.allowance(from, caller) < v {
            Err(PSP22Error::InsufficientAllowance)
        } else if self.balance(from) < v {
            Err(PSP22Error::InsufficientBalance)
        } else {
            Ok(())
        }
    }

    /// The state after `transfer_from`.
    pub open spec fn after_transfer_from(
        self,
        caller: AccountId,
        from: AccountId,
        to: AccountId,
        v: nat,
    ) -> LedgerState {
        if from == to || v == 0 {
            self
        } else if caller == from {
            self.after_transfer(caller, to, v)
        } else if self.allowance(from, caller) < v || self.balance(from) < v {
            self
        } else {
            LedgerState {
                supply: self.supply,
                balances: moved(self.balances, from, to, v),
                allowances: self.allowances.insert(
                    (from, caller),
                    (self.allowance(from, caller) - v) as nat,
                ),
            }
        }
    }

    /// The state after `approve`: an approval of zero removes the entry.
    pub open spec fn after_approve(self, caller: AccountId, spender: AccountId, v: nat) -> LedgerState {
        if caller == spender {
            self
        } else if v == 0 {
            self.with_allowances(self.allowances.remove((caller, spender)))
        } else {
            self.with_allowances(self.allowances.insert((caller, spender), v))
        }
    }

    /// The state after `increase_allowance`: the sum, clamped at the
    /// largest amount.
    pub open spec fn after_increase_allowance(
        self,
        caller: AccountId,
        spender: AccountId,
        delta: nat,
    ) -> LedgerState {
        if caller == spender {
            self
        } else {
            let sum = self.allowance(caller, spender) + delta;
            self.with_allowances(
                self.allowances.insert(
                    (caller, spender),
                    if sum <= amount_max() {
                        sum
                    } else {
                        amount_max()
                    },
                ),
            )
        }
    }

    /// The state after `decrease_allowance`: the entry is removed when
    /// `delta` exceeds the allowance.
    pub open spec fn after_decrease_allowance(
        self,
        caller: AccountId,
        spender: AccountId,
        delta: nat,
    ) -> LedgerState {
        if caller == spender {
            self
        } else if self.allowance(caller, spender) < delta {
            self.with_allowances(self.allowances.remove((caller, spender)))
        } else {
            self.with_allowances(
                self.allowances.insert(
                    (caller, spender),
                    (self.allowance(caller, spender) - delta) as nat,
                ),
            )
        }
    }

    /// Whether a mint of `v` would take the supply past the largest amount.
    pub open spec fn mint_overflows(self, v: nat) -> bool {
        self.supply + v > amount_max()
    }

    /// The state after `mint`.
    pub open spec fn after_mint(self, caller: AccountId, v: nat) -> LedgerState {
        if v == 0 || self.mint_overflows(v) {
            self
        } else {
            LedgerState {
                supply: self.supply + v,
                balances: self.balances.insert(caller, self.balance(caller) + v),
                allowances: self.allowances,
            }
        }
    }

    /// What `burn` returns.
    pub open spec fn burn_result(self, caller: AccountId, v: nat) -> Result<(), PSP22Error> {
        if v != 0 && self.balance(caller) < v {
            Err(PSP22Error::InsufficientBalance)
        } else {
            Ok(())
        }
    }

    /// The state after `burn`.
    pub open spec fn after_burn(self, caller: AccountId, v: nat) -> LedgerState {
        if v == 0 || self.balance(caller) < v {
            self
        } else {
            LedgerState {
                supply: (self.supply - v) as nat,
                balances: self.balances.insert(caller, (self.balance(caller) - v) as nat),
                allowances: self.allowances,
            }
        }
    }
}

/// A fungible-value ledger. The caller of each operation is passed in by
/// whoever authenticates it.
pub struct PspCoin {
    total_supply: Amount,
    balances: BalanceStore,
    allowances: AllowanceStore,
    metadata: (String, String, u8),
}

impl View for PspCoin {
    type V = LedgerState;

    closed spec fn view(&self) -> LedgerState {
        LedgerState {
            supply: self.total_supply.value(),
            balances: self.balances@,
            allowances: self.allowances@,
        }
    }
}

impl PspCoin {
    /// The stores are well formed and the total supply is the sum of all
    /// balances.
    pub closed spec fn wf(&self) -> bool {
        &&& self.balances.wf()
        &&& self.allowances.wf()
        &&& self.total_supply.value() == self.balances.sum()
        &&& forall|a: AccountId| !(#[trigger] self.allowances@.contains_key((a, a)))
    }

    /// A well-formed ledger holds no allowance of an account over itself.
    pub proof fn lemma_no_self_allowance(&self)
        requires
            self.wf(),
        ensures
            self@.no_self_allowance(),
    {
    }

    /// In every well-formed ledger (every ledger the constructors and
    /// operations produce) the total supply equals the sum of all balances.
    pub proof fn lemma_supply_is_sum_of_balances(&self)
        requires
            self.wf(),
        ensures
            self@.supply == sum_of_balances(self@.balances),
    {
        self.balances.lemma_sum_is_sum_of_balances();
    }

    /// Name, symbol and number of decimals.
    pub closed spec fn metadata(&self) -> (String, String, u8) {
        self.metadata
    }

    /// A ledger with no supply, no balances, no allowances and empty
    /// metadata.
    pub fn new() -> (r: PspCoin)
        ensures
            r.wf(),
            r@.supply == 0,
            r@.balances == Map::<AccountId, nat>::empty(),
            r@.allowances == Map::<(AccountId, AccountId), nat>::empty(),
            r.metadata().0@ == Seq::<char>::empty(),
            r.metadata().1@ == Seq::<char>::empty(),
            r.metadata().2 == 0,
    {
        PspCoin {
            total_supply: Amount::zero(),
            balances: BalanceStore::new(),
            allowances: AllowanceStore::new(),
            metadata: (String::new(), String::new(), 0),
        }
    }

    /// A new ledger in which `caller` has minted `total_supply`.
    pub fn new_with_supply(caller: AccountId, total_supply: Amount) -> (r: PspCoin)
        ensures
            r.wf(),
            r@ == PspCoin::new_state().after_mint(caller, total_supply.value()),
            r@.supply == total_supply.value(),
            r@.balance(caller) == total_supply.value(),
            r.metadata().0@ == Seq::<char>::empty(),
            r.metadata().1@ == Seq::<char>::empty(),
            r.metadata().2 == 0,
    {
        let mut instance = Self::new();
        proof {
            total_supply.lemma_value_bounded();
            assert(instance@ == PspCoin::new_state());
        }
        let _ = instance.mint(caller, total_supply);
        instance
    }

    /// The state of a new ledger.
    pub open spec fn new_state() -> LedgerState {
        LedgerState {
            supply: 0,
            balances: Map::empty(),
            allowances: Map::empty(),
        }
    }

    /// The total supply.
    pub fn total_supply(&self) -> (r: Amount)
        requires
            self.wf(),
        ensures
            r.value() == self@.supply,
    {
        self.total_supply
    }

    /// The balance of `owner`, zero where it has none.
    pub fn balance_of(&self, owner: AccountId) -> (r: Amount)
        requires
            self.wf(),
        ensures
            r.value() == self@.balance(owner),
    {
        self.balances.get(owner)
    }

    /// How much `spender` may move out of `owner`'s balance.
    pub fn allowance(&self, owner: AccountId, spender: AccountId) -> (r: Amount)
        requires
            self.wf(),
        ensures
            r.value() == self@.allowance(owner, spender),
    {
        self.allowances.get(owner, spender)
    }

    /// Moves `value` from `caller` to `to`.
    pub fn transfer(&mut self, caller: AccountId, to: AccountId, value: Amount, _data: Vec<u8>) -> (r:
        Result<(), PSP22Error>)
        requires
            old(self).wf(),
        ensures
            final(self).wf(),
            final(self)@ == old(self)@.after_transfer(caller, to, value.value()),
            r == old(self)@.transfer_result(caller, to, value.value()),
            r is Err ==> *final(self) == *old(self),
            final(self).metadata() == old(self).metadata(),
    {
        if caller == to || is_zero(value) {
            return Ok(());
        }
        let owner_balance = self.balance_of(caller);
        if less_than(owner_balance, value) {
            return Err(PSP22Error::InsufficientBalance);
        }
        let to_balance = self.balance_of(to);
        proof {
            self.balances.lemma_two_balances_le_sum(caller, to);
            self.total_supply.lemma_value_bounded();
        }
        self.balances.set(to, saturating_add(to_balance, value));
        self.balances.set(caller, saturating_sub(owner_balance, value));
        Ok(())
    }

    /// Moves `value` from `from` to `to` on behalf of `caller`, consuming
    /// `caller`'s allowance over `from` unless `caller` is `from`.
    pub fn transfer_from(
        &mut self,
        caller: AccountId,
        from: AccountId,
        to: AccountId,
        value: Amount,
        data: Vec<u8>,
    ) -> (r: Result<(), PSP22Error>)
        requires
            old(self).wf(),
        ensures
            final(self).wf(),
            final(self)@ == old(self)@.after_transfer_from(caller, from, to, value.value()),
            r == old(self)@.transfer_from_result(caller, from, to, value.value()),
            r is Err ==> *final(self) == *old(self),
            final(self).metadata() == old(self).metadata(),
    {
        if from == to || is_zero(value) {
            return Ok(());
        }
        if caller == from {
            return self.transfer(caller, to, value, data);
        }
        let allowance = self.allowance(from, caller);
        if less_than(allowance, value) {
            return Err(PSP22Error::InsufficientAllowance);
        }
        let from_balance = self.balance_of(from);
        if less_than(from_balance, value) {
            return Err(PSP22Error::InsufficientBalance);
        }
        self.allowances.set(from, caller, saturating_sub(allowance, value));
        let to_balance = self.balances.get(to);
        proof {
            self.balances.lemma_two_balances_le_sum(from, to);
            self.total_supply.lemma_value_bounded();
        }
        self.balances.set(from, saturating_sub(from_balance, value));
        self.balances.set(to, saturating_add(to_balance, value));
        proof {
            assert(self.balances@ =~= moved(old(self).balances@, from, to, value.value()));
        }
        Ok(())
    }

    /// Sets `caller`'s allowance for `spender` to `value`; zero removes it.
    pub fn approve(&mut self, caller: AccountId, spender: AccountId, value: Amount) -> (r: Result<
        (),
        PSP22Error,
    >)
        requires
            old(self).wf(),
        ensures
            final(self).wf(),
            final(self)@ == old(self)@.after_approve(caller, spender, value.value()),
            r is Ok,
            final(self).metadata() == old(self).metadata(),
    {
        if caller == spender {
            return Ok(());
        }
        if is_zero(value) {
            self.allowances.remove(caller, spender);
        } else {
            self.allowances.set(caller, spender, value);
        }
        Ok(())
    }

    /// Raises `caller`'s allowance for `spender` by `delta_value`, clamping
    /// at the largest amount.
    pub fn increase_allowance(&mut self, caller: AccountId, spender: AccountId, delta_value: Amount) -> (r:
        Result<(), PSP22Error>)
        requires
            old(self).wf(),
        ensures
            final(self).wf(),
            final(self)@ == old(self)@.after_increase_allowance(caller, spender, delta_value.value()),
            r is Ok,
            final(self).metadata() == old(self).metadata(),
    {
        if caller == spender {
            return Ok(());
        }
        let allowance = self.allowance(caller, spender);
        self.allowances.set(caller, spender, saturating_add(allowance, delta_value));
        Ok(())
    }

    /// Lowers `caller`'s allowance for `spender` by `delta_value`; where
    /// `delta_value` exceeds it, the allowance is removed.
    pub fn decrease_allowance(&mut self, caller: AccountId, spender: AccountId, delta_value: Amount) -> (r:
        Result<(), PSP22Error>)
        requires
            old(self).wf(),
        ensures
            final(self).wf(),
            final(self)@ == old(self)@.after_decrease_allowance(caller, spender, delta_value.value()),
            r is Ok,
            final(self).metadata() == old(self).metadata(),
    {
        if caller == spender {
            return Ok(());
        }
        let allowance = self.allowance(caller, spender);
        if less_than(allowance, delta_value) {
            self.allowances.remove(caller, spender);
            return Ok(());
        }
        self.allowances.set(caller, spender, saturating_sub(allowance, delta_value));
        Ok(())
    }

    /// The name, always present.
    pub fn name(&self) -> (r: Option<String>)
        ensures
            r == Some(self.metadata().0),
    {
        Some(self.metadata.0.clone())
    }

    /// The symbol, always present.
    pub fn symbol(&self) -> (r: Option<String>)
        ensures
            r == Some(self.metadata().1),
    {
        Some(self.metadata.1.clone())
    }

    /// The number of decimals.
    pub fn decimals(&self) -> (r: u8)
        ensures
            r == self.metadata().2,
    {
        self.metadata.2
    }

    /// Creates `value` new units, credited to `caller`.
    pub fn mint(&mut self, caller: AccountId, value: Amount) -> (r: Result<(), PSP22Error>)
        requires
            old(self).wf(),
        ensures
            final(self).wf(),
            final(self)@ == old(self)@.after_mint(caller, value.value()),
            r is Err <==> value.value() != 0 && old(self)@.mint_overflows(value.value()),
            r is Err ==> r->Err_0 is CapacityExceeded && *final(self) == *old(self),
            final(self).metadata() == old(self).metadata(),
    {
        if is_zero(value) {
            return Ok(());
        }
        let new_supply = match checked_add(self.total_supply, value) {
            Some(s) => s,
            None => {
                return Err(
                    PSP22Error::CapacityExceeded(
                        "Max PSP22 supply exceeded. Max supply limited to 2^256-1.".to_owned(),
                    ),
                );
            },
        };
        let balance = self.balances.get(caller);
        proof {
            self.balances.lemma_balance_le_sum(caller);
        }
        self.total_supply = new_supply;
        self.balances.set(caller, saturating_add(balance, value));
        Ok(())
    }

    /// Destroys `value` units out of `caller`'s balance.
    pub fn burn(&mut self, caller: AccountId, value: Amount) -> (r: Result<(), PSP22Error>)
        requires
            old(self).wf(),
        ensures
            final(self).wf(),
            final(self)@ == old(self)@.after_burn(caller, value.value()),
            r == old(self)@.burn_result(caller, value.value()),
            r is Err ==> *final(self) == *old(self),
            final(self).metadata() == old(self).metadata(),
    {
        if is_zero(value) {
            return Ok(());
        }
        let balance = self.balance_of(caller);
        if less_than(balance, value) {
            return Err(PSP22Error::InsufficientBalance);
        }
        proof {
            self.balances.lemma_balance_le_sum(caller);
        }
        self.balances.set(caller, saturating_sub(balance, value));
        self.total_supply = saturating_sub(self.total_supply, value);
        Ok(())
    }
}

} // verus!
