//! Properties of the ledger that relate several operations or hold of every
//! state the operations can reach.
use vstd::prelude::*;

use crate::ledger::{LedgerState, PspCoin};
use crate::store::AccountId;

verus! {

/// Transfers and delegated transfers never change the total supply.
pub proof fn lemma_transfers_keep_supply(
    s: LedgerState,
    caller: AccountId,
    from: AccountId,
    to: AccountId,
    v: nat,
)
    ensures
        s.after_transfer(caller, to, v).supply == s.supply,
        s.after_transfer_from(caller, from, to, v).supply == s.supply,
{
}

/// After an approval of zero the allowance reads zero and the store holds
/// no entry for the pair.
pub proof fn lemma_approve_zero_removes(coin: &PspCoin, owner: AccountId, spender: AccountId)
    requires
        coin.wf(),
    ensures
        !coin@.after_approve(owner, spender, 0).allowances.contains_key((owner, spender)),
        coin@.after_approve(owner, spender, 0).allowance(owner, spender) == 0,
{
    coin.lemma_no_self_allowance();
}

/// Decreasing an allowance by more than it holds leaves it at zero.
pub proof fn lemma_decrease_past_allowance_is_zero(
    coin: &PspCoin,
    owner: AccountId,
    spender: AccountId,
    delta: nat,
)
    requires
        coin.wf(),
        delta > coin@.allowance(owner, spender),
    ensures
        coin@.after_decrease_allowance(owner, spender, delta).allowance(owner, spender) == 0,
{
    coin.lemma_no_self_allowance();
}

/// Minting or burning zero, transferring to oneself and transferring zero
/// succeed and change nothing.
pub proof fn lemma_trivial_moves_are_no_ops(
    s: LedgerState,
    caller: AccountId,
    other: AccountId,
    x: nat,
)
    ensures
        s.after_mint(caller, 0) == s,
        s.after_burn(caller, 0) == s,
        s.burn_result(caller, 0) is Ok,
        s.after_transfer(caller, caller, x) == s,
        s.transfer_result(caller, caller, x) is Ok,
        s.after_transfer(caller, other, 0) == s,
        s.transfer_result(caller, other, 0) is Ok,
{
}

/// A delegated transfer from an account to itself succeeds and changes
/// nothing, whatever the allowance.
pub proof fn lemma_transfer_from_to_self_is_no_op(
    s: LedgerState,
    caller: AccountId,
    from: AccountId,
    v: nat,
)
    ensures
        s.after_transfer_from(caller, from, from, v) == s,
        s.transfer_from_result(caller, from, from, v) is Ok,
{
}

/// Approving oneself, or raising or lowering one's own allowance, changes
/// nothing.
pub proof fn lemma_self_allowance_changes_are_no_ops(s: LedgerState, caller: AccountId, v: nat)
    ensures
        s.after_approve(caller, caller, v) == s,
        s.after_increase_allowance(caller, caller, v) == s,
        s.after_decrease_allowance(caller, caller, v) == s,
{
}

} // verus!
