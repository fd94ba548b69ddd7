use psp_coin::{AccountId, Amount, PSP22Error, PspCoin};

fn alice() -> AccountId {
    AccountId { hi: 0, lo: 1 }
}

fn bob() -> AccountId {
    AccountId { hi: 0, lo: 2 }
}

fn eve() -> AccountId {
    AccountId { hi: 7, lo: 5 }
}

fn amt(v: u64) -> Amount {
    Amount::from_u64(v)
}

#[test]
fn contract_instantiation_should_work() {
    let supply = amt(1000);
    let contract = PspCoin::new_with_supply(alice(), supply);
    assert_eq!(contract.total_supply(), supply, "Supply must match instantiation supply");
    assert_eq!(contract.balance_of(alice()), contract.total_supply(), "Alice must have all the total supply");
}

#[test]
fn calling_transfer_from_should_work() {
    let mut pspcoin = PspCoin::new_with_supply(alice(), amt(1000));

    let result = pspcoin.transfer_from(bob(), alice(), eve(), amt(10), vec![]);
    assert!(result.is_err(), "Should not transfer without allowance");

    let result = pspcoin.approve(alice(), bob(), amt(30));
    assert!(result.is_ok(), "Approve should work");

    let result = pspcoin.transfer_from(bob(), alice(), eve(), amt(10), vec![]);
    assert!(result.is_ok(), "TransferFrom should work");
    assert_eq!(pspcoin.balance_of(eve()), amt(10), "Eve should have 10 tokens");
    assert_eq!(pspcoin.balance_of(alice()), amt(990), "Alice should have 990 tokens");
    assert_eq!(pspcoin.allowance(alice(), bob()), amt(20), "Bob should have allowance of 20 tokens");
}

#[test]
fn new_ledger_is_empty() {
    let coin = PspCoin::new();
    assert_eq!(coin.total_supply(), Amount::zero());
    assert_eq!(coin.balance_of(alice()), Amount::zero());
    assert_eq!(coin.allowance(alice(), bob()), Amount::zero());
    assert_eq!(coin.name(), Some(String::new()));
    assert_eq!(coin.symbol(), Some(String::new()));
    assert_eq!(coin.decimals(), 0);
}

#[test]
fn transfer_moves_value_and_keeps_supply() {
    let mut coin = PspCoin::new_with_supply(alice(), amt(1000));
    assert_eq!(coin.transfer(alice(), bob(), amt(300), vec![]), Ok(()));
    assert_eq!(coin.balance_of(alice()), amt(700));
    assert_eq!(coin.balance_of(bob()), amt(300));
    assert_eq!(coin.total_supply(), amt(1000));
    assert_eq!(coin.transfer(bob(), alice(), amt(300), vec![]), Ok(()));
    assert_eq!(coin.balance_of(alice()), amt(1000));
    assert_eq!(coin.balance_of(bob()), Amount::zero());
    assert_eq!(coin.total_supply(), amt(1000));
}

#[test]
fn transfer_of_whole_balance_works() {
    let mut coin = PspCoin::new_with_supply(alice(), amt(50));
    assert_eq!(coin.transfer(alice(), eve(), amt(50), vec![]), Ok(()));
    assert_eq!(coin.balance_of(alice()), Amount::zero());
    assert_eq!(coin.balance_of(eve()), amt(50));
}

#[test]
fn transfer_beyond_balance_fails_without_change() {
    let mut coin = PspCoin::new_with_supply(alice(), amt(100));
    assert_eq!(coin.transfer(alice(), bob(), amt(101), vec![]), Err(PSP22Error::InsufficientBalance));
    assert_eq!(coin.balance_of(alice()), amt(100));
    assert_eq!(coin.balance_of(bob()), Amount::zero());
    assert_eq!(coin.total_supply(), amt(100));
}

#[test]
fn trivial_moves_are_no_ops() {
    let mut coin = PspCoin::new_with_supply(alice(), amt(100));
    assert_eq!(coin.mint(alice(), Amount::zero()), Ok(()));
    assert_eq!(coin.burn(alice(), Amount::zero()), Ok(()));
    assert_eq!(coin.transfer(alice(), alice(), amt(5000), vec![]), Ok(()));
    assert_eq!(coin.transfer(alice(), bob(), Amount::zero(), vec![]), Ok(()));
    assert_eq!(coin.total_supply(), amt(100));
    assert_eq!(coin.balance_of(alice()), amt(100));
    assert_eq!(coin.balance_of(bob()), Amount::zero());
}

#[test]
fn transfer_from_to_same_account_is_no_op() {
    let mut coin = PspCoin::new_with_supply(alice(), amt(100));
    assert_eq!(coin.transfer_from(bob(), alice(), alice(), amt(60), vec![]), Ok(()));
    assert_eq!(coin.balance_of(alice()), amt(100));
    assert_eq!(coin.allowance(alice(), bob()), Amount::zero());
}

#[test]
fn transfer_from_by_owner_needs_no_allowance() {
    let mut coin = PspCoin::new_with_supply(alice(), amt(100));
    assert_eq!(coin.transfer_from(alice(), alice(), bob(), amt(40), vec![]), Ok(()));
    assert_eq!(coin.balance_of(alice()), amt(60));
    assert_eq!(coin.balance_of(bob()), amt(40));
    assert_eq!(coin.transfer_from(alice(), alice(), bob(), amt(61), vec![]), Err(PSP22Error::InsufficientBalance));
}

#[test]
fn transfer_from_without_allowance_fails_without_change() {
    let mut coin = PspCoin::new();
    assert_eq!(coin.mint(alice(), amt(1000)), Ok(()));
    assert_eq!(coin.transfer_from(bob(), alice(), eve(), amt(10), vec![]), Err(PSP22Error::InsufficientAllowance));
    assert_eq!(coin.balance_of(alice()), amt(1000));
    assert_eq!(coin.balance_of(eve()), Amount::zero());
    assert_eq!(coin.total_supply(), amt(1000));
}

#[test]
fn transfer_from_beyond_balance_fails() {
    let mut coin = PspCoin::new_with_supply(alice(), amt(5));
    assert_eq!(coin.approve(alice(), bob(), amt(30)), Ok(()));
    assert_eq!(coin.transfer_from(bob(), alice(), eve(), amt(10), vec![]), Err(PSP22Error::InsufficientBalance));
    assert_eq!(coin.allowance(alice(), bob()), amt(30));
    assert_eq!(coin.balance_of(alice()), amt(5));
}

#[test]
fn transfer_from_consumes_whole_allowance() {
    let mut coin = PspCoin::new_with_supply(alice(), amt(100));
    assert_eq!(coin.approve(alice(), bob(), amt(30)), Ok(()));
    assert_eq!(coin.transfer_from(bob(), alice(), eve(), amt(30), vec![]), Ok(()));
    assert_eq!(coin.allowance(alice(), bob()), Amount::zero());
    assert_eq!(coin.transfer_from(bob(), alice(), eve(), amt(1), vec![]), Err(PSP22Error::InsufficientAllowance));
    assert_eq!(coin.total_supply(), amt(100));
}

#[test]
fn approve_overwrites_and_zero_clears() {
    let mut coin = PspCoin::new();
    assert_eq!(coin.approve(alice(), bob(), amt(30)), Ok(()));
    assert_eq!(coin.approve(alice(), bob(), amt(12)), Ok(()));
    assert_eq!(coin.allowance(alice(), bob()), amt(12));
    assert_eq!(coin.approve(alice(), bob(), Amount::zero()), Ok(()));
    assert_eq!(coin.allowance(alice(), bob()), Amount::zero());
    assert_eq!(coin.allowance(bob(), alice()), Amount::zero());
}

#[test]
fn allowance_may_exceed_balance() {
    let mut coin = PspCoin::new_with_supply(alice(), amt(10));
    assert_eq!(coin.approve(alice(), bob(), amt(500)), Ok(()));
    assert_eq!(coin.allowance(alice(), bob()), amt(500));
}

#[test]
fn increase_and_decrease_allowance() {
    let mut coin = PspCoin::new();
    assert_eq!(coin.increase_allowance(alice(), bob(), amt(7)), Ok(()));
    assert_eq!(coin.increase_allowance(alice(), bob(), amt(8)), Ok(()));
    assert_eq!(coin.allowance(alice(), bob()), amt(15));
    assert_eq!(coin.decrease_allowance(alice(), bob(), amt(5)), Ok(()));
    assert_eq!(coin.allowance(alice(), bob()), amt(10));
    assert_eq!(coin.decrease_allowance(alice(), bob(), amt(10)), Ok(()));
    assert_eq!(coin.allowance(alice(), bob()), Amount::zero());
}

#[test]
fn decrease_past_allowance_clears_it() {
    let mut coin = PspCoin::new();
    assert_eq!(coin.approve(alice(), bob(), amt(4)), Ok(()));
    assert_eq!(coin.decrease_allowance(alice(), bob(), amt(9)), Ok(()));
    assert_eq!(coin.allowance(alice(), bob()), Amount::zero());
}

#[test]
fn increase_allowance_clamps_at_max() {
    let mut coin = PspCoin::new();
    assert_eq!(coin.approve(alice(), bob(), Amount::max_value()), Ok(()));
    assert_eq!(coin.increase_allowance(alice(), bob(), amt(3)), Ok(()));
    assert_eq!(coin.allowance(alice(), bob()), Amount::max_value());
}

#[test]
fn self_allowance_changes_are_no_ops() {
    let mut coin = PspCoin::new();
    assert_eq!(coin.approve(alice(), alice(), amt(10)), Ok(()));
    assert_eq!(coin.increase_allowance(alice(), alice(), amt(10)), Ok(()));
    assert_eq!(coin.decrease_allowance(alice(), alice(), amt(3)), Ok(()));
    assert_eq!(coin.allowance(alice(), alice()), Amount::zero());
}

#[test]
fn mint_and_burn_adjust_supply() {
    let mut coin = PspCoin::new();
    assert_eq!(coin.mint(alice(), amt(70)), Ok(()));
    assert_eq!(coin.mint(bob(), amt(30)), Ok(()));
    assert_eq!(coin.total_supply(), amt(100));
    assert_eq!(coin.burn(alice(), amt(20)), Ok(()));
    assert_eq!(coin.balance_of(alice()), amt(50));
    assert_eq!(coin.total_supply(), amt(80));
    assert_eq!(coin.burn(bob(), amt(31)), Err(PSP22Error::InsufficientBalance));
    assert_eq!(coin.balance_of(bob()), amt(30));
    assert_eq!(coin.total_supply(), amt(80));
}

#[test]
fn mint_past_max_fails_without_change() {
    let mut coin = PspCoin::new_with_supply(alice(), Amount::max_value());
    assert_eq!(coin.total_supply(), Amount::max_value());
    let r = coin.mint(bob(), amt(1));
    assert!(matches!(r, Err(PSP22Error::CapacityExceeded(_))));
    assert_eq!(coin.total_supply(), Amount::max_value());
    assert_eq!(coin.balance_of(alice()), Amount::max_value());
    assert_eq!(coin.balance_of(bob()), Amount::zero());
}

#[test]
fn mint_up_to_max_succeeds() {
    let mut coin = PspCoin::new();
    let almost = Amount { w0: u64::MAX - 1, w1: u64::MAX, w2: u64::MAX, w3: u64::MAX };
    assert_eq!(coin.mint(alice(), almost), Ok(()));
    assert_eq!(coin.mint(bob(), amt(1)), Ok(()));
    assert_eq!(coin.total_supply(), Amount::max_value());
    assert!(matches!(coin.mint(bob(), amt(1)), Err(PSP22Error::CapacityExceeded(_))));
}

#[test]
fn amounts_carry_across_words() {
    let mut coin = PspCoin::new();
    let low_full = Amount { w0: u64::MAX, w1: 0, w2: 0, w3: 0 };
    assert_eq!(coin.mint(alice(), low_full), Ok(()));
    assert_eq!(coin.mint(alice(), amt(1)), Ok(()));
    assert_eq!(coin.total_supply(), Amount { w0: 0, w1: 1, w2: 0, w3: 0 });
    assert_eq!(coin.transfer(alice(), bob(), amt(1), vec![]), Ok(()));
    assert_eq!(coin.balance_of(alice()), low_full);
    assert_eq!(coin.balance_of(bob()), amt(1));
}
