use tetcoin_rpc::fees::{DealWithFees, FeeAccounts, ToAuthor};

fn empty_accounts() -> FeeAccounts {
    FeeAccounts { treasury: 0, author: 0 }
}

#[test]
fn test_fees_and_tip_split() {
    let mut accounts = empty_accounts();
    let fee: u128 = 10;
    let tip: u128 = 20;

    assert_eq!(accounts.treasury, 0);
    assert_eq!(accounts.author, 0);

    DealWithFees::on_unbalanceds(&mut accounts, &vec![fee, tip]);

    // Author gets 100% of tip and 20% of fee = 22
    assert_eq!(accounts.author, 22);
    // Treasury gets 80% of fee
    assert_eq!(accounts.treasury, 8);
}

#[test]
fn fee_alone_is_split_eighty_twenty() {
    let mut accounts = empty_accounts();
    DealWithFees::on_unbalanceds(&mut accounts, &vec![10]);
    assert_eq!(accounts, FeeAccounts { treasury: 8, author: 2 });
}

#[test]
fn nothing_to_deal_with_credits_nothing() {
    let mut accounts = FeeAccounts { treasury: 5, author: 7 };
    DealWithFees::on_unbalanceds(&mut accounts, &vec![]);
    assert_eq!(accounts, FeeAccounts { treasury: 5, author: 7 });
}

#[test]
fn fee_split_rounds_the_treasury_part_down() {
    let mut accounts = empty_accounts();
    DealWithFees::on_unbalanceds(&mut accounts, &vec![99]);
    assert_eq!(accounts, FeeAccounts { treasury: 79, author: 20 });
}

#[test]
fn items_after_the_tip_are_not_read() {
    let mut accounts = empty_accounts();
    DealWithFees::on_unbalanceds(&mut accounts, &vec![100, 1, 1000]);
    assert_eq!(accounts, FeeAccounts { treasury: 80, author: 21 });
}

#[test]
fn largest_fee_does_not_overflow() {
    let mut accounts = empty_accounts();
    DealWithFees::on_unbalanceds(&mut accounts, &vec![u128::MAX]);
    assert_eq!(accounts.treasury, 272225893536750770770699685945414569164);
    assert_eq!(accounts.author, 68056473384187692692674921486353642291);
    assert_eq!(accounts.treasury + accounts.author, u128::MAX);
}

#[test]
fn credits_saturate_at_the_largest_balance() {
    let mut accounts = FeeAccounts { treasury: u128::MAX - 1, author: u128::MAX - 1 };
    DealWithFees::on_unbalanceds(&mut accounts, &vec![10, 20]);
    assert_eq!(accounts, FeeAccounts { treasury: u128::MAX, author: u128::MAX });
}

#[test]
fn to_author_credits_only_the_author() {
    let mut accounts = FeeAccounts { treasury: 3, author: 4 };
    ToAuthor::on_nonzero_unbalanced(&mut accounts, 6);
    assert_eq!(accounts, FeeAccounts { treasury: 3, author: 10 });
}
