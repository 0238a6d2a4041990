//! Splitting collected transaction fees between the treasury and the block author.
use vstd::prelude::*;

verus! {

/// Share of the fee item that goes to the treasury, in percent.
pub const TREASURY_PERCENT: u128 = 80;

/// Share of the fee item that goes to the block author, in percent.
pub const AUTHOR_PERCENT: u128 = 20;

/// Balances of the two accounts that collected fees are credited to.
#[derive(Clone, Copy, Debug, PartialEq, Eq, Structural)]
pub struct FeeAccounts {
    pub treasury: u128,
    pub author: u128,
}

/// Addition that stops at the largest balance, as imbalances merge.
pub open spec fn sat_add(a: u128, b: u128) -> u128 {
    if a + b > u128::MAX { u128::MAX } else { (a + b) as u128 }
}

/// The part of `amount` handed to the first of two shares rationed `first : second`.
pub open spec fn ration_first(amount: u128, first: u128, second: u128) -> u128 {
    (amount * first / (first + second)) as u128
}

/// The treasury's part of a fee item: 80% of it, rounded down.
pub open spec fn treasury_part(fee: u128) -> u128 {
    ration_first(fee, TREASURY_PERCENT, AUTHOR_PERCENT)
}

/// The author's part of a fee item: what the treasury does not take.
pub open spec fn author_part(fee: u128) -> u128 {
    (fee - treasury_part(fee)) as u128
}

/// The accounts after the fee and tip items `items` were dealt with.
pub open spec fn dealt(acc: FeeAccounts, items: Seq<u128>) -> FeeAccounts {
    if items.len() == 0 {
        acc
    } else {
        let fee = items[0];
        let to_author = if items.len() >= 2 {
            sat_add(author_part(fee), items[1])
        } else {
            author_part(fee)
        };
        FeeAccounts {
            treasury: sat_add(acc.treasury, treasury_part(fee)),
            author: sat_add(acc.author, to_author),
        }
    }
}

fn saturating_add(a: u128, b: u128) -> (r: u128)
    ensures
        r == sat_add(a, b),
{
    if a > u128::MAX - b {
        u128::MAX
    } else {
        a + b
    }
}

/// Splits `amount` in the ratio 80 : 20 without overflowing.
fn ration(amount: u128) -> (r: (u128, u128))
    ensures
        r.0 == treasury_part(amount),
        r.1 == author_part(amount),
        r.0 + r.1 == amount,
{
    let q: u128 = amount / 100;
    let rem: u128 = amount % 100;
    let first: u128 = q * TREASURY_PERCENT + rem * TREASURY_PERCENT / 100;
    proof {
        assert(amount == q * 100 + rem);
        assert(first == (amount * 80) / 100) by (nonlinear_arith)
            requires
                amount == q * 100 + rem,
                0 <= rem < 100,
                first == q * 80 + rem * 80 / 100,
        ;
        assert(first <= amount) by (nonlinear_arith)
            requires
                amount == q * 100 + rem,
                0 <= rem < 100,
                first == q * 80 + rem * 80 / 100,
        ;
    }
    (first, amount - first)
}

/// Pays a nonzero imbalance to the block author.
pub struct ToAuthor;

impl ToAuthor {
    /// Credits `amount` to the author's account.
    pub fn on_nonzero_unbalanced(accounts: &mut FeeAccounts, amount: u128)
        ensures
            final(accounts).author == sat_add(old(accounts).author, amount),
            final(accounts).treasury == old(accounts).treasury,
    {
        accounts.author = saturating_add(accounts.author, amount);
    }
}

/// Deals with the fee and tip imbalances of a transaction.
pub struct DealWithFees;

impl DealWithFees {
    /// Takes the fee then, if present, the tip: 80% of the fee goes to the
    /// treasury, the rest of the fee and the whole tip to the author. With no
    /// items nothing is credited; items after the tip are not read.
    pub fn on_unbalanceds(accounts: &mut FeeAccounts, fees_then_tips: &Vec<u128>)
        ensures
            *final(accounts) == dealt(*old(accounts), fees_then_tips@),
    {
        if fees_then_tips.len() > 0 {
            let split = ration(fees_then_tips[0]);
            let mut to_author: u128 = split.1;
            if fees_then_tips.len() > 1 {
                to_author = saturating_add(to_author, fees_then_tips[1]);
            }
            accounts.treasury = saturating_add(accounts.treasury, split.0);
            if to_author > 0 {
                ToAuthor::on_nonzero_unbalanced(accounts, to_author);
            }
        }
    }
}

} // verus!
