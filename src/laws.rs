use vstd::prelude::*;
use crate::accounts::{
    donation_step, emptied, fresh_account, withdraw_check, CrowdfundingAccount, CrowdfundingError,
    UserInfo,
};
use crate::identity::Identity;

verus! {

/// The sum of the amounts of a run of donations, each given as the donater's
/// record before it and the amount.
pub open spec fn donated_sum(donations: Seq<(UserInfo, u64)>) -> int
    decreases donations.len(),
{
    if donations.len() == 0 {
        0
    } else {
        donated_sum(donations.drop_last()) + donations.last().1
    }
}

/// The fund after a run of donations in order, or `None` once one of them fails.
pub open spec fn fund_after_donations(
    acc: CrowdfundingAccount,
    donations: Seq<(UserInfo, u64)>,
) -> Option<CrowdfundingAccount>
    decreases donations.len(),
{
    if donations.len() == 0 {
        Some(acc)
    } else {
        match fund_after_donations(acc, donations.drop_last()) {
            Some(before) => match donation_step(before, donations.last().0, donations.last().1) {
                Some((after, _)) => Some(after),
                None => None,
            },
            None => None,
        }
    }
}

/// After any run of successful donations to a fund, from any contributors, the
/// balance is the sum of the donated amounts added to the starting balance.
pub proof fn lemma_balance_tracks_donations(acc: CrowdfundingAccount, donations: Seq<(UserInfo, u64)>)
    requires
        fund_after_donations(acc, donations) is Some,
    ensures
        fund_after_donations(acc, donations)->Some_0.balance == acc.balance + donated_sum(donations),
        fund_after_donations(acc, donations)->Some_0.owner == acc.owner,
    decreases donations.len(),
{
    if donations.len() > 0 {
        lemma_balance_tracks_donations(acc, donations.drop_last());
    }
}

/// A freshly initialized fund holds exactly the sum of the donations made to
/// it, as long as none has been withdrawn.
pub proof fn lemma_fresh_balance_is_sum_of_donations(owner: Identity, donations: Seq<(UserInfo, u64)>)
    requires
        fund_after_donations(fresh_account(owner), donations) is Some,
    ensures
        fund_after_donations(fresh_account(owner), donations)->Some_0.balance == donated_sum(
            donations,
        ),
{
    lemma_balance_tracks_donations(fresh_account(owner), donations);
}

/// After a successful withdrawal the fund is empty, and a second withdrawal by
/// the same caller fails with `NothingToWithdraw`.
pub proof fn lemma_withdraw_empties_fund(acc: CrowdfundingAccount, caller: Seq<u8>)
    requires
        withdraw_check(acc, caller) is Ok,
    ensures
        emptied(acc).balance == 0,
        emptied(acc).owner == acc.owner,
        withdraw_check(emptied(acc), caller) == Err::<u64, _>(CrowdfundingError::NothingToWithdraw),
{
}

/// An empty fund refuses every withdrawal: its owner gets `NothingToWithdraw`,
/// anyone else `NotTheOwner`.
pub proof fn lemma_empty_fund_refuses_withdrawal(acc: CrowdfundingAccount, caller: Seq<u8>)
    requires
        acc.balance == 0,
    ensures
        withdraw_check(acc, caller) is Err,
        caller == acc.owner@ ==> withdraw_check(acc, caller) == Err::<u64, _>(
            CrowdfundingError::NothingToWithdraw,
        ),
        caller != acc.owner@ ==> withdraw_check(acc, caller) == Err::<u64, _>(
            CrowdfundingError::NotTheOwner,
        ),
{
}

/// When contributor A donates `a` and then contributor B donates `b`, A's total
/// grows by `a` and B's by `b`, whatever the other gave, and the fund by both.
pub proof fn lemma_contributor_totals_independent(
    acc: CrowdfundingAccount,
    info_a: UserInfo,
    info_b: UserInfo,
    a: u64,
    b: u64,
)
    requires
        donation_step(acc, info_a, a) is Some,
        donation_step(donation_step(acc, info_a, a)->Some_0.0, info_b, b) is Some,
    ensures
        donation_step(acc, info_a, a)->Some_0.1.total_donations == info_a.total_donations + a,
        donation_step(acc, info_a, a)->Some_0.1.bump == info_a.bump,
        donation_step(donation_step(acc, info_a, a)->Some_0.0, info_b, b)->Some_0.1.total_donations
            == info_b.total_donations + b,
        donation_step(donation_step(acc, info_a, a)->Some_0.0, info_b, b)->Some_0.0.balance
            == acc.balance + a + b,
{
}

} // verus!
