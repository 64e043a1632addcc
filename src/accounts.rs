use vstd::prelude::*;
use crate::identity::Identity;

verus! {

/// The shared fund of one campaign.
#[derive(Clone, Copy, Debug)]
pub struct CrowdfundingAccount {
    /// The only identity allowed to withdraw.
    pub owner: Identity,
    /// Funds held, in base currency units.
    pub balance: u64,
}

/// One contributor's bookkeeping.
#[derive(Clone, Copy, Debug, PartialEq, Eq, Structural)]
pub struct UserInfo {
    /// Everything this contributor has donated so far.
    pub total_donations: u64,
    /// The bump seed that derived this record's address.
    pub bump: u8,
}

/// Why an operation failed. A failed operation changes no record.
#[derive(Clone, Copy, Debug, PartialEq, Eq, Structural)]
pub enum CrowdfundingError {
    /// A withdrawal by someone other than the fund's owner.
    NotTheOwner,
    /// A withdrawal from an empty fund.
    NothingToWithdraw,
    /// The host's value transfer failed: the source lacked the funds.
    InsufficientExternalFunds,
    /// A balance or a total would pass `u64::MAX`.
    ArithmeticOverflow,
    /// The record to create already exists.
    DuplicateRecord,
    /// The contributor record is not at the address derived for its contributor.
    InvalidRecordAddress,
}

/// A movement of value that the host performs for an operation.
#[derive(Clone, Copy, Debug)]
pub struct Transfer {
    pub from: Identity,
    pub to: Identity,
    pub amount: u64,
}

/// What the host reports after performing a `Transfer`.
#[derive(Clone, Copy, Debug, PartialEq, Eq, Structural)]
pub enum TransferOutcome {
    Completed,
    InsufficientFunds,
}

/// A fund just created for `owner`.
pub open spec fn fresh_account(owner: Identity) -> CrowdfundingAccount {
    CrowdfundingAccount { owner, balance: 0 }
}

/// A contributor record just created with the given bump seed.
pub open spec fn fresh_user_info(bump: u8) -> UserInfo {
    UserInfo { total_donations: 0, bump }
}

/// The fund after `amount` more is credited, or `None` on overflow.
pub open spec fn credit_account(acc: CrowdfundingAccount, amount: u64) -> Option<CrowdfundingAccount> {
    if acc.balance + amount <= u64::MAX {
        Some(CrowdfundingAccount { balance: (acc.balance + amount) as u64, ..acc })
    } else {
        None
    }
}

/// The record after its contributor donates `amount` more, or `None` on overflow.
pub open spec fn credit_user_info(info: UserInfo, amount: u64) -> Option<UserInfo> {
    if info.total_donations + amount <= u64::MAX {
        Some(UserInfo { total_donations: (info.total_donations + amount) as u64, ..info })
    } else {
        None
    }
}

/// Both records after a donation of `amount`, or `None` when either would overflow.
pub open spec fn donation_step(acc: CrowdfundingAccount, info: UserInfo, amount: u64) -> Option<
    (CrowdfundingAccount, UserInfo),
> {
    match (credit_account(acc, amount), credit_user_info(info, amount)) {
        (Some(a), Some(i)) => Some((a, i)),
        _ => None,
    }
}

/// The guards of a withdrawal by `caller`: the amount to pay out, or the failure.
pub open spec fn withdraw_check(acc: CrowdfundingAccount, caller: Seq<u8>) -> Result<u64, CrowdfundingError> {
    if caller != acc.owner@ {
        Err(CrowdfundingError::NotTheOwner)
    } else if acc.balance == 0 {
        Err(CrowdfundingError::NothingToWithdraw)
    } else {
        Ok(acc.balance)
    }
}

/// The fund once its whole balance has been paid out.
pub open spec fn emptied(acc: CrowdfundingAccount) -> CrowdfundingAccount {
    CrowdfundingAccount { balance: 0, ..acc }
}

} // verus!
