use vstd::prelude::*;
use crate::accounts::{
    donation_step, emptied, fresh_account, fresh_user_info, withdraw_check, CrowdfundingAccount,
    CrowdfundingError, Transfer, TransferOutcome, UserInfo,
};
use crate::address::{check_user_info_address, is_user_info_address, user_info_bump_of};
use crate::identity::Identity;

verus! {

/// The records that `initialize` works on: the fund's slot, empty unless a
/// fund already lives there, and the signing owner.
#[derive(Clone, Copy, Debug)]
pub struct Initialize {
    pub crowdfunding_account: Option<CrowdfundingAccount>,
    pub owner: Identity,
}

/// The records that `register` works on: the signing contributor, the slot
/// at `user_info_key` meant for its record, and the program that owns it.
#[derive(Clone, Copy, Debug)]
pub struct Register {
    pub user: Identity,
    pub user_info_key: Identity,
    pub user_info: Option<UserInfo>,
    pub program_id: Identity,
}

/// The records that a donation works on. `donater_info` is empty when the
/// contributor has not registered: the donation then creates the record.
#[derive(Clone, Copy, Debug)]
pub struct MakeDonation {
    pub crowdfunding_account: CrowdfundingAccount,
    pub crowdfunding_key: Identity,
    pub donater: Identity,
    pub donater_info_key: Identity,
    pub donater_info: Option<UserInfo>,
    pub program_id: Identity,
}

/// The records that a withdrawal works on; `owner` is the signing caller.
#[derive(Clone, Copy, Debug)]
pub struct Withdraw {
    pub crowdfunding_account: CrowdfundingAccount,
    pub crowdfunding_key: Identity,
    pub owner: Identity,
}

/// The donater's record as it stands before the donation is credited.
pub open spec fn donater_record(ctx: MakeDonation) -> UserInfo {
    match ctx.donater_info {
        Some(info) => info,
        None => fresh_user_info(user_info_bump_of(ctx.donater@, ctx.program_id@)),
    }
}

/// Whether the donater's record slot is the one derived for the donater.
pub open spec fn donater_record_placed(ctx: MakeDonation) -> bool {
    is_user_info_address(ctx.donater@, ctx.donater_info_key@, ctx.program_id@)
}

/// Stamps a fresh fund with its owner and a zero balance.
pub fn initialize(ctx: &mut Initialize) -> (r: Result<(), CrowdfundingError>)
    ensures
        old(ctx).crowdfunding_account is Some ==> r == Err::<(), _>(
            CrowdfundingError::DuplicateRecord,
        ) && *final(ctx) == *old(ctx),
        old(ctx).crowdfunding_account is None ==> r == Ok::<(), CrowdfundingError>(())
            && *final(ctx) == (Initialize {
            crowdfunding_account: Some(fresh_account(old(ctx).owner)),
            ..*old(ctx)
        }),
{
    if ctx.crowdfunding_account.is_some() {
        return Err(CrowdfundingError::DuplicateRecord);
    }
    ctx.crowdfunding_account = Some(CrowdfundingAccount { owner: ctx.owner, balance: 0 });
    Ok(())
}

/// Creates the contributor's record at its derived address, with no
/// donations and the bump seed of the derivation.
pub fn register(ctx: &mut Register) -> (r: Result<(), CrowdfundingError>)
    ensures
        !is_user_info_address(old(ctx).user@, old(ctx).user_info_key@, old(ctx).program_id@)
            ==> r == Err::<(), _>(CrowdfundingError::InvalidRecordAddress) && *final(ctx) == *old(
            ctx,
        ),
        is_user_info_address(old(ctx).user@, old(ctx).user_info_key@, old(ctx).program_id@)
            && old(ctx).user_info is Some ==> r == Err::<(), _>(CrowdfundingError::DuplicateRecord)
            && *final(ctx) == *old(ctx),
        is_user_info_address(old(ctx).user@, old(ctx).user_info_key@, old(ctx).program_id@)
            && old(ctx).user_info is None ==> r == Ok::<(), CrowdfundingError>(()) && *final(ctx)
            == (Register {
            user_info: Some(fresh_user_info(user_info_bump_of(old(ctx).user@, old(ctx).program_id@))),
            ..*old(ctx)
        }),
{
    let bump = match check_user_info_address(&ctx.user, &ctx.user_info_key, &ctx.program_id) {
        Some(bump) => bump,
        None => return Err(CrowdfundingError::InvalidRecordAddress),
    };
    if ctx.user_info.is_some() {
        return Err(CrowdfundingError::DuplicateRecord);
    }
    ctx.user_info = Some(UserInfo { total_donations: 0, bump });
    Ok(())
}

/// The transfer that a donation of `amount` asks of the host: from the
/// donater into the fund. Checks the record address first.
pub fn donation_transfer(ctx: &MakeDonation, amount: u64) -> (r: Result<Transfer, CrowdfundingError>)
    ensures
        !donater_record_placed(*ctx) ==> r == Err::<Transfer, _>(
            CrowdfundingError::InvalidRecordAddress,
        ),
        donater_record_placed(*ctx) ==> r == Ok::<Transfer, CrowdfundingError>(
            Transfer { from: ctx.donater, to: ctx.crowdfunding_key, amount },
        ),
{
    match check_user_info_address(&ctx.donater, &ctx.donater_info_key, &ctx.program_id) {
        Some(_) => Ok(Transfer { from: ctx.donater, to: ctx.crowdfunding_key, amount }),
        None => Err(CrowdfundingError::InvalidRecordAddress),
    }
}

/// Books a donation of `amount` once the host has reported the outcome of
/// its transfer: on success the fund's balance and the donater's total both
/// grow by `amount`; on any failure nothing changes.
pub fn make_donation(ctx: &mut MakeDonation, amount: u64, transfer: TransferOutcome) -> (r: Result<
    (),
    CrowdfundingError,
>)
    ensures
        !donater_record_placed(*old(ctx)) ==> r == Err::<(), _>(
            CrowdfundingError::InvalidRecordAddress,
        ),
        donater_record_placed(*old(ctx)) && transfer == TransferOutcome::InsufficientFunds ==> r
            == Err::<(), _>(CrowdfundingError::InsufficientExternalFunds),
        donater_record_placed(*old(ctx)) && transfer == TransferOutcome::Completed
            && donation_step(old(ctx).crowdfunding_account, donater_record(*old(ctx)), amount) is None
            ==> r == Err::<(), _>(CrowdfundingError::ArithmeticOverflow),
        r is Err ==> *final(ctx) == *old(ctx),
        r is Ok <==> donater_record_placed(*old(ctx)) && transfer == TransferOutcome::Completed
            && donation_step(old(ctx).crowdfunding_account, donater_record(*old(ctx)), amount) is Some,
        r is Ok ==> (donation_step(old(ctx).crowdfunding_account, donater_record(*old(ctx)), amount)
            matches Some((acc, info)) && *final(ctx) == (MakeDonation {
            crowdfunding_account: acc,
            donater_info: Some(info),
            ..*old(ctx)
        })),
{
    let bump = match check_user_info_address(&ctx.donater, &ctx.donater_info_key, &ctx.program_id) {
        Some(bump) => bump,
        None => return Err(CrowdfundingError::InvalidRecordAddress),
    };
    match transfer {
        TransferOutcome::Completed => {},
        TransferOutcome::InsufficientFunds => {
            return Err(CrowdfundingError::InsufficientExternalFunds);
        },
    }
    let info = match ctx.donater_info {
        Some(info) => info,
        None => UserInfo { total_donations: 0, bump },
    };
    let balance = match ctx.crowdfunding_account.balance.checked_add(amount) {
        Some(balance) => balance,
        None => return Err(CrowdfundingError::ArithmeticOverflow),
    };
    let total_donations = match info.total_donations.checked_add(amount) {
        Some(total) => total,
        None => return Err(CrowdfundingError::ArithmeticOverflow),
    };
    ctx.crowdfunding_account.balance = balance;
    ctx.donater_info = Some(UserInfo { total_donations, bump: info.bump });
    Ok(())
}

/// The guards of a withdrawal, in order: the caller must own the fund, and
/// the fund must hold something. Returns the amount to pay out.
fn check_withdraw(acc: &CrowdfundingAccount, caller: &Identity) -> (r: Result<u64, CrowdfundingError>)
    ensures
        r == withdraw_check(*acc, caller@),
{
    if !caller.same_as(&acc.owner) {
        return Err(CrowdfundingError::NotTheOwner);
    }
    if acc.balance == 0 {
        return Err(CrowdfundingError::NothingToWithdraw);
    }
    Ok(acc.balance)
}

/// The transfer that a withdrawal asks of the host: the whole balance, from
/// the fund to its owner. Checks the guards first.
pub fn withdraw_transfer(ctx: &Withdraw) -> (r: Result<Transfer, CrowdfundingError>)
    ensures
        ctx.owner@ != ctx.crowdfunding_account.owner@ ==> r == Err::<Transfer, _>(
            CrowdfundingError::NotTheOwner,
        ),
        match withdraw_check(ctx.crowdfunding_account, ctx.owner@) {
            Ok(amount) => r == Ok::<Transfer, CrowdfundingError>(
                Transfer { from: ctx.crowdfunding_key, to: ctx.owner, amount },
            ),
            Err(e) => r == Err::<Transfer, _>(e),
        },
{
    let amount = match check_withdraw(&ctx.crowdfunding_account, &ctx.owner) {
        Ok(amount) => amount,
        Err(e) => return Err(e),
    };
    Ok(Transfer { from: ctx.crowdfunding_key, to: ctx.owner, amount })
}

/// Books a withdrawal once the host has reported the outcome of its
/// transfer: on success the fund's balance drops to zero; on any failure
/// nothing changes.
pub fn withdraw(ctx: &mut Withdraw, transfer: TransferOutcome) -> (r: Result<(), CrowdfundingError>)
    ensures
        old(ctx).owner@ != old(ctx).crowdfunding_account.owner@ ==> r == Err::<(), _>(
            CrowdfundingError::NotTheOwner,
        ),
        old(ctx).owner@ == old(ctx).crowdfunding_account.owner@
            && old(ctx).crowdfunding_account.balance == 0 ==> r == Err::<(), _>(
            CrowdfundingError::NothingToWithdraw,
        ),
        withdraw_check(old(ctx).crowdfunding_account, old(ctx).owner@) is Ok && transfer
            == TransferOutcome::InsufficientFunds ==> r == Err::<(), _>(
            CrowdfundingError::InsufficientExternalFunds,
        ),
        r is Err ==> *final(ctx) == *old(ctx),
        r is Ok <==> withdraw_check(old(ctx).crowdfunding_account, old(ctx).owner@) is Ok
            && transfer == TransferOutcome::Completed,
        r is Ok ==> *final(ctx) == (Withdraw {
            crowdfunding_account: emptied(old(ctx).crowdfunding_account),
            ..*old(ctx)
        }),
{
    match check_withdraw(&ctx.crowdfunding_account, &ctx.owner) {
        Ok(_) => {},
        Err(e) => return Err(e),
    }
    match transfer {
        TransferOutcome::Completed => {},
        TransferOutcome::InsufficientFunds => {
            return Err(CrowdfundingError::InsufficientExternalFunds);
        },
    }
    ctx.crowdfunding_account.balance = 0;
    Ok(())
}

} // verus!
