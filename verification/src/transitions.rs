//! The four operations on a campaign. Each one either rejects, and then
//! changes nothing, or applies its whole effect.

use crate::accounts::{Contribute, InitializeCampaign, Refund, Withdraw};
use crate::error::CrowdfundError;
use crate::state::Campaign;
use crate::system::{transfer, Instruction};
use vstd::prelude::*;

verus! {

/// Creates a campaign: the caller becomes its creator, nothing is raised
/// yet. Rejected with `InvalidDeadline` unless the deadline is after `now`.
/// No value moves.
pub fn initialize_campaign(
    accounts: &mut InitializeCampaign,
    now: i64,
    goal_lamports: u64,
    deadline_unix: i64,
) -> (r: Result<(), CrowdfundError>)
    ensures
        match r {
            Ok(()) => {
                &&& Campaign::rejects_creation(now, deadline_unix) is None
                &&& *final(accounts) == old(accounts).opened(goal_lamports, deadline_unix)
            },
            Err(e) => {
                &&& Campaign::rejects_creation(now, deadline_unix) == Some(e)
                &&& *final(accounts) == *old(accounts)
            },
        },
{
    if deadline_unix <= now {
        return Err(CrowdfundError::InvalidDeadline);
    }
    accounts.campaign.data.creator = accounts.creator.key;
    accounts.campaign.data.goal_lamports = goal_lamports;
    accounts.campaign.data.deadline_unix = deadline_unix;
    accounts.campaign.data.total_raised = 0;

    Ok(())
}

/// Allows any party to back the campaign, strictly before its deadline.
///
/// On success `amount` is added to the backer's record, which is stamped
/// with the backer and the campaign, and to the campaign's running total.
/// The value itself is moved by the returned instruction, which the caller
/// hands to the ledger: it sends `amount` from the backer to the escrow.
/// The balances in `accounts` are not touched here. At the deadline or
/// later the call is rejected with `CampaignEnded`.
///
/// A sum that would leave `u64` aborts the operation; such inputs are
/// excluded.
pub fn contribute(accounts: &mut Contribute, now: i64, amount: u64) -> (r: Result<
    Instruction,
    CrowdfundError,
>)
    requires
        old(accounts).completes(now, amount),
    ensures
        match r {
            Ok(ix) => {
                &&& old(accounts).rejection(now) is None
                &&& ix@ == old(accounts).payment(amount)
                &&& *final(accounts) == old(accounts).credited(amount)
            },
            Err(e) => {
                &&& old(accounts).rejection(now) == Some(e)
                &&& *final(accounts) == *old(accounts)
            },
        },
{
    if now >= accounts.campaign.data.deadline_unix {
        return Err(CrowdfundError::CampaignEnded);
    }
    let ix = transfer(&accounts.backer.key, &accounts.campaign_vault.key, amount);

    accounts.backer_state.data.backer = accounts.backer.key;
    accounts.backer_state.data.campaign = accounts.campaign.key;
    accounts.backer_state.data.amount = accounts.backer_state.data.amount + amount;

    accounts.campaign.data.total_raised = accounts.campaign.data.total_raised + amount;

    Ok(ix)
}

/// Allows the creator to take what the escrow holds, once the goal is met.
///
/// On success the escrow's whole balance goes to the creator and the escrow
/// is left empty; the campaign record is not changed. Rejected with
/// `GoalNotMet` while less than the goal has been raised, else with
/// `NotCreator` if the caller is not the creator.
///
/// A creator balance that would leave `u64` aborts the operation; such
/// inputs are excluded.
pub fn withdraw(accounts: &mut Withdraw) -> (r: Result<(), CrowdfundError>)
    requires
        old(accounts).completes(),
    ensures
        match r {
            Ok(()) => {
                &&& old(accounts).rejection() is None
                &&& *final(accounts) == old(accounts).paid_out()
            },
            Err(e) => {
                &&& old(accounts).rejection() == Some(e)
                &&& *final(accounts) == *old(accounts)
            },
        },
{
    if accounts.campaign.data.total_raised < accounts.campaign.data.goal_lamports {
        return Err(CrowdfundError::GoalNotMet);
    }
    if accounts.campaign.data.creator != accounts.creator.key {
        return Err(CrowdfundError::NotCreator);
    }
    let vault_lamports = accounts.campaign_vault.lamports;
    accounts.campaign_vault.lamports = 0;
    accounts.creator.lamports = accounts.creator.lamports + vault_lamports;

    Ok(())
}

/// Allows a backer to take back what they gave, once the deadline has been
/// reached with the goal missed.
///
/// On success exactly the recorded amount goes from the escrow to the
/// backer, and the record is set to zero, so that a second refund finds
/// nothing. Rejected with `NotExpired` before the deadline, else with
/// `GoalMet` if the goal was reached, else with `NothingToRefund` if the
/// record holds nothing.
///
/// An escrow that holds less than the record, or a backer balance that
/// would leave `u64`, aborts the operation; such inputs are excluded.
pub fn refund(accounts: &mut Refund, now: i64) -> (r: Result<(), CrowdfundError>)
    requires
        old(accounts).completes(now),
    ensures
        match r {
            Ok(()) => {
                &&& old(accounts).rejection(now) is None
                &&& *final(accounts) == old(accounts).settled()
            },
            Err(e) => {
                &&& old(accounts).rejection(now) == Some(e)
                &&& *final(accounts) == *old(accounts)
            },
        },
{
    if now < accounts.campaign.data.deadline_unix {
        return Err(CrowdfundError::NotExpired);
    }
    if accounts.campaign.data.total_raised >= accounts.campaign.data.goal_lamports {
        return Err(CrowdfundError::GoalMet);
    }
    let amt = accounts.backer_state.data.amount;
    if amt == 0 {
        return Err(CrowdfundError::NothingToRefund);
    }
    accounts.campaign_vault.lamports = accounts.campaign_vault.lamports - amt;
    accounts.backer.lamports = accounts.backer.lamports + amt;
    accounts.backer_state.data.amount = 0;

    Ok(())
}

} // verus!
