//! The durable records of a campaign and the plain form of the accounts
//! that hold them.

use crate::error::CrowdfundError;
use crate::key::Key;
use vstd::prelude::*;

verus! {

/// The state of one campaign. `creator`, `goal_lamports` and
/// `deadline_unix` are fixed at creation; `total_raised` only grows, and
/// keeps its value after a withdrawal or a refund: it is what was raised
/// over the campaign's life, not what the escrow holds now.
#[derive(Clone, Copy, Debug, PartialEq, Eq)]
pub struct Campaign {
    pub creator: Key,
    pub goal_lamports: u64,
    pub deadline_unix: i64,
    pub total_raised: u64,
}

/// What one backer has given to one campaign and not got back.
#[derive(Clone, Copy, Debug, PartialEq, Eq)]
pub struct BackerState {
    pub backer: Key,
    pub campaign: Key,
    pub amount: u64,
}

/// An account that holds value: a party's own, or the escrow of a campaign.
#[derive(Clone, Copy, Debug, PartialEq, Eq)]
pub struct Wallet {
    pub key: Key,
    pub lamports: u64,
}

/// A record together with the address at which the ledger keeps it.
#[derive(Clone, Copy, Debug, PartialEq, Eq)]
pub struct Account<T> {
    pub key: Key,
    pub data: T,
}

/// Where a campaign stands at a given time.
pub enum Phase {
    /// Before the deadline: contributions are taken.
    Open,
    /// The deadline has been reached with the goal met.
    Succeeded,
    /// The deadline has been reached with the goal missed.
    Failed,
}

impl Campaign {
    /// The campaign as it is created: nothing raised yet.
    pub open spec fn fresh(creator: Key, goal_lamports: u64, deadline_unix: i64) -> Campaign {
        Campaign { creator, goal_lamports, deadline_unix, total_raised: 0 }
    }

    /// Contributions are taken strictly before the deadline.
    pub open spec fn is_open(self, now: i64) -> bool {
        now < self.deadline_unix
    }

    /// The goal is met once at least `goal_lamports` have been raised.
    pub open spec fn goal_met(self) -> bool {
        self.total_raised >= self.goal_lamports
    }

    /// Where the campaign stands at time `now`.
    pub open spec fn phase(self, now: i64) -> Phase {
        if self.is_open(now) {
            Phase::Open
        } else if self.goal_met() {
            Phase::Succeeded
        } else {
            Phase::Failed
        }
    }

    /// Whether `amount` more can be counted without leaving `u64`.
    pub open spec fn has_room(self, amount: u64) -> bool {
        self.total_raised + amount <= u64::MAX
    }

    /// The campaign after `amount` more has been raised.
    pub open spec fn credited(self, amount: u64) -> Campaign {
        Campaign { total_raised: (self.total_raised + amount) as u64, ..self }
    }

    /// Why a campaign with this deadline cannot be created at time `now`,
    /// if it cannot: the deadline must lie strictly in the future.
    pub open spec fn rejects_creation(now: i64, deadline_unix: i64) -> Option<CrowdfundError> {
        if deadline_unix > now {
            None
        } else {
            Some(CrowdfundError::InvalidDeadline)
        }
    }

    /// Why a contribution at time `now` is refused, if it is: contributions
    /// are taken only strictly before the deadline.
    pub open spec fn rejects_contribution(self, now: i64) -> Option<CrowdfundError> {
        if self.is_open(now) {
            None
        } else {
            Some(CrowdfundError::CampaignEnded)
        }
    }

    /// Why `caller` cannot withdraw, if so: the goal must have been met,
    /// and only the creator may withdraw. An unmet goal is reported first.
    pub open spec fn rejects_withdrawal(self, caller: Key) -> Option<CrowdfundError> {
        if !self.goal_met() {
            Some(CrowdfundError::GoalNotMet)
        } else if self.creator != caller {
            Some(CrowdfundError::NotCreator)
        } else {
            None
        }
    }

    /// Why the holder of `record` cannot be refunded at time `now`, if so:
    /// the deadline must have been reached, the goal missed, and the record
    /// must hold something. The reasons are reported in that order.
    pub open spec fn rejects_refund(self, record: BackerState, now: i64) -> Option<
        CrowdfundError,
    > {
        if self.is_open(now) {
            Some(CrowdfundError::NotExpired)
        } else if self.goal_met() {
            Some(CrowdfundError::GoalMet)
        } else if record.amount == 0 {
            Some(CrowdfundError::NothingToRefund)
        } else {
            None
        }
    }
}

impl BackerState {
    /// Whether `amount` more can be recorded without leaving `u64`.
    pub open spec fn has_room(self, amount: u64) -> bool {
        self.amount + amount <= u64::MAX
    }

    /// The record of `backer` for the campaign at `campaign` after `amount`
    /// more has been given.
    pub open spec fn credited(self, backer: Key, campaign: Key, amount: u64) -> BackerState {
        BackerState { backer, campaign, amount: (self.amount + amount) as u64 }
    }

    /// The record after a refund: the identity stays, nothing is owed.
    pub open spec fn settled(self) -> BackerState {
        BackerState { amount: 0, ..self }
    }
}

} // verus!
