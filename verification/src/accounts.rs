//! The accounts that each operation is handed, as plain values, and what
//! each operation makes of them.

use crate::error::CrowdfundError;
use crate::state::{Account, BackerState, Campaign, Wallet};
use crate::system::{transfer_instruction, InstructionView};
use vstd::prelude::*;

verus! {

/// Accounts for creating a campaign.
#[derive(Clone, Copy, Debug, PartialEq, Eq)]
pub struct InitializeCampaign {
    /// The party that starts the campaign.
    pub creator: Wallet,
    /// The slot of the new campaign record.
    pub campaign: Account<Campaign>,
    /// The escrow that goes with the campaign.
    pub campaign_vault: Wallet,
}

/// Accounts for contributing to a campaign.
#[derive(Clone, Copy, Debug, PartialEq, Eq)]
pub struct Contribute {
    /// The party that gives.
    pub backer: Wallet,
    /// The campaign that receives.
    pub campaign: Account<Campaign>,
    /// The record of this backer for this campaign; all zero on a first
    /// contribution.
    pub backer_state: Account<BackerState>,
    /// The campaign's escrow.
    pub campaign_vault: Wallet,
}

/// Accounts for withdrawing what a successful campaign raised.
#[derive(Clone, Copy, Debug, PartialEq, Eq)]
pub struct Withdraw {
    /// The caller, who claims to be the creator.
    pub creator: Wallet,
    /// The campaign.
    pub campaign: Account<Campaign>,
    /// The campaign's escrow.
    pub campaign_vault: Wallet,
}

/// Accounts for reclaiming a contribution to a failed campaign.
#[derive(Clone, Copy, Debug, PartialEq, Eq)]
pub struct Refund {
    /// The backer who reclaims.
    pub backer: Wallet,
    /// The campaign.
    pub campaign: Account<Campaign>,
    /// The record of this backer for this campaign.
    pub backer_state: Account<BackerState>,
    /// The campaign's escrow.
    pub campaign_vault: Wallet,
}

impl InitializeCampaign {
    /// The accounts after the campaign has been created: the record is
    /// filled in, the creator being the caller; nothing else changes.
    pub open spec fn opened(self, goal_lamports: u64, deadline_unix: i64) -> InitializeCampaign {
        InitializeCampaign {
            campaign: Account {
                key: self.campaign.key,
                data: Campaign::fresh(self.creator.key, goal_lamports, deadline_unix),
            },
            ..self
        }
    }
}

impl Contribute {
    /// Why a contribution at time `now` is refused, if it is.
    pub open spec fn rejection(self, now: i64) -> Option<CrowdfundError> {
        self.campaign.data.rejects_contribution(now)
    }

    /// Whether both sums that a contribution of `amount` makes stay within
    /// `u64`.
    pub open spec fn has_room(self, amount: u64) -> bool {
        self.backer_state.data.has_room(amount) && self.campaign.data.has_room(amount)
    }

    /// Whether a contribution of `amount` at time `now` runs to its end:
    /// it is rejected, or else its sums stay within `u64`.
    pub open spec fn spec_completes(&self, now: i64, amount: u64) -> bool {
        self.rejection(now) is None ==> self.has_room(amount)
    }

    /// The accounts after `amount` has been contributed: the record and
    /// the campaign's total have grown by it. The balances are as before:
    /// the value moves when the ledger runs `self.payment(amount)`.
    pub open spec fn credited(self, amount: u64) -> Contribute {
        Contribute {
            backer_state: Account {
                key: self.backer_state.key,
                data: self.backer_state.data.credited(
                    self.backer.key,
                    self.campaign.key,
                    amount,
                ),
            },
            campaign: Account {
                key: self.campaign.key,
                data: self.campaign.data.credited(amount),
            },
            ..self
        }
    }

    /// The instruction that moves a contribution of `amount`: from the
    /// backer, who signs, to the escrow.
    pub open spec fn payment(self, amount: u64) -> InstructionView {
        transfer_instruction(self.backer.key, self.campaign_vault.key, amount)
    }

    /// Tells whether a contribution of `amount` at time `now` runs to its
    /// end, with a rejection or with its effect, rather than abort on a sum
    /// that leaves `u64`.
    #[verifier::when_used_as_spec(spec_completes)]
    pub fn completes(&self, now: i64, amount: u64) -> (b: bool)
        ensures
            b == self.spec_completes(now, amount),
    {
        let rejected = now >= self.campaign.data.deadline_unix;
        let record_has_room = amount <= u64::MAX - self.backer_state.data.amount;
        let total_has_room = amount <= u64::MAX - self.campaign.data.total_raised;
        rejected || (record_has_room && total_has_room)
    }
}

impl Withdraw {
    /// Why the caller cannot withdraw, if so.
    pub open spec fn rejection(self) -> Option<CrowdfundError> {
        self.campaign.data.rejects_withdrawal(self.creator.key)
    }

    /// Whether the creator's balance can take in the escrow's.
    pub open spec fn has_room(self) -> bool {
        self.creator.lamports + self.campaign_vault.lamports <= u64::MAX
    }

    /// Whether a withdrawal runs to its end: it is rejected, or else the
    /// creator's balance stays within `u64`.
    pub open spec fn spec_completes(&self) -> bool {
        self.rejection() is None ==> self.has_room()
    }

    /// The accounts after a withdrawal: the escrow's whole balance is the
    /// creator's, the escrow is empty, the campaign is as before.
    pub open spec fn paid_out(self) -> Withdraw {
        Withdraw {
            creator: Wallet {
                key: self.creator.key,
                lamports: (self.creator.lamports + self.campaign_vault.lamports) as u64,
            },
            campaign_vault: Wallet { key: self.campaign_vault.key, lamports: 0 },
            ..self
        }
    }

    /// Tells whether a withdrawal runs to its end, with a rejection or
    /// with its effect, rather than abort on a balance that leaves `u64`.
    #[verifier::when_used_as_spec(spec_completes)]
    pub fn completes(&self) -> (b: bool)
        ensures
            b == self.spec_completes(),
    {
        let rejected = self.campaign.data.total_raised < self.campaign.data.goal_lamports
            || self.campaign.data.creator != self.creator.key;
        rejected || self.campaign_vault.lamports <= u64::MAX - self.creator.lamports
    }
}

impl Refund {
    /// Why the backer cannot be refunded at time `now`, if so.
    pub open spec fn rejection(self, now: i64) -> Option<CrowdfundError> {
        self.campaign.data.rejects_refund(self.backer_state.data, now)
    }

    /// Whether the escrow covers the record and the backer's balance can
    /// take it in.
    pub open spec fn has_room(self) -> bool {
        &&& self.backer_state.data.amount <= self.campaign_vault.lamports
        &&& self.backer.lamports + self.backer_state.data.amount <= u64::MAX
    }

    /// Whether a refund at time `now` runs to its end: it is rejected, or
    /// else the escrow covers it and the backer's balance stays within
    /// `u64`.
    pub open spec fn spec_completes(&self, now: i64) -> bool {
        self.rejection(now) is None ==> self.has_room()
    }

    /// The accounts after a refund: the recorded amount has gone from the
    /// escrow to the backer, and the record holds nothing.
    pub open spec fn settled(self) -> Refund {
        Refund {
            backer: Wallet {
                key: self.backer.key,
                lamports: (self.backer.lamports + self.backer_state.data.amount) as u64,
            },
            campaign_vault: Wallet {
                key: self.campaign_vault.key,
                lamports: (self.campaign_vault.lamports - self.backer_state.data.amount) as u64,
            },
            backer_state: Account {
                key: self.backer_state.key,
                data: self.backer_state.data.settled(),
            },
            ..self
        }
    }

    /// Tells whether a refund at time `now` runs to its end, with a
    /// rejection or with its effect, rather than abort on an escrow that
    /// falls short or a balance that leaves `u64`.
    #[verifier::when_used_as_spec(spec_completes)]
    pub fn completes(&self, now: i64) -> (b: bool)
        ensures
            b == self.spec_completes(now),
    {
        let amount = self.backer_state.data.amount;
        let rejected = now < self.campaign.data.deadline_unix
            || self.campaign.data.total_raised >= self.campaign.data.goal_lamports
            || amount == 0;
        let escrow_covers = amount <= self.campaign_vault.lamports;
        let backer_has_room = amount <= u64::MAX - self.backer.lamports;
        rejected || (escrow_covers && backer_has_room)
    }
}

} // verus!
