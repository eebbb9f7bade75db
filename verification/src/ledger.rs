//! One campaign as the ledger holds it: the campaign record, its escrow and
//! the records of all its backers, with the operations applied one after
//! the other. This is a model for stating what holds of every sequence of
//! operations; nothing in it is executable.

use crate::accounts::{Contribute, InitializeCampaign, Refund, Withdraw};
use crate::key::Key;
use crate::state::{Account, BackerState, Campaign, Wallet};
use crate::totals::total;
use vstd::prelude::*;

verus! {

/// Where one backer stands with the campaign.
pub struct Standing {
    /// The backer's record.
    pub record: BackerState,
    /// What the backer has been refunded so far.
    pub returned: nat,
    /// How many refunds the backer has had.
    pub refunds: nat,
}

impl Standing {
    /// What the record holds.
    pub open spec fn held(self) -> nat {
        self.record.amount as nat
    }

    /// What the backer has given over the campaign's life: what the record
    /// holds and what has been refunded.
    pub open spec fn given(self) -> nat {
        self.record.amount as nat + self.returned
    }

    /// What the backer has been refunded.
    pub open spec fn repaid(self) -> nat {
        self.returned
    }

    /// `held`, as a measure to sum by.
    pub open spec fn by_held() -> spec_fn(Standing) -> nat {
        |s: Standing| s.held()
    }

    /// `given`, as a measure to sum by.
    pub open spec fn by_given() -> spec_fn(Standing) -> nat {
        |s: Standing| s.given()
    }

    /// `repaid`, as a measure to sum by.
    pub open spec fn by_repaid() -> spec_fn(Standing) -> nat {
        |s: Standing| s.repaid()
    }
}

/// An operation that a party submits.
pub enum Operation {
    /// `backer` gives `amount`.
    Contribute { backer: Wallet, amount: u64 },
    /// `creator` asks for the escrow.
    Withdraw { creator: Wallet },
    /// `backer` asks for a refund.
    Refund { backer: Wallet },
}

impl Operation {
    /// The party that submits the operation.
    pub open spec fn party(self) -> Key {
        match self {
            Operation::Contribute { backer, .. } => backer.key,
            Operation::Withdraw { creator } => creator.key,
            Operation::Refund { backer } => backer.key,
        }
    }
}

/// An operation with the time at which the ledger runs it.
pub struct Call {
    pub now: i64,
    pub operation: Operation,
}

/// The campaign on the ledger.
pub struct Ledger {
    /// The campaign record, at its address.
    pub campaign: Account<Campaign>,
    /// The escrow.
    pub vault: Wallet,
    /// The address of each backer's record.
    pub slot: spec_fn(Key) -> Key,
    /// The backers that have a record, each with its standing.
    pub backers: Map<Key, Standing>,
    /// What the creator has withdrawn so far.
    pub withdrawn: nat,
    /// The time of the latest operation.
    pub clock: i64,
}

impl Ledger {
    /// The ledger right after `accounts` have come out of a successful
    /// creation at time `now`: no backer yet, the escrow empty.
    pub open spec fn opened(accounts: InitializeCampaign, slot: spec_fn(Key) -> Key, now: i64)
        -> Ledger {
        Ledger {
            campaign: accounts.campaign,
            vault: Wallet { key: accounts.campaign_vault.key, lamports: 0 },
            slot,
            backers: Map::empty(),
            withdrawn: 0,
            clock: now,
        }
    }

    /// Whether nothing has happened yet: no backer, nothing raised, nothing
    /// in the escrow, nothing withdrawn.
    pub open spec fn is_new(self) -> bool {
        &&& self.backers == Map::<Key, Standing>::empty()
        &&& self.campaign.data.total_raised == 0
        &&& self.vault.lamports == 0
        &&& self.withdrawn == 0
    }

    /// The standing of `backer`; one without a record has given nothing.
    pub open spec fn standing(self, backer: Key) -> Standing {
        if self.backers.dom().contains(backer) {
            self.backers[backer]
        } else {
            Standing {
                record: BackerState { backer, campaign: self.campaign.key, amount: 0 },
                returned: 0,
                refunds: 0,
            }
        }
    }

    /// The sum of what all backers have given over the campaign's life.
    pub open spec fn given(self) -> nat {
        total(self.backers, Standing::by_given())
    }

    /// The sum of what all records hold.
    pub open spec fn held(self) -> nat {
        total(self.backers, Standing::by_held())
    }

    /// The sum of what all backers have been refunded.
    pub open spec fn repaid(self) -> nat {
        total(self.backers, Standing::by_repaid())
    }

    /// The accounts that the ledger hands to a contribution by `backer`.
    pub open spec fn contribute_accounts(self, backer: Wallet) -> Contribute {
        Contribute {
            backer,
            campaign: self.campaign,
            backer_state: Account {
                key: (self.slot)(backer.key),
                data: self.standing(backer.key).record,
            },
            campaign_vault: self.vault,
        }
    }

    /// The accounts that the ledger hands to a withdrawal by `creator`.
    pub open spec fn withdraw_accounts(self, creator: Wallet) -> Withdraw {
        Withdraw { creator, campaign: self.campaign, campaign_vault: self.vault }
    }

    /// The accounts that the ledger hands to a refund of `backer`.
    pub open spec fn refund_accounts(self, backer: Wallet) -> Refund {
        Refund {
            backer,
            campaign: self.campaign,
            backer_state: Account {
                key: (self.slot)(backer.key),
                data: self.standing(backer.key).record,
            },
            campaign_vault: self.vault,
        }
    }

    /// Whether a contribution goes through: it is not rejected, its sums
    /// stay within `u64`, and the ledger can run the payment, for which the
    /// backer must have the amount and the escrow room for it.
    pub open spec fn takes_contribution(self, now: i64, backer: Wallet, amount: u64) -> bool {
        let accounts = self.contribute_accounts(backer);
        &&& accounts.rejection(now) is None
        &&& accounts.has_room(amount)
        &&& amount <= backer.lamports
        &&& self.vault.lamports + amount <= u64::MAX
    }

    /// The ledger after a contribution that went through.
    pub open spec fn after_contribution(self, backer: Wallet, amount: u64) -> Ledger {
        let accounts = self.contribute_accounts(backer).credited(amount);
        Ledger {
            campaign: accounts.campaign,
            vault: Wallet { key: self.vault.key, lamports: (self.vault.lamports + amount) as u64 },
            backers: self.backers.insert(
                backer.key,
                Standing { record: accounts.backer_state.data, ..self.standing(backer.key) },
            ),
            ..self
        }
    }

    /// Whether a withdrawal goes through.
    pub open spec fn takes_withdrawal(self, creator: Wallet) -> bool {
        let accounts = self.withdraw_accounts(creator);
        accounts.rejection() is None && accounts.has_room()
    }

    /// The ledger after a withdrawal that went through.
    pub open spec fn after_withdrawal(self, creator: Wallet) -> Ledger {
        let accounts = self.withdraw_accounts(creator).paid_out();
        Ledger {
            campaign: accounts.campaign,
            vault: accounts.campaign_vault,
            withdrawn: self.withdrawn + self.vault.lamports as nat,
            ..self
        }
    }

    /// Whether a refund goes through.
    pub open spec fn takes_refund(self, now: i64, backer: Wallet) -> bool {
        let accounts = self.refund_accounts(backer);
        accounts.rejection(now) is None && accounts.has_room()
    }

    /// The ledger after a refund that went through.
    pub open spec fn after_refund(self, backer: Wallet) -> Ledger {
        let before = self.standing(backer.key);
        let accounts = self.refund_accounts(backer).settled();
        Ledger {
            campaign: accounts.campaign,
            vault: accounts.campaign_vault,
            backers: self.backers.insert(
                backer.key,
                Standing {
                    record: accounts.backer_state.data,
                    returned: before.returned + before.record.amount as nat,
                    refunds: before.refunds + 1nat,
                },
            ),
            ..self
        }
    }

    /// The ledger after `operation` has been submitted at time `now`. An
    /// operation that does not go through leaves everything but the clock
    /// as it was.
    pub open spec fn step(self, now: i64, operation: Operation) -> Ledger {
        let ticked = Ledger { clock: now, ..self };
        match operation {
            Operation::Contribute { backer, amount } => {
                if ticked.takes_contribution(now, backer, amount) {
                    ticked.after_contribution(backer, amount)
                } else {
                    ticked
                }
            },
            Operation::Withdraw { creator } => {
                if ticked.takes_withdrawal(creator) {
                    ticked.after_withdrawal(creator)
                } else {
                    ticked
                }
            },
            Operation::Refund { backer } => {
                if ticked.takes_refund(now, backer) {
                    ticked.after_refund(backer)
                } else {
                    ticked
                }
            },
        }
    }

    /// The ledger after `calls` have been run in turn.
    pub open spec fn run(self, calls: Seq<Call>) -> Ledger
        decreases calls.len(),
    {
        if calls.len() == 0 {
            self
        } else {
            self.run(calls.drop_last()).step(calls.last().now, calls.last().operation)
        }
    }

    /// Whether time never runs backwards over `calls`, starting from the
    /// ledger's clock.
    pub open spec fn in_order(self, calls: Seq<Call>) -> bool {
        &&& calls.len() > 0 ==> self.clock <= calls[0].now
        &&& forall|i: int, j: int| 0 <= i <= j < calls.len() ==> calls[i].now <= calls[j].now
    }

    /// What holds of a campaign from its creation on.
    pub open spec fn consistent(self) -> bool {
        &&& self.backers.dom().finite()
        &&& self.campaign.data.total_raised == self.given()
        &&& self.vault.lamports + self.withdrawn == self.held()
        &&& self.withdrawn > 0 ==> self.campaign.data.goal_met()
        &&& forall|b: Key| #[trigger]
            self.backers.dom().contains(b) ==> {
                let s = self.backers[b];
                &&& s.record.backer == b
                &&& s.record.campaign == self.campaign.key
                &&& s.refunds <= 1
                &&& s.refunds == 0 ==> s.returned == 0
                &&& s.refunds == 1 ==> {
                    &&& s.record.amount == 0
                    &&& !self.campaign.data.is_open(self.clock)
                    &&& !self.campaign.data.goal_met()
                }
            }
    }
}

} // verus!
