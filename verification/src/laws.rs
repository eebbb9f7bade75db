//! What holds of the operations taken together, and of every sequence of
//! them.

use crate::accounts::{InitializeCampaign, Refund, Withdraw};
use crate::error::CrowdfundError;
use crate::key::Key;
use crate::ledger::{Call, Ledger, Operation, Standing};
use crate::state::{Phase, Wallet};
use crate::totals::{total_covers, total_insert, total_of_sum, total_zero};
use vstd::prelude::*;

verus! {

/// A withdrawal that has gone through can be repeated: the second call is
/// not rejected, finds room, and leaves every balance as the first one left
/// it, since the escrow is empty.
pub proof fn second_withdrawal_moves_nothing(accounts: Withdraw)
    requires
        accounts.rejection() is None,
        accounts.has_room(),
    ensures
        accounts.paid_out().campaign_vault.lamports == 0,
        accounts.paid_out().rejection() is None,
        accounts.paid_out().has_room(),
        accounts.paid_out().paid_out() == accounts.paid_out(),
{
}

/// A refund that has gone through cannot be repeated: at any later time the
/// same backer is rejected with `NothingToRefund`.
pub proof fn second_refund_finds_nothing(accounts: Refund, now: i64, later: i64)
    requires
        accounts.rejection(now) is None,
        now <= later,
    ensures
        accounts.settled().rejection(later) == Some(CrowdfundError::NothingToRefund),
{
}

/// A campaign that has just been created is new, and a new campaign is
/// consistent.
pub proof fn opening_is_consistent(
    accounts: InitializeCampaign,
    slot: spec_fn(Key) -> Key,
    now: i64,
    goal_lamports: u64,
    deadline_unix: i64,
)
    ensures
        Ledger::opened(accounts.opened(goal_lamports, deadline_unix), slot, now).is_new(),
        forall|start: Ledger| start.is_new() ==> #[trigger] start.consistent(),
{
}

/// Every operation, whether it goes through or not, keeps the campaign
/// consistent, as long as time does not run backwards.
pub proof fn step_keeps_consistent(ledger: Ledger, now: i64, operation: Operation)
    requires
        ledger.consistent(),
        ledger.clock <= now,
    ensures
        ledger.step(now, operation).consistent(),
{
    let ticked = Ledger { clock: now, ..ledger };
    let next = ledger.step(now, operation);
    match operation {
        Operation::Contribute { backer, amount } => {
            if ticked.takes_contribution(now, backer, amount) {
                let after = next.backers[backer.key];
                total_insert(ticked.backers, Standing::by_given(), backer.key, after);
                total_insert(ticked.backers, Standing::by_held(), backer.key, after);
            }
        },
        Operation::Withdraw { creator } => {},
        Operation::Refund { backer } => {
            if ticked.takes_refund(now, backer) {
                let after = next.backers[backer.key];
                total_insert(ticked.backers, Standing::by_given(), backer.key, after);
                total_insert(ticked.backers, Standing::by_held(), backer.key, after);
            }
        },
    }
}

/// After calls in order of time, the clock stands at the last of them.
proof fn run_clock(start: Ledger, calls: Seq<Call>)
    ensures
        start.run(calls).clock == if calls.len() == 0 {
            start.clock
        } else {
            calls.last().now
        },
{
}

/// Every sequence of operations, in order of time, keeps the campaign
/// consistent.
pub proof fn run_keeps_consistent(start: Ledger, calls: Seq<Call>)
    requires
        start.consistent(),
        start.in_order(calls),
    ensures
        start.run(calls).consistent(),
    decreases calls.len(),
{
    if calls.len() > 0 {
        let earlier = calls.drop_last();
        run_keeps_consistent(start, earlier);
        run_clock(start, earlier);
        step_keeps_consistent(start.run(earlier), calls.last().now, calls.last().operation);
    }
}

/// At any point in a campaign's life, `total_raised` is the sum over all
/// backers of what each has given: what the backer's record holds now plus
/// what the backer has been refunded. A refund empties the record and
/// leaves `total_raised` alone, so the total is what was raised over the
/// campaign's life, not what the escrow holds.
pub proof fn raised_is_what_backers_gave(start: Ledger, calls: Seq<Call>)
    requires
        start.is_new(),
        start.in_order(calls),
    ensures
        start.run(calls).campaign.data.total_raised == start.run(calls).given(),
        start.run(calls).given() == start.run(calls).held() + start.run(calls).repaid(),
{
    run_keeps_consistent(start, calls);
    let end = start.run(calls);
    total_of_sum(end.backers, Standing::by_held(), Standing::by_repaid(), Standing::by_given());
}

/// At any point in a campaign's life, the escrow holds what was raised less
/// what has been refunded and what the creator has withdrawn; and refunds
/// and withdrawals exclude each other, so that of the two at most one is
/// not zero.
pub proof fn escrow_is_what_is_left(start: Ledger, calls: Seq<Call>)
    requires
        start.is_new(),
        start.in_order(calls),
    ensures
        start.run(calls).vault.lamports == start.run(calls).campaign.data.total_raised
            - start.run(calls).repaid() - start.run(calls).withdrawn,
        start.run(calls).repaid() == 0 || start.run(calls).withdrawn == 0,
{
    run_keeps_consistent(start, calls);
    let end = start.run(calls);
    total_of_sum(end.backers, Standing::by_held(), Standing::by_repaid(), Standing::by_given());
    total_zero(end.backers, Standing::by_repaid());
}

/// No sequence of operations refunds a backer more than once, or more than
/// the backer gave; and none lets the creator withdraw more than has ever
/// come into the escrow.
pub proof fn no_double_spend(start: Ledger, calls: Seq<Call>, backer: Key)
    requires
        start.is_new(),
        start.in_order(calls),
    ensures
        start.run(calls).standing(backer).refunds <= 1,
        start.run(calls).standing(backer).returned <= start.run(calls).standing(backer).given(),
        start.run(calls).standing(backer).given() <= start.run(calls).campaign.data.total_raised,
        start.run(calls).withdrawn <= start.run(calls).campaign.data.total_raised,
{
    run_keeps_consistent(start, calls);
    let end = start.run(calls);
    total_of_sum(end.backers, Standing::by_held(), Standing::by_repaid(), Standing::by_given());
    if end.backers.dom().contains(backer) {
        total_covers(end.backers, Standing::by_given(), backer);
    }
}

/// A refund that is due is always covered: whenever a backer's refund is
/// not rejected, the escrow holds at least what the backer's record does.
pub proof fn refund_is_covered(ledger: Ledger, now: i64, backer: Wallet)
    requires
        ledger.consistent(),
        ledger.refund_accounts(backer).rejection(now) is None,
    ensures
        ledger.refund_accounts(backer).backer_state.data.amount
            <= ledger.refund_accounts(backer).campaign_vault.lamports,
{
    if ledger.backers.dom().contains(backer.key) {
        total_covers(ledger.backers, Standing::by_held(), backer.key);
    }
}

/// A backer's record is touched by that backer's own operations only:
/// whatever another party submits, and a withdrawal by anyone, leaves the
/// backer's standing as it was.
pub proof fn records_are_their_backers_own(
    ledger: Ledger,
    now: i64,
    operation: Operation,
    backer: Key,
)
    requires
        operation is Withdraw || operation.party() != backer,
    ensures
        ledger.step(now, operation).standing(backer) == ledger.standing(backer),
{
}

/// The terms of a campaign never change, and what it has raised never
/// shrinks; from the deadline on the campaign record does not change at
/// all, so that a campaign that has succeeded or failed stays so.
pub proof fn record_only_grows(ledger: Ledger, now: i64, operation: Operation)
    requires
        ledger.clock <= now,
    ensures
        ledger.step(now, operation).campaign.key == ledger.campaign.key,
        ledger.step(now, operation).campaign.data.creator == ledger.campaign.data.creator,
        ledger.step(now, operation).campaign.data.goal_lamports
            == ledger.campaign.data.goal_lamports,
        ledger.step(now, operation).campaign.data.deadline_unix
            == ledger.campaign.data.deadline_unix,
        ledger.step(now, operation).campaign.data.total_raised
            >= ledger.campaign.data.total_raised,
        !ledger.campaign.data.is_open(now) ==> ledger.step(now, operation).campaign
            == ledger.campaign,
{
}

/// A campaign leaves the open phase for good: once it has succeeded or
/// failed it stays so, whatever is submitted and however late.
pub proof fn settled_phase_is_final(ledger: Ledger, now: i64, operation: Operation)
    requires
        ledger.clock <= now,
        ledger.campaign.data.phase(ledger.clock) != Phase::Open,
    ensures
        ledger.step(now, operation).campaign.data.phase(now) == ledger.campaign.data.phase(
            ledger.clock,
        ),
{
}

/// Each operation goes through only where it belongs: a contribution only
/// while the campaign is open, a refund only once it has failed, a
/// withdrawal only while the goal is met.
pub proof fn each_phase_admits_its_own(ledger: Ledger, now: i64, backer: Wallet, amount: u64)
    ensures
        ledger.takes_contribution(now, backer, amount) ==> ledger.campaign.data.phase(now)
            == Phase::Open,
        ledger.takes_refund(now, backer) ==> ledger.campaign.data.phase(now) == Phase::Failed,
        ledger.takes_withdrawal(backer) ==> ledger.campaign.data.goal_met(),
{
}

} // verus!
