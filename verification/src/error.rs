//! Why an operation on a campaign is rejected.

use vstd::prelude::*;

verus! {

/// The named reasons for which a transition refuses to run. A rejected
/// transition leaves every record and every balance as it found them.
#[derive(Clone, Copy, Debug, PartialEq, Eq, Structural)]
pub enum CrowdfundError {
    /// Create: the deadline is not after the current time.
    InvalidDeadline,
    /// Contribute: the deadline has been reached.
    CampaignEnded,
    /// Withdraw: the caller is not the campaign's creator.
    NotCreator,
    /// Withdraw: less than the goal has been raised.
    GoalNotMet,
    /// Refund: the deadline has not been reached yet.
    NotExpired,
    /// Refund: the goal was reached, so the funds are the creator's.
    GoalMet,
    /// Refund: the backer's record holds nothing.
    NothingToRefund,
}

impl CrowdfundError {
    /// The text shown to the caller for each reason.
    pub open spec fn text(self) -> Seq<char> {
        match self {
            CrowdfundError::InvalidDeadline => "Deadline must be in the future"@,
            CrowdfundError::CampaignEnded => "Campaign has ended"@,
            CrowdfundError::NotCreator => "Only the creator can withdraw"@,
            CrowdfundError::GoalNotMet => "Goal not met"@,
            CrowdfundError::NotExpired => "Campaign not expired"@,
            CrowdfundError::GoalMet => "Goal met; refunds disabled"@,
            CrowdfundError::NothingToRefund => "Nothing to refund"@,
        }
    }

    /// The message that goes with this reason.
    pub fn message(&self) -> (s: &'static str)
        ensures
            s@ == self.text(),
    {
        match self {
            CrowdfundError::InvalidDeadline => "Deadline must be in the future",
            CrowdfundError::CampaignEnded => "Campaign has ended",
            CrowdfundError::NotCreator => "Only the creator can withdraw",
            CrowdfundError::GoalNotMet => "Goal not met",
            CrowdfundError::NotExpired => "Campaign not expired",
            CrowdfundError::GoalMet => "Goal met; refunds disabled",
            CrowdfundError::NothingToRefund => "Nothing to refund",
        }
    }
}

} // verus!
