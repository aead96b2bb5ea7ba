use vstd::prelude::*;

verus! {

/// Why an operation of the ledger was refused.
///
/// Every refusal leaves the records it was called on as they were.
#[derive(Clone, Copy, Debug, PartialEq, Eq, Structural)]
pub enum Errors {
    /// The campaign would start at or before the current time.
    InvalidStartingTime,
    /// The campaign would end at or before its start.
    InvalidEndingTime,
    /// The campaign would end more than thirty days from now.
    ExceedEndingTime,
    /// The goal is below the smallest goal allowed.
    InvalidGoalAmount,
    /// The title is shorter than the smallest title allowed.
    InvalidTitleLength,
    /// The campaign's window has closed.
    CrowdFundEnded,
    /// The campaign's window has not opened yet.
    CrowdFundNotStarted,
    /// A pledge of nothing.
    ZeroPledge,
    /// More was asked back than is pledged.
    NotEnoughBalance,
    /// The campaign's window is still open, or has not opened.
    CrowdFundNotEnded,
    /// The caller is not the campaign's owner.
    OnlyOwner,
    /// Nothing is pledged, so nothing can be claimed.
    ZeroPledgedAmount,
    /// The pledge was claimed before.
    CannotClaimTwice,
    /// The payout destination named by the caller is not the campaign's.
    InvalidTreasury,
}

} // verus!
