use vstd::prelude::*;
use crate::address::Address;

verus! {

/// Notice that a campaign was created.
#[derive(Clone, Copy, Debug, PartialEq, Eq)]
pub struct NewCrowdFundCreated {
    /// Where the new campaign is kept.
    pub crowd_fund: Address,
}

/// Notice that a pledge record was opened.
#[derive(Clone, Copy, Debug, PartialEq, Eq)]
pub struct NewPledgeAccountCreated {
    /// The campaign pledged to.
    pub crowd_fund: Address,
    /// Where the new pledge record is kept.
    pub user_pledge_account: Address,
}

/// Notice that an amount was pledged.
#[derive(Clone, Copy, Debug, PartialEq, Eq)]
pub struct PledgedTo {
    /// The campaign pledged to.
    pub crowd_fund: Address,
    /// The pledge record that grew.
    pub user_pledge_account: Address,
    /// By how much, in base currency units.
    pub pledge_amount: u64,
}

/// Notice that an amount was taken back.
#[derive(Clone, Copy, Debug, PartialEq, Eq)]
pub struct UnpledgedFrom {
    /// The campaign the amount was pledged to.
    pub crowd_fund: Address,
    /// The pledge record that shrank.
    pub user_pledge_account: Address,
    /// By how much, in base currency units.
    pub unpledge_amount: u64,
}

/// Notice that a pledge was paid out to its campaign.
#[derive(Clone, Copy, Debug, PartialEq, Eq)]
pub struct Claimed {
    /// The campaign paid.
    pub crowd_fund: Address,
    /// The pledge record that was emptied.
    pub user_pledge_account: Address,
}

/// A movement of funds that the caller must carry out, whole or not at all,
/// for a successful operation to take effect.
#[derive(Clone, Copy, Debug, PartialEq, Eq)]
pub struct Transfer {
    /// Who gives.
    pub from: Address,
    /// Who receives.
    pub to: Address,
    /// How much, in base currency units.
    pub amount: u64,
}

} // verus!
