use vstd::prelude::*;
use crate::address::Address;

verus! {

/// The parties and records named by a call that creates a campaign.
#[derive(Clone, Copy, Debug, PartialEq, Eq)]
pub struct CreateCrowdFund {
    /// Where the new campaign will be kept.
    pub crowd_fund: Address,
    /// The caller, who becomes the campaign's owner.
    pub owner: Address,
}

/// The parties and records named by a call that opens a pledge record.
#[derive(Clone, Copy, Debug, PartialEq, Eq)]
pub struct CreatePledge {
    /// Where the campaign is kept.
    pub crowd_fund: Address,
    /// Where the new pledge record will be kept.
    pub pledge: Address,
    /// The contributor the record is opened for.
    pub user: Address,
}

/// The records named by a call that pledges.
#[derive(Clone, Copy, Debug, PartialEq, Eq)]
pub struct Pledge {
    /// Where the campaign is kept.
    pub crowd_fund: Address,
    /// Where the contributor's pledge record is kept; it holds the pledged funds.
    pub pledge: Address,
}

/// The records named by a call that takes a pledged amount back.
#[derive(Clone, Copy, Debug, PartialEq, Eq)]
pub struct Unpledge {
    /// Where the campaign is kept.
    pub crowd_fund: Address,
    /// Where the contributor's pledge record is kept; it holds the pledged funds.
    pub pledge: Address,
}

/// The parties and records named by a call that claims a pledge.
#[derive(Clone, Copy, Debug, PartialEq, Eq)]
pub struct Claim {
    /// Where the campaign is kept.
    pub crowd_fund: Address,
    /// The payout destination the caller names.
    pub treasury: Address,
    /// Where the pledge record is kept; it holds the pledged funds.
    pub pledge: Address,
    /// The caller.
    pub owner: Address,
}

} // verus!
