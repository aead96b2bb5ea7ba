//! An escrow ledger for crowdfunding: campaigns with a time window, pledges
//! that grow and shrink while the window is open, and a single payout of each
//! pledge to the campaign's treasury once the window has closed.

pub mod accounts;
pub mod address;
pub mod campaign;
pub mod constants;
pub mod errors;
pub mod events;
pub mod laws;
pub mod payout;
pub mod pledges;

pub use accounts::{Claim, CreateCrowdFund, CreatePledge, Pledge, Unpledge};
pub use address::Address;
pub use campaign::{create_crowd_fund, CrowdFund};
pub use errors::Errors;
pub use events::{Claimed, NewCrowdFundCreated, NewPledgeAccountCreated, PledgedTo, Transfer, UnpledgedFrom};
pub use payout::{check_claim, claim};
pub use pledges::{check_pledge, check_unpledge, create_pledge_account, pledge, unpledge, User};
