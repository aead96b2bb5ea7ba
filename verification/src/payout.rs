use vstd::prelude::*;
use crate::accounts::Claim;
use crate::campaign::{CrowdFund, CrowdFundView};
use crate::errors::Errors;
use crate::events::{Claimed, Transfer};
use crate::pledges::User;

verus! {

/// Why a claim at `now` is refused, if it is. The rules are taken in this
/// order: the caller owns the campaign, the caller names the campaign's
/// payout destination, the window has closed, the pledge was not claimed
/// before, something is pledged.
pub open spec fn claim_error(ctx: Claim, campaign: CrowdFundView, account: User, now: u64) -> Option<
    Errors,
> {
    if ctx.owner != campaign.owner {
        Some(Errors::OnlyOwner)
    } else if ctx.treasury != campaign.treasury {
        Some(Errors::InvalidTreasury)
    } else if !(campaign.ends_at < now) {
        Some(Errors::CrowdFundNotEnded)
    } else if account.is_claimed {
        Some(Errors::CannotClaimTwice)
    } else if !(account.pledged_amount > 0) {
        Some(Errors::ZeroPledgedAmount)
    } else {
        None
    }
}

/// Tells whether a claim at `now` would be accepted, and if not, why.
pub fn check_claim(ctx: &Claim, crowd_fund: &CrowdFund, account: &User, now: u64) -> (r: Result<
    (),
    Errors,
>)
    ensures
        match r {
            Ok(()) => claim_error(*ctx, crowd_fund@, *account, now) is None,
            Err(e) => claim_error(*ctx, crowd_fund@, *account, now) == Some(e),
        },
{
    if ctx.owner != crowd_fund.owner() {
        Err(Errors::OnlyOwner)
    } else if ctx.treasury != crowd_fund.treasury() {
        Err(Errors::InvalidTreasury)
    } else if !(crowd_fund.ends_at() < now) {
        Err(Errors::CrowdFundNotEnded)
    } else if account.is_claimed {
        Err(Errors::CannotClaimTwice)
    } else if !(account.pledged_amount > 0) {
        Err(Errors::ZeroPledgedAmount)
    } else {
        Ok(())
    }
}

/// Pays one pledge out to the campaign's payout destination, once, after the
/// window has closed.
///
/// On success the record is left empty and marked as claimed, and the caller
/// is told to move all that was pledged from the place where the record is
/// kept to the payout destination. A refused claim changes nothing.
pub fn claim(ctx: &Claim, crowd_fund: &CrowdFund, account: &mut User, now: u64) -> (r: Result<
    (Claimed, Transfer),
    Errors,
>)
    ensures
        match r {
            Ok((notice, transfer)) => {
                &&& claim_error(*ctx, crowd_fund@, *old(account), now) is None
                &&& *final(account) == old(account).after_claim()
                &&& final(account).pledged_amount == 0
                &&& final(account).is_claimed
                &&& notice == (Claimed {
                    crowd_fund: ctx.crowd_fund,
                    user_pledge_account: ctx.pledge,
                })
                &&& transfer == (Transfer {
                    from: ctx.pledge,
                    to: crowd_fund@.treasury,
                    amount: old(account).pledged_amount,
                })
            },
            Err(e) => {
                &&& claim_error(*ctx, crowd_fund@, *old(account), now) == Some(e)
                &&& *final(account) == *old(account)
            },
        },
{
    match check_claim(ctx, crowd_fund, account, now) {
        Err(e) => Err(e),
        Ok(()) => {
            let transfer = Transfer {
                from: ctx.pledge,
                to: crowd_fund.treasury(),
                amount: account.pledged_amount,
            };
            account.pledged_amount = 0;
            account.is_claimed = true;
            let notice = Claimed { crowd_fund: ctx.crowd_fund, user_pledge_account: ctx.pledge };
            Ok((notice, transfer))
        },
    }
}

} // verus!
