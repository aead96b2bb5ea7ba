use vstd::prelude::*;
use crate::accounts::{CreatePledge, Pledge, Unpledge};
use crate::address::Address;
use crate::campaign::{CrowdFund, CrowdFundView};
use crate::errors::Errors;
use crate::events::{NewPledgeAccountCreated, PledgedTo, Transfer, UnpledgedFrom};

verus! {

/// A contributor's pledge record: what one contributor has committed to one
/// campaign and not taken back, and whether it was paid out.
#[derive(Clone, Copy, Debug, PartialEq, Eq)]
pub struct User {
    /// The campaign pledged to.
    pub crowd_fund: Address,
    /// The contributor.
    pub pledger: Address,
    /// The amount committed and not yet claimed, in base currency units.
    pub pledged_amount: u64,
    /// Whether the pledge was paid out to the campaign. Never goes back to `false`.
    pub is_claimed: bool,
}

impl User {
    /// The record of a contributor who has pledged nothing yet.
    pub open spec fn opened(crowd_fund: Address, pledger: Address) -> User {
        User { crowd_fund, pledger, pledged_amount: 0, is_claimed: false }
    }

    /// This record with `amount` more pledged.
    pub open spec fn after_pledge(self, amount: u64) -> User
        recommends
            self.pledged_amount + amount <= u64::MAX,
    {
        User { pledged_amount: (self.pledged_amount + amount) as u64, ..self }
    }

    /// This record with `amount` less pledged.
    pub open spec fn after_unpledge(self, amount: u64) -> User
        recommends
            amount <= self.pledged_amount,
    {
        User { pledged_amount: (self.pledged_amount - amount) as u64, ..self }
    }

    /// This record once it was paid out: nothing is left, and it is marked.
    pub open spec fn after_claim(self) -> User {
        User { pledged_amount: 0, is_claimed: true, ..self }
    }
}

/// Why a pledge of `amount` at `now` is refused, if it is: a pledge of
/// nothing is told first, then a closed window.
pub open spec fn pledge_error(campaign: CrowdFundView, amount: u64, now: u64) -> Option<Errors> {
    if amount == 0 {
        Some(Errors::ZeroPledge)
    } else {
        campaign.window_error(now)
    }
}

/// Why taking `amount` back at `now` is refused, if it is: a closed window
/// is told first, then an amount larger than what is pledged.
pub open spec fn unpledge_error(
    campaign: CrowdFundView,
    account: User,
    amount: u64,
    now: u64,
) -> Option<Errors> {
    if campaign.window_error(now) is Some {
        campaign.window_error(now)
    } else if amount > account.pledged_amount {
        Some(Errors::NotEnoughBalance)
    } else {
        None
    }
}

/// Opens a pledge record for the contributor `ctx.user`, while the campaign's
/// window is open.
///
/// The new record holds nothing and is not claimed.
pub fn create_pledge_account(ctx: &CreatePledge, crowd_fund: &CrowdFund, now: u64) -> (r: Result<
    (User, NewPledgeAccountCreated),
    Errors,
>)
    ensures
        match r {
            Ok((account, notice)) => {
                &&& crowd_fund@.is_active(now)
                &&& account == User::opened(ctx.crowd_fund, ctx.user)
                &&& notice == (NewPledgeAccountCreated {
                    crowd_fund: ctx.crowd_fund,
                    user_pledge_account: ctx.pledge,
                })
            },
            Err(e) => crowd_fund@.window_error(now) == Some(e),
        },
{
    match crowd_fund.check_window(now) {
        Err(e) => Err(e),
        Ok(()) => {
            let account = User {
                crowd_fund: ctx.crowd_fund,
                pledger: ctx.user,
                pledged_amount: 0,
                is_claimed: false,
            };
            let notice = NewPledgeAccountCreated {
                crowd_fund: ctx.crowd_fund,
                user_pledge_account: ctx.pledge,
            };
            Ok((account, notice))
        },
    }
}

/// Tells whether a pledge of `amount` at `now` would be accepted, and if not, why.
pub fn check_pledge(crowd_fund: &CrowdFund, amount: u64, now: u64) -> (r: Result<(), Errors>)
    ensures
        match r {
            Ok(()) => pledge_error(crowd_fund@, amount, now) is None,
            Err(e) => pledge_error(crowd_fund@, amount, now) == Some(e),
        },
{
    if !(amount > 0) {
        return Err(Errors::ZeroPledge);
    }
    crowd_fund.check_window(now)
}

/// Pledges `amount` to the campaign.
///
/// On success the record holds `amount` more, and the caller is told to move
/// `amount` from the contributor to the place where the record is kept. A
/// refused pledge changes nothing.
///
/// A record cannot hold more than `u64::MAX`: a pledge that would be accepted
/// and would take it beyond is not a valid call.
pub fn pledge(ctx: &Pledge, crowd_fund: &CrowdFund, account: &mut User, amount: u64, now: u64) -> (r:
    Result<(PledgedTo, Transfer), Errors>)
    requires
        pledge_error(crowd_fund@, amount, now) is None ==> old(account).pledged_amount + amount
            <= u64::MAX,
    ensures
        match r {
            Ok((notice, transfer)) => {
                &&& pledge_error(crowd_fund@, amount, now) is None
                &&& *final(account) == old(account).after_pledge(amount)
                &&& final(account).pledged_amount == old(account).pledged_amount + amount
                &&& notice == (PledgedTo {
                    crowd_fund: ctx.crowd_fund,
                    user_pledge_account: ctx.pledge,
                    pledge_amount: amount,
                })
                &&& transfer == (Transfer { from: old(account).pledger, to: ctx.pledge, amount })
            },
            Err(e) => {
                &&& pledge_error(crowd_fund@, amount, now) == Some(e)
                &&& *final(account) == *old(account)
            },
        },
{
    match check_pledge(crowd_fund, amount, now) {
        Err(e) => Err(e),
        Ok(()) => {
            account.pledged_amount = account.pledged_amount + amount;
            let notice = PledgedTo {
                crowd_fund: ctx.crowd_fund,
                user_pledge_account: ctx.pledge,
                pledge_amount: amount,
            };
            let transfer = Transfer { from: account.pledger, to: ctx.pledge, amount };
            Ok((notice, transfer))
        },
    }
}

/// Tells whether taking `amount` back at `now` would be accepted, and if not, why.
pub fn check_unpledge(crowd_fund: &CrowdFund, account: &User, amount: u64, now: u64) -> (r: Result<
    (),
    Errors,
>)
    ensures
        match r {
            Ok(()) => unpledge_error(crowd_fund@, *account, amount, now) is None,
            Err(e) => unpledge_error(crowd_fund@, *account, amount, now) == Some(e),
        },
{
    match crowd_fund.check_window(now) {
        Err(e) => Err(e),
        Ok(()) => {
            if !(amount <= account.pledged_amount) {
                Err(Errors::NotEnoughBalance)
            } else {
                Ok(())
            }
        },
    }
}

/// Takes `amount` of what is pledged back.
///
/// On success the record holds `amount` less, and the caller is told to move
/// `amount` from the place where the record is kept to the contributor. A
/// refused call changes nothing.
pub fn unpledge(
    ctx: &Unpledge,
    crowd_fund: &CrowdFund,
    account: &mut User,
    amount: u64,
    now: u64,
) -> (r: Result<(UnpledgedFrom, Transfer), Errors>)
    ensures
        match r {
            Ok((notice, transfer)) => {
                &&& unpledge_error(crowd_fund@, *old(account), amount, now) is None
                &&& *final(account) == old(account).after_unpledge(amount)
                &&& final(account).pledged_amount == old(account).pledged_amount - amount
                &&& notice == (UnpledgedFrom {
                    crowd_fund: ctx.crowd_fund,
                    user_pledge_account: ctx.pledge,
                    unpledge_amount: amount,
                })
                &&& transfer == (Transfer { from: ctx.pledge, to: old(account).pledger, amount })
            },
            Err(e) => {
                &&& unpledge_error(crowd_fund@, *old(account), amount, now) == Some(e)
                &&& *final(account) == *old(account)
            },
        },
{
    match check_unpledge(crowd_fund, account, amount, now) {
        Err(e) => Err(e),
        Ok(()) => {
            account.pledged_amount = account.pledged_amount - amount;
            let notice = UnpledgedFrom {
                crowd_fund: ctx.crowd_fund,
                user_pledge_account: ctx.pledge,
                unpledge_amount: amount,
            };
            let transfer = Transfer { from: ctx.pledge, to: account.pledger, amount };
            Ok((notice, transfer))
        },
    }
}

} // verus!
