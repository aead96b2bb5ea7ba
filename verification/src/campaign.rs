use vstd::prelude::*;
use vstd::utf8::encode_utf8;
use crate::accounts::CreateCrowdFund;
use crate::address::Address;
use crate::constants::{MAX_ENDING_TIME, MIN_GOAL, MIN_TITLE_LENGTH};
use crate::errors::Errors;
use crate::events::NewCrowdFundCreated;

verus! {

/// The length of a title: the number of bytes of its UTF-8 encoding.
pub open spec fn title_length(title: Seq<char>) -> nat {
    encode_utf8(title).len()
}

/// What a campaign is: who owns it, where it pays out, what it asks for, and
/// when contributions are open.
pub struct CrowdFundView {
    pub owner: Address,
    pub treasury: Address,
    pub goal: u64,
    pub starts_at: u64,
    pub ends_at: u64,
    pub title: Seq<char>,
}

impl CrowdFundView {
    /// What holds of every campaign, whenever it is looked at: the window is
    /// not empty and shorter than thirty days, the goal and the title are
    /// large enough.
    pub open spec fn wf(self) -> bool {
        &&& self.starts_at < self.ends_at
        &&& self.ends_at - self.starts_at < MAX_ENDING_TIME
        &&& self.goal >= MIN_GOAL
        &&& title_length(self.title) >= MIN_TITLE_LENGTH
    }

    /// Contributions are open strictly between the start and the end.
    pub open spec fn is_active(self, now: u64) -> bool {
        self.starts_at < now < self.ends_at
    }

    /// Why a contribution is refused at `now`, if it is: too early is told
    /// before too late.
    pub open spec fn window_error(self, now: u64) -> Option<Errors> {
        if !(self.starts_at < now) {
            Some(Errors::CrowdFundNotStarted)
        } else if !(self.ends_at > now) {
            Some(Errors::CrowdFundEnded)
        } else {
            None
        }
    }
}

/// A campaign: a fundraising window with a goal and a payout destination.
///
/// A campaign never changes after it was created.
#[derive(Debug)]
pub struct CrowdFund {
    owner: Address,
    treasury: Address,
    goal: u64,
    starts_at: u64,
    ends_at: u64,
    title: String,
}

impl View for CrowdFund {
    type V = CrowdFundView;

    closed spec fn view(&self) -> CrowdFundView {
        CrowdFundView {
            owner: self.owner,
            treasury: self.treasury,
            goal: self.goal,
            starts_at: self.starts_at,
            ends_at: self.ends_at,
            title: self.title@,
        }
    }
}

/// The first rule that a request to create a campaign breaks, if any. The
/// rules are taken in this order: the start lies in the future, the end lies
/// after the start, the end lies at most thirty days from now, the goal is
/// large enough, the title is long enough.
pub open spec fn creation_error(
    title: Seq<char>,
    goal: u64,
    starts_at: u64,
    ends_at: u64,
    now: u64,
) -> Option<Errors> {
    if !(starts_at > now) {
        Some(Errors::InvalidStartingTime)
    } else if !(ends_at > starts_at) {
        Some(Errors::InvalidEndingTime)
    } else if !(ends_at <= now + MAX_ENDING_TIME) {
        Some(Errors::ExceedEndingTime)
    } else if !(goal >= MIN_GOAL) {
        Some(Errors::InvalidGoalAmount)
    } else if !(title_length(title) >= MIN_TITLE_LENGTH) {
        Some(Errors::InvalidTitleLength)
    } else {
        None
    }
}

impl CrowdFund {
    #[verifier::type_invariant]
    spec fn inv(&self) -> bool {
        self@.wf()
    }

    /// The campaign kept in a store, from its six fields. There is one
    /// exactly when the fields are those of a campaign.
    pub fn from_stored(
        owner: Address,
        treasury: Address,
        goal: u64,
        starts_at: u64,
        ends_at: u64,
        title: String,
    ) -> (r: Option<CrowdFund>)
        ensures
            r is Some <==> (CrowdFundView {
                owner,
                treasury,
                goal,
                starts_at,
                ends_at,
                title: title@,
            }).wf(),
            r matches Some(c) ==> c@ == (CrowdFundView {
                owner,
                treasury,
                goal,
                starts_at,
                ends_at,
                title: title@,
            }),
    {
        if starts_at < ends_at && ends_at - starts_at < MAX_ENDING_TIME && goal >= MIN_GOAL
            && title.as_str().as_bytes().len() >= MIN_TITLE_LENGTH {
            Some(CrowdFund { owner, treasury, goal, starts_at, ends_at, title })
        } else {
            None
        }
    }

    /// Who created the campaign.
    pub fn owner(&self) -> (r: Address)
        ensures
            r == self@.owner,
    {
        self.owner
    }

    /// Where claimed funds go.
    pub fn treasury(&self) -> (r: Address)
        ensures
            r == self@.treasury,
    {
        self.treasury
    }

    /// The amount the campaign asks for, in base currency units.
    pub fn goal(&self) -> (r: u64)
        ensures
            r == self@.goal,
            r >= MIN_GOAL,
    {
        proof {
            use_type_invariant(self);
        }
        self.goal
    }

    /// When contributions open.
    pub fn starts_at(&self) -> (r: u64)
        ensures
            r == self@.starts_at,
            r < self@.ends_at,
    {
        proof {
            use_type_invariant(self);
        }
        self.starts_at
    }

    /// When contributions close.
    pub fn ends_at(&self) -> (r: u64)
        ensures
            r == self@.ends_at,
            r > self@.starts_at,
    {
        proof {
            use_type_invariant(self);
        }
        self.ends_at
    }

    /// The campaign's title.
    pub fn title(&self) -> (r: &str)
        ensures
            r@ == self@.title,
            title_length(r@) >= MIN_TITLE_LENGTH,
    {
        proof {
            use_type_invariant(self);
        }
        self.title.as_str()
    }

    /// Whether contributions are open at `now`, and if not, why.
    pub fn check_window(&self, now: u64) -> (r: Result<(), Errors>)
        ensures
            r is Ok <==> self@.is_active(now),
            r matches Err(e) ==> self@.window_error(now) == Some(e),
    {
        if !(self.starts_at < now) {
            Err(Errors::CrowdFundNotStarted)
        } else if !(self.ends_at > now) {
            Err(Errors::CrowdFundEnded)
        } else {
            Ok(())
        }
    }
}

/// Creates a campaign owned by the caller.
///
/// The request is refused with the first rule it breaks, see
/// [`creation_error`]; otherwise the campaign holds the values given, and the
/// notice names the place where it is to be kept.
pub fn create_crowd_fund(
    ctx: &CreateCrowdFund,
    title: String,
    goal: u64,
    starts_at: u64,
    ends_at: u64,
    treasury: Address,
    now: u64,
) -> (r: Result<(CrowdFund, NewCrowdFundCreated), Errors>)
    ensures
        match r {
            Ok((campaign, notice)) => {
                &&& creation_error(title@, goal, starts_at, ends_at, now) is None
                &&& campaign@ == (CrowdFundView {
                    owner: ctx.owner,
                    treasury,
                    goal,
                    starts_at,
                    ends_at,
                    title: title@,
                })
                &&& campaign@.wf()
                &&& now < starts_at < ends_at <= now + MAX_ENDING_TIME
                &&& goal >= MIN_GOAL
                &&& title_length(title@) >= MIN_TITLE_LENGTH
                &&& notice == (NewCrowdFundCreated { crowd_fund: ctx.crowd_fund })
            },
            Err(e) => creation_error(title@, goal, starts_at, ends_at, now) == Some(e),
        },
{
    if !(starts_at > now) {
        return Err(Errors::InvalidStartingTime);
    }
    if !(ends_at > starts_at) {
        return Err(Errors::InvalidEndingTime);
    }
    if !(ends_at - now <= MAX_ENDING_TIME) {
        return Err(Errors::ExceedEndingTime);
    }
    if !(goal >= MIN_GOAL) {
        return Err(Errors::InvalidGoalAmount);
    }
    if !(title.as_str().as_bytes().len() >= MIN_TITLE_LENGTH) {
        return Err(Errors::InvalidTitleLength);
    }
    let campaign = CrowdFund { owner: ctx.owner, treasury, goal, starts_at, ends_at, title };
    Ok((campaign, NewCrowdFundCreated { crowd_fund: ctx.crowd_fund }))
}

} // verus!
