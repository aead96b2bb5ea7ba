use vstd::prelude::*;
use crate::accounts::Claim;
use crate::address::Address;
use crate::campaign::{creation_error, title_length, CrowdFundView};
use crate::constants::{MAX_ENDING_TIME, MIN_GOAL, MIN_TITLE_LENGTH};
use crate::errors::Errors;
use crate::payout::claim_error;
use crate::pledges::{pledge_error, unpledge_error, User};

verus! {

/// A campaign is created exactly when all five rules hold, and what is
/// created is a campaign: its window opens after the moment of creation, is
/// not empty and closes at most thirty days after that moment, its goal and
/// its title are large enough. A request that breaks one rule and keeps the
/// rules before it is refused with the error of that rule.
pub proof fn lemma_creation_rules(
    owner: Address,
    treasury: Address,
    title: Seq<char>,
    goal: u64,
    starts_at: u64,
    ends_at: u64,
    now: u64,
)
    ensures
        creation_error(title, goal, starts_at, ends_at, now) is None <==> {
            &&& now < starts_at < ends_at <= now + MAX_ENDING_TIME
            &&& goal >= MIN_GOAL
            &&& title_length(title) >= MIN_TITLE_LENGTH
        },
        creation_error(title, goal, starts_at, ends_at, now) is None ==> (CrowdFundView {
            owner,
            treasury,
            goal,
            starts_at,
            ends_at,
            title,
        }).wf(),
        starts_at <= now ==> creation_error(title, goal, starts_at, ends_at, now) == Some(
            Errors::InvalidStartingTime,
        ),
        now < starts_at && ends_at <= starts_at ==> creation_error(
            title,
            goal,
            starts_at,
            ends_at,
            now,
        ) == Some(Errors::InvalidEndingTime),
        now < starts_at < ends_at && ends_at > now + MAX_ENDING_TIME ==> creation_error(
            title,
            goal,
            starts_at,
            ends_at,
            now,
        ) == Some(Errors::ExceedEndingTime),
        now < starts_at < ends_at <= now + MAX_ENDING_TIME && goal < MIN_GOAL ==> creation_error(
            title,
            goal,
            starts_at,
            ends_at,
            now,
        ) == Some(Errors::InvalidGoalAmount),
        now < starts_at < ends_at <= now + MAX_ENDING_TIME && goal >= MIN_GOAL && title_length(title)
            < MIN_TITLE_LENGTH ==> creation_error(title, goal, starts_at, ends_at, now) == Some(
            Errors::InvalidTitleLength,
        ),
{
}

/// Pledging an amount and taking the same amount back, both while the
/// window is open, leaves the record exactly as it was.
pub proof fn lemma_pledge_then_unpledge_restores(
    campaign: CrowdFundView,
    account: User,
    amount: u64,
    pledged_at: u64,
    unpledged_at: u64,
)
    requires
        amount > 0,
        campaign.is_active(pledged_at),
        campaign.is_active(unpledged_at),
        account.pledged_amount + amount <= u64::MAX,
    ensures
        pledge_error(campaign, amount, pledged_at) is None,
        unpledge_error(campaign, account.after_pledge(amount), amount, unpledged_at) is None,
        account.after_pledge(amount).after_unpledge(amount) == account,
{
}

/// While the window is open, all that is pledged can be taken back, which
/// leaves nothing; one unit more than what is pledged cannot.
pub proof fn lemma_unpledge_boundary(campaign: CrowdFundView, account: User, now: u64)
    requires
        campaign.is_active(now),
    ensures
        unpledge_error(campaign, account, account.pledged_amount, now) is None,
        account.after_unpledge(account.pledged_amount).pledged_amount == 0,
        account.pledged_amount < u64::MAX ==> unpledge_error(
            campaign,
            account,
            (account.pledged_amount + 1) as u64,
            now,
        ) == Some(Errors::NotEnoughBalance),
{
}

/// After a claim that succeeded, no claim on the same record succeeds,
/// whoever calls and whenever: the record stays empty and marked. Where the
/// caller is the owner, names the campaign's payout destination and calls
/// after the end, the refusal is `CannotClaimTwice`.
pub proof fn lemma_second_claim_fails(
    campaign: CrowdFundView,
    account: User,
    first: Claim,
    first_at: u64,
    second: Claim,
    second_at: u64,
)
    requires
        claim_error(first, campaign, account, first_at) is None,
    ensures
        account.after_claim().pledged_amount == 0,
        account.after_claim().is_claimed,
        claim_error(second, campaign, account.after_claim(), second_at) is Some,
        second.owner == campaign.owner && second.treasury == campaign.treasury && campaign.ends_at
            < second_at ==> claim_error(second, campaign, account.after_claim(), second_at)
            == Some(Errors::CannotClaimTwice),
        claim_error(first, campaign, account.after_claim(), first_at) == Some(
            Errors::CannotClaimTwice,
        ),
{
}

/// One call on a pledge record, with the time at which it is made.
pub enum Call {
    /// A pledge of `amount`.
    Pledge { amount: u64, now: u64 },
    /// Taking `amount` back.
    Unpledge { amount: u64, now: u64 },
    /// A claim by `ctx.owner`, who names `ctx.treasury`.
    Claim { ctx: Claim, now: u64 },
}

impl Call {
    /// When the call is made.
    pub open spec fn time(self) -> u64 {
        match self {
            Call::Pledge { now, .. } => now,
            Call::Unpledge { now, .. } => now,
            Call::Claim { now, .. } => now,
        }
    }

    /// Whether the call takes effect on `account`. A pledge that would be
    /// accepted and would take the record beyond `u64::MAX` is aborted.
    pub open spec fn takes_effect(self, campaign: CrowdFundView, account: User) -> bool {
        match self {
            Call::Pledge { amount, now } => pledge_error(campaign, amount, now) is None
                && account.pledged_amount + amount <= u64::MAX,
            Call::Unpledge { amount, now } => unpledge_error(campaign, account, amount, now)
                is None,
            Call::Claim { ctx, now } => claim_error(ctx, campaign, account, now) is None,
        }
    }

    /// Whether the call is a claim that succeeds on `account`.
    pub open spec fn pays_out(self, campaign: CrowdFundView, account: User) -> bool {
        self is Claim && self.takes_effect(campaign, account)
    }

    /// The record after the call: changed as the operation says where the
    /// call takes effect, untouched where it does not.
    pub open spec fn apply(self, campaign: CrowdFundView, account: User) -> User {
        if !self.takes_effect(campaign, account) {
            account
        } else {
            match self {
                Call::Pledge { amount, .. } => account.after_pledge(amount),
                Call::Unpledge { amount, .. } => account.after_unpledge(amount),
                Call::Claim { .. } => account.after_claim(),
            }
        }
    }

    /// What the call moves to the campaign's payout destination.
    pub open spec fn paid_out(self, campaign: CrowdFundView, account: User) -> nat {
        if self.pays_out(campaign, account) {
            account.pledged_amount as nat
        } else {
            0
        }
    }

    /// By how much the call changes the funds held for the record: what it
    /// moves in, less what it moves out.
    pub open spec fn custody_change(self, campaign: CrowdFundView, account: User) -> int {
        if !self.takes_effect(campaign, account) {
            0
        } else {
            match self {
                Call::Pledge { amount, .. } => amount as int,
                Call::Unpledge { amount, .. } => -(amount as int),
                Call::Claim { .. } => -(account.pledged_amount as int),
            }
        }
    }
}

/// The record after the first `n` of `calls`, made in order on a record that
/// starts as `start`.
pub open spec fn state_after(campaign: CrowdFundView, start: User, calls: Seq<Call>, n: nat) -> User
    decreases n,
{
    if n == 0 {
        start
    } else {
        calls[n - 1].apply(campaign, state_after(campaign, start, calls, (n - 1) as nat))
    }
}

/// All that the first `n` of `calls` move to the payout destination.
pub open spec fn total_paid_out(
    campaign: CrowdFundView,
    start: User,
    calls: Seq<Call>,
    n: nat,
) -> nat
    decreases n,
{
    if n == 0 {
        0
    } else {
        total_paid_out(campaign, start, calls, (n - 1) as nat) + calls[n - 1].paid_out(
            campaign,
            state_after(campaign, start, calls, (n - 1) as nat),
        )
    }
}

/// The funds held for the record after the first `n` of `calls`, where they
/// were `start.pledged_amount` at first.
pub open spec fn funds_held(campaign: CrowdFundView, start: User, calls: Seq<Call>, n: nat) -> int
    decreases n,
{
    if n == 0 {
        start.pledged_amount as int
    } else {
        funds_held(campaign, start, calls, (n - 1) as nat) + calls[n - 1].custody_change(
            campaign,
            state_after(campaign, start, calls, (n - 1) as nat),
        )
    }
}

/// Whether the call at place `i` of `calls` is a claim that succeeds.
pub open spec fn claim_succeeds_at(
    campaign: CrowdFundView,
    start: User,
    calls: Seq<Call>,
    i: int,
) -> bool {
    0 <= i < calls.len() && calls[i].pays_out(campaign, state_after(campaign, start, calls, i as nat))
}

/// Whether no call of `calls` is made at an earlier time than a call before it.
pub open spec fn clock_never_goes_back(calls: Seq<Call>) -> bool {
    forall|a: int, b: int| 0 <= a <= b < calls.len() ==> calls[a].time() <= calls[b].time()
}

/// A record that is marked as claimed stays marked, whatever is called on it.
pub proof fn lemma_claimed_stays_claimed(
    campaign: CrowdFundView,
    start: User,
    calls: Seq<Call>,
    m: nat,
    n: nat,
)
    requires
        m <= n <= calls.len(),
        state_after(campaign, start, calls, m).is_claimed,
    ensures
        state_after(campaign, start, calls, n).is_claimed,
    decreases n,
{
    if m < n {
        lemma_claimed_stays_claimed(campaign, start, calls, m, (n - 1) as nat);
    }
}

/// Whatever is called on a record, in whatever order and at whatever times,
/// at most one claim succeeds.
pub proof fn lemma_at_most_one_claim_succeeds(
    campaign: CrowdFundView,
    start: User,
    calls: Seq<Call>,
    i: int,
    j: int,
)
    requires
        claim_succeeds_at(campaign, start, calls, i),
        claim_succeeds_at(campaign, start, calls, j),
    ensures
        i == j,
{
    if i < j {
        assert(state_after(campaign, start, calls, (i + 1) as nat).is_claimed);
        lemma_claimed_stays_claimed(campaign, start, calls, (i + 1) as nat, j as nat);
    } else if j < i {
        assert(state_after(campaign, start, calls, (j + 1) as nat).is_claimed);
        lemma_claimed_stays_claimed(campaign, start, calls, (j + 1) as nat, i as nat);
    }
}

/// As long as no claim has succeeded, nothing was moved to the payout
/// destination.
pub proof fn lemma_nothing_paid_out_without_claim(
    campaign: CrowdFundView,
    start: User,
    calls: Seq<Call>,
    n: nat,
)
    requires
        n <= calls.len(),
        forall|i: int| 0 <= i < n ==> !claim_succeeds_at(campaign, start, calls, i),
    ensures
        total_paid_out(campaign, start, calls, n) == 0,
    decreases n,
{
    if n > 0 {
        lemma_nothing_paid_out_without_claim(campaign, start, calls, (n - 1) as nat);
        assert(!claim_succeeds_at(campaign, start, calls, n - 1));
    }
}

/// Conservation: whatever is called on a record, all that is ever moved to
/// the payout destination is what the record held at the moment its claim
/// succeeded.
pub proof fn lemma_paid_out_is_claimed_balance(
    campaign: CrowdFundView,
    start: User,
    calls: Seq<Call>,
    i: int,
    n: nat,
)
    requires
        claim_succeeds_at(campaign, start, calls, i),
        i < n <= calls.len(),
    ensures
        total_paid_out(campaign, start, calls, n) == state_after(
            campaign,
            start,
            calls,
            i as nat,
        ).pledged_amount,
    decreases n,
{
    if n == i + 1 {
        assert forall|k: int| 0 <= k < i implies !claim_succeeds_at(campaign, start, calls, k) by {
            if claim_succeeds_at(campaign, start, calls, k) {
                lemma_at_most_one_claim_succeeds(campaign, start, calls, k, i);
            }
        }
        lemma_nothing_paid_out_without_claim(campaign, start, calls, i as nat);
    } else {
        lemma_paid_out_is_claimed_balance(campaign, start, calls, i, (n - 1) as nat);
        if claim_succeeds_at(campaign, start, calls, n - 1) {
            lemma_at_most_one_claim_succeeds(campaign, start, calls, i, n - 1);
        }
    }
}

/// No value is made or lost: whatever is called on a record, the funds held
/// for it are what the record says is pledged, and so never less than nothing.
pub proof fn lemma_funds_held_match_record(
    campaign: CrowdFundView,
    start: User,
    calls: Seq<Call>,
    n: nat,
)
    requires
        n <= calls.len(),
    ensures
        funds_held(campaign, start, calls, n) == state_after(campaign, start, calls, n).pledged_amount,
        funds_held(campaign, start, calls, n) >= 0,
    decreases n,
{
    if n > 0 {
        lemma_funds_held_match_record(campaign, start, calls, (n - 1) as nat);
    }
}

/// A claimed record is final: where the clock never goes back, no call made
/// after the claim that succeeded takes effect, so the record stays empty and
/// marked.
pub proof fn lemma_claimed_is_final(
    campaign: CrowdFundView,
    start: User,
    calls: Seq<Call>,
    i: int,
    n: nat,
)
    requires
        clock_never_goes_back(calls),
        claim_succeeds_at(campaign, start, calls, i),
        i < n <= calls.len(),
    ensures
        state_after(campaign, start, calls, n) == state_after(
            campaign,
            start,
            calls,
            i as nat,
        ).after_claim(),
        state_after(campaign, start, calls, n).pledged_amount == 0,
        state_after(campaign, start, calls, n).is_claimed,
        i + 1 < n ==> !calls[n - 1].takes_effect(
            campaign,
            state_after(campaign, start, calls, (n - 1) as nat),
        ),
    decreases n,
{
    if n > i + 1 {
        lemma_claimed_is_final(campaign, start, calls, i, (n - 1) as nat);
        assert(calls[i].time() <= calls[n - 1].time());
    }
}

} // verus!
