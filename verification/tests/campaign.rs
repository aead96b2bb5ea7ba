use crowdfund::constants::{MAX_ENDING_TIME, MIN_GOAL, MIN_TITLE_LENGTH};
use crowdfund::{create_crowd_fund, Address, CreateCrowdFund, CrowdFund, Errors, NewCrowdFundCreated};

const NOW: u64 = 1_700_000_000;

fn party(tag: u8) -> Address {
    Address::new([tag; 32])
}

fn request() -> CreateCrowdFund {
    CreateCrowdFund { crowd_fund: party(10), owner: party(1) }
}

fn create(title: &str, goal: u64, starts_at: u64, ends_at: u64, now: u64) -> Result<(CrowdFund, NewCrowdFundCreated), Errors> {
    create_crowd_fund(&request(), title.to_string(), goal, starts_at, ends_at, party(2), now)
}

fn refusal(title: &str, goal: u64, starts_at: u64, ends_at: u64, now: u64) -> Errors {
    match create(title, goal, starts_at, ends_at, now) {
        Ok(_) => panic!("the campaign was created"),
        Err(e) => e,
    }
}

#[test]
fn constants_have_their_values() {
    assert_eq!(MAX_ENDING_TIME, 30 * 24 * 60 * 60);
    assert_eq!(MAX_ENDING_TIME, 2_592_000);
    assert_eq!(MIN_GOAL, 1);
    assert_eq!(MIN_TITLE_LENGTH, 10);
}

#[test]
fn created_campaign_holds_what_was_given() {
    let (campaign, notice) = create("Build a well", 5, NOW + 10, NOW + 20, NOW).unwrap();
    assert_eq!(campaign.owner(), party(1));
    assert_eq!(campaign.treasury(), party(2));
    assert_eq!(campaign.goal(), 5);
    assert_eq!(campaign.starts_at(), NOW + 10);
    assert_eq!(campaign.ends_at(), NOW + 20);
    assert_eq!(campaign.title(), "Build a well");
    assert_eq!(notice, NewCrowdFundCreated { crowd_fund: party(10) });
}

#[test]
fn created_campaign_respects_every_bound() {
    let (campaign, _) = create("Build a well", 5, NOW + 10, NOW + 20, NOW).unwrap();
    assert!(campaign.starts_at() > NOW);
    assert!(campaign.starts_at() < campaign.ends_at());
    assert!(campaign.ends_at() <= NOW + MAX_ENDING_TIME);
    assert!(campaign.title().len() >= MIN_TITLE_LENGTH);
    assert!(campaign.goal() >= MIN_GOAL);
}

#[test]
fn start_must_lie_in_the_future() {
    assert_eq!(refusal("Build a well", 5, NOW, NOW + 20, NOW), Errors::InvalidStartingTime);
    assert_eq!(refusal("Build a well", 5, NOW - 1, NOW + 20, NOW), Errors::InvalidStartingTime);
    assert!(create("Build a well", 5, NOW + 1, NOW + 20, NOW).is_ok());
}

#[test]
fn end_must_lie_after_start() {
    assert_eq!(refusal("Build a well", 5, NOW + 10, NOW + 10, NOW), Errors::InvalidEndingTime);
    assert_eq!(refusal("Build a well", 5, NOW + 10, NOW + 9, NOW), Errors::InvalidEndingTime);
    assert_eq!(refusal("Build a well", 5, NOW + 10, 0, NOW), Errors::InvalidEndingTime);
    assert!(create("Build a well", 5, NOW + 10, NOW + 11, NOW).is_ok());
}

#[test]
fn end_must_lie_within_thirty_days() {
    assert!(create("Build a well", 5, NOW + 10, NOW + MAX_ENDING_TIME, NOW).is_ok());
    assert_eq!(
        refusal("Build a well", 5, NOW + 10, NOW + MAX_ENDING_TIME + 1, NOW),
        Errors::ExceedEndingTime
    );
    assert_eq!(refusal("Build a well", 5, NOW + 10, u64::MAX, NOW), Errors::ExceedEndingTime);
}

#[test]
fn goal_must_reach_the_minimum() {
    assert_eq!(refusal("Build a well", 0, NOW + 10, NOW + 20, NOW), Errors::InvalidGoalAmount);
    assert!(create("Build a well", MIN_GOAL, NOW + 10, NOW + 20, NOW).is_ok());
    assert!(create("Build a well", u64::MAX, NOW + 10, NOW + 20, NOW).is_ok());
}

#[test]
fn title_must_have_ten_bytes() {
    assert_eq!(refusal("", 5, NOW + 10, NOW + 20, NOW), Errors::InvalidTitleLength);
    assert_eq!(refusal("123456789", 5, NOW + 10, NOW + 20, NOW), Errors::InvalidTitleLength);
    assert!(create("1234567890", 5, NOW + 10, NOW + 20, NOW).is_ok());
}

#[test]
fn title_is_measured_in_bytes() {
    // Five letters of two bytes each.
    let five_letters = "\u{e9}\u{e9}\u{e9}\u{e9}\u{e9}";
    assert_eq!(five_letters.chars().count(), 5);
    let (campaign, _) = create(five_letters, 5, NOW + 10, NOW + 20, NOW).unwrap();
    assert_eq!(campaign.title(), five_letters);
    // Four letters of two bytes each and one of one byte: nine bytes.
    assert_eq!(
        refusal("\u{e9}\u{e9}\u{e9}\u{e9}e", 5, NOW + 10, NOW + 20, NOW),
        Errors::InvalidTitleLength
    );
}

#[test]
fn first_broken_rule_is_told() {
    // Everything is wrong: the start is told.
    assert_eq!(refusal("short", 0, NOW, NOW, NOW), Errors::InvalidStartingTime);
    // The start is right: the end is told.
    assert_eq!(refusal("short", 0, NOW + 10, NOW + 5, NOW), Errors::InvalidEndingTime);
    // The end lies after the start but too far: that is told.
    assert_eq!(
        refusal("short", 0, NOW + 10, NOW + MAX_ENDING_TIME + 1, NOW),
        Errors::ExceedEndingTime
    );
    // The times are right: the goal is told before the title.
    assert_eq!(refusal("short", 0, NOW + 10, NOW + 20, NOW), Errors::InvalidGoalAmount);
    assert_eq!(refusal("short", 5, NOW + 10, NOW + 20, NOW), Errors::InvalidTitleLength);
}

#[test]
fn times_near_the_end_of_the_range_do_not_wrap() {
    let now = u64::MAX - 5;
    let (campaign, _) = create("Build a well", 5, u64::MAX - 1, u64::MAX, now).unwrap();
    assert_eq!(campaign.starts_at(), u64::MAX - 1);
    assert_eq!(campaign.ends_at(), u64::MAX);
    assert_eq!(refusal("Build a well", 5, u64::MAX, u64::MAX, now), Errors::InvalidEndingTime);
    assert_eq!(refusal("Build a well", 5, now, u64::MAX, now), Errors::InvalidStartingTime);
}

#[test]
fn creation_at_time_zero() {
    let (campaign, _) = create("Build a well", 5, 1, MAX_ENDING_TIME, 0).unwrap();
    assert_eq!(campaign.ends_at(), MAX_ENDING_TIME);
    assert_eq!(refusal("Build a well", 5, 1, MAX_ENDING_TIME + 1, 0), Errors::ExceedEndingTime);
    assert_eq!(refusal("Build a well", 5, 0, 10, 0), Errors::InvalidStartingTime);
}

#[test]
fn stored_campaign_is_read_back() {
    let campaign =
        CrowdFund::from_stored(party(1), party(2), 5, 100, 200, "Build a well".to_string()).unwrap();
    assert_eq!(campaign.owner(), party(1));
    assert_eq!(campaign.treasury(), party(2));
    assert_eq!(campaign.goal(), 5);
    assert_eq!(campaign.starts_at(), 100);
    assert_eq!(campaign.ends_at(), 200);
    assert_eq!(campaign.title(), "Build a well");
}

#[test]
fn stored_fields_that_are_no_campaign_are_refused() {
    let title = || "Build a well".to_string();
    assert!(CrowdFund::from_stored(party(1), party(2), 5, 200, 200, title()).is_none());
    assert!(CrowdFund::from_stored(party(1), party(2), 5, 201, 200, title()).is_none());
    assert!(CrowdFund::from_stored(party(1), party(2), 0, 100, 200, title()).is_none());
    assert!(CrowdFund::from_stored(party(1), party(2), 5, 100, 200, "short".to_string()).is_none());
    // A window of thirty days or more cannot have been created.
    assert!(CrowdFund::from_stored(party(1), party(2), 5, 100, 100 + MAX_ENDING_TIME, title()).is_none());
    assert!(CrowdFund::from_stored(party(1), party(2), 5, 100, 99 + MAX_ENDING_TIME, title()).is_some());
    assert!(CrowdFund::from_stored(party(1), party(2), 5, 0, u64::MAX, title()).is_none());
}

#[test]
fn window_is_open_strictly_between_start_and_end() {
    let campaign =
        CrowdFund::from_stored(party(1), party(2), 5, 100, 200, "Build a well".to_string()).unwrap();
    assert_eq!(campaign.check_window(99), Err(Errors::CrowdFundNotStarted));
    assert_eq!(campaign.check_window(100), Err(Errors::CrowdFundNotStarted));
    assert_eq!(campaign.check_window(101), Ok(()));
    assert_eq!(campaign.check_window(199), Ok(()));
    assert_eq!(campaign.check_window(200), Err(Errors::CrowdFundEnded));
    assert_eq!(campaign.check_window(201), Err(Errors::CrowdFundEnded));
    assert_eq!(campaign.check_window(0), Err(Errors::CrowdFundNotStarted));
    assert_eq!(campaign.check_window(u64::MAX), Err(Errors::CrowdFundEnded));
}

#[test]
fn addresses_are_equal_when_all_bytes_agree() {
    let mut bytes = [7u8; 32];
    assert_eq!(Address::new(bytes), party(7));
    assert_eq!(Address::new(bytes).bytes, [7u8; 32]);
    bytes[31] = 8;
    assert_ne!(Address::new(bytes), party(7));
    bytes[31] = 7;
    bytes[0] = 0;
    assert_ne!(Address::new(bytes), party(7));
    assert!(Address::new([0u8; 32]) == Address { bytes: [0u8; 32] });
}
