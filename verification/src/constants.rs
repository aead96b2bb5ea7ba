use vstd::prelude::*;

verus! {

/// Longest span, in seconds, between the moment a campaign is created and its
/// end: thirty days.
pub const MAX_ENDING_TIME: u64 = 2_592_000;

/// Smallest goal a campaign may declare, in base currency units.
pub const MIN_GOAL: u64 = 1;

/// Smallest length of a campaign title, in bytes of its UTF-8 encoding.
pub const MIN_TITLE_LENGTH: usize = 10;

} // verus!
