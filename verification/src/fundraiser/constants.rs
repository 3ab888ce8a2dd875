use vstd::prelude::*;

verus! {

/// Minimum amount (in token base units, before decimal scaling) that a fundraiser must target.
pub const MIN_AMOUNT_TO_RAISE: u64 = 3;

/// Number of seconds in one day, used to convert timestamps to a day-based duration.
pub const SECONDS_TO_DAYS: i64 = 86400;

/// Maximum single-contribution size as a percentage of the fundraiser's target amount.
pub const MAX_CONTRIBUTION_PERCENTAGE: u64 = 10;

/// Divisor used when computing percentage-based limits.
pub const PERCENTAGE_SCALER: u64 = 100;

} // verus!
