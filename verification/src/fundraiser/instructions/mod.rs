pub mod checker;
pub mod contribute;
pub mod initialize;
pub mod refund;

use vstd::prelude::*;

use crate::account::{AccountView, Address};
use crate::bytes::{le_i64, le_u64};
use crate::error::ProgramError;
use crate::pda::{PdaSeeds, SeedPrefix};
use super::constants::{MAX_CONTRIBUTION_PERCENTAGE, PERCENTAGE_SCALER, SECONDS_TO_DAYS};

verus! {

/// Instruction discriminator enum.
///
/// The first byte of `instruction_data` in `process_instruction` is used
/// to select which handler is invoked: 0, 1, 2, 3.
#[derive(Clone, Copy, Debug, PartialEq, Eq, Structural)]
pub enum FundraiserInstructions {
    Initialize,
    Contributor,
    Checker,
    Refund,
}

impl FundraiserInstructions {
    pub open spec fn spec_try_from(value: u8) -> Result<FundraiserInstructions, ProgramError> {
        if value == 0 {
            Ok(FundraiserInstructions::Initialize)
        } else if value == 1 {
            Ok(FundraiserInstructions::Contributor)
        } else if value == 2 {
            Ok(FundraiserInstructions::Checker)
        } else if value == 3 {
            Ok(FundraiserInstructions::Refund)
        } else {
            Err(ProgramError::InvalidInstructionData)
        }
    }

    pub fn try_from(value: &u8) -> (r: Result<FundraiserInstructions, ProgramError>)
        ensures
            r == Self::spec_try_from(*value),
    {
        match *value {
            0 => Ok(FundraiserInstructions::Initialize),
            1 => Ok(FundraiserInstructions::Contributor),
            2 => Ok(FundraiserInstructions::Checker),
            3 => Ok(FundraiserInstructions::Refund),
            _ => Err(ProgramError::InvalidInstructionData),
        }
    }
}

/// The seeds of the campaign of `maker`: `["fundraiser", maker, bump]`.
pub open spec fn spec_fundraiser_seeds(maker: Address, bump: u8) -> PdaSeeds {
    PdaSeeds { prefix: SeedPrefix::Fundraiser, key: maker, seed: None, bump }
}

pub fn fundraiser_seeds(maker: &Address, bump: u8) -> (r: PdaSeeds)
    ensures
        r == spec_fundraiser_seeds(*maker, bump),
{
    PdaSeeds { prefix: SeedPrefix::Fundraiser, key: *maker, seed: None, bump }
}

/// The seeds of the record of `contributor`: `["contributor", contributor, bump]`.
pub open spec fn spec_contributor_seeds(contributor: Address, bump: u8) -> PdaSeeds {
    PdaSeeds { prefix: SeedPrefix::Contributor, key: contributor, seed: None, bump }
}

pub fn contributor_seeds(contributor: &Address, bump: u8) -> (r: PdaSeeds)
    ensures
        r == spec_contributor_seeds(*contributor, bump),
{
    PdaSeeds { prefix: SeedPrefix::Contributor, key: *contributor, seed: None, bump }
}

/// The target of the campaign whose account data is `data`.
pub open spec fn spec_target(data: Seq<u8>) -> u64 {
    le_u64(data.subrange(64, 72)) as u64
}

/// The amount collected so far by the campaign whose account data is `data`.
pub open spec fn spec_current(data: Seq<u8>) -> u64 {
    le_u64(data.subrange(72, 80)) as u64
}

/// The start time of the campaign whose account data is `data`.
pub open spec fn spec_time_started(data: Seq<u8>) -> i64 {
    le_i64(data.subrange(80, 88)) as i64
}

/// The duration, in days, of the campaign whose account data is `data`.
pub open spec fn spec_duration(data: Seq<u8>) -> u8 {
    data[88]
}

/// Ten to the power `e`.
pub open spec fn pow10(e: nat) -> nat
    decreases e,
{
    if e == 0 {
        1
    } else {
        10 * pow10((e - 1) as nat)
    }
}

proof fn lemma_pow10_monotonic(i: nat, j: nat)
    requires
        i <= j,
    ensures
        pow10(i) <= pow10(j),
    decreases j,
{
    if i < j {
        lemma_pow10_monotonic(i, (j - 1) as nat);
    }
}

/// `10u64.pow(exp)`, where the power fits in a `u64` (up to exponent 19).
pub fn checked_pow10(exp: u8) -> (r: Option<u64>)
    ensures
        r == (if pow10(exp as nat) <= u64::MAX {
            Some(pow10(exp as nat) as u64)
        } else {
            None::<u64>
        }),
{
    proof {
        reveal_with_fuel(pow10, 21);
        assert(pow10(19) == 10_000_000_000_000_000_000);
        assert(pow10(20) == 100_000_000_000_000_000_000);
    }
    if exp >= 20 {
        proof {
            lemma_pow10_monotonic(20, exp as nat);
        }
        return None;
    }
    let mut v: u64 = 1;
    let mut i: u8 = 0;
    while i < exp
        invariant
            i <= exp,
            exp < 20,
            v == pow10(i as nat),
            pow10(19) == 10_000_000_000_000_000_000,
        decreases exp - i,
    {
        proof {
            lemma_pow10_monotonic(i as nat, 18);
        }
        v = v * 10;
        i = i + 1;
    }
    proof {
        lemma_pow10_monotonic(exp as nat, 19);
    }
    Some(v)
}

/// Whole days from `started` to `now`, rounded toward zero (negative before the start),
/// as `(now - started) / SECONDS_TO_DAYS` computes it.
pub open spec fn spec_elapsed_days(now: i64, started: i64) -> int {
    let d = now - started;
    if d >= 0 {
        d / (SECONDS_TO_DAYS as int)
    } else {
        -((-d) / (SECONDS_TO_DAYS as int))
    }
}

/// Whether `now - started` fits in an `i64`.
pub open spec fn spec_time_fits(now: i64, started: i64) -> bool {
    i64::MIN <= now - started <= i64::MAX
}

/// Whole days from `started` to `now`, rounded toward zero.
pub fn elapsed_days(now: i64, started: i64) -> (r: i64)
    requires
        spec_time_fits(now, started),
    ensures
        r == spec_elapsed_days(now, started),
{
    (now - started) / SECONDS_TO_DAYS
}

/// The largest amount one contributor may give in all: a tenth of the target, rounded
/// down.
pub open spec fn spec_cap(target: u64) -> u64 {
    ((target * MAX_CONTRIBUTION_PERCENTAGE) / PERCENTAGE_SCALER as int) as u64
}

pub fn contribution_cap(target: u64) -> (r: u64)
    requires
        target * MAX_CONTRIBUTION_PERCENTAGE <= u64::MAX,
    ensures
        r == spec_cap(target),
        r == target * 10 / 100,
{
    (target * MAX_CONTRIBUTION_PERCENTAGE) / PERCENTAGE_SCALER
}

/// The cap is a tenth of the target, rounded down, for every target whose tenfold fits
/// in a `u64`.
pub proof fn law_cap_is_a_tenth(target: u64)
    requires
        target * 10 <= u64::MAX,
    ensures
        spec_cap(target) == target * 10 / 100,
        spec_cap(target) <= target,
{
}

} // verus!
