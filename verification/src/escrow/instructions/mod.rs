pub mod make;
pub mod refund;
pub mod take;

use vstd::prelude::*;

use crate::account::{AccountView, Address};
use crate::bytes::{address_eq, le_u64, read_u64_le};
use crate::error::ProgramError;
use crate::pda::{PdaSeeds, SeedPrefix};
use super::state::Escrow;

verus! {

/// The instructions of the escrow program, by their first byte: 0, 1, 2.
#[derive(Clone, Copy, Debug, PartialEq, Eq, Structural)]
pub enum EscrowInstruction {
    Make,
    Take,
    Refund,
}

impl EscrowInstruction {
    pub open spec fn spec_try_from(value: u8) -> Result<EscrowInstruction, ProgramError> {
        if value == 0 {
            Ok(EscrowInstruction::Make)
        } else if value == 1 {
            Ok(EscrowInstruction::Take)
        } else if value == 2 {
            Ok(EscrowInstruction::Refund)
        } else {
            Err(ProgramError::InvalidInstructionData)
        }
    }

    pub fn try_from(value: &u8) -> (r: Result<EscrowInstruction, ProgramError>)
        ensures
            r == Self::spec_try_from(*value),
    {
        match *value {
            0 => Ok(EscrowInstruction::Make),
            1 => Ok(EscrowInstruction::Take),
            2 => Ok(EscrowInstruction::Refund),
            _ => Err(ProgramError::InvalidInstructionData),
        }
    }
}

/// The seeds of the escrow of `maker` numbered `seed`: `["escrow", maker, seed (8 bytes,
/// little endian), bump]`.
pub open spec fn spec_escrow_seeds(maker: Address, seed: u64, bump: u8) -> PdaSeeds {
    PdaSeeds { prefix: SeedPrefix::Escrow, key: maker, seed: Some(seed), bump }
}

pub fn escrow_seeds(maker: &Address, seed: u64, bump: u8) -> (r: PdaSeeds)
    ensures
        r == spec_escrow_seeds(*maker, seed, bump),
{
    PdaSeeds { prefix: SeedPrefix::Escrow, key: *maker, seed: Some(seed), bump }
}

/// Check that the escrow account holds an escrow made by `maker`.
pub open spec fn spec_check_escrow_maker(escrow: AccountView, maker: Address) -> Result<(), ProgramError> {
    if escrow.data@.len() != Escrow::LEN {
        Err(ProgramError::InvalidAccountData)
    } else if escrow.data@.subrange(8, 40) != maker@ {
        Err(ProgramError::InvalidAccountData)
    } else {
        Ok(())
    }
}

/// The amount of mint_a that the escrow in an account's data holds (bytes 104..112).
pub open spec fn spec_stored_amount_a(escrow: AccountView) -> u64 {
    le_u64(escrow.data@.subrange(104, 112)) as u64
}

/// The amount of mint_b that the escrow in an account's data asks for (bytes 112..120).
pub open spec fn spec_stored_amount_b(escrow: AccountView) -> u64 {
    le_u64(escrow.data@.subrange(112, 120)) as u64
}

/// The deposited and requested amounts of the escrow in an account's data.
pub fn stored_amounts(escrow: &AccountView) -> (r: (u64, u64))
    requires
        escrow.data@.len() == Escrow::LEN,
    ensures
        r.0 == spec_stored_amount_a(*escrow),
        r.1 == spec_stored_amount_b(*escrow),
{
    let data = escrow.data.as_slice();
    (read_u64_le(data, 104), read_u64_le(data, 112))
}

pub fn check_escrow_maker(escrow: &AccountView, maker: &Address) -> (r: Result<(), ProgramError>)
    ensures
        r == spec_check_escrow_maker(*escrow, *maker),
{
    let escrow_data = Escrow::from_account_info(escrow)?;
    proof {
        assert(escrow_data.spec_bytes().subrange(8, 40) =~= escrow_data.maker@);
        assert(escrow.data@.subrange(8, 40) =~= escrow.data@.subrange(0, 121).subrange(8, 40));
    }
    if !address_eq(&escrow_data.maker(), maker) {
        return Err(ProgramError::InvalidAccountData);
    }
    Ok(())
}

} // verus!
