pub mod decrement;
pub mod increment;
pub mod initialize;

use vstd::prelude::*;

use crate::account::{
    check_accounts_len, check_data_len, check_pda, check_signer, check_writable, AccountView,
    Address,
};
use crate::bytes::{address_eq, le_u64};
use crate::error::ProgramError;
use crate::pda::{PdaSeeds, SeedPrefix};
use super::state::Counter;
use super::ID;

verus! {

/// The instructions of the counter program, by their first byte: 0, 1, 2.
#[derive(Clone, Copy, Debug, PartialEq, Eq, Structural)]
pub enum CounterInstruction {
    Initialize,
    Increment,
    Decrement,
}

impl CounterInstruction {
    pub open spec fn spec_try_from(value: u8) -> Result<CounterInstruction, ProgramError> {
        if value == 0 {
            Ok(CounterInstruction::Initialize)
        } else if value == 1 {
            Ok(CounterInstruction::Increment)
        } else if value == 2 {
            Ok(CounterInstruction::Decrement)
        } else {
            Err(ProgramError::InvalidInstructionData)
        }
    }

    pub fn try_from(value: &u8) -> (r: Result<CounterInstruction, ProgramError>)
        ensures
            r == Self::spec_try_from(*value),
    {
        match *value {
            0 => Ok(CounterInstruction::Initialize),
            1 => Ok(CounterInstruction::Increment),
            2 => Ok(CounterInstruction::Decrement),
            _ => Err(ProgramError::InvalidInstructionData),
        }
    }
}

/// The seeds of the counter of `authority`: `["counter", authority, bump]`.
pub open spec fn spec_counter_seeds(authority: Address, bump: u8) -> PdaSeeds {
    PdaSeeds { prefix: SeedPrefix::Counter, key: authority, seed: None, bump }
}

pub fn counter_seeds(authority: &Address, bump: u8) -> (r: PdaSeeds)
    ensures
        r == spec_counter_seeds(*authority, bump),
{
    PdaSeeds { prefix: SeedPrefix::Counter, key: *authority, seed: None, bump }
}

/// The checks that increment and decrement make before they change the count: accounts
/// `[authority (signer), counter (writable, at the counter address of authority and the
/// bump in data[0])]`, a counter of the right size whose stored authority is the signer.
pub open spec fn spec_check_update(accounts: Seq<AccountView>, data: Seq<u8>) -> Result<(), ProgramError> {
    if accounts.len() != 2 {
        Err(ProgramError::NotEnoughAccountKeys)
    } else if data.len() < 1 {
        Err(ProgramError::InvalidArgument)
    } else if !accounts[0].is_signer {
        Err(ProgramError::MissingRequiredSignature)
    } else if !accounts[1].is_writable {
        Err(ProgramError::InvalidAccountData)
    } else if accounts[1].address@ != spec_counter_seeds(accounts[0].address, data[0]).spec_address(
        ID@,
    ) {
        Err(ProgramError::InvalidArgument)
    } else if accounts[1].data@.len() != Counter::LEN {
        Err(ProgramError::InvalidAccountData)
    } else if accounts[1].data@.subrange(0, 32) != accounts[0].address@ {
        Err(ProgramError::InvalidAccountData)
    } else {
        Ok(())
    }
}

/// The count stored in the counter account of an update.
pub open spec fn spec_stored_count(accounts: Seq<AccountView>) -> u64 {
    le_u64(accounts[1].data@.subrange(32, 40)) as u64
}

/// Makes the checks of increment and decrement and reads the counter.
pub fn load_counter(accounts: &[AccountView], data: &[u8]) -> (r: Result<Counter, ProgramError>)
    ensures
        r is Ok <==> spec_check_update(accounts@, data@) is Ok,
        r matches Err(e) ==> spec_check_update(accounts@, data@) == Err::<(), ProgramError>(e),
        r matches Ok(c) ==> c.spec_bytes() == accounts@[1].data@ && c.authority
            == accounts@[0].address && c.spec_count() == spec_stored_count(accounts@),
{
    check_accounts_len(accounts, 2)?;
    check_data_len(data, 1)?;
    let bump = data[0];
    let authority = &accounts[0];
    let counter = &accounts[1];
    check_signer(authority)?;
    check_writable(counter)?;
    let seeds = counter_seeds(&authority.address, bump);
    check_pda(counter, &seeds, &ID)?;
    let counter_data = Counter::from_account_info(counter)?;
    proof {
        assert(counter_data.spec_bytes().subrange(0, 32) =~= counter_data.authority@);
        assert(counter_data.spec_bytes().subrange(32, 40) =~= counter_data.count@);
    }
    if !address_eq(&counter_data.authority(), &authority.address) {
        return Err(ProgramError::InvalidAccountData);
    }
    proof {
        crate::bytes::lemma_array_ext(counter_data.authority, authority.address);
    }
    Ok(counter_data)
}

} // verus!
