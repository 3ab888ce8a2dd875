//! A counter that its authority creates, increments and decrements.
pub mod error;
pub mod instructions;
pub mod laws;
pub mod state;

use vstd::prelude::*;

use crate::account::{AccountView, Address, Rent};
use crate::bytes::address_eq;
use crate::effect::Effect;
use crate::error::ProgramError;
use instructions::decrement::{process_decrement_instruction, spec_decrement};
use instructions::increment::{process_increment_instruction, spec_increment};
use instructions::initialize::{process_initialize_instruction, spec_initialize};
use instructions::CounterInstruction;

verus! {

/// The counter program's address (`DM5R2269qS18hfHq54eHqZSEMkajVQDFgxn3UuYYhCJP`).
pub const ID: Address = [
    183, 112, 217, 175, 90, 121, 56, 5, 139, 253, 232, 180, 125, 107, 90, 237, 108, 129, 174, 203,
    114, 41, 25, 183, 110, 124, 233, 239, 133, 144, 6, 140,
];

/// Returns `true` if given address is the ID.
pub fn check_id(id: &Address) -> (r: bool)
    ensures
        r == (id@ == ID@),
{
    address_eq(id, &ID)
}

/// Returns the ID.
pub fn id() -> (r: Address)
    ensures
        r == ID,
{
    ID
}

/// What the program does with an instruction.
pub open spec fn spec_process_instruction(
    accounts: Seq<AccountView>,
    instruction_data: Seq<u8>,
    rent: Result<Rent, ProgramError>,
) -> Result<Seq<Effect>, ProgramError> {
    if instruction_data.len() == 0 {
        Err(ProgramError::InvalidAccountData)
    } else {
        let data = instruction_data.subrange(1, instruction_data.len() as int);
        match CounterInstruction::spec_try_from(instruction_data[0]) {
            Err(e) => Err(e),
            Ok(CounterInstruction::Initialize) => spec_initialize(accounts, data, rent),
            Ok(CounterInstruction::Increment) => spec_increment(accounts, data),
            Ok(CounterInstruction::Decrement) => spec_decrement(accounts, data),
        }
    }
}

/// Routes an instruction to its handler by its first byte. The runtime must have
/// invoked this program (the program panics otherwise).
pub fn process_instruction(
    program_id: &Address,
    accounts: &[AccountView],
    instruction_data: &[u8],
    rent: Result<Rent, ProgramError>,
) -> (r: Result<Vec<Effect>, ProgramError>)
    requires
        program_id@ == ID@,
    ensures
        crate::effect::effects_view(r) == spec_process_instruction(
            accounts@,
            instruction_data@,
            rent,
        ),
{
    if instruction_data.len() == 0 {
        return Err(ProgramError::InvalidAccountData);
    }
    let discriminator = instruction_data[0];
    let (_, data) = instruction_data.split_at(1);
    match CounterInstruction::try_from(&discriminator)? {
        CounterInstruction::Initialize => process_initialize_instruction(accounts, data, rent),
        CounterInstruction::Increment => process_increment_instruction(accounts, data),
        CounterInstruction::Decrement => process_decrement_instruction(accounts, data),
    }
}

} // verus!
