//! A token escrow: a maker deposits tokens of one mint and asks for tokens of another;
//! a taker completes the exchange, or the maker takes the deposit back.
pub mod error;
pub mod instructions;
pub mod laws;
pub mod state;

use vstd::prelude::*;

use crate::account::{AccountView, Address, Rent};
use crate::bytes::address_eq;
use crate::effect::{effects_view, Effect};
use crate::error::ProgramError;
use instructions::make::{process_make_instruction, spec_make};
use instructions::refund::{process_refund_instruction, refund_aborts, spec_refund};
use instructions::take::{process_take_instruction, spec_take, take_aborts};
use instructions::EscrowInstruction;

verus! {

/// The escrow program's address (`FDYpkuY64WaazRCsReFHTc32VeQwBxyev5DfUqBhwySA`).
pub const ID: Address = [
    211, 58, 145, 203, 53, 73, 95, 111, 26, 118, 133, 62, 146, 120, 36, 212, 171, 157, 232, 100,
    169, 23, 80, 115, 236, 141, 4, 251, 120, 228, 122, 67,
];

/// Returns `true` if given address is the ID.
pub fn check_id(id: &Address) -> (r: bool)
    ensures
        r == (id@ == ID@),
{
    address_eq(id, &ID)
}

/// Returns the ID.
pub fn id() -> (r: Address)
    ensures
        r == ID,
{
    ID
}

/// What the program does with an instruction: `None` where it aborts.
pub open spec fn spec_process_instruction(
    accounts: Seq<AccountView>,
    instruction_data: Seq<u8>,
    rent: Result<Rent, ProgramError>,
) -> Option<Result<Seq<Effect>, ProgramError>> {
    if instruction_data.len() == 0 {
        Some(Err(ProgramError::InvalidAccountData))
    } else {
        let data = instruction_data.subrange(1, instruction_data.len() as int);
        match EscrowInstruction::spec_try_from(instruction_data[0]) {
            Err(e) => Some(Err(e)),
            Ok(EscrowInstruction::Make) => Some(spec_make(accounts, data, rent)),
            Ok(EscrowInstruction::Take) => spec_take(accounts, data),
            Ok(EscrowInstruction::Refund) => spec_refund(accounts, data),
        }
    }
}

/// Routes an instruction to its handler by its first byte. The runtime must have
/// invoked this program (the program panics otherwise), and the instruction must be one
/// on which the program does not abort (see [`instruction_aborts`]).
pub fn process_instruction(
    program_id: &Address,
    accounts: &[AccountView],
    instruction_data: &[u8],
    rent: Result<Rent, ProgramError>,
) -> (r: Result<Vec<Effect>, ProgramError>)
    requires
        program_id@ == ID@,
        spec_process_instruction(accounts@, instruction_data@, rent) is Some,
    ensures
        Some(effects_view(r)) == spec_process_instruction(accounts@, instruction_data@, rent),
{
    if instruction_data.len() == 0 {
        return Err(ProgramError::InvalidAccountData);
    }
    let discriminator = instruction_data[0];
    let (_, data) = instruction_data.split_at(1);
    match EscrowInstruction::try_from(&discriminator)? {
        EscrowInstruction::Make => process_make_instruction(accounts, data, rent),
        EscrowInstruction::Take => process_take_instruction(accounts, data),
        EscrowInstruction::Refund => process_refund_instruction(accounts, data),
    }
}

/// Whether the program aborts on the instruction: a take or refund whose transfer of the
/// escrow's balance would overflow the maker's.
pub fn instruction_aborts(
    accounts: &[AccountView],
    instruction_data: &[u8],
    rent: Result<Rent, ProgramError>,
) -> (r: bool)
    ensures
        r == (spec_process_instruction(accounts@, instruction_data@, rent) is None),
{
    if instruction_data.len() == 0 {
        return false;
    }
    let discriminator = instruction_data[0];
    let (_, data) = instruction_data.split_at(1);
    match EscrowInstruction::try_from(&discriminator) {
        Ok(EscrowInstruction::Take) => take_aborts(accounts, data),
        Ok(EscrowInstruction::Refund) => refund_aborts(accounts, data),
        _ => false,
    }
}

/// Runs an instruction: `None` where the program aborts on it, the program's outcome
/// otherwise. The runtime must have invoked this program (the program panics otherwise).
pub fn run(
    program_id: &Address,
    accounts: &[AccountView],
    instruction_data: &[u8],
    rent: Result<Rent, ProgramError>,
) -> (r: Option<Result<Vec<Effect>, ProgramError>>)
    requires
        program_id@ == ID@,
    ensures
        r is None <==> spec_process_instruction(accounts@, instruction_data@, rent) is None,
        r matches Some(outcome) ==> Some(effects_view(outcome)) == spec_process_instruction(
            accounts@,
            instruction_data@,
            rent,
        ),
{
    if instruction_aborts(accounts, instruction_data, rent) {
        None
    } else {
        Some(process_instruction(program_id, accounts, instruction_data, rent))
    }
}

} // verus!
