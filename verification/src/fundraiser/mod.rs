//! A token fundraiser: a maker sets a target, contributors give within the campaign
//! window, the maker collects once the target is met, and contributors take their
//! tokens back once the window has passed without it.
pub mod constants;
pub mod instructions;
pub mod laws;
pub mod state;

use vstd::prelude::*;

use crate::account::{AccountView, Address, Clock, Rent};
use crate::bytes::address_eq;
use crate::effect::{effects_view, Effect};
use crate::error::ProgramError;
use instructions::checker::{checker_aborts, process_checker_instruction, spec_checker};
use instructions::contribute::{contribute_aborts, process_contribute_instruction, spec_contribute};
use instructions::initialize::{initialize_aborts, process_initialize_instruction, spec_initialize};
use instructions::refund::{process_refund_instruction, refund_aborts, spec_refund};
use instructions::FundraiserInstructions;

verus! {

/// The const program ID (`96TFrsG998MvvrfuShRQmSemkzN555pnidGF4gquJsKr`).
pub const ID: Address = [
    120, 67, 22, 98, 110, 201, 187, 203, 87, 237, 248, 37, 203, 199, 49, 23, 134, 97, 209, 76,
    147, 200, 135, 105, 239, 131, 29, 202, 149, 43, 214, 117,
];

/// Returns `true` if given address is the ID.
pub fn check_id(id: &Address) -> (r: bool)
    ensures
        r == (id@ == ID@),
{
    address_eq(id, &ID)
}

/// Returns the ID.
pub fn id() -> (r: Address)
    ensures
        r == ID,
{
    ID
}

/// What the program does with an instruction: `None` where it aborts.
pub open spec fn spec_process_instruction(
    accounts: Seq<AccountView>,
    instruction_data: Seq<u8>,
    rent: Result<Rent, ProgramError>,
    clock: Result<Clock, ProgramError>,
) -> Option<Result<Seq<Effect>, ProgramError>> {
    if instruction_data.len() == 0 {
        Some(Err(ProgramError::InvalidAccountData))
    } else {
        let data = instruction_data.subrange(1, instruction_data.len() as int);
        match FundraiserInstructions::spec_try_from(instruction_data[0]) {
            Err(e) => Some(Err(e)),
            Ok(FundraiserInstructions::Initialize) => spec_initialize(accounts, data, rent),
            Ok(FundraiserInstructions::Contributor) => spec_contribute(accounts, data, rent, clock),
            Ok(FundraiserInstructions::Checker) => spec_checker(accounts, data),
            Ok(FundraiserInstructions::Refund) => spec_refund(accounts, data, clock),
        }
    }
}

/// Routes an instruction to its handler by its first byte. The runtime must have
/// invoked this program (the program panics otherwise), and the instruction must be one
/// on which the program does not abort (see [`instruction_aborts`]).
pub fn process_instruction(
    program_id: &Address,
    accounts: &[AccountView],
    instruction_data: &[u8],
    rent: Result<Rent, ProgramError>,
    clock: Result<Clock, ProgramError>,
) -> (r: Result<Vec<Effect>, ProgramError>)
    requires
        program_id@ == ID@,
        spec_process_instruction(accounts@, instruction_data@, rent, clock) is Some,
    ensures
        Some(effects_view(r)) == spec_process_instruction(
            accounts@,
            instruction_data@,
            rent,
            clock,
        ),
{
    if instruction_data.len() == 0 {
        return Err(ProgramError::InvalidAccountData);
    }
    let discriminator = instruction_data[0];
    let (_, data) = instruction_data.split_at(1);
    match FundraiserInstructions::try_from(&discriminator)? {
        FundraiserInstructions::Initialize => process_initialize_instruction(accounts, data, rent),
        FundraiserInstructions::Contributor => process_contribute_instruction(
            accounts,
            data,
            rent,
            clock,
        ),
        FundraiserInstructions::Checker => process_checker_instruction(accounts, data),
        FundraiserInstructions::Refund => process_refund_instruction(accounts, data, clock),
    }
}

/// Whether the program aborts on the instruction: a power of ten, a cap or a time
/// difference that overflows, or a transfer of balance that would overflow the receiver's.
pub fn instruction_aborts(
    accounts: &[AccountView],
    instruction_data: &[u8],
    rent: Result<Rent, ProgramError>,
    clock: Result<Clock, ProgramError>,
) -> (r: bool)
    ensures
        r == (spec_process_instruction(accounts@, instruction_data@, rent, clock) is None),
{
    if instruction_data.len() == 0 {
        return false;
    }
    let discriminator = instruction_data[0];
    let (_, data) = instruction_data.split_at(1);
    match FundraiserInstructions::try_from(&discriminator) {
        Ok(FundraiserInstructions::Initialize) => initialize_aborts(accounts, data, rent),
        Ok(FundraiserInstructions::Contributor) => contribute_aborts(accounts, data, rent, clock),
        Ok(FundraiserInstructions::Checker) => checker_aborts(accounts, data),
        Ok(FundraiserInstructions::Refund) => refund_aborts(accounts, data, clock),
        Err(_) => false,
    }
}

/// Runs an instruction: `None` where the program aborts on it, the program's outcome
/// otherwise. The runtime must have invoked this program (the program panics otherwise).
pub fn run(
    program_id: &Address,
    accounts: &[AccountView],
    instruction_data: &[u8],
    rent: Result<Rent, ProgramError>,
    clock: Result<Clock, ProgramError>,
) -> (r: Option<Result<Vec<Effect>, ProgramError>>)
    requires
        program_id@ == ID@,
    ensures
        r is None <==> spec_process_instruction(accounts@, instruction_data@, rent, clock) is None,
        r matches Some(outcome) ==> Some(effects_view(outcome)) == spec_process_instruction(
            accounts@,
            instruction_data@,
            rent, clock,
        ),
{
    if instruction_aborts(accounts, instruction_data, rent, clock) {
        None
    } else {
        Some(process_instruction(program_id, accounts, instruction_data, rent, clock))
    }
}

} // verus!
