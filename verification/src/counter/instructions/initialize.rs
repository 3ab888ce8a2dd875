use vstd::prelude::*;

use crate::account::{
    check_accounts_len, check_data_len, check_pda, check_signer, check_writable,
    spec_minimum_balance, AccountView, Rent,
};
use crate::bytes::le_array;
use crate::effect::{effects_view, Effect, State};
use crate::error::ProgramError;
use super::super::state::Counter;
use super::super::ID;
use super::{counter_seeds, spec_counter_seeds};

verus! {

/// What `initialize` does with accounts `[authority (signer, writable), counter
/// (writable, at the counter address of authority and the bump in data[0]),
/// system program]`: creates the counter account, owned by the program and paid by the
/// authority, and stores a count of zero for the authority.
pub open spec fn spec_initialize(
    accounts: Seq<AccountView>,
    data: Seq<u8>,
    rent: Result<Rent, ProgramError>,
) -> Result<Seq<Effect>, ProgramError> {
    if accounts.len() != 3 {
        Err(ProgramError::NotEnoughAccountKeys)
    } else if data.len() < 1 {
        Err(ProgramError::InvalidArgument)
    } else if !accounts[0].is_writable {
        Err(ProgramError::InvalidAccountData)
    } else if !accounts[0].is_signer {
        Err(ProgramError::MissingRequiredSignature)
    } else if !accounts[1].is_writable {
        Err(ProgramError::InvalidAccountData)
    } else if accounts[1].address@ != spec_counter_seeds(accounts[0].address, data[0]).spec_address(
        ID@,
    ) {
        Err(ProgramError::InvalidArgument)
    } else if accounts[1].owner@ == ID@ {
        Err(ProgramError::AccountAlreadyInitialized)
    } else {
        match rent {
            Err(e) => Err(e),
            Ok(rent) => match spec_minimum_balance(rent, Counter::LEN as int) {
                Err(e) => Err(e),
                Ok(lamports) => Ok(
                    seq![
                        Effect::CreateAccount {
                            from: 0,
                            to: 1,
                            lamports,
                            space: Counter::LEN as u64,
                            owner: ID,
                            signer: spec_counter_seeds(accounts[0].address, data[0]),
                        },
                        Effect::Store {
                            account: 1,
                            state: State::Counter(
                                Counter {
                                    authority: accounts[0].address,
                                    count: le_array(0),
                                    bump: data[0],
                                },
                            ),
                        },
                    ],
                ),
            },
        }
    }
}

/// Creates the counter of the signing authority, at zero.
pub fn process_initialize_instruction(
    accounts: &[AccountView],
    data: &[u8],
    rent: Result<Rent, ProgramError>,
) -> (r: Result<Vec<Effect>, ProgramError>)
    ensures
        effects_view(r) == spec_initialize(accounts@, data@, rent),
{
    check_accounts_len(accounts, 3)?;
    check_data_len(data, 1)?;
    let bump = data[0];
    let authority = &accounts[0];
    let counter = &accounts[1];
    check_writable(authority)?;
    check_signer(authority)?;
    check_writable(counter)?;
    let seeds = counter_seeds(&authority.address, bump);
    check_pda(counter, &seeds, &ID)?;
    if counter.owned_by(&ID) {
        return Err(ProgramError::AccountAlreadyInitialized);
    }
    let lamports = rent?.try_minimum_balance(Counter::LEN)?;
    let mut counter_data = Counter { authority: [0u8; 32], count: [0u8; 8], bump: 0 };
    counter_data.set_authority(&authority.address);
    counter_data.set_count(0);
    counter_data.bump = bump;
    let effects = vec![
        Effect::CreateAccount {
            from: 0,
            to: 1,
            lamports,
            space: Counter::LEN as u64,
            owner: ID,
            signer: seeds,
        },
        Effect::Store { account: 1, state: State::Counter(counter_data) },
    ];
    assert(effects@ =~= spec_initialize(accounts@, data@, rent)->Ok_0);
    Ok(effects)
}

} // verus!
