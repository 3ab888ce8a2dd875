use vstd::prelude::*;

use crate::account::{
    check_accounts_len, check_data_len, check_pda, check_signer, check_writable,
    spec_minimum_balance, AccountView, Rent,
};
use crate::bytes::{le_array, le_array_i64, le_i64, le_u64, read_i64_le, read_u64_le};
use crate::effect::{effects_view, Effect, State};
use crate::error::ProgramError;
use super::super::constants::MIN_AMOUNT_TO_RAISE;
use super::super::state::Fundraiser;
use super::super::ID;
use super::{checked_pow10, fundraiser_seeds, pow10, spec_fundraiser_seeds};

verus! {

/// What `initialize` does with accounts `[maker (signer, writable), mint_to_raise,
/// fundraiser (writable, at the campaign address of maker and bump), vault (writable),
/// system program, token program, associated token program]` and data `amount_to_raise
/// (0..8) time_started (8..16) duration (16) bump (17)`: rejects a target below
/// `MIN_AMOUNT_TO_RAISE` whole tokens of the mint (whose decimals are byte 44 of its
/// data), creates the campaign account paid by the maker with nothing collected, and
/// creates the vault as the campaign's token account of the mint. `None` where ten to
/// the mint's decimals overflows a `u64`: the program aborts there.
pub open spec fn spec_initialize(
    accounts: Seq<AccountView>,
    data: Seq<u8>,
    rent: Result<Rent, ProgramError>,
) -> Option<Result<Seq<Effect>, ProgramError>> {
    match spec_check_initialize(accounts, data) {
        Err(e) => Some(Err(e)),
        Ok(_) => {
        let amount_to_raise = le_u64(data.subrange(0, 8)) as u64;
        let time_started = le_i64(data.subrange(8, 16)) as i64;
        let duration = data[16];
        let bump = data[17];
        let seeds = spec_fundraiser_seeds(accounts[0].address, bump);
        if pow10(accounts[1].data@[44] as nat) > u64::MAX {
            None
        } else if MIN_AMOUNT_TO_RAISE * pow10(accounts[1].data@[44] as nat) > u64::MAX {
            Some(Err(ProgramError::ArithmeticOverflow))
        } else if amount_to_raise < MIN_AMOUNT_TO_RAISE * pow10(accounts[1].data@[44] as nat) {
            Some(Err(ProgramError::InvalidArgument))
        } else if accounts[2].owner@ == ID@ {
            Some(Err(ProgramError::AccountAlreadyInitialized))
        } else {
            match rent {
                Err(e) => Some(Err(e)),
                Ok(rent) => match spec_minimum_balance(rent, Fundraiser::LEN as int) {
                    Err(e) => Some(Err(e)),
                    Ok(lamports) => Some(
                        Ok(
                            seq![
                                Effect::CreateAccount {
                                    from: 0,
                                    to: 2,
                                    lamports,
                                    space: Fundraiser::LEN as u64,
                                    owner: ID,
                                    signer: seeds,
                                },
                                Effect::Store {
                                    account: 2,
                                    state: State::Fundraiser(
                                        Fundraiser {
                                            maker: accounts[0].address,
                                            mint_to_raise: accounts[1].address,
                                            amount_to_raise: le_array(amount_to_raise),
                                            current_amount: le_array(0),
                                            time_started: le_array_i64(time_started),
                                            duration,
                                            bump,
                                        },
                                    ),
                                },
                                Effect::CreateAssociatedTokenAccount {
                                    funding_account: 0,
                                    account: 3,
                                    wallet: 2,
                                    mint: 1,
                                    system_program: 4,
                                    token_program: 5,
                                },
                            ],
                        ),
                    ),
                },
            }
        }
        },
    }
}

/// The checks `initialize` makes before it reads the mint's decimals.
pub open spec fn spec_check_initialize(accounts: Seq<AccountView>, data: Seq<u8>) -> Result<
    (),
    ProgramError,
> {
    if accounts.len() != 7 {
        Err(ProgramError::NotEnoughAccountKeys)
    } else if data.len() < 18 {
        Err(ProgramError::InvalidArgument)
    } else if !accounts[0].is_writable {
        Err(ProgramError::InvalidAccountData)
    } else if !accounts[0].is_signer {
        Err(ProgramError::MissingRequiredSignature)
    } else if !accounts[2].is_writable {
        Err(ProgramError::InvalidAccountData)
    } else if accounts[2].address@ != spec_fundraiser_seeds(accounts[0].address, data[17]).spec_address(
        ID@,
    ) {
        Err(ProgramError::InvalidArgument)
    } else if !accounts[3].is_writable {
        Err(ProgramError::InvalidAccountData)
    } else if accounts[1].data@.len() < 45 {
        Err(ProgramError::InvalidAccountData)
    } else {
        Ok(())
    }
}

/// Makes the checks of `initialize` up to the mint's decimals.
pub fn check_initialize(accounts: &[AccountView], data: &[u8]) -> (r: Result<(), ProgramError>)
    ensures
        r == spec_check_initialize(accounts@, data@),
{
    check_accounts_len(accounts, 7)?;
    check_data_len(data, 18)?;
    let bump = data[17];
    let maker = &accounts[0];
    let mint_to_raise = &accounts[1];
    let fundraiser = &accounts[2];
    let vault = &accounts[3];
    check_writable(maker)?;
    check_signer(maker)?;
    check_writable(fundraiser)?;
    let seeds = fundraiser_seeds(&maker.address, bump);
    check_pda(fundraiser, &seeds, &ID)?;
    check_writable(vault)?;
    if mint_to_raise.data.len() < 45 {
        return Err(ProgramError::InvalidAccountData);
    }
    Ok(())
}

/// Whether the program aborts on `initialize`: ten to the mint's decimals overflows.
pub fn initialize_aborts(
    accounts: &[AccountView],
    data: &[u8],
    rent: Result<Rent, ProgramError>,
) -> (r: bool)
    ensures
        r == (spec_initialize(accounts@, data@, rent) is None),
{
    if check_initialize(accounts, data).is_err() {
        return false;
    }
    checked_pow10(accounts[1].data[44]).is_none()
}

/// Creates and initialises a new fundraiser campaign.
pub fn process_initialize_instruction(
    accounts: &[AccountView],
    data: &[u8],
    rent: Result<Rent, ProgramError>,
) -> (r: Result<Vec<Effect>, ProgramError>)
    requires
        spec_initialize(accounts@, data@, rent) is Some,
    ensures
        Some(effects_view(r)) == spec_initialize(accounts@, data@, rent),
{
    check_initialize(accounts, data)?;
    let amount_to_raise = read_u64_le(data, 0);
    let time_started = read_i64_le(data, 8);
    let duration = data[16];
    let bump = data[17];
    let maker = &accounts[0];
    let mint_to_raise = &accounts[1];
    let fundraiser = &accounts[2];
    let seeds = fundraiser_seeds(&maker.address, bump);
    let decimals = mint_to_raise.data[44];
    let unit = match checked_pow10(decimals) {
        Some(unit) => unit,
        None => vstd::pervasive::unreached(),
    };
    let scaled_min = match MIN_AMOUNT_TO_RAISE.checked_mul(unit) {
        Some(min) => min,
        None => return Err(ProgramError::ArithmeticOverflow),
    };
    if amount_to_raise < scaled_min {
        return Err(ProgramError::InvalidArgument);
    }
    if fundraiser.owned_by(&ID) {
        return Err(ProgramError::AccountAlreadyInitialized);
    }
    let lamports = rent?.try_minimum_balance(Fundraiser::LEN)?;
    let mut fundraiser_data = Fundraiser {
        maker: [0u8; 32],
        mint_to_raise: [0u8; 32],
        amount_to_raise: [0u8; 8],
        current_amount: [0u8; 8],
        time_started: [0u8; 8],
        duration: 0,
        bump: 0,
    };
    fundraiser_data.set_maker(&maker.address);
    fundraiser_data.set_mint_to_raise(&mint_to_raise.address);
    fundraiser_data.set_amount_to_raise(amount_to_raise);
    fundraiser_data.set_current_amount(0);
    fundraiser_data.set_time_started(time_started);
    fundraiser_data.duration = duration;
    fundraiser_data.bump = bump;
    let effects = vec![
        Effect::CreateAccount {
            from: 0,
            to: 2,
            lamports,
            space: Fundraiser::LEN as u64,
            owner: ID,
            signer: seeds,
        },
        Effect::Store { account: 2, state: State::Fundraiser(fundraiser_data) },
        Effect::CreateAssociatedTokenAccount {
            funding_account: 0,
            account: 3,
            wallet: 2,
            mint: 1,
            system_program: 4,
            token_program: 5,
        },
    ];
    assert(effects@ =~= spec_initialize(accounts@, data@, rent)->Some_0->Ok_0);
    Ok(effects)
}

} // verus!
