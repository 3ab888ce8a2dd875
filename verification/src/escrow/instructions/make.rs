use vstd::prelude::*;

use crate::account::{
    check_accounts_len, check_data_len, check_pda, check_signer, check_token_account,
    check_writable, spec_check_token_account, spec_minimum_balance, AccountView, Rent,
};
use crate::bytes::{le_u64, read_u64_le};
use crate::effect::{effects_view, Effect, State};
use crate::error::ProgramError;
use super::super::state::Escrow;
use super::super::ID;
use super::{escrow_seeds, spec_escrow_seeds};

verus! {

/// What `make` does with accounts `[maker (signer, writable), mint_a, mint_b, escrow
/// (writable, at the escrow address of maker, seed and bump), vault (writable), maker_ata
/// (writable, maker's token account of mint_a), system program, token program,
/// associated token program]` and data `seed (0..8) amount_a (8..16) amount_b (16..24)
/// bump (24)`: creates the escrow account paid by the maker, stores the offer, creates
/// the vault as the escrow's token account of mint_a, and moves amount_a from the maker
/// into it.
pub open spec fn spec_make(
    accounts: Seq<AccountView>,
    data: Seq<u8>,
    rent: Result<Rent, ProgramError>,
) -> Result<Seq<Effect>, ProgramError> {
    if accounts.len() != 9 {
        Err(ProgramError::NotEnoughAccountKeys)
    } else if data.len() < 25 {
        Err(ProgramError::InvalidArgument)
    } else {
        let seed = le_u64(data.subrange(0, 8)) as u64;
        let amount_a = le_u64(data.subrange(8, 16)) as u64;
        let amount_b = le_u64(data.subrange(16, 24)) as u64;
        let bump = data[24];
        let seeds = spec_escrow_seeds(accounts[0].address, seed, bump);
        if !accounts[0].is_writable {
            Err(ProgramError::InvalidAccountData)
        } else if !accounts[0].is_signer {
            Err(ProgramError::MissingRequiredSignature)
        } else if !accounts[3].is_writable {
            Err(ProgramError::InvalidAccountData)
        } else if accounts[3].address@ != seeds.spec_address(ID@) {
            Err(ProgramError::InvalidArgument)
        } else if !accounts[4].is_writable {
            Err(ProgramError::InvalidAccountData)
        } else if !accounts[5].is_writable {
            Err(ProgramError::InvalidAccountData)
        } else if spec_check_token_account(
            accounts[5],
            accounts[0].address@,
            accounts[1].address@,
        ) is Err {
            Err(spec_check_token_account(accounts[5], accounts[0].address@, accounts[1].address@)->Err_0)
        } else if accounts[3].owner@ == ID@ {
            Err(ProgramError::AccountAlreadyInitialized)
        } else {
            match rent {
                Err(e) => Err(e),
                Ok(rent) => match spec_minimum_balance(rent, Escrow::LEN as int) {
                    Err(e) => Err(e),
                    Ok(lamports) => Ok(
                        seq![
                            Effect::CreateAccount {
                                from: 0,
                                to: 3,
                                lamports,
                                space: Escrow::LEN as u64,
                                owner: ID,
                                signer: seeds,
                            },
                            Effect::Store {
                                account: 3,
                                state: State::Escrow(
                                    Escrow {
                                        seed,
                                        maker: accounts[0].address,
                                        mint_a: accounts[1].address,
                                        mint_b: accounts[2].address,
                                        amount_a,
                                        amount_b,
                                        bump,
                                    },
                                ),
                            },
                            Effect::CreateAssociatedTokenAccount {
                                funding_account: 0,
                                account: 4,
                                wallet: 3,
                                mint: 1,
                                system_program: 6,
                                token_program: 7,
                            },
                            Effect::Transfer {
                                from: 5,
                                to: 4,
                                authority: 0,
                                amount: amount_a,
                                signer: None,
                            },
                        ],
                    ),
                },
            }
        }
    }
}

/// Opens an escrow: the maker deposits amount_a of mint_a and asks amount_b of mint_b.
pub fn process_make_instruction(
    accounts: &[AccountView],
    data: &[u8],
    rent: Result<Rent, ProgramError>,
) -> (r: Result<Vec<Effect>, ProgramError>)
    ensures
        effects_view(r) == spec_make(accounts@, data@, rent),
        r matches Ok(effects) ==> effects@.len() == 4 && effects@[3] == (Effect::Transfer {
            from: 5,
            to: 4,
            authority: 0,
            amount: le_u64(data@.subrange(8, 16)) as u64,
            signer: None,
        }),
{
    check_accounts_len(accounts, 9)?;
    check_data_len(data, 25)?;
    let seed = read_u64_le(data, 0);
    let amount_a = read_u64_le(data, 8);
    let amount_b = read_u64_le(data, 16);
    let bump = data[24];
    let maker = &accounts[0];
    let mint_a = &accounts[1];
    let mint_b = &accounts[2];
    let escrow = &accounts[3];
    let vault = &accounts[4];
    let maker_ata = &accounts[5];
    check_writable(maker)?;
    check_signer(maker)?;
    check_writable(escrow)?;
    let seeds = escrow_seeds(&maker.address, seed, bump);
    check_pda(escrow, &seeds, &ID)?;
    check_writable(vault)?;
    check_writable(maker_ata)?;
    check_token_account(maker_ata, &maker.address, &mint_a.address)?;
    if escrow.owned_by(&ID) {
        return Err(ProgramError::AccountAlreadyInitialized);
    }
    let lamports = rent?.try_minimum_balance(Escrow::LEN)?;
    let mut escrow_data = Escrow {
        seed: 0,
        maker: [0u8; 32],
        mint_a: [0u8; 32],
        mint_b: [0u8; 32],
        amount_a: 0,
        amount_b: 0,
        bump: 0,
    };
    escrow_data.seed = seed;
    escrow_data.set_maker(&maker.address);
    escrow_data.set_mint_a(&mint_a.address);
    escrow_data.set_mint_b(&mint_b.address);
    escrow_data.amount_a = amount_a;
    escrow_data.amount_b = amount_b;
    escrow_data.bump = bump;
    let effects = vec![
        Effect::CreateAccount {
            from: 0,
            to: 3,
            lamports,
            space: Escrow::LEN as u64,
            owner: ID,
            signer: seeds,
        },
        Effect::Store { account: 3, state: State::Escrow(escrow_data) },
        Effect::CreateAssociatedTokenAccount {
            funding_account: 0,
            account: 4,
            wallet: 3,
            mint: 1,
            system_program: 6,
            token_program: 7,
        },
        Effect::Transfer { from: 5, to: 4, authority: 0, amount: amount_a, signer: None },
    ];
    assert(effects@ =~= spec_make(accounts@, data@, rent)->Ok_0);
    Ok(effects)
}

} // verus!
