use vstd::prelude::*;

use crate::account::{
    check_accounts_len, check_data_len, check_pda, check_signer, check_token_account,
    check_writable, spec_check_token_account, AccountView,
};
use crate::bytes::{le_u64, read_u64_le};
use crate::effect::{effects_view, Effect};
use crate::error::ProgramError;
use super::super::ID;
use super::{
    check_escrow_maker, escrow_seeds, spec_check_escrow_maker, spec_escrow_seeds,
    spec_stored_amount_a, spec_stored_amount_b, stored_amounts,
};

verus! {

/// The checks `take` makes on accounts `[taker (signer, writable), maker (writable),
/// mint_a, mint_b, escrow (writable, at the escrow address of maker, seed and bump), vault
/// (writable, escrow's token account of mint_a), taker_ata_a (writable, taker's of mint_a),
/// taker_ata_b (writable, taker's of mint_b), maker_ata_b (writable, maker's of mint_b),
/// token program, system program]` and data `seed (0..8) bump (8) amount_a (9..17)
/// amount_b (17..25)`: also that the escrow was made by the maker. The two amounts in the
/// data are read for their length only: the exchange is for the amounts the escrow stores.
pub open spec fn spec_check_take(accounts: Seq<AccountView>, data: Seq<u8>) -> Result<(), ProgramError> {
    if accounts.len() != 11 {
        Err(ProgramError::NotEnoughAccountKeys)
    } else if data.len() < 25 {
        Err(ProgramError::InvalidArgument)
    } else {
        let seeds = spec_escrow_seeds(
            accounts[1].address,
            le_u64(data.subrange(0, 8)) as u64,
            data[8],
        );
        let vault_check = spec_check_token_account(
            accounts[5],
            accounts[4].address@,
            accounts[2].address@,
        );
        let taker_a_check = spec_check_token_account(
            accounts[6],
            accounts[0].address@,
            accounts[2].address@,
        );
        let taker_b_check = spec_check_token_account(
            accounts[7],
            accounts[0].address@,
            accounts[3].address@,
        );
        let maker_b_check = spec_check_token_account(
            accounts[8],
            accounts[1].address@,
            accounts[3].address@,
        );
        if !accounts[0].is_writable {
            Err(ProgramError::InvalidAccountData)
        } else if !accounts[0].is_signer {
            Err(ProgramError::MissingRequiredSignature)
        } else if !accounts[1].is_writable {
            Err(ProgramError::InvalidAccountData)
        } else if !accounts[4].is_writable {
            Err(ProgramError::InvalidAccountData)
        } else if accounts[4].address@ != seeds.spec_address(ID@) {
            Err(ProgramError::InvalidArgument)
        } else if !accounts[5].is_writable {
            Err(ProgramError::InvalidAccountData)
        } else if vault_check is Err {
            vault_check
        } else if !accounts[6].is_writable {
            Err(ProgramError::InvalidAccountData)
        } else if taker_a_check is Err {
            taker_a_check
        } else if !accounts[7].is_writable {
            Err(ProgramError::InvalidAccountData)
        } else if taker_b_check is Err {
            taker_b_check
        } else if !accounts[8].is_writable {
            Err(ProgramError::InvalidAccountData)
        } else if maker_b_check is Err {
            maker_b_check
        } else {
            spec_check_escrow_maker(accounts[4], accounts[1].address)
        }
    }
}

/// What `take` does: moves the escrow's requested amount_b of mint_b from the taker to the
/// maker, its deposited amount_a of mint_a from the vault to the taker (the escrow signing), gives the escrow's balance to
/// the maker and closes the escrow. `None` where the maker's balance would overflow: the
/// program aborts there.
pub open spec fn spec_take(accounts: Seq<AccountView>, data: Seq<u8>) -> Option<
    Result<Seq<Effect>, ProgramError>,
> {
    match spec_check_take(accounts, data) {
        Err(e) => Some(Err(e)),
        Ok(_) => if accounts[1].lamports + accounts[4].lamports > u64::MAX {
            None
        } else {
            Some(
                Ok(
                    seq![
                        Effect::Transfer {
                            from: 7,
                            to: 8,
                            authority: 0,
                            amount: spec_stored_amount_b(accounts[4]),
                            signer: None,
                        },
                        Effect::Transfer {
                            from: 5,
                            to: 6,
                            authority: 4,
                            amount: spec_stored_amount_a(accounts[4]),
                            signer: Some(
                                spec_escrow_seeds(
                                    accounts[1].address,
                                    le_u64(data.subrange(0, 8)) as u64,
                                    data[8],
                                ),
                            ),
                        },
                        Effect::SetLamports {
                            account: 1,
                            lamports: (accounts[1].lamports + accounts[4].lamports) as u64,
                        },
                        Effect::SetLamports { account: 4, lamports: 0 },
                        Effect::Close { account: 4 },
                    ],
                ),
            )
        },
    }
}

/// Makes the checks of `take`.
pub fn check_take(accounts: &[AccountView], data: &[u8]) -> (r: Result<(), ProgramError>)
    ensures
        r == spec_check_take(accounts@, data@),
{
    check_accounts_len(accounts, 11)?;
    check_data_len(data, 25)?;
    let seed = read_u64_le(data, 0);
    let bump = data[8];
    let taker = &accounts[0];
    let maker = &accounts[1];
    let mint_a = &accounts[2];
    let mint_b = &accounts[3];
    let escrow = &accounts[4];
    let vault = &accounts[5];
    let taker_ata_a = &accounts[6];
    let taker_ata_b = &accounts[7];
    let maker_ata_b = &accounts[8];
    check_writable(taker)?;
    check_signer(taker)?;
    check_writable(maker)?;
    check_writable(escrow)?;
    let seeds = escrow_seeds(&maker.address, seed, bump);
    check_pda(escrow, &seeds, &ID)?;
    check_writable(vault)?;
    check_token_account(vault, &escrow.address, &mint_a.address)?;
    check_writable(taker_ata_a)?;
    check_token_account(taker_ata_a, &taker.address, &mint_a.address)?;
    check_writable(taker_ata_b)?;
    check_token_account(taker_ata_b, &taker.address, &mint_b.address)?;
    check_writable(maker_ata_b)?;
    check_token_account(maker_ata_b, &maker.address, &mint_b.address)?;
    check_escrow_maker(escrow, &maker.address)
}

/// Completes the exchange for the taker and closes the escrow.
pub fn process_take_instruction(accounts: &[AccountView], data: &[u8]) -> (r: Result<
    Vec<Effect>,
    ProgramError,
>)
    requires
        spec_take(accounts@, data@) is Some,
    ensures
        Some(effects_view(r)) == spec_take(accounts@, data@),
{
    check_take(accounts, data)?;
    let seed = read_u64_le(data, 0);
    let bump = data[8];
    let maker = &accounts[1];
    let escrow = &accounts[4];
    let (amount_a, amount_b) = stored_amounts(escrow);
    let seeds = escrow_seeds(&maker.address, seed, bump);
    let escrow_lamports = escrow.lamports;
    let effects = vec![
        Effect::Transfer { from: 7, to: 8, authority: 0, amount: amount_b, signer: None },
        Effect::Transfer { from: 5, to: 6, authority: 4, amount: amount_a, signer: Some(seeds) },
        Effect::SetLamports { account: 1, lamports: maker.lamports + escrow_lamports },
        Effect::SetLamports { account: 4, lamports: 0 },
        Effect::Close { account: 4 },
    ];
    assert(effects@ =~= spec_take(accounts@, data@)->Some_0->Ok_0);
    Ok(effects)
}

/// Whether the program aborts on `take`: the maker's balance would overflow.
pub fn take_aborts(accounts: &[AccountView], data: &[u8]) -> (r: bool)
    ensures
        r == (spec_take(accounts@, data@) is None),
{
    match check_take(accounts, data) {
        Ok(()) => accounts[1].lamports > u64::MAX - accounts[4].lamports,
        Err(_) => false,
    }
}

} // verus!
