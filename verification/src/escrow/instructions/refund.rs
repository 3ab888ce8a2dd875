use vstd::prelude::*;

use crate::account::{
    check_accounts_len, check_data_len, check_pda, check_signer, check_token_account,
    check_writable, spec_check_token_account, AccountView,
};
use crate::bytes::{le_u64, read_u64_le};
use crate::effect::{effects_view, Effect};
use crate::error::ProgramError;
use super::super::ID;
use super::{
    check_escrow_maker, escrow_seeds, spec_check_escrow_maker, spec_escrow_seeds,
    spec_stored_amount_a, stored_amounts,
};

verus! {

/// The checks `refund` makes on accounts `[maker (signer, writable), mint_a, escrow
/// (writable, at the escrow address of maker, seed and bump), vault (writable, escrow's
/// token account of mint_a), maker_ata (writable, maker's token account of mint_a), token
/// program, system program]` and data `seed (0..8) bump (8) amount_a (9..17)`: also that
/// the escrow was made by the maker. The amount in the data is read for its length only:
/// the maker gets back what the escrow stores as deposited.
pub open spec fn spec_check_refund(accounts: Seq<AccountView>, data: Seq<u8>) -> Result<(), ProgramError> {
    if accounts.len() != 7 {
        Err(ProgramError::NotEnoughAccountKeys)
    } else if data.len() < 17 {
        Err(ProgramError::InvalidArgument)
    } else {
        let seeds = spec_escrow_seeds(
            accounts[0].address,
            le_u64(data.subrange(0, 8)) as u64,
            data[8],
        );
        let vault_check = spec_check_token_account(
            accounts[3],
            accounts[2].address@,
            accounts[1].address@,
        );
        let maker_ata_check = spec_check_token_account(
            accounts[4],
            accounts[0].address@,
            accounts[1].address@,
        );
        if !accounts[0].is_writable {
            Err(ProgramError::InvalidAccountData)
        } else if !accounts[0].is_signer {
            Err(ProgramError::MissingRequiredSignature)
        } else if !accounts[2].is_writable {
            Err(ProgramError::InvalidAccountData)
        } else if accounts[2].address@ != seeds.spec_address(ID@) {
            Err(ProgramError::InvalidArgument)
        } else if !accounts[3].is_writable {
            Err(ProgramError::InvalidAccountData)
        } else if vault_check is Err {
            vault_check
        } else if !accounts[4].is_writable {
            Err(ProgramError::InvalidAccountData)
        } else if maker_ata_check is Err {
            maker_ata_check
        } else {
            spec_check_escrow_maker(accounts[2], accounts[0].address)
        }
    }
}

/// What `refund` does: moves the escrow's deposited amount_a of mint_a from the vault back
/// to the maker (the
/// escrow signing), gives the escrow's balance to the maker and closes the escrow. `None`
/// where the maker's balance would overflow: the program aborts there.
pub open spec fn spec_refund(accounts: Seq<AccountView>, data: Seq<u8>) -> Option<
    Result<Seq<Effect>, ProgramError>,
> {
    match spec_check_refund(accounts, data) {
        Err(e) => Some(Err(e)),
        Ok(_) => if accounts[0].lamports + accounts[2].lamports > u64::MAX {
            None
        } else {
            Some(
                Ok(
                    seq![
                        Effect::Transfer {
                            from: 3,
                            to: 4,
                            authority: 2,
                            amount: spec_stored_amount_a(accounts[2]),
                            signer: Some(
                                spec_escrow_seeds(
                                    accounts[0].address,
                                    le_u64(data.subrange(0, 8)) as u64,
                                    data[8],
                                ),
                            ),
                        },
                        Effect::SetLamports {
                            account: 0,
                            lamports: (accounts[0].lamports + accounts[2].lamports) as u64,
                        },
                        Effect::SetLamports { account: 2, lamports: 0 },
                        Effect::Close { account: 2 },
                    ],
                ),
            )
        },
    }
}

/// Makes the checks of `refund`.
pub fn check_refund(accounts: &[AccountView], data: &[u8]) -> (r: Result<(), ProgramError>)
    ensures
        r == spec_check_refund(accounts@, data@),
{
    check_accounts_len(accounts, 7)?;
    check_data_len(data, 17)?;
    let seed = read_u64_le(data, 0);
    let bump = data[8];
    let maker = &accounts[0];
    let mint_a = &accounts[1];
    let escrow = &accounts[2];
    let vault = &accounts[3];
    let maker_ata = &accounts[4];
    check_writable(maker)?;
    check_signer(maker)?;
    check_writable(escrow)?;
    let seeds = escrow_seeds(&maker.address, seed, bump);
    check_pda(escrow, &seeds, &ID)?;
    check_writable(vault)?;
    check_token_account(vault, &escrow.address, &mint_a.address)?;
    check_writable(maker_ata)?;
    check_token_account(maker_ata, &maker.address, &mint_a.address)?;
    check_escrow_maker(escrow, &maker.address)
}

/// Cancels the escrow: the maker takes back its deposit and the escrow's balance.
pub fn process_refund_instruction(accounts: &[AccountView], data: &[u8]) -> (r: Result<
    Vec<Effect>,
    ProgramError,
>)
    requires
        spec_refund(accounts@, data@) is Some,
    ensures
        Some(effects_view(r)) == spec_refund(accounts@, data@),
{
    check_refund(accounts, data)?;
    let seed = read_u64_le(data, 0);
    let bump = data[8];
    let maker = &accounts[0];
    let escrow = &accounts[2];
    let (amount_a, _) = stored_amounts(escrow);
    let seeds = escrow_seeds(&maker.address, seed, bump);
    let escrow_lamports = escrow.lamports;
    let effects = vec![
        Effect::Transfer { from: 3, to: 4, authority: 2, amount: amount_a, signer: Some(seeds) },
        Effect::SetLamports { account: 0, lamports: maker.lamports + escrow_lamports },
        Effect::SetLamports { account: 2, lamports: 0 },
        Effect::Close { account: 2 },
    ];
    assert(effects@ =~= spec_refund(accounts@, data@)->Some_0->Ok_0);
    Ok(effects)
}

/// Whether the program aborts on `refund`: the maker's balance would overflow.
pub fn refund_aborts(accounts: &[AccountView], data: &[u8]) -> (r: bool)
    ensures
        r == (spec_refund(accounts@, data@) is None),
{
    match check_refund(accounts, data) {
        Ok(()) => accounts[0].lamports > u64::MAX - accounts[2].lamports,
        Err(_) => false,
    }
}

} // verus!
