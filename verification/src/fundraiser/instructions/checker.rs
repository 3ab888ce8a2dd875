use vstd::prelude::*;

use crate::account::{
    check_accounts_len, check_data_len, check_pda, check_signer, check_token_account,
    check_writable, spec_check_token_account, spec_token_amount, token_amount, AccountView,
};
use crate::effect::{effects_view, Effect};
use crate::error::ProgramError;
use crate::pda::{PdaSeeds, SeedPrefix};
use super::super::state::Fundraiser;
use super::super::ID;
use super::{fundraiser_seeds, spec_fundraiser_seeds, spec_target};

verus! {

/// The checks `checker` makes on accounts `[maker (signer, writable), mint_to_raise,
/// fundraiser (writable, at the campaign address of maker and bump), vault (writable,
/// fundraiser's token account of the mint), maker_ata (writable, maker's token account of
/// the mint), system program, token program]` and data `bump (0)`: also that the campaign
/// account has data of its size and that the vault holds at least the target.
pub open spec fn spec_check_checker(accounts: Seq<AccountView>, data: Seq<u8>) -> Result<
    (),
    ProgramError,
> {
    if accounts.len() != 7 {
        Err(ProgramError::NotEnoughAccountKeys)
    } else if data.len() < 1 {
        Err(ProgramError::InvalidArgument)
    } else {
        let seeds = spec_fundraiser_seeds(accounts[0].address, data[0]);
        let vault_check = spec_check_token_account(
            accounts[3],
            accounts[2].address@,
            accounts[1].address@,
        );
        let maker_ata_check = spec_check_token_account(
            accounts[4],
            accounts[0].address@,
            accounts[1].address@,
        );
        if !accounts[0].is_writable {
            Err(ProgramError::InvalidAccountData)
        } else if !accounts[0].is_signer {
            Err(ProgramError::MissingRequiredSignature)
        } else if !accounts[2].is_writable {
            Err(ProgramError::InvalidAccountData)
        } else if accounts[2].address@ != seeds.spec_address(ID@) {
            Err(ProgramError::InvalidArgument)
        } else if !accounts[3].is_writable {
            Err(ProgramError::InvalidAccountData)
        } else if vault_check is Err {
            vault_check
        } else if !accounts[4].is_writable {
            Err(ProgramError::InvalidAccountData)
        } else if maker_ata_check is Err {
            maker_ata_check
        } else if accounts[2].data@.len() != Fundraiser::LEN {
            Err(ProgramError::InvalidAccountData)
        } else if spec_token_amount(accounts[3]) < spec_target(accounts[2].data@) {
            Err(ProgramError::InvalidArgument)
        } else {
            Ok(())
        }
    }
}

/// What `checker` does: moves everything the vault holds to the maker (the campaign
/// signing), gives the campaign's balance to the maker and closes the campaign. `None`
/// where the maker's balance would overflow: the program aborts there.
pub open spec fn spec_checker(accounts: Seq<AccountView>, data: Seq<u8>) -> Option<
    Result<Seq<Effect>, ProgramError>,
> {
    match spec_check_checker(accounts, data) {
        Err(e) => Some(Err(e)),
        Ok(_) => if accounts[0].lamports + accounts[2].lamports > u64::MAX {
            None
        } else {
            Some(
                Ok(
                    seq![
                        Effect::Transfer {
                            from: 3,
                            to: 4,
                            authority: 2,
                            amount: spec_token_amount(accounts[3]) as u64,
                            signer: Some(spec_fundraiser_seeds(accounts[0].address, data[0])),
                        },
                        Effect::SetLamports {
                            account: 0,
                            lamports: (accounts[0].lamports + accounts[2].lamports) as u64,
                        },
                        Effect::SetLamports { account: 2, lamports: 0 },
                        Effect::Close { account: 2 },
                    ],
                ),
            )
        },
    }
}

/// Makes the checks of `checker`; gives the vault's balance.
pub fn check_checker(accounts: &[AccountView], data: &[u8]) -> (r: Result<u64, ProgramError>)
    ensures
        r is Ok <==> spec_check_checker(accounts@, data@) is Ok,
        r matches Err(e) ==> spec_check_checker(accounts@, data@) == Err::<(), ProgramError>(e),
        r matches Ok(amount) ==> amount == spec_token_amount(accounts@[3]),
{
    check_accounts_len(accounts, 7)?;
    check_data_len(data, 1)?;
    let bump = data[0];
    let maker = &accounts[0];
    let mint_to_raise = &accounts[1];
    let fundraiser = &accounts[2];
    let vault = &accounts[3];
    let maker_ata = &accounts[4];
    check_writable(maker)?;
    check_signer(maker)?;
    check_writable(fundraiser)?;
    let seeds = fundraiser_seeds(&maker.address, bump);
    check_pda(fundraiser, &seeds, &ID)?;
    check_writable(vault)?;
    check_token_account(vault, &fundraiser.address, &mint_to_raise.address)?;
    check_writable(maker_ata)?;
    check_token_account(maker_ata, &maker.address, &mint_to_raise.address)?;
    let fundraiser_data = Fundraiser::from_account_info(fundraiser)?;
    proof {
        assert(fundraiser_data.amount_to_raise@ =~= accounts@[2].data@.subrange(64, 72));
    }
    let vault_amount = token_amount(vault);
    if vault_amount < fundraiser_data.amount_to_raise() {
        return Err(ProgramError::InvalidArgument);
    }
    Ok(vault_amount)
}

/// Checks whether the fundraiser target has been met and, if so, transfers all
/// collected tokens to the maker's ATA and closes the fundraiser account.
pub fn process_checker_instruction(accounts: &[AccountView], data: &[u8]) -> (r: Result<
    Vec<Effect>,
    ProgramError,
>)
    requires
        spec_checker(accounts@, data@) is Some,
    ensures
        Some(effects_view(r)) == spec_checker(accounts@, data@),
        r matches Ok(effects) ==> effects@[0] matches Effect::Transfer { from, authority, signer, .. }
            && from == 3 && authority == 2 && signer == Some(
            PdaSeeds { prefix: SeedPrefix::Fundraiser, key: accounts@[0].address, seed: None, bump: data@[0] },
        ),
{
    let vault_amount = check_checker(accounts, data)?;
    let bump = data[0];
    let maker = &accounts[0];
    let fundraiser = &accounts[2];
    let seeds = fundraiser_seeds(&maker.address, bump);
    let fundraiser_lamports = fundraiser.lamports;
    let effects = vec![
        Effect::Transfer { from: 3, to: 4, authority: 2, amount: vault_amount, signer: Some(seeds) },
        Effect::SetLamports { account: 0, lamports: maker.lamports + fundraiser_lamports },
        Effect::SetLamports { account: 2, lamports: 0 },
        Effect::Close { account: 2 },
    ];
    assert(effects@ =~= spec_checker(accounts@, data@)->Some_0->Ok_0);
    Ok(effects)
}

/// Whether the program aborts on `checker`: the maker's balance would overflow.
pub fn checker_aborts(accounts: &[AccountView], data: &[u8]) -> (r: bool)
    ensures
        r == (spec_checker(accounts@, data@) is None),
{
    match check_checker(accounts, data) {
        Ok(_) => accounts[0].lamports > u64::MAX - accounts[2].lamports,
        Err(_) => false,
    }
}

} // verus!
