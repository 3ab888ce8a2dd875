use vstd::prelude::*;

use crate::account::{
    check_accounts_len, check_data_len, check_pda, check_signer, check_token_account,
    check_writable, spec_check_token_account, spec_token_amount, token_amount, AccountView, Clock,
};
use crate::bytes::{address_eq, le_array, le_u64};
use crate::effect::{effects_view, Effect, State};
use crate::error::ProgramError;
use super::super::state::{Contributor, Fundraiser};
use super::super::ID;
use super::{
    contributor_seeds, elapsed_days, fundraiser_seeds, spec_contributor_seeds, spec_current,
    spec_duration, spec_elapsed_days, spec_fundraiser_seeds, spec_target, spec_time_fits,
    spec_time_started,
};

verus! {

/// The checks `refund` makes on accounts `[contributor (signer, writable), maker,
/// mint_to_raise, fundraiser (writable, at the campaign address of maker and bump),
/// contributor_account (writable, at the record address of contributor and
/// contributor_bump), contributor_ata (writable, contributor's token account of the mint),
/// vault (writable, fundraiser's token account of the mint), system program, token
/// program]` and data `bump (0) contributor_bump (1)`, before it reads the clock: also
/// that the campaign was made by the maker and that both state accounts have data of
/// their sizes.
pub open spec fn spec_check_refund(accounts: Seq<AccountView>, data: Seq<u8>) -> Result<(), ProgramError> {
    if accounts.len() != 9 {
        Err(ProgramError::NotEnoughAccountKeys)
    } else if data.len() < 2 {
        Err(ProgramError::InvalidArgument)
    } else {
        let campaign_seeds = spec_fundraiser_seeds(accounts[1].address, data[0]);
        let record_seeds = spec_contributor_seeds(accounts[0].address, data[1]);
        let ata_check = spec_check_token_account(
            accounts[5],
            accounts[0].address@,
            accounts[2].address@,
        );
        let vault_check = spec_check_token_account(
            accounts[6],
            accounts[3].address@,
            accounts[2].address@,
        );
        if !accounts[0].is_writable {
            Err(ProgramError::InvalidAccountData)
        } else if !accounts[0].is_signer {
            Err(ProgramError::MissingRequiredSignature)
        } else if !accounts[3].is_writable {
            Err(ProgramError::InvalidAccountData)
        } else if accounts[3].address@ != campaign_seeds.spec_address(ID@) {
            Err(ProgramError::InvalidArgument)
        } else if !accounts[4].is_writable {
            Err(ProgramError::InvalidAccountData)
        } else if accounts[4].address@ != record_seeds.spec_address(ID@) {
            Err(ProgramError::InvalidArgument)
        } else if !accounts[5].is_writable {
            Err(ProgramError::InvalidAccountData)
        } else if ata_check is Err {
            ata_check
        } else if !accounts[6].is_writable {
            Err(ProgramError::InvalidAccountData)
        } else if vault_check is Err {
            vault_check
        } else if accounts[3].data@.len() != Fundraiser::LEN {
            Err(ProgramError::InvalidAccountData)
        } else if accounts[3].data@.subrange(0, 32) != accounts[1].address@ {
            Err(ProgramError::InvalidAccountData)
        } else if accounts[4].data@.len() != Contributor::LEN {
            Err(ProgramError::InvalidAccountData)
        } else {
            Ok(())
        }
    }
}

/// What `refund` does: rejects a refund before the campaign's duration has passed or once
/// the vault holds the target; otherwise lowers the campaign's collected amount by the
/// contributor's total (down to zero at least), moves that total from the vault back to
/// the contributor (the campaign signing), gives the record's balance to the contributor
/// and closes the record. `None` where the time since the start or the contributor's
/// balance overflows: the program aborts there.
pub open spec fn spec_refund(
    accounts: Seq<AccountView>,
    data: Seq<u8>,
    clock: Result<Clock, ProgramError>,
) -> Option<Result<Seq<Effect>, ProgramError>> {
    match spec_check_refund(accounts, data) {
        Err(e) => Some(Err(e)),
        Ok(_) => {
            let campaign = accounts[3].data@;
            let refund_amount = le_u64(accounts[4].data@) as u64;
            let new_current = if spec_current(campaign) >= refund_amount {
                (spec_current(campaign) - refund_amount) as u64
            } else {
                0
            };
            match clock {
                Err(e) => Some(Err(e)),
                Ok(clock) => if !spec_time_fits(clock.unix_timestamp, spec_time_started(campaign)) {
                    None
                } else if spec_elapsed_days(clock.unix_timestamp, spec_time_started(campaign))
                    < spec_duration(campaign) {
                    Some(Err(ProgramError::InvalidArgument))
                } else if spec_token_amount(accounts[6]) >= spec_target(campaign) {
                    Some(Err(ProgramError::InvalidArgument))
                } else if accounts[0].lamports + accounts[4].lamports > u64::MAX {
                    None
                } else {
                    Some(
                        Ok(
                            seq![
                                Effect::Store {
                                    account: 3,
                                    state: State::Fundraiser(
                                        Fundraiser {
                                            current_amount: le_array(new_current),
                                            ..Fundraiser::spec_from_bytes(campaign)
                                        },
                                    ),
                                },
                                Effect::Transfer {
                                    from: 6,
                                    to: 5,
                                    authority: 3,
                                    amount: refund_amount,
                                    signer: Some(
                                        spec_fundraiser_seeds(accounts[1].address, data[0]),
                                    ),
                                },
                                Effect::SetLamports {
                                    account: 0,
                                    lamports: (accounts[0].lamports + accounts[4].lamports) as u64,
                                },
                                Effect::SetLamports { account: 4, lamports: 0 },
                                Effect::Close { account: 4 },
                            ],
                        ),
                    )
                },
            }
        },
    }
}

/// Makes the checks of `refund`; reads the campaign and the contributor's record.
pub fn check_refund(accounts: &[AccountView], data: &[u8]) -> (r: Result<
    (Fundraiser, Contributor),
    ProgramError,
>)
    ensures
        r is Ok <==> spec_check_refund(accounts@, data@) is Ok,
        r matches Err(e) ==> spec_check_refund(accounts@, data@) == Err::<(), ProgramError>(e),
        r matches Ok((f, c)) ==> f.spec_bytes() == accounts@[3].data@ && c.spec_bytes()
            == accounts@[4].data@,
{
    check_accounts_len(accounts, 9)?;
    check_data_len(data, 2)?;
    let bump = data[0];
    let contributor_bump = data[1];
    let contributor = &accounts[0];
    let maker = &accounts[1];
    let mint_to_raise = &accounts[2];
    let fundraiser = &accounts[3];
    let contributor_account = &accounts[4];
    let contributor_ata = &accounts[5];
    let vault = &accounts[6];
    check_writable(contributor)?;
    check_signer(contributor)?;
    check_writable(fundraiser)?;
    let seeds = fundraiser_seeds(&maker.address, bump);
    check_pda(fundraiser, &seeds, &ID)?;
    check_writable(contributor_account)?;
    let record_seeds = contributor_seeds(&contributor.address, contributor_bump);
    check_pda(contributor_account, &record_seeds, &ID)?;
    check_writable(contributor_ata)?;
    check_token_account(contributor_ata, &contributor.address, &mint_to_raise.address)?;
    check_writable(vault)?;
    check_token_account(vault, &fundraiser.address, &mint_to_raise.address)?;
    let fundraiser_data = Fundraiser::from_account_info(fundraiser)?;
    proof {
        assert(fundraiser_data.maker@ =~= accounts@[3].data@.subrange(0, 32));
    }
    if !address_eq(&fundraiser_data.maker(), &maker.address) {
        return Err(ProgramError::InvalidAccountData);
    }
    let contributor_data = Contributor::from_account_info(contributor_account)?;
    Ok((fundraiser_data, contributor_data))
}

/// Whether the program aborts on `refund`: the time since the start or the contributor's
/// balance overflows.
pub fn refund_aborts(
    accounts: &[AccountView],
    data: &[u8],
    clock: Result<Clock, ProgramError>,
) -> (r: bool)
    ensures
        r == (spec_refund(accounts@, data@, clock) is None),
{
    let (fundraiser_data, _) = match check_refund(accounts, data) {
        Ok(loaded) => loaded,
        Err(_) => return false,
    };
    proof {
        let campaign = accounts@[3].data@;
        assert(fundraiser_data.amount_to_raise@ =~= campaign.subrange(64, 72));
        assert(fundraiser_data.time_started@ =~= campaign.subrange(80, 88));
    }
    let clock = match clock {
        Ok(clock) => clock,
        Err(_) => return false,
    };
    let started = fundraiser_data.time_started();
    let fits = if started >= 0 {
        clock.unix_timestamp >= i64::MIN + started
    } else {
        clock.unix_timestamp <= i64::MAX + started
    };
    if !fits {
        return true;
    }
    if elapsed_days(clock.unix_timestamp, started) < fundraiser_data.duration as i64 {
        return false;
    }
    if token_amount(&accounts[6]) >= fundraiser_data.amount_to_raise() {
        return false;
    }
    accounts[0].lamports > u64::MAX - accounts[4].lamports
}

/// Refunds a contributor's tokens after a campaign has expired without meeting its target.
///
/// This instruction may only be invoked after the campaign duration has elapsed
/// and only if the vault balance has not reached `amount_to_raise`. On success,
/// the contributor's tokens are returned to their ATA and the contributor account
/// is closed, returning its lamports to the contributor.
pub fn process_refund_instruction(
    accounts: &[AccountView],
    data: &[u8],
    clock: Result<Clock, ProgramError>,
) -> (r: Result<Vec<Effect>, ProgramError>)
    requires
        spec_refund(accounts@, data@, clock) is Some,
    ensures
        Some(effects_view(r)) == spec_refund(accounts@, data@, clock),
{
    let (mut fundraiser_data, contributor_data) = check_refund(accounts, data)?;
    let ghost campaign = accounts@[3].data@;
    proof {
        assert(fundraiser_data.amount_to_raise@ =~= campaign.subrange(64, 72));
        assert(fundraiser_data.current_amount@ =~= campaign.subrange(72, 80));
        assert(fundraiser_data.time_started@ =~= campaign.subrange(80, 88));
        fundraiser_data.lemma_from_bytes();
    }
    let bump = data[0];
    let contributor = &accounts[0];
    let maker = &accounts[1];
    let contributor_account = &accounts[4];
    let vault = &accounts[6];
    let current_time = clock?.unix_timestamp;
    let elapsed = elapsed_days(current_time, fundraiser_data.time_started());
    if elapsed < fundraiser_data.duration as i64 {
        return Err(ProgramError::InvalidArgument);
    }
    let vault_amount = token_amount(vault);
    if vault_amount >= fundraiser_data.amount_to_raise() {
        return Err(ProgramError::InvalidArgument);
    }
    let refund_amount = contributor_data.amount();
    let new_current = fundraiser_data.current_amount().saturating_sub(refund_amount);
    fundraiser_data.set_current_amount(new_current);
    let seeds = fundraiser_seeds(&maker.address, bump);
    let contributor_lamports = contributor_account.lamports;
    let effects = vec![
        Effect::Store { account: 3, state: State::Fundraiser(fundraiser_data) },
        Effect::Transfer { from: 6, to: 5, authority: 3, amount: refund_amount, signer: Some(seeds) },
        Effect::SetLamports { account: 0, lamports: contributor.lamports + contributor_lamports },
        Effect::SetLamports { account: 4, lamports: 0 },
        Effect::Close { account: 4 },
    ];
    assert(effects@ =~= spec_refund(accounts@, data@, clock)->Some_0->Ok_0);
    Ok(effects)
}

} // verus!
