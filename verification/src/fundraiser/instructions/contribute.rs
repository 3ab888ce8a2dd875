use vstd::prelude::*;

use crate::account::{
    check_accounts_len, check_data_len, check_pda, check_signer, check_token_account,
    check_writable, spec_check_token_account, spec_minimum_balance, AccountView, Clock, Rent,
};
use crate::bytes::{le_array, le_u64, read_u64_le};
use crate::effect::{effects_view, Effect, State};
use crate::error::ProgramError;
use super::super::state::{Contributor, Fundraiser};
use super::super::ID;
use super::{
    checked_pow10, contribution_cap, contributor_seeds, elapsed_days, pow10, spec_cap,
    spec_contributor_seeds, spec_current, spec_duration, spec_elapsed_days, spec_target,
    spec_time_fits, spec_time_started,
};

verus! {

/// The checks `contribute` makes on accounts `[contributor (signer, writable),
/// mint_to_raise, fundraiser (writable), contributor_account (writable, at the record
/// address of contributor and bump), contributor_ata (writable, contributor's token
/// account of the mint), vault (writable, fundraiser's token account of the mint), system
/// program, token program, associated token program]` and data `amount (0..8) bump (8)`,
/// before it reads the campaign: also that the campaign account and the mint have data
/// of their sizes.
pub open spec fn spec_check_contribute(accounts: Seq<AccountView>, data: Seq<u8>) -> Result<
    (),
    ProgramError,
> {
    if accounts.len() != 9 {
        Err(ProgramError::NotEnoughAccountKeys)
    } else if data.len() < 9 {
        Err(ProgramError::InvalidArgument)
    } else {
        let seeds = spec_contributor_seeds(accounts[0].address, data[8]);
        let ata_check = spec_check_token_account(
            accounts[4],
            accounts[0].address@,
            accounts[1].address@,
        );
        let vault_check = spec_check_token_account(
            accounts[5],
            accounts[2].address@,
            accounts[1].address@,
        );
        if !accounts[0].is_writable {
            Err(ProgramError::InvalidAccountData)
        } else if !accounts[0].is_signer {
            Err(ProgramError::MissingRequiredSignature)
        } else if !accounts[2].is_writable {
            Err(ProgramError::InvalidAccountData)
        } else if !accounts[3].is_writable {
            Err(ProgramError::InvalidAccountData)
        } else if accounts[3].address@ != seeds.spec_address(ID@) {
            Err(ProgramError::InvalidArgument)
        } else if !accounts[4].is_writable {
            Err(ProgramError::InvalidAccountData)
        } else if ata_check is Err {
            ata_check
        } else if !accounts[5].is_writable {
            Err(ProgramError::InvalidAccountData)
        } else if vault_check is Err {
            vault_check
        } else if accounts[2].data@.len() != Fundraiser::LEN {
            Err(ProgramError::InvalidAccountData)
        } else if accounts[1].data@.len() < 45 {
            Err(ProgramError::InvalidAccountData)
        } else {
            Ok(())
        }
    }
}

/// The effects of a contribution of `amount` that brings the contributor's total to
/// `new_total`: the transfer into the vault, the new total, and the campaign's new
/// collected amount (or an overflow failure).
pub open spec fn spec_contribute_tail(
    accounts: Seq<AccountView>,
    amount: u64,
    new_total: u64,
) -> Seq<Effect> {
    let campaign = accounts[2].data@;
    seq![
        Effect::Transfer { from: 4, to: 5, authority: 0, amount, signer: None },
        Effect::Store {
            account: 3,
            state: State::Contributor(Contributor { amount: le_array(new_total) }),
        },
    ] + if spec_current(campaign) + amount > u64::MAX {
        seq![Effect::Fail { error: ProgramError::ArithmeticOverflow }]
    } else {
        seq![
            Effect::Store {
                account: 2,
                state: State::Fundraiser(
                    Fundraiser {
                        current_amount: le_array((spec_current(campaign) + amount) as u64),
                        ..Fundraiser::spec_from_bytes(campaign)
                    },
                ),
            },
        ]
    }
}

/// What `contribute` does once the amount and the time have passed their checks: creates
/// the contributor's record (paid by the contributor) where the program does not own it
/// yet, checks the contributor's new total against the cap, and records the contribution.
pub open spec fn spec_contribute_record(
    accounts: Seq<AccountView>,
    amount: u64,
    bump: u8,
    cap: u64,
    rent: Result<Rent, ProgramError>,
) -> Result<Seq<Effect>, ProgramError> {
    let record = accounts[3];
    if record.owner@ != ID@ {
        match rent {
            Err(e) => Err(e),
            Ok(rent) => match spec_minimum_balance(rent, Contributor::LEN as int) {
                Err(e) => Err(e),
                Ok(lamports) => Ok(
                    seq![
                        Effect::CreateAccount {
                            from: 0,
                            to: 3,
                            lamports,
                            space: Contributor::LEN as u64,
                            owner: ID,
                            signer: spec_contributor_seeds(accounts[0].address, bump),
                        },
                    ] + spec_contribute_tail(accounts, amount, amount),
                ),
            },
        }
    } else if record.data@.len() != Contributor::LEN {
        Err(ProgramError::InvalidAccountData)
    } else if le_u64(record.data@) + amount > u64::MAX {
        Err(ProgramError::ArithmeticOverflow)
    } else if le_u64(record.data@) + amount > cap {
        Err(ProgramError::InvalidArgument)
    } else {
        Ok(spec_contribute_tail(accounts, amount, (le_u64(record.data@) + amount) as u64))
    }
}

/// What `contribute` does: rejects an amount below one whole token of the mint,
/// above the cap (a tenth of the target) or after the campaign's duration, then records
/// the contribution. `None` where ten to the mint's decimals, ten times the target or the
/// time since the start overflows: the program aborts there.
pub open spec fn spec_contribute(
    accounts: Seq<AccountView>,
    data: Seq<u8>,
    rent: Result<Rent, ProgramError>,
    clock: Result<Clock, ProgramError>,
) -> Option<Result<Seq<Effect>, ProgramError>> {
    match spec_check_contribute(accounts, data) {
        Err(e) => Some(Err(e)),
        Ok(_) => {
            let amount = le_u64(data.subrange(0, 8)) as u64;
            let campaign = accounts[2].data@;
            let unit = pow10(accounts[1].data@[44] as nat);
            if unit > u64::MAX {
                None
            } else if amount < unit {
                Some(Err(ProgramError::InvalidArgument))
            } else if spec_target(campaign) * 10 > u64::MAX {
                None
            } else if amount > spec_cap(spec_target(campaign)) {
                Some(Err(ProgramError::InvalidArgument))
            } else {
                match clock {
                    Err(e) => Some(Err(e)),
                    Ok(clock) => if !spec_time_fits(
                        clock.unix_timestamp,
                        spec_time_started(campaign),
                    ) {
                        None
                    } else if spec_elapsed_days(clock.unix_timestamp, spec_time_started(campaign))
                        >= spec_duration(campaign) {
                        Some(Err(ProgramError::InvalidArgument))
                    } else {
                        Some(
                            spec_contribute_record(
                                accounts,
                                amount,
                                data[8],
                                spec_cap(spec_target(campaign)),
                                rent,
                            ),
                        )
                    },
                }
            }
        },
    }
}

/// Makes the checks of `contribute` and reads the campaign.
pub fn check_contribute(accounts: &[AccountView], data: &[u8]) -> (r: Result<Fundraiser, ProgramError>)
    ensures
        r is Ok <==> spec_check_contribute(accounts@, data@) is Ok,
        r matches Err(e) ==> spec_check_contribute(accounts@, data@) == Err::<(), ProgramError>(e),
        r matches Ok(f) ==> f.spec_bytes() == accounts@[2].data@,
{
    check_accounts_len(accounts, 9)?;
    check_data_len(data, 9)?;
    let bump = data[8];
    let contributor = &accounts[0];
    let mint_to_raise = &accounts[1];
    let fundraiser = &accounts[2];
    let contributor_account = &accounts[3];
    let contributor_ata = &accounts[4];
    let vault = &accounts[5];
    check_writable(contributor)?;
    check_signer(contributor)?;
    check_writable(fundraiser)?;
    check_writable(contributor_account)?;
    let seeds = contributor_seeds(&contributor.address, bump);
    check_pda(contributor_account, &seeds, &ID)?;
    check_writable(contributor_ata)?;
    check_token_account(contributor_ata, &contributor.address, &mint_to_raise.address)?;
    check_writable(vault)?;
    check_token_account(vault, &fundraiser.address, &mint_to_raise.address)?;
    let fundraiser_data = Fundraiser::from_account_info(fundraiser)?;
    if mint_to_raise.data.len() < 45 {
        return Err(ProgramError::InvalidAccountData);
    }
    Ok(fundraiser_data)
}

/// Whether the program aborts on `contribute`: ten to the mint's decimals, ten times the
/// target or the time since the start overflows.
pub fn contribute_aborts(
    accounts: &[AccountView],
    data: &[u8],
    rent: Result<Rent, ProgramError>,
    clock: Result<Clock, ProgramError>,
) -> (r: bool)
    ensures
        r == (spec_contribute(accounts@, data@, rent, clock) is None),
{
    let fundraiser_data = match check_contribute(accounts, data) {
        Ok(f) => f,
        Err(_) => return false,
    };
    proof {
        let campaign = accounts@[2].data@;
        assert(fundraiser_data.amount_to_raise@ =~= campaign.subrange(64, 72));
        assert(fundraiser_data.time_started@ =~= campaign.subrange(80, 88));
    }
    let amount = read_u64_le(data, 0);
    let unit = match checked_pow10(accounts[1].data[44]) {
        Some(unit) => unit,
        None => return true,
    };
    if amount < unit {
        return false;
    }
    let target = fundraiser_data.amount_to_raise();
    if target > u64::MAX / 10 {
        return true;
    }
    if amount > contribution_cap(target) {
        return false;
    }
    match clock {
        Err(_) => false,
        Ok(clock) => {
            let started = fundraiser_data.time_started();
            if started >= 0 {
                clock.unix_timestamp < i64::MIN + started
            } else {
                clock.unix_timestamp > i64::MAX + started
            }
        },
    }
}

/// Transfers tokens from a contributor's ATA into the fundraiser vault.
///
/// If this is the contributor's first contribution, a contributor PDA account
/// is created to track their total. Contributions are capped at
/// `MAX_CONTRIBUTION_PERCENTAGE` percent of the campaign target.
pub fn process_contribute_instruction(
    accounts: &[AccountView],
    data: &[u8],
    rent: Result<Rent, ProgramError>,
    clock: Result<Clock, ProgramError>,
) -> (r: Result<Vec<Effect>, ProgramError>)
    requires
        spec_contribute(accounts@, data@, rent, clock) is Some,
    ensures
        Some(effects_view(r)) == spec_contribute(accounts@, data@, rent, clock),
{
    let mut fundraiser_data = check_contribute(accounts, data)?;
    let ghost campaign = accounts@[2].data@;
    proof {
        assert(fundraiser_data.amount_to_raise@ =~= campaign.subrange(64, 72));
        assert(fundraiser_data.current_amount@ =~= campaign.subrange(72, 80));
        assert(fundraiser_data.time_started@ =~= campaign.subrange(80, 88));
        fundraiser_data.lemma_from_bytes();
    }
    let amount = read_u64_le(data, 0);
    let bump = data[8];
    let contributor = &accounts[0];
    let contributor_account = &accounts[3];
    let decimals = accounts[1].data[44];
    let unit = match checked_pow10(decimals) {
        Some(unit) => unit,
        None => vstd::pervasive::unreached(),
    };
    if amount < unit {
        return Err(ProgramError::InvalidArgument);
    }
    let cap = contribution_cap(fundraiser_data.amount_to_raise());
    if amount > cap {
        return Err(ProgramError::InvalidArgument);
    }
    let current_time = clock?.unix_timestamp;
    let elapsed = elapsed_days(current_time, fundraiser_data.time_started());
    if elapsed >= fundraiser_data.duration as i64 {
        return Err(ProgramError::InvalidArgument);
    }
    let mut effects: Vec<Effect> = Vec::new();
    let previous: u64;
    if !contributor_account.owned_by(&ID) {
        let lamports = rent?.try_minimum_balance(Contributor::LEN)?;
        effects.push(
            Effect::CreateAccount {
                from: 0,
                to: 3,
                lamports,
                space: Contributor::LEN as u64,
                owner: ID,
                signer: contributor_seeds(&contributor.address, bump),
            },
        );
        previous = 0;
    } else {
        let contributor_data = Contributor::from_account_info(contributor_account)?;
        previous = contributor_data.amount();
    }
    let new_total = match previous.checked_add(amount) {
        Some(total) => total,
        None => return Err(ProgramError::ArithmeticOverflow),
    };
    if new_total > cap {
        return Err(ProgramError::InvalidArgument);
    }
    effects.push(Effect::Transfer { from: 4, to: 5, authority: 0, amount, signer: None });
    let mut contributor_data = Contributor { amount: [0u8; 8] };
    contributor_data.set_amount(new_total);
    effects.push(Effect::Store { account: 3, state: State::Contributor(contributor_data) });
    match fundraiser_data.current_amount().checked_add(amount) {
        Some(new_current) => {
            fundraiser_data.set_current_amount(new_current);
            effects.push(Effect::Store { account: 2, state: State::Fundraiser(fundraiser_data) });
        },
        None => {
            effects.push(Effect::Fail { error: ProgramError::ArithmeticOverflow });
        },
    }
    assert(effects@ =~= spec_contribute(accounts@, data@, rent, clock)->Some_0->Ok_0);
    Ok(effects)
}

} // verus!
