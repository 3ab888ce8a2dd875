//! What holds of the fundraiser program across its instructions.
use vstd::prelude::*;

use crate::account::{spec_minimum_balance, spec_token_amount, AccountView, Clock, Rent};
use crate::bytes::{le_array, le_u64};
use crate::pda::{PdaSeeds, SeedPrefix};
use crate::effect::{transfer_authorised, transfer_within_mint, apply_writes, committed, fails, holdings, ok_effects, succeeds, Effect, State};
use crate::error::ProgramError;
use super::instructions::checker::{spec_check_checker, spec_checker};
use super::instructions::contribute::{spec_check_contribute, spec_contribute};
use super::instructions::initialize::spec_initialize;
use super::instructions::refund::{spec_check_refund, spec_refund};
use super::instructions::{
    pow10, spec_current, spec_duration, spec_elapsed_days, spec_target, spec_time_fits,
    spec_time_started,
};
use super::state::{Contributor, Fundraiser};
use super::constants::MIN_AMOUNT_TO_RAISE;

verus! {

/// A campaign starts with nothing collected and a target of at least
/// `MIN_AMOUNT_TO_RAISE` whole tokens of its mint.
pub proof fn law_initialize_target_and_start(
    accounts: Seq<AccountView>,
    data: Seq<u8>,
    rent: Result<Rent, ProgramError>,
)
    requires
        succeeds(spec_initialize(accounts, data, rent)),
    ensures
        ok_effects(spec_initialize(accounts, data, rent))[1] is Store,
        ok_effects(spec_initialize(accounts, data, rent))[1]->Store_state
            is Fundraiser,
        ({
            let f = ok_effects(spec_initialize(accounts, data, rent))[1]->Store_state->Fundraiser_0;
            &&& f.current_amount == le_array(0)
            &&& le_u64(data.subrange(0, 8)) >= MIN_AMOUNT_TO_RAISE * pow10(accounts[1].data@[44] as nat)
            &&& f.amount_to_raise == le_array(le_u64(data.subrange(0, 8)) as u64)
        }),
{
    let effects = ok_effects(spec_initialize(accounts, data, rent));
    assert(effects[1] is Store);
}

/// Contributions are taken only while the campaign runs, refunds only once it has ended:
/// on one campaign at one time, a contribution that goes through means a refund that
/// passes its account checks is refused.
pub proof fn law_contribute_and_refund_windows_disjoint(
    contribute_accounts: Seq<AccountView>,
    contribute_data: Seq<u8>,
    refund_accounts: Seq<AccountView>,
    refund_data: Seq<u8>,
    rent: Result<Rent, ProgramError>,
    clock: Result<Clock, ProgramError>,
)
    requires
        succeeds(spec_contribute(contribute_accounts, contribute_data, rent, clock)),
        spec_check_refund(refund_accounts, refund_data) is Ok,
        refund_accounts[3].data@ == contribute_accounts[2].data@,
    ensures
        spec_refund(refund_accounts, refund_data, clock) == Some(
            Err::<Seq<Effect>, ProgramError>(ProgramError::InvalidArgument),
        ),
{
}

/// The maker collects only once the vault holds the target, refunds are paid only while
/// it does not: on one campaign and one vault, a collection that passes its checks means
/// a refund that passes its account checks, at a time the program can compute, is
/// refused.
pub proof fn law_checker_and_refund_exclusive(
    checker_accounts: Seq<AccountView>,
    checker_data: Seq<u8>,
    refund_accounts: Seq<AccountView>,
    refund_data: Seq<u8>,
    clock: Clock,
)
    requires
        spec_check_checker(checker_accounts, checker_data) is Ok,
        spec_check_refund(refund_accounts, refund_data) is Ok,
        refund_accounts[3].data@ == checker_accounts[2].data@,
        refund_accounts[6].data@ == checker_accounts[3].data@,
        spec_time_fits(clock.unix_timestamp, spec_time_started(refund_accounts[3].data@)),
    ensures
        spec_refund(refund_accounts, refund_data, Ok(clock)) == Some(
            Err::<Seq<Effect>, ProgramError>(ProgramError::InvalidArgument),
        ),
{
}

/// A contribution is at least one whole token of the mint, comes before the campaign's
/// duration, counted in whole days, has elapsed, and brings the contributor's total,
/// which it stores, to at most a tenth of the target.
pub proof fn law_contribution_within_cap(
    accounts: Seq<AccountView>,
    data: Seq<u8>,
    rent: Result<Rent, ProgramError>,
    clock: Result<Clock, ProgramError>,
)
    requires
        succeeds(spec_contribute(accounts, data, rent, clock)),
    ensures
        le_u64(data.subrange(0, 8)) >= pow10(accounts[1].data@[44] as nat),
        spec_elapsed_days(clock->Ok_0.unix_timestamp, spec_time_started(accounts[2].data@))
            < spec_duration(accounts[2].data@),
        ({
            let effects = ok_effects(spec_contribute(accounts, data, rent, clock));
            let k = if accounts[3].owner@ != super::ID@ { 2int } else { 1int };
            &&& effects[k] is Store
            &&& effects[k]->Store_account == 3
            &&& effects[k]->Store_state is Contributor
            &&& le_u64(effects[k]->Store_state->Contributor_0.amount@) <= spec_target(
                accounts[2].data@,
            ) * 10 / 100
            &&& le_u64(effects[k]->Store_state->Contributor_0.amount@) == le_u64(data.subrange(0, 8))
                + (if accounts[3].owner@ != super::ID@ {
                0
            } else {
                le_u64(accounts[3].data@)
            })
        }),
{
    let effects = ok_effects(spec_contribute(accounts, data, rent, clock));
    let amount = le_u64(data.subrange(0, 8)) as u64;
    let created = accounts[3].owner@ != super::ID@;
    let total: u64 = if created {
        amount
    } else {
        (le_u64(accounts[3].data@) + amount) as u64
    };
    let k = if created { 2int } else { 1int };
    assert(effects[k] == Effect::Store {
        account: 3,
        state: State::Contributor(Contributor { amount: le_array(total) }),
    });
    crate::bytes::lemma_le_array(total);
    crate::bytes::lemma_le_roundtrip(total);
}

/// A contribution adds its amount to what the campaign has collected and changes nothing
/// else of the campaign (or fails where the sum overflows).
pub proof fn law_contribute_adds_to_collected(
    accounts: Seq<AccountView>,
    data: Seq<u8>,
    rent: Result<Rent, ProgramError>,
    clock: Result<Clock, ProgramError>,
)
    requires
        succeeds(spec_contribute(accounts, data, rent, clock)),
    ensures
        ({
            let effects = ok_effects(spec_contribute(accounts, data, rent, clock));
            let last = effects[effects.len() - 1];
            let amount = le_u64(data.subrange(0, 8));
            &&& spec_current(accounts[2].data@) + amount > u64::MAX ==> last == (Effect::Fail {
                error: ProgramError::ArithmeticOverflow,
            })
            &&& spec_current(accounts[2].data@) + amount <= u64::MAX ==> last == (Effect::Store {
                account: 2,
                state: State::Fundraiser(
                    Fundraiser {
                        current_amount: le_array((spec_current(accounts[2].data@) + amount) as u64),
                        ..Fundraiser::spec_from_bytes(accounts[2].data@)
                    },
                ),
            })
        }),
{
}

/// A contribution that fails changes nothing, whether it is refused before any effect or
/// stops where the campaign's collected amount would overflow after its calls: none of
/// its effects remains, so the campaign, the contributor's record and every other
/// account keep their data and balance, and no tokens move.
pub proof fn law_failed_contribute_changes_nothing(
    accounts: Seq<AccountView>,
    data: Seq<u8>,
    rent: Result<Rent, ProgramError>,
    clock: Result<Clock, ProgramError>,
)
    requires
        spec_contribute(accounts, data, rent, clock) matches Some(r) && fails(r),
    ensures
        committed(spec_contribute(accounts, data, rent, clock)->Some_0) == Seq::<Effect>::empty(),
        apply_writes(
            holdings(accounts),
            committed(spec_contribute(accounts, data, rent, clock)->Some_0),
        ) == holdings(accounts),
{
    crate::effect::law_failure_changes_nothing(
        accounts,
        spec_contribute(accounts, data, rent, clock)->Some_0,
    );
}

/// A refund pays the contributor its whole recorded total from the vault, lowers what the
/// campaign has collected by that total (to zero at least), and gives the record's
/// balance to the contributor as it closes the record.
pub proof fn law_refund_returns_contribution(
    accounts: Seq<AccountView>,
    data: Seq<u8>,
    clock: Result<Clock, ProgramError>,
)
    requires
        succeeds(spec_refund(accounts, data, clock)),
    ensures
        spec_elapsed_days(clock->Ok_0.unix_timestamp, spec_time_started(accounts[3].data@))
            >= spec_duration(accounts[3].data@),
        spec_token_amount(accounts[6]) < spec_target(accounts[3].data@),
        ({
            let effects = ok_effects(spec_refund(accounts, data, clock));
            let total = le_u64(accounts[4].data@);
            let collected = spec_current(accounts[3].data@);
            &&& effects[0]->Store_state->Fundraiser_0.current_amount == le_array(
                if collected >= total {
                    (collected - total) as u64
                } else {
                    0
                },
            )
            &&& effects[1]->Transfer_amount == total
            &&& effects[2] == (Effect::SetLamports {
                account: 0,
                lamports: (accounts[0].lamports + accounts[4].lamports) as u64,
            })
            &&& effects[3] == (Effect::SetLamports { account: 4, lamports: 0 })
            &&& effects[4] == (Effect::Close { account: 4 })
        }),
{
}

/// A contributor is refunded once: a refund closes the contributor's record, and a later
/// refund that presents the closed record (its data emptied, as closing leaves it) is
/// refused, with no effect, whatever its data and clock.
pub proof fn law_refund_only_once(
    before: Seq<AccountView>,
    data: Seq<u8>,
    clock: Result<Clock, ProgramError>,
    after: Seq<AccountView>,
    later_data: Seq<u8>,
    later_clock: Result<Clock, ProgramError>,
)
    requires
        succeeds(spec_refund(before, data, clock)),
        after[4].address == before[4].address,
        after[4].data@.len() == 0,
    ensures
        ok_effects(spec_refund(before, data, clock)).last() == (Effect::Close { account: 4 }),
        spec_refund(after, later_data, later_clock) matches Some(Err(_)),
{
    let effects = ok_effects(spec_refund(before, data, clock));
    assert(effects[4] == Effect::Close { account: 4 });
    assert(spec_check_refund(after, later_data) is Err);
}

/// A collection pays the maker everything the vault holds, which is at least the target,
/// and gives the campaign's balance to the maker as it closes the campaign.
pub proof fn law_checker_pays_everything(accounts: Seq<AccountView>, data: Seq<u8>)
    requires
        succeeds(spec_checker(accounts, data)),
    ensures
        spec_token_amount(accounts[3]) >= spec_target(accounts[2].data@),
        ({
            let effects = ok_effects(spec_checker(accounts, data));
            &&& effects[0]->Transfer_amount == spec_token_amount(accounts[3])
            &&& effects[0]->Transfer_to == 4
            &&& effects[1] == (Effect::SetLamports {
                account: 0,
                lamports: (accounts[0].lamports + accounts[2].lamports) as u64,
            })
            &&& effects[2] == (Effect::SetLamports { account: 2, lamports: 0 })
            &&& effects[3] == (Effect::Close { account: 2 })
        }),
{
}

/// A collection moves the vault's whole balance to the maker's token account of the same
/// mint. The transfer is authorised by the vault's owner, the campaign account, for which
/// the program signs with the campaign's seeds `["fundraiser", maker, bump]`.
pub proof fn law_checker_transfer_signed_by_the_campaign(accounts: Seq<AccountView>, data: Seq<u8>)
    requires
        succeeds(spec_checker(accounts, data)),
    ensures
        ({
            let transfer = ok_effects(spec_checker(accounts, data))[0];
            &&& transfer == (Effect::Transfer {
                from: 3,
                to: 4,
                authority: 2,
                amount: spec_token_amount(accounts[3]) as u64,
                signer: Some(
                    PdaSeeds {
                        prefix: SeedPrefix::Fundraiser,
                        key: accounts[0].address,
                        seed: None,
                        bump: data[0],
                    },
                ),
            })
            &&& transfer_authorised(accounts, transfer, super::ID@)
            &&& transfer_within_mint(accounts, transfer)
            &&& accounts[4].data@.subrange(32, 64) == accounts[0].address@
        }),
{
    let effects = ok_effects(spec_checker(accounts, data));
    assert(effects[0] == Effect::Transfer {
        from: 3,
        to: 4,
        authority: 2,
        amount: spec_token_amount(accounts[3]) as u64,
        signer: Some(
            PdaSeeds { prefix: SeedPrefix::Fundraiser, key: accounts[0].address, seed: None, bump: data[0] },
        ),
    });
}

/// An initialize creates the campaign account at the campaign's address, owned by the
/// program and paid by the maker, and stores in its data the maker (bytes 0..32), the
/// mint account given (32..64), the target (64..72), nothing collected (72..80), the
/// start time (80..88), the duration (88) and the bump (89), all as the data gives them;
/// then it creates the vault as the campaign's token account of that mint.
pub proof fn law_initialize_stores_the_campaign(
    accounts: Seq<AccountView>,
    data: Seq<u8>,
    rent: Result<Rent, ProgramError>,
)
    requires
        succeeds(spec_initialize(accounts, data, rent)),
    ensures
        ({
            let effects = ok_effects(spec_initialize(accounts, data, rent));
            let seeds = PdaSeeds {
                prefix: SeedPrefix::Fundraiser,
                key: accounts[0].address,
                seed: None,
                bump: data[17],
            };
            &&& effects.len() == 3
            &&& effects[0] matches Effect::CreateAccount { from, to, space, owner, signer, .. }
                && from == 0 && to == 2 && space == Fundraiser::LEN && owner == super::ID
                && signer == seeds
            &&& seeds.spec_address(super::ID@) == accounts[2].address@
            &&& effects[1] matches Effect::Store { account, state }
                && account == 2 && ({
                let stored = state.spec_stored(accounts[2].data@);
                &&& stored.len() == Fundraiser::LEN
                &&& stored.subrange(0, 32) == accounts[0].address@
                &&& stored.subrange(32, 64) == accounts[1].address@
                &&& stored.subrange(64, 72) == data.subrange(0, 8)
                &&& le_u64(stored.subrange(72, 80)) == 0
                &&& stored.subrange(80, 88) == data.subrange(8, 16)
                &&& stored[88] == data[16]
                &&& stored[89] == data[17]
            })
            &&& effects[2] == (Effect::CreateAssociatedTokenAccount {
                funding_account: 0,
                account: 3,
                wallet: 2,
                mint: 1,
                system_program: 4,
                token_program: 5,
            })
        }),
{
    let effects = ok_effects(spec_initialize(accounts, data, rent));
    assert(effects.len() == 3);
    let f = effects[1]->Store_state->Fundraiser_0;
    assert(effects[1] == Effect::Store { account: 2, state: State::Fundraiser(f) });
    f.lemma_bytes_layout();
    crate::bytes::lemma_le_bytes_of_value(data.subrange(0, 8));
    crate::bytes::lemma_le_array(le_u64(data.subrange(0, 8)) as u64);
    crate::bytes::lemma_le_i64_bytes_of_value(data.subrange(8, 16));
    crate::bytes::lemma_le_array_i64(crate::bytes::le_i64(data.subrange(8, 16)) as i64);
    crate::bytes::lemma_le_array(0);
    crate::bytes::lemma_le_roundtrip(0);
}

/// A refund rewrites only the collected amount of the campaign (bytes 72..80 of its
/// data): the maker, the mint, the target, the start, the duration and the bump stay
/// byte for byte as they were. The contributor's tokens come back from the vault to the
/// contributor's token account of the same mint, authorised by the vault's owner, the
/// campaign account, for which the program signs with the campaign's seeds.
pub proof fn law_refund_keeps_the_campaign(
    accounts: Seq<AccountView>,
    data: Seq<u8>,
    clock: Result<Clock, ProgramError>,
)
    requires
        succeeds(spec_refund(accounts, data, clock)),
    ensures
        ({
            let effects = ok_effects(spec_refund(accounts, data, clock));
            let old = accounts[3].data@;
            &&& effects[0] matches Effect::Store { account, state } && account == 3 && ({
                let stored = state.spec_stored(old);
                &&& stored.len() == old.len()
                &&& stored.subrange(0, 72) == old.subrange(0, 72)
                &&& stored.subrange(80, 90) == old.subrange(80, 90)
                &&& le_u64(stored.subrange(72, 80)) <= le_u64(old.subrange(72, 80))
            })
            &&& effects[1] matches Effect::Transfer { from, to, authority, signer, .. } && from
                == 6 && to == 5 && authority == 3 && signer == Some(
                PdaSeeds {
                    prefix: SeedPrefix::Fundraiser,
                    key: accounts[1].address,
                    seed: None,
                    bump: data[0],
                },
            )
            &&& transfer_authorised(accounts, effects[1], super::ID@)
            &&& transfer_within_mint(accounts, effects[1])
            &&& accounts[5].data@.subrange(32, 64) == accounts[0].address@
            &&& accounts[0].is_signer
            &&& accounts[3].data@.subrange(0, 32) == accounts[1].address@
            &&& accounts[4].address@ == (PdaSeeds {
                prefix: SeedPrefix::Contributor,
                key: accounts[0].address,
                seed: None,
                bump: data[1],
            }).spec_address(super::ID@)
        }),
{
    let effects = ok_effects(spec_refund(accounts, data, clock));
    let old = accounts[3].data@;
    let f = effects[0]->Store_state->Fundraiser_0;
    assert(effects[0] == Effect::Store { account: 3, state: State::Fundraiser(f) });
    Fundraiser::lemma_bytes_of_read(old);
    Fundraiser::spec_from_bytes(old).lemma_bytes_layout();
    f.lemma_bytes_layout();
    let stored = f.spec_bytes();
    assert(stored.subrange(0, 72) =~= old.subrange(0, 72)) by {
        assert(stored.subrange(0, 72) =~= stored.subrange(0, 32) + stored.subrange(32, 64)
            + stored.subrange(64, 72));
        assert(old.subrange(0, 72) =~= old.subrange(0, 32) + old.subrange(32, 64) + old.subrange(
            64,
            72,
        ));
    }
    assert(stored.subrange(80, 90) =~= old.subrange(80, 90)) by {
        assert(stored.subrange(80, 90) =~= stored.subrange(80, 88) + seq![stored[88], stored[89]]);
        assert(old.subrange(80, 90) =~= old.subrange(80, 88) + seq![old[88], old[89]]);
    }
    let total = le_u64(accounts[4].data@) as u64;
    let collected = spec_current(old);
    let new_current: u64 = if collected >= total { (collected - total) as u64 } else { 0 };
    assert(f.current_amount == le_array(new_current));
    crate::bytes::lemma_le_array(new_current);
    crate::bytes::lemma_le_roundtrip(new_current);
    assert(effects[1] == Effect::Transfer {
        from: 6,
        to: 5,
        authority: 3,
        amount: total,
        signer: Some(
            PdaSeeds { prefix: SeedPrefix::Fundraiser, key: accounts[1].address, seed: None, bump: data[0] },
        ),
    });
}

/// The cap on what one contributor gives is a tenth of the target, rounded down: on
/// accounts that pass the checks, with a contributor record still to create, inside the
/// campaign's window and with rent that can be paid, an amount of at least one whole
/// token goes through exactly when it is at most `target * 10 / 100`. It then moves that
/// amount from the contributor's token account into the vault of the same mint, signed
/// by the contributor, and records it as the contributor's total. A larger amount is
/// refused with `InvalidArgument`.
pub proof fn law_contribute_cap_is_a_tenth(
    accounts: Seq<AccountView>,
    data: Seq<u8>,
    rent: Result<Rent, ProgramError>,
    clock: Result<Clock, ProgramError>,
)
    requires
        spec_check_contribute(accounts, data) is Ok,
        pow10(accounts[1].data@[44] as nat) <= le_u64(data.subrange(0, 8)),
        le_u64(accounts[2].data@.subrange(64, 72)) * 10 <= u64::MAX,
        clock matches Ok(c) && spec_time_fits(
            c.unix_timestamp,
            spec_time_started(accounts[2].data@),
        ) && spec_elapsed_days(c.unix_timestamp, spec_time_started(accounts[2].data@))
            < accounts[2].data@[88],
        accounts[3].owner@ != super::ID@,
        rent matches Ok(r) && spec_minimum_balance(r, Contributor::LEN as int) is Ok,
    ensures
        le_u64(data.subrange(0, 8)) <= le_u64(accounts[2].data@.subrange(64, 72)) * 10 / 100
            ==> ({
            let effects = ok_effects(spec_contribute(accounts, data, rent, clock));
            &&& succeeds(spec_contribute(accounts, data, rent, clock))
            &&& effects[1] == (Effect::Transfer {
                from: 4,
                to: 5,
                authority: 0,
                amount: le_u64(data.subrange(0, 8)) as u64,
                signer: None,
            })
            &&& transfer_authorised(accounts, effects[1], super::ID@)
            &&& transfer_within_mint(accounts, effects[1])
            &&& accounts[5].data@.subrange(32, 64) == accounts[2].address@
            &&& effects[2] matches Effect::Store { account, state } && account == 3
                && le_u64(state.spec_stored(accounts[3].data@)) == le_u64(data.subrange(0, 8))
        }),
        le_u64(data.subrange(0, 8)) > le_u64(accounts[2].data@.subrange(64, 72)) * 10 / 100
            ==> spec_contribute(accounts, data, rent, clock) == Some(
            Err::<Seq<Effect>, ProgramError>(ProgramError::InvalidArgument),
        ),
{
    let amount = le_u64(data.subrange(0, 8)) as u64;
    crate::bytes::lemma_le_bytes_of_value(data.subrange(0, 8));
    if le_u64(data.subrange(0, 8)) <= le_u64(accounts[2].data@.subrange(64, 72)) * 10 / 100 {
        let effects = ok_effects(spec_contribute(accounts, data, rent, clock));
        assert(effects[1] == Effect::Transfer { from: 4, to: 5, authority: 0, amount, signer: None });
        assert(effects[2] == Effect::Store {
            account: 3,
            state: State::Contributor(Contributor { amount: le_array(amount) }),
        });
        crate::bytes::lemma_le_array(amount);
        crate::bytes::lemma_le_roundtrip(amount);
    }
}

/// Every contribution that goes through moves its amount from the contributor's token
/// account into the campaign's vault of the same mint, authorised by the contributor, who
/// owns that token account and signs.
pub proof fn law_contribute_transfer_into_the_vault(
    accounts: Seq<AccountView>,
    data: Seq<u8>,
    rent: Result<Rent, ProgramError>,
    clock: Result<Clock, ProgramError>,
)
    requires
        succeeds(spec_contribute(accounts, data, rent, clock)),
    ensures
        ({
            let effects = ok_effects(spec_contribute(accounts, data, rent, clock));
            let k = if accounts[3].owner@ != super::ID@ { 1int } else { 0int };
            &&& effects[k] == (Effect::Transfer {
                from: 4,
                to: 5,
                authority: 0,
                amount: le_u64(data.subrange(0, 8)) as u64,
                signer: None,
            })
            &&& transfer_authorised(accounts, effects[k], super::ID@)
            &&& transfer_within_mint(accounts, effects[k])
            &&& accounts[5].data@.subrange(32, 64) == accounts[2].address@
            &&& accounts[3].address@ == (PdaSeeds {
                prefix: SeedPrefix::Contributor,
                key: accounts[0].address,
                seed: None,
                bump: data[8],
            }).spec_address(super::ID@)
        }),
{
    let effects = ok_effects(spec_contribute(accounts, data, rent, clock));
    let k = if accounts[3].owner@ != super::ID@ { 1int } else { 0int };
    assert(effects[k] == Effect::Transfer {
        from: 4,
        to: 5,
        authority: 0,
        amount: le_u64(data.subrange(0, 8)) as u64,
        signer: None,
    });
}

} // verus!
