//! What holds of the counter program across its instructions.
use vstd::prelude::*;

use crate::account::AccountView;
use crate::effect::{Effect, State};
use crate::error::ProgramError;
use super::error::CounterError;
use super::instructions::decrement::spec_decrement;
use super::instructions::initialize::spec_initialize;
use crate::account::Rent;
use crate::pda::{PdaSeeds, SeedPrefix};
use crate::bytes::le_u64;
use super::instructions::increment::spec_increment;
use super::instructions::{spec_check_update, spec_stored_count};
use crate::bytes::{le_array, le_bytes};

verus! {

/// `after` is `before` with the data of the counter account (index 1) replaced by what
/// storing `state` into it gives.
pub open spec fn spec_counter_stored(
    before: Seq<AccountView>,
    after: Seq<AccountView>,
    state: State,
) -> bool {
    &&& after.len() == before.len() == 2
    &&& after[0] == before[0]
    &&& after[1].address == before[1].address
    &&& after[1].owner == before[1].owner
    &&& after[1].lamports == before[1].lamports
    &&& after[1].is_signer == before[1].is_signer
    &&& after[1].is_writable == before[1].is_writable
    &&& after[1].data@ == state.spec_stored(before[1].data@)
}

/// A decrement right after an increment, with the same accounts and data, succeeds and
/// gives the counter account back its data as it was.
pub proof fn law_increment_then_decrement(
    before: Seq<AccountView>,
    after: Seq<AccountView>,
    data: Seq<u8>,
    state: State,
)
    requires
        spec_increment(before, data) == Ok::<Seq<Effect>, crate::error::ProgramError>(
            seq![Effect::Store { account: 1, state }],
        ),
        spec_counter_stored(before, after, state),
    ensures
        spec_decrement(after, data) matches Ok(effects) && (effects.len() == 1 && (
        effects[0] matches Effect::Store { account, state: back } && (account == 1
            && back.spec_stored(after[1].data@) == before[1].data@))),
{
    lemma_update_after_store(before, after, data, state, true);
}

/// An increment right after a decrement, with the same accounts and data, succeeds and
/// gives the counter account back its data as it was.
pub proof fn law_decrement_then_increment(
    before: Seq<AccountView>,
    after: Seq<AccountView>,
    data: Seq<u8>,
    state: State,
)
    requires
        spec_decrement(before, data) == Ok::<Seq<Effect>, crate::error::ProgramError>(
            seq![Effect::Store { account: 1, state }],
        ),
        spec_counter_stored(before, after, state),
    ensures
        spec_increment(after, data) matches Ok(effects) && (effects.len() == 1 && (
        effects[0] matches Effect::Store { account, state: back } && (account == 1
            && back.spec_stored(after[1].data@) == before[1].data@))),
{
    lemma_update_after_store(before, after, data, state, false);
}

/// After an update stored `state`, the checks of the next update pass, the stored count
/// is the one `state` holds, and the other fields are as before.
proof fn lemma_update_after_store(
    before: Seq<AccountView>,
    after: Seq<AccountView>,
    data: Seq<u8>,
    state: State,
    up: bool,
)
    requires
        up ==> spec_increment(before, data) == Ok::<Seq<Effect>, crate::error::ProgramError>(
            seq![Effect::Store { account: 1, state }],
        ),
        !up ==> spec_decrement(before, data) == Ok::<Seq<Effect>, crate::error::ProgramError>(
            seq![Effect::Store { account: 1, state }],
        ),
        spec_counter_stored(before, after, state),
    ensures
        up ==> (spec_decrement(after, data) matches Ok(effects) && (effects.len() == 1 && (
        effects[0] matches Effect::Store { account, state: back } && (account == 1
            && back.spec_stored(after[1].data@) == before[1].data@)))),
        !up ==> (spec_increment(after, data) matches Ok(effects) && (effects.len() == 1 && (
        effects[0] matches Effect::Store { account, state: back } && (account == 1
            && back.spec_stored(after[1].data@) == before[1].data@)))),
{
    let count = spec_stored_count(before);
    let new_count = if up { (count + 1) as u64 } else { (count - 1) as u64 };
    let first = if up {
        spec_increment(before, data)->Ok_0
    } else {
        spec_decrement(before, data)->Ok_0
    };
    assert(first[0] == Effect::Store { account: 1, state });
    assert(spec_check_update(before, data) is Ok);
    let c = state->Counter_0;
    assert(c.authority == before[0].address);
    assert(c.count == le_array(new_count));
    assert(c.bump == before[1].data@[40]);
    crate::bytes::lemma_le_array(new_count);
    crate::bytes::lemma_le_roundtrip(new_count);
    let stored = after[1].data@;
    assert(stored == c.spec_bytes());
    assert(stored.subrange(0, 32) =~= before[0].address@);
    assert(stored.subrange(32, 40) =~= le_bytes(new_count));
    assert(stored[40] == before[1].data@[40]);
    assert(spec_check_update(after, data) is Ok);
    assert(spec_stored_count(after) == new_count);
    let old_bytes = before[1].data@;
    crate::bytes::lemma_le_bytes_of_value(old_bytes.subrange(32, 40));
    crate::bytes::lemma_le_array(count);
    assert(old_bytes =~= before[0].address@ + le_bytes(count) + seq![old_bytes[40]]);
    let second = if up {
        spec_decrement(after, data)->Ok_0
    } else {
        spec_increment(after, data)->Ok_0
    };
    let back = second[0]->Store_state->Counter_0;
    assert(back.count == le_array(count));
    assert(back.spec_bytes() =~= old_bytes);
}

/// The count never leaves the range of a `u64`: on accounts that pass the checks, a
/// decrement of a zero count is refused with the counter's `Underflow` error and an
/// increment of a count at `u64::MAX` with its `Overflow` error; a refused instruction
/// has no effect, so the count stays as it was.
pub proof fn law_count_stays_in_range(accounts: Seq<AccountView>, data: Seq<u8>)
    requires
        spec_check_update(accounts, data) is Ok,
    ensures
        spec_stored_count(accounts) == 0 ==> spec_decrement(accounts, data) == Err::<
            Seq<Effect>,
            ProgramError,
        >(CounterError::Underflow.spec_program_error()),
        spec_stored_count(accounts) == u64::MAX ==> spec_increment(accounts, data) == Err::<
            Seq<Effect>,
            ProgramError,
        >(CounterError::Overflow.spec_program_error()),
{
}

/// Only the counter's stored authority, signing, changes the count.
pub proof fn law_update_needs_authority(accounts: Seq<AccountView>, data: Seq<u8>)
    requires
        spec_increment(accounts, data) matches Ok(_) || spec_decrement(
            accounts,
            data,
        ) matches Ok(_),
    ensures
        accounts[0].is_signer,
        accounts[1].data@.subrange(0, 32) == accounts[0].address@,
        accounts[1].address@ == (PdaSeeds {
            prefix: SeedPrefix::Counter,
            key: accounts[0].address,
            seed: None,
            bump: data[0],
        }).spec_address(super::ID@),
{
}

/// An initialize creates the counter account at the counter address of the signing
/// authority and the bump, owned by the program and paid by the authority, and stores in
/// it the authority (bytes 0..32), a count of zero (32..40) and the bump (40).
pub proof fn law_initialize_stores_a_zero_count(
    accounts: Seq<AccountView>,
    data: Seq<u8>,
    rent: Result<Rent, ProgramError>,
)
    requires
        spec_initialize(accounts, data, rent) is Ok,
    ensures
        ({
            let effects = spec_initialize(accounts, data, rent)->Ok_0;
            let seeds = PdaSeeds {
                prefix: SeedPrefix::Counter,
                key: accounts[0].address,
                seed: None,
                bump: data[0],
            };
            &&& effects.len() == 2
            &&& accounts[0].is_signer
            &&& effects[0] matches Effect::CreateAccount { from, to, space, owner, signer, .. }
                && from == 0 && to == 1 && space == 41 && owner == super::ID && signer == seeds
            &&& seeds.spec_address(super::ID@) == accounts[1].address@
            &&& effects[1] matches Effect::Store { account, state } && account == 1 && ({
                let stored = state.spec_stored(accounts[1].data@);
                &&& stored.len() == 41
                &&& stored.subrange(0, 32) == accounts[0].address@
                &&& le_u64(stored.subrange(32, 40)) == 0
                &&& stored[40] == data[0]
            })
        }),
{
    let effects = spec_initialize(accounts, data, rent)->Ok_0;
    let c = effects[1]->Store_state->Counter_0;
    assert(effects[1] == Effect::Store { account: 1, state: State::Counter(c) });
    let stored = c.spec_bytes();
    assert(stored.subrange(0, 32) =~= c.authority@);
    assert(stored.subrange(32, 40) =~= c.count@);
    crate::bytes::lemma_le_array(0);
    crate::bytes::lemma_le_roundtrip(0);
}

} // verus!
