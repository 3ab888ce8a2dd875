//! What holds of the escrow program across its instructions.
use vstd::prelude::*;

use crate::account::AccountView;
use crate::account::Rent;
use crate::bytes::le_u64;
use crate::pda::{PdaSeeds, SeedPrefix};
use crate::effect::{transfer_authorised, transfer_within_mint, ok_effects, succeeds, Effect, State};
use crate::error::ProgramError;
use super::instructions::make::spec_make;
use super::instructions::refund::spec_refund;
use super::instructions::take::spec_take;
use super::instructions::{
    spec_check_escrow_maker, spec_escrow_seeds, spec_stored_amount_a, spec_stored_amount_b,
};
use super::state::Escrow;
use super::ID;

verus! {

/// A take moves the escrow's whole balance to the maker and closes the escrow: the two
/// balances add up to what they did before.
pub proof fn law_take_conserves_lamports(accounts: Seq<AccountView>, data: Seq<u8>)
    requires
        succeeds(spec_take(accounts, data)),
    ensures
        ok_effects(spec_take(accounts, data)).len() == 5,
        ok_effects(spec_take(accounts, data))[2] == (Effect::SetLamports {
            account: 1,
            lamports: (accounts[1].lamports + accounts[4].lamports) as u64,
        }),
        ok_effects(spec_take(accounts, data))[3] == (Effect::SetLamports { account: 4, lamports: 0 }),
        ok_effects(spec_take(accounts, data))[4] == (Effect::Close { account: 4 }),
        accounts[1].lamports + accounts[4].lamports <= u64::MAX,
{
    let effects = ok_effects(spec_take(accounts, data));
    assert(effects[2] == Effect::SetLamports {
        account: 1,
        lamports: (accounts[1].lamports + accounts[4].lamports) as u64,
    });
}

/// A refund moves the escrow's whole balance to the maker and closes the escrow: the two
/// balances add up to what they did before.
pub proof fn law_refund_conserves_lamports(accounts: Seq<AccountView>, data: Seq<u8>)
    requires
        succeeds(spec_refund(accounts, data)),
    ensures
        ok_effects(spec_refund(accounts, data)).len() == 4,
        ok_effects(spec_refund(accounts, data))[1] == (Effect::SetLamports {
            account: 0,
            lamports: (accounts[0].lamports + accounts[2].lamports) as u64,
        }),
        ok_effects(spec_refund(accounts, data))[2] == (Effect::SetLamports { account: 2, lamports: 0 }),
        ok_effects(spec_refund(accounts, data))[3] == (Effect::Close { account: 2 }),
        accounts[0].lamports + accounts[2].lamports <= u64::MAX,
{
    let effects = ok_effects(spec_refund(accounts, data));
    assert(effects[1] == Effect::SetLamports {
        account: 0,
        lamports: (accounts[0].lamports + accounts[2].lamports) as u64,
    });
}

/// A take goes through only for the maker that made the escrow, signing nothing for it:
/// the escrow sits at the address of that maker's seeds and stores that maker; the
/// taker signs, pays the escrow's requested amount_b of mint_b to the maker and receives
/// its deposited amount_a of mint_a from the vault, which the escrow signs for.
pub proof fn law_take_pays_the_maker(accounts: Seq<AccountView>, data: Seq<u8>)
    requires
        succeeds(spec_take(accounts, data)),
    ensures
        accounts[0].is_signer,
        accounts[4].address@ == spec_escrow_seeds(
            accounts[1].address,
            le_u64(data.subrange(0, 8)) as u64,
            data[8],
        ).spec_address(ID@),
        accounts[4].data@.subrange(8, 40) == accounts[1].address@,
        ok_effects(spec_take(accounts, data))[0] == (Effect::Transfer {
            from: 7,
            to: 8,
            authority: 0,
            amount: spec_stored_amount_b(accounts[4]),
            signer: None,
        }),
        ok_effects(spec_take(accounts, data))[1] == (Effect::Transfer {
            from: 5,
            to: 6,
            authority: 4,
            amount: spec_stored_amount_a(accounts[4]),
            signer: Some(
                spec_escrow_seeds(accounts[1].address, le_u64(data.subrange(0, 8)) as u64, data[8]),
            ),
        }),
{
    let effects = ok_effects(spec_take(accounts, data));
    assert(effects[0] == Effect::Transfer {
        from: 7,
        to: 8,
        authority: 0,
        amount: spec_stored_amount_b(accounts[4]),
        signer: None,
    });
}

/// The amounts that an account holding the escrow a make stored reads back are the make's
/// offer.
proof fn lemma_stored_amounts_of_make(
    make_accounts: Seq<AccountView>,
    make_data: Seq<u8>,
    rent: Result<Rent, ProgramError>,
    escrow: AccountView,
)
    requires
        spec_make(make_accounts, make_data, rent) is Ok,
        escrow.data@.len() == Escrow::LEN,
        escrow.data@.subrange(0, Escrow::FIELDS_LEN as int) == spec_make(
            make_accounts,
            make_data,
            rent,
        )->Ok_0[1]->Store_state->Escrow_0.spec_bytes(),
    ensures
        spec_stored_amount_a(escrow) == le_u64(make_data.subrange(8, 16)),
        spec_stored_amount_b(escrow) == le_u64(make_data.subrange(16, 24)),
{
    let stored = spec_make(make_accounts, make_data, rent)->Ok_0[1]->Store_state->Escrow_0;
    law_made_escrow_reads_back(make_accounts, make_data, rent, escrow, stored);
    lemma_stored_amounts(stored, escrow);
}

/// The amounts an account reads back are those of the escrow whose bytes it holds.
proof fn lemma_stored_amounts(stored: Escrow, escrow: AccountView)
    requires
        escrow.data@.len() == Escrow::LEN,
        escrow.data@.subrange(0, Escrow::FIELDS_LEN as int) == stored.spec_bytes(),
    ensures
        spec_stored_amount_a(escrow) == stored.amount_a,
        spec_stored_amount_b(escrow) == stored.amount_b,
{
    stored.lemma_fields();
    crate::bytes::lemma_le_roundtrip(stored.amount_a);
    crate::bytes::lemma_le_roundtrip(stored.amount_b);
    assert(escrow.data@.subrange(104, 112) =~= escrow.data@.subrange(0, 121).subrange(104, 112));
    assert(escrow.data@.subrange(112, 120) =~= escrow.data@.subrange(0, 121).subrange(112, 120));
}

/// A take of the escrow that a make stored exchanges exactly the make's offer: the taker
/// pays the make's amount_b and receives the make's amount_a, whatever amounts the take's
/// own data carries.
pub proof fn law_take_exchanges_the_offer(
    make_accounts: Seq<AccountView>,
    make_data: Seq<u8>,
    rent: Result<Rent, ProgramError>,
    accounts: Seq<AccountView>,
    data: Seq<u8>,
)
    requires
        spec_make(make_accounts, make_data, rent) is Ok,
        accounts[4].data@.subrange(0, Escrow::FIELDS_LEN as int) == spec_make(
            make_accounts,
            make_data,
            rent,
        )->Ok_0[1]->Store_state->Escrow_0.spec_bytes(),
        succeeds(spec_take(accounts, data)),
    ensures
        ok_effects(spec_take(accounts, data))[0] matches Effect::Transfer { amount, .. } && amount
            == le_u64(make_data.subrange(16, 24)),
        ok_effects(spec_take(accounts, data))[1] matches Effect::Transfer { amount, .. } && amount
            == le_u64(make_data.subrange(8, 16)),
{
    lemma_stored_amounts_of_make(make_accounts, make_data, rent, accounts[4]);
    let effects = ok_effects(spec_take(accounts, data));
    assert(effects[0] == Effect::Transfer {
        from: 7,
        to: 8,
        authority: 0,
        amount: spec_stored_amount_b(accounts[4]),
        signer: None,
    });
}

/// A refund of the escrow that a make stored gives the maker back exactly the make's
/// deposit, whatever amount the refund's own data carries.
pub proof fn law_refund_returns_the_deposit(
    make_accounts: Seq<AccountView>,
    make_data: Seq<u8>,
    rent: Result<Rent, ProgramError>,
    accounts: Seq<AccountView>,
    data: Seq<u8>,
)
    requires
        spec_make(make_accounts, make_data, rent) is Ok,
        accounts[2].data@.subrange(0, Escrow::FIELDS_LEN as int) == spec_make(
            make_accounts,
            make_data,
            rent,
        )->Ok_0[1]->Store_state->Escrow_0.spec_bytes(),
        succeeds(spec_refund(accounts, data)),
    ensures
        ok_effects(spec_refund(accounts, data))[0] == (Effect::Transfer {
            from: 3,
            to: 4,
            authority: 2,
            amount: le_u64(make_data.subrange(8, 16)) as u64,
            signer: Some(
                spec_escrow_seeds(accounts[0].address, le_u64(data.subrange(0, 8)) as u64, data[8]),
            ),
        }),
{
    lemma_stored_amounts_of_make(make_accounts, make_data, rent, accounts[2]);
    let effects = ok_effects(spec_refund(accounts, data));
    assert(effects[0] == Effect::Transfer {
        from: 3,
        to: 4,
        authority: 2,
        amount: spec_stored_amount_a(accounts[2]),
        signer: Some(
            spec_escrow_seeds(accounts[0].address, le_u64(data.subrange(0, 8)) as u64, data[8]),
        ),
    });
}

/// The escrow that a make stores reads back as the offer in the make's data, and names
/// the maker that a later take or refund must present.
#[verifier::spinoff_prover]
pub proof fn law_made_escrow_reads_back(
    accounts: Seq<AccountView>,
    data: Seq<u8>,
    rent: Result<Rent, ProgramError>,
    escrow_after: AccountView,
    read: Escrow,
)
    requires
        spec_make(accounts, data, rent) is Ok,
        escrow_after.data@.len() == Escrow::LEN,
        escrow_after.data@.subrange(0, Escrow::FIELDS_LEN as int) == spec_make(
            accounts,
            data,
            rent,
        )->Ok_0[1]->Store_state->Escrow_0.spec_bytes(),
        read.spec_bytes() == escrow_after.data@.subrange(0, Escrow::FIELDS_LEN as int),
    ensures
        read.seed == le_u64(data.subrange(0, 8)),
        read.maker == accounts[0].address,
        read.mint_a == accounts[1].address,
        read.mint_b == accounts[2].address,
        read.amount_a == le_u64(data.subrange(8, 16)),
        read.amount_b == le_u64(data.subrange(16, 24)),
        read.bump == data[24],
        spec_check_escrow_maker(escrow_after, accounts[0].address) is Ok,
{
    let effects = spec_make(accounts, data, rent)->Ok_0;
    let stored = Escrow {
        seed: le_u64(data.subrange(0, 8)) as u64,
        maker: accounts[0].address,
        mint_a: accounts[1].address,
        mint_b: accounts[2].address,
        amount_a: le_u64(data.subrange(8, 16)) as u64,
        amount_b: le_u64(data.subrange(16, 24)) as u64,
        bump: data[24],
    };
    assert(effects[1] == Effect::Store { account: 3, state: State::Escrow(stored) });
    read.lemma_bytes_injective(stored);
    stored.lemma_fields();
    assert(escrow_after.data@.subrange(8, 40) =~= escrow_after.data@.subrange(0, 121).subrange(
        8,
        40,
    ));
}

/// A make deposits the offered amount_a from the maker's token account of mint_a into the
/// vault, authorised by the owner of that token account, the maker, who signs: the
/// program signs for nothing in the deposit. Before it, the escrow account is created at
/// the escrow's address and the vault as the escrow's token account of mint_a.
pub proof fn law_make_deposit_signed_by_the_maker(
    accounts: Seq<AccountView>,
    data: Seq<u8>,
    rent: Result<Rent, ProgramError>,
)
    requires
        spec_make(accounts, data, rent) is Ok,
    ensures
        ({
            let effects = spec_make(accounts, data, rent)->Ok_0;
            let seeds = PdaSeeds {
                prefix: SeedPrefix::Escrow,
                key: accounts[0].address,
                seed: Some(le_u64(data.subrange(0, 8)) as u64),
                bump: data[24],
            };
            &&& effects.len() == 4
            &&& effects[0] matches Effect::CreateAccount { from, to, owner, signer, .. } && from
                == 0 && to == 3 && owner == ID && signer == seeds
            &&& seeds.spec_address(ID@) == accounts[3].address@
            &&& effects[2] == (Effect::CreateAssociatedTokenAccount {
                funding_account: 0,
                account: 4,
                wallet: 3,
                mint: 1,
                system_program: 6,
                token_program: 7,
            })
            &&& effects[3] == (Effect::Transfer {
                from: 5,
                to: 4,
                authority: 0,
                amount: le_u64(data.subrange(8, 16)) as u64,
                signer: None,
            })
            &&& transfer_authorised(accounts, effects[3], ID@)
            &&& accounts[5].data@.subrange(0, 32) == accounts[1].address@
        }),
{
    let effects = spec_make(accounts, data, rent)->Ok_0;
    assert(effects.len() == 4);
    assert(effects[3] == Effect::Transfer {
        from: 5,
        to: 4,
        authority: 0,
        amount: le_u64(data.subrange(8, 16)) as u64,
        signer: None,
    });
}

/// Only the maker that made an escrow gets its deposit back: a refund that goes through
/// was signed by the maker, names an escrow at the address of the maker's seeds that
/// stores that maker, and moves the deposit from the vault, owned by the escrow, back to
/// the maker's token account of the same mint, the program signing for the escrow.
pub proof fn law_refund_needs_the_maker(accounts: Seq<AccountView>, data: Seq<u8>)
    requires
        succeeds(spec_refund(accounts, data)),
    ensures
        accounts[0].is_signer,
        accounts[2].address@ == (PdaSeeds {
            prefix: SeedPrefix::Escrow,
            key: accounts[0].address,
            seed: Some(le_u64(data.subrange(0, 8)) as u64),
            bump: data[8],
        }).spec_address(ID@),
        accounts[2].data@.subrange(8, 40) == accounts[0].address@,
        ok_effects(spec_refund(accounts, data))[0] matches Effect::Transfer { from, to, authority, .. }
            && from == 3 && to == 4 && authority == 2,
        transfer_authorised(accounts, ok_effects(spec_refund(accounts, data))[0], ID@),
        transfer_within_mint(accounts, ok_effects(spec_refund(accounts, data))[0]),
        accounts[4].data@.subrange(32, 64) == accounts[0].address@,
{
    let effects = ok_effects(spec_refund(accounts, data));
    assert(effects[0] == Effect::Transfer {
        from: 3,
        to: 4,
        authority: 2,
        amount: spec_stored_amount_a(accounts[2]),
        signer: Some(spec_escrow_seeds(accounts[0].address, le_u64(data.subrange(0, 8)) as u64, data[8])),
    });
}

} // verus!
