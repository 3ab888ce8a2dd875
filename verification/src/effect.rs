//! What an instruction asks of the runtime once its checks have passed.
//!
//! An instruction handler either rejects its input with an error, before it has touched
//! anything, or returns the effects it performs, in order: calls into other programs
//! (which the runtime may refuse, failing the instruction with their error), writes of
//! its own account data and balances, and possibly a final failure. Any failure undoes
//! every effect of the instruction.
use vstd::prelude::*;

use crate::account::{AccountView, Address, TOKEN_ACCOUNT_LEN};
use crate::counter::state::Counter;
use crate::error::ProgramError;
use crate::escrow::state::Escrow;
use crate::fundraiser::state::{Contributor, Fundraiser};
use crate::pda::PdaSeeds;

verus! {

/// A program state value to be stored into an account's data.
#[derive(Clone, Copy, Debug, PartialEq)]
pub enum State {
    Counter(Counter),
    Escrow(Escrow),
    Fundraiser(Fundraiser),
    Contributor(Contributor),
}

impl State {
    /// The size of the account data that holds the value.
    pub open spec fn spec_len(self) -> nat {
        match self {
            State::Counter(_) => Counter::LEN as nat,
            State::Escrow(_) => Escrow::LEN as nat,
            State::Fundraiser(_) => Fundraiser::LEN as nat,
            State::Contributor(_) => Contributor::LEN as nat,
        }
    }

    /// The account data after storing the value into `data`.
    pub open spec fn spec_stored(self, data: Seq<u8>) -> Seq<u8> {
        match self {
            State::Counter(c) => c.spec_bytes(),
            State::Escrow(e) => e.spec_bytes() + data.subrange(
                Escrow::FIELDS_LEN as int,
                Escrow::LEN as int,
            ),
            State::Fundraiser(f) => f.spec_bytes(),
            State::Contributor(c) => c.spec_bytes(),
        }
    }

    pub fn len(&self) -> (r: usize)
        ensures
            r == self.spec_len(),
    {
        match self {
            State::Counter(_) => Counter::LEN,
            State::Escrow(_) => Escrow::LEN,
            State::Fundraiser(_) => Fundraiser::LEN,
            State::Contributor(_) => Contributor::LEN,
        }
    }

    /// Stores the value into account data of its size.
    pub fn write_into(&self, data: &mut Vec<u8>)
        requires
            old(data)@.len() == self.spec_len(),
        ensures
            final(data)@ == self.spec_stored(old(data)@),
    {
        match self {
            State::Counter(c) => c.write_into(data),
            State::Escrow(e) => e.write_into(data),
            State::Fundraiser(f) => f.write_into(data),
            State::Contributor(c) => c.write_into(data),
        }
    }
}

/// One step of an instruction that passed its checks. Account fields are indices into
/// the instruction's accounts.
#[derive(Clone, Copy, Debug, PartialEq)]
#[allow(inconsistent_fields)]
pub enum Effect {
    /// The system program's `CreateAccount`, with the new account's address signed for
    /// by `signer`.
    CreateAccount { from: usize, to: usize, lamports: u64, space: u64, owner: Address, signer: PdaSeeds },
    /// The associated token account program's `Create`.
    CreateAssociatedTokenAccount {
        funding_account: usize,
        account: usize,
        wallet: usize,
        mint: usize,
        system_program: usize,
        token_program: usize,
    },
    /// The token program's `Transfer` of `amount` from `from` to `to`, authorised by
    /// `authority`, which a program-derived address signs for when `signer` is given.
    Transfer { from: usize, to: usize, authority: usize, amount: u64, signer: Option<PdaSeeds> },
    /// Store a state value into the account's data.
    Store { account: usize, state: State },
    /// Set the account's balance.
    SetLamports { account: usize, lamports: u64 },
    /// Close the account (zero its balance, owner and data length); a failure to close
    /// is ignored.
    Close { account: usize },
    /// The instruction fails with this error.
    Fail { error: ProgramError },
}

/// The outcome of a handler, seen as a sequence of effects.
pub open spec fn effects_view(r: Result<Vec<Effect>, ProgramError>) -> Result<Seq<Effect>, ProgramError> {
    match r {
        Ok(effects) => Ok(effects@),
        Err(e) => Err(e),
    }
}

} // verus!

verus! {

/// The effects of an outcome that succeeds.
pub open spec fn ok_effects(r: Option<Result<Seq<Effect>, ProgramError>>) -> Seq<Effect> {
    r->Some_0->Ok_0
}

/// Whether a `Fail` stands among the effects.
pub open spec fn has_fail(effects: Seq<Effect>) -> bool {
    exists|i: int| 0 <= i < effects.len() && (#[trigger] effects[i]) is Fail
}

/// Whether the instruction fails: it is rejected before any effect, or a `Fail` stands
/// among its effects.
pub open spec fn fails(r: Result<Seq<Effect>, ProgramError>) -> bool {
    match r {
        Err(_) => true,
        Ok(effects) => has_fail(effects),
    }
}

/// The effects that remain once the instruction is over: none where it fails, since the
/// runtime undoes every effect of a failed instruction, and all of them otherwise.
pub open spec fn committed(r: Result<Seq<Effect>, ProgramError>) -> Seq<Effect> {
    if fails(r) {
        Seq::empty()
    } else {
        r->Ok_0
    }
}

/// Each account's data and balance: what the program's own effects write.
pub open spec fn holdings(accounts: Seq<AccountView>) -> Seq<(Seq<u8>, u64)> {
    Seq::new(accounts.len(), |i: int| (accounts[i].data@, accounts[i].lamports))
}

/// What one effect writes of the holdings itself: a store rewrites the account's data, a
/// balance is set, a close empties the data and the balance. Calls into other programs,
/// and `Fail`, write nothing here; what a called program does to its accounts is that
/// program's to state.
pub open spec fn apply_write(h: Seq<(Seq<u8>, u64)>, effect: Effect) -> Seq<(Seq<u8>, u64)> {
    match effect {
        Effect::Store { account, state } => h.update(
            account as int,
            (state.spec_stored(h[account as int].0), h[account as int].1),
        ),
        Effect::SetLamports { account, lamports } => h.update(
            account as int,
            (h[account as int].0, lamports),
        ),
        Effect::Close { account } => h.update(account as int, (Seq::<u8>::empty(), 0u64)),
        _ => h,
    }
}

/// The holdings after the program's own writes among `effects`, in order.
pub open spec fn apply_writes(h: Seq<(Seq<u8>, u64)>, effects: Seq<Effect>) -> Seq<(Seq<u8>, u64)>
    decreases effects.len(),
{
    if effects.len() == 0 {
        h
    } else {
        apply_writes(apply_write(h, effects[0]), effects.drop_first())
    }
}

/// A failed instruction changes nothing: none of its effects remains, so no account's
/// data or balance is written and no other program is called.
pub proof fn law_failure_changes_nothing(accounts: Seq<AccountView>, r: Result<Seq<Effect>, ProgramError>)
    requires
        fails(r),
    ensures
        committed(r) == Seq::<Effect>::empty(),
        apply_writes(holdings(accounts), committed(r)) == holdings(accounts),
{
}

/// Whether a token transfer is authorised as the token program requires: its source is
/// a token account whose stored owner (bytes 32..64 of its data) is the authority, and
/// the authority either signed the transaction or is the address that the transfer's
/// seeds derive under `program_id`, for which the program signs.
pub open spec fn transfer_authorised(
    accounts: Seq<AccountView>,
    effect: Effect,
    program_id: Seq<u8>,
) -> bool {
    match effect {
        Effect::Transfer { from, authority, signer, .. } => {
            &&& from < accounts.len()
            &&& authority < accounts.len()
            &&& accounts[from as int].data@.len() == TOKEN_ACCOUNT_LEN
            &&& accounts[from as int].data@.subrange(32, 64) == accounts[authority as int].address@
            &&& match signer {
                None => accounts[authority as int].is_signer,
                Some(seeds) => seeds.spec_address(program_id) == accounts[authority as int].address@,
            }
        },
        _ => false,
    }
}

/// Whether a token transfer goes between token accounts of one mint (bytes 0..32 of
/// their data).
pub open spec fn transfer_within_mint(accounts: Seq<AccountView>, effect: Effect) -> bool {
    match effect {
        Effect::Transfer { from, to, .. } => {
            &&& from < accounts.len()
            &&& to < accounts.len()
            &&& accounts[to as int].data@.len() == TOKEN_ACCOUNT_LEN
            &&& accounts[to as int].data@.subrange(0, 32) == accounts[from as int].data@.subrange(0, 32)
        },
        _ => false,
    }
}

/// Whether an outcome succeeds (the program neither aborts nor rejects).
pub open spec fn succeeds(r: Option<Result<Seq<Effect>, ProgramError>>) -> bool {
    r matches Some(Ok(_))
}

} // verus!
