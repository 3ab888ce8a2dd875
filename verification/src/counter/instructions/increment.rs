use vstd::prelude::*;

use crate::account::AccountView;
use crate::bytes::le_array;
use crate::effect::{effects_view, Effect, State};
use crate::error::ProgramError;
use super::super::error::CounterError;
use super::super::state::Counter;
use super::{load_counter, spec_check_update, spec_stored_count};

verus! {

/// What `increment` does with accounts `[authority (signer), counter]`: stores the count
/// plus one. A count at `u64::MAX` is refused with the counter's `Overflow` error and
/// left as it is.
pub open spec fn spec_increment(accounts: Seq<AccountView>, data: Seq<u8>) -> Result<
    Seq<Effect>,
    ProgramError,
> {
    match spec_check_update(accounts, data) {
        Err(e) => Err(e),
        Ok(_) => if spec_stored_count(accounts) == u64::MAX {
            Err(CounterError::Overflow.spec_program_error())
        } else {
            Ok(
                seq![
                    Effect::Store {
                        account: 1,
                        state: State::Counter(
                            Counter {
                                authority: accounts[0].address,
                                count: le_array((spec_stored_count(accounts) + 1) as u64),
                                bump: accounts[1].data@[40],
                            },
                        ),
                    },
                ],
            )
        },
    }
}

/// Adds one to the counter of the signing authority.
pub fn process_increment_instruction(accounts: &[AccountView], data: &[u8]) -> (r: Result<
    Vec<Effect>,
    ProgramError,
>)
    ensures
        effects_view(r) == spec_increment(accounts@, data@),
{
    let mut counter_data = load_counter(accounts, data)?;
    let new_count = match counter_data.count().checked_add(1) {
        Some(count) => count,
        None => return Err(CounterError::Overflow.program_error()),
    };
    counter_data.set_count(new_count);
    let effects = vec![Effect::Store { account: 1, state: State::Counter(counter_data) }];
    assert(effects@ =~= spec_increment(accounts@, data@)->Ok_0);
    Ok(effects)
}

} // verus!
