use vstd::prelude::*;

use crate::account::AccountView;
use crate::bytes::le_array;
use crate::effect::{effects_view, Effect, State};
use crate::error::ProgramError;
use super::super::error::CounterError;
use super::super::state::Counter;
use super::{load_counter, spec_check_update, spec_stored_count};

verus! {

/// What `decrement` does with accounts `[authority (signer), counter]`: stores the count
/// less one. A count at zero is refused with the counter's `Underflow` error and left as
/// it is.
pub open spec fn spec_decrement(accounts: Seq<AccountView>, data: Seq<u8>) -> Result<
    Seq<Effect>,
    ProgramError,
> {
    match spec_check_update(accounts, data) {
        Err(e) => Err(e),
        Ok(_) => if spec_stored_count(accounts) == 0 {
            Err(CounterError::Underflow.spec_program_error())
        } else {
            Ok(
                seq![
                    Effect::Store {
                        account: 1,
                        state: State::Counter(
                            Counter {
                                authority: accounts[0].address,
                                count: le_array((spec_stored_count(accounts) - 1) as u64),
                                bump: accounts[1].data@[40],
                            },
                        ),
                    },
                ],
            )
        },
    }
}

/// Subtracts one from the counter of the signing authority.
pub fn process_decrement_instruction(accounts: &[AccountView], data: &[u8]) -> (r: Result<
    Vec<Effect>,
    ProgramError,
>)
    ensures
        effects_view(r) == spec_decrement(accounts@, data@),
{
    let mut counter_data = load_counter(accounts, data)?;
    let new_count = match counter_data.count().checked_sub(1) {
        Some(count) => count,
        None => return Err(CounterError::Underflow.program_error()),
    };
    counter_data.set_count(new_count);
    let effects = vec![Effect::Store { account: 1, state: State::Counter(counter_data) }];
    assert(effects@ =~= spec_decrement(accounts@, data@)->Ok_0);
    Ok(effects)
}

} // verus!
