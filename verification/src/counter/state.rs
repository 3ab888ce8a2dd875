//! The counter account: who may change it, its value and the bump of its address.
use vstd::prelude::*;

use crate::account::{AccountView, Address};
use crate::bytes::{
    le_array, le_bytes, le_u64, read_array32, read_array8, u64_from_le_bytes, u64_to_le_bytes,
    write_bytes,
};
use crate::error::ProgramError;

verus! {

/// On-chain state tracking a user's counter, stored as its 41 bytes in field order.
///
/// Derived via PDA: `["counter", authority, bump]`.
#[derive(Clone, Copy, Debug, Default, PartialEq)]
pub struct Counter {
    /// Authority allowed to increment/decrement the counter.
    pub authority: [u8; 32],
    /// The current counter value (little endian).
    pub count: [u8; 8],
    /// PDA bump seed.
    pub bump: u8,
}


impl Counter {
    /// The exact space required for on-chain state storage.
    pub const LEN: usize = 41;

    /// The account data that holds this counter.
    pub open spec fn spec_bytes(self) -> Seq<u8> {
        self.authority@ + self.count@ + seq![self.bump]
    }

    /// Counters with the same bytes are the same counter: reading back a stored counter
    /// gives that counter.
    pub proof fn lemma_bytes_injective(self, other: Counter)
        requires
            self.spec_bytes() == other.spec_bytes(),
        ensures
            self == other,
    {
        assert(self.authority@ =~= self.spec_bytes().subrange(0, 32));
        assert(other.authority@ =~= other.spec_bytes().subrange(0, 32));
        assert(self.count@ =~= self.spec_bytes().subrange(32, 40));
        assert(other.count@ =~= other.spec_bytes().subrange(32, 40));
        assert(self.spec_bytes()[40] == self.bump);
        assert(other.spec_bytes()[40] == other.bump);
        crate::bytes::lemma_array_ext(self.authority, other.authority);
        crate::bytes::lemma_array_ext(self.count, other.count);
    }

    /// The counter value.
    pub open spec fn spec_count(self) -> u64 {
        le_u64(self.count@) as u64
    }

    /// Reads the counter that an account's data holds; the data must have the exact size.
    pub fn from_account_info(account: &AccountView) -> (r: Result<Counter, ProgramError>)
        ensures
            r is Ok <==> account.data@.len() == Counter::LEN,
            r matches Err(e) ==> e == ProgramError::InvalidAccountData,
            r matches Ok(c) ==> c.spec_bytes() == account.data@,
    {
        let data = account.data.as_slice();
        if data.len() != Self::LEN {
            return Err(ProgramError::InvalidAccountData);
        }
        let c = Counter {
            authority: read_array32(data, 0),
            count: read_array8(data, 32),
            bump: data[40],
        };
        assert(c.spec_bytes() =~= data@);
        Ok(c)
    }

    /// The authority's address.
    pub fn authority(&self) -> (r: Address)
        ensures
            r == self.authority,
    {
        self.authority
    }

    pub fn set_authority(&mut self, authority: &Address)
        ensures
            final(self).authority == *authority,
            final(self).count == old(self).count,
            final(self).bump == old(self).bump,
    {
        self.authority = *authority;
    }

    pub fn count(&self) -> (r: u64)
        ensures
            r == self.spec_count(),
    {
        u64_from_le_bytes(self.count)
    }

    pub fn set_count(&mut self, count: u64)
        ensures
            final(self).count == le_array(count),
            final(self).count@ == le_bytes(count),
            final(self).spec_count() == count,
            final(self).authority == old(self).authority,
            final(self).bump == old(self).bump,
    {
        self.count = u64_to_le_bytes(count);
        proof {
            crate::bytes::lemma_le_roundtrip(count);
        }
    }

    /// Stores the counter into account data of the counter's size.
    pub fn write_into(&self, data: &mut Vec<u8>)
        requires
            old(data)@.len() == Counter::LEN,
        ensures
            final(data)@ == self.spec_bytes(),
    {
        write_bytes(data, 0, self.authority.as_slice());
        write_bytes(data, 32, self.count.as_slice());
        data.set(40, self.bump);
        assert(data@ =~= self.spec_bytes());
    }
}

} // verus!
