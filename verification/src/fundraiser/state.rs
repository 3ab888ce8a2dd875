//! The fundraiser campaign account and the per-contributor account.
use vstd::prelude::*;

use crate::account::{AccountView, Address};
use crate::bytes::{
    lemma_to_array, to_array, le_array, le_array_i64, le_bytes, le_bytes_i64, le_i64, le_u64, read_array32, read_array8,
    u64_from_le_bytes, u64_to_le_bytes, i64_from_le_bytes, i64_to_le_bytes, write_bytes,
};
use crate::error::ProgramError;

verus! {

/// On-chain state account for a fundraiser campaign.
///
/// Derived via PDA: `["fundraiser", maker, bump]`.
/// All multi-byte fields are stored in little-endian byte arrays, so the account data
/// is the fields in order, 90 bytes.
#[derive(Clone, Copy, Debug, PartialEq)]
pub struct Fundraiser {
    /// Public key of the fundraiser creator.
    pub maker: [u8; 32],
    /// Mint account of the token being raised.
    pub mint_to_raise: [u8; 32],
    /// Target amount in token base units (little-endian u64).
    pub amount_to_raise: [u8; 8],
    /// Amount collected so far in token base units (little-endian u64).
    pub current_amount: [u8; 8],
    /// Unix timestamp at which the campaign started (little-endian i64).
    pub time_started: [u8; 8],
    /// Campaign duration in days.
    pub duration: u8,
    /// Canonical bump seed for the fundraiser PDA.
    pub bump: u8,
}

impl Fundraiser {
    /// Total on-chain allocation for this account.
    pub const LEN: usize = 90;

    /// The account data that holds this campaign.
    pub open spec fn spec_bytes(self) -> Seq<u8> {
        self.maker@ + self.mint_to_raise@ + self.amount_to_raise@ + self.current_amount@
            + self.time_started@ + seq![self.duration, self.bump]
    }

    /// The campaign that 90 bytes of account data hold.
    pub open spec fn spec_from_bytes(data: Seq<u8>) -> Fundraiser {
        Fundraiser {
            maker: to_array(data.subrange(0, 32)),
            mint_to_raise: to_array(data.subrange(32, 64)),
            amount_to_raise: to_array(data.subrange(64, 72)),
            current_amount: to_array(data.subrange(72, 80)),
            time_started: to_array(data.subrange(80, 88)),
            duration: data[88],
            bump: data[89],
        }
    }

    /// Reading a campaign back from its bytes gives the campaign.
    pub proof fn lemma_from_bytes(self)
        ensures
            Self::spec_from_bytes(self.spec_bytes()) == self,
    {
        let b = self.spec_bytes();
        assert(b.subrange(0, 32) =~= self.maker@);
        assert(b.subrange(32, 64) =~= self.mint_to_raise@);
        assert(b.subrange(64, 72) =~= self.amount_to_raise@);
        assert(b.subrange(72, 80) =~= self.current_amount@);
        assert(b.subrange(80, 88) =~= self.time_started@);
        lemma_to_array(self.maker);
        lemma_to_array(self.mint_to_raise);
        lemma_to_array(self.amount_to_raise);
        lemma_to_array(self.current_amount);
        lemma_to_array(self.time_started);
    }

    /// The campaign read from 90 bytes stores back exactly those bytes.
    pub proof fn lemma_bytes_of_read(data: Seq<u8>)
        requires
            data.len() == Fundraiser::LEN,
        ensures
            Self::spec_from_bytes(data).spec_bytes() == data,
    {
        crate::bytes::lemma_to_array32(data.subrange(0, 32));
        crate::bytes::lemma_to_array32(data.subrange(32, 64));
        crate::bytes::lemma_to_array8(data.subrange(64, 72));
        crate::bytes::lemma_to_array8(data.subrange(72, 80));
        crate::bytes::lemma_to_array8(data.subrange(80, 88));
        assert(Self::spec_from_bytes(data).spec_bytes() =~= data);
    }

    /// Where each field sits in the campaign's bytes.
    pub proof fn lemma_bytes_layout(self)
        ensures
            self.spec_bytes().len() == Fundraiser::LEN,
            self.spec_bytes().subrange(0, 32) == self.maker@,
            self.spec_bytes().subrange(32, 64) == self.mint_to_raise@,
            self.spec_bytes().subrange(64, 72) == self.amount_to_raise@,
            self.spec_bytes().subrange(72, 80) == self.current_amount@,
            self.spec_bytes().subrange(80, 88) == self.time_started@,
            self.spec_bytes()[88] == self.duration,
            self.spec_bytes()[89] == self.bump,
    {
        let b = self.spec_bytes();
        assert(b.subrange(0, 32) =~= self.maker@);
        assert(b.subrange(32, 64) =~= self.mint_to_raise@);
        assert(b.subrange(64, 72) =~= self.amount_to_raise@);
        assert(b.subrange(72, 80) =~= self.current_amount@);
        assert(b.subrange(80, 88) =~= self.time_started@);
    }

    /// Campaigns with the same bytes are the same campaign: reading back a stored
    /// campaign gives that campaign.
    pub proof fn lemma_bytes_injective(self, other: Fundraiser)
        requires
            self.spec_bytes() == other.spec_bytes(),
        ensures
            self == other,
    {
        self.lemma_from_bytes();
        other.lemma_from_bytes();
    }

    pub open spec fn spec_amount_to_raise(self) -> u64 {
        le_u64(self.amount_to_raise@) as u64
    }

    pub open spec fn spec_current_amount(self) -> u64 {
        le_u64(self.current_amount@) as u64
    }

    pub open spec fn spec_time_started(self) -> i64 {
        le_i64(self.time_started@) as i64
    }

    /// Reads the campaign that an account's data holds; the data must have the exact size.
    pub fn from_account_info(account: &AccountView) -> (r: Result<Fundraiser, ProgramError>)
        ensures
            r is Ok <==> account.data@.len() == Fundraiser::LEN,
            r matches Err(e) ==> e == ProgramError::InvalidAccountData,
            r matches Ok(f) ==> f.spec_bytes() == account.data@,
    {
        let data = account.data.as_slice();
        if data.len() != Self::LEN {
            return Err(ProgramError::InvalidAccountData);
        }
        let f = Fundraiser {
            maker: read_array32(data, 0),
            mint_to_raise: read_array32(data, 32),
            amount_to_raise: read_array8(data, 64),
            current_amount: read_array8(data, 72),
            time_started: read_array8(data, 80),
            duration: data[88],
            bump: data[89],
        };
        assert(f.spec_bytes() =~= data@);
        Ok(f)
    }

    pub fn maker(&self) -> (r: Address)
        ensures
            r == self.maker,
    {
        self.maker
    }

    pub fn set_maker(&mut self, maker: &Address)
        ensures
            *final(self) == (Fundraiser { maker: *maker, ..*old(self) }),
    {
        self.maker = *maker;
    }

    pub fn mint_to_raise(&self) -> (r: Address)
        ensures
            r == self.mint_to_raise,
    {
        self.mint_to_raise
    }

    pub fn set_mint_to_raise(&mut self, mint: &Address)
        ensures
            *final(self) == (Fundraiser { mint_to_raise: *mint, ..*old(self) }),
    {
        self.mint_to_raise = *mint;
    }

    pub fn amount_to_raise(&self) -> (r: u64)
        ensures
            r == self.spec_amount_to_raise(),
    {
        u64_from_le_bytes(self.amount_to_raise)
    }

    pub fn set_amount_to_raise(&mut self, amount: u64)
        ensures
            *final(self) == (Fundraiser { amount_to_raise: le_array(amount), ..*old(self) }),
            final(self).spec_amount_to_raise() == amount,
    {
        self.amount_to_raise = u64_to_le_bytes(amount);
        proof {
            crate::bytes::lemma_le_roundtrip(amount);
        }
    }

    pub fn current_amount(&self) -> (r: u64)
        ensures
            r == self.spec_current_amount(),
    {
        u64_from_le_bytes(self.current_amount)
    }

    pub fn set_current_amount(&mut self, amount: u64)
        ensures
            *final(self) == (Fundraiser { current_amount: le_array(amount), ..*old(self) }),
            final(self).spec_current_amount() == amount,
    {
        self.current_amount = u64_to_le_bytes(amount);
        proof {
            crate::bytes::lemma_le_roundtrip(amount);
        }
    }

    pub fn time_started(&self) -> (r: i64)
        ensures
            r == self.spec_time_started(),
    {
        i64_from_le_bytes(self.time_started)
    }

    pub fn set_time_started(&mut self, time: i64)
        ensures
            *final(self) == (Fundraiser { time_started: le_array_i64(time), ..*old(self) }),
            final(self).spec_time_started() == time,
    {
        self.time_started = i64_to_le_bytes(time);
        proof {
            crate::bytes::lemma_le_i64_roundtrip(time);
        }
    }

    /// Stores the campaign into account data of the campaign's size.
    pub fn write_into(&self, data: &mut Vec<u8>)
        requires
            old(data)@.len() == Fundraiser::LEN,
        ensures
            final(data)@ == self.spec_bytes(),
    {
        write_bytes(data, 0, self.maker.as_slice());
        write_bytes(data, 32, self.mint_to_raise.as_slice());
        write_bytes(data, 64, self.amount_to_raise.as_slice());
        write_bytes(data, 72, self.current_amount.as_slice());
        write_bytes(data, 80, self.time_started.as_slice());
        data.set(88, self.duration);
        data.set(89, self.bump);
        assert(data@ =~= self.spec_bytes());
    }
}

/// On-chain state account tracking the cumulative contribution of a single contributor.
///
/// Derived via PDA: `["contributor", contributor, bump]`.
#[derive(Clone, Copy, Debug, PartialEq)]
pub struct Contributor {
    /// Total amount contributed by this contributor in token base units (little-endian u64).
    pub amount: [u8; 8],
}

impl Contributor {
    /// Total on-chain allocation for this account (no discriminator — raw 8 bytes).
    pub const LEN: usize = 8;

    pub open spec fn spec_bytes(self) -> Seq<u8> {
        self.amount@
    }

    /// Records with the same bytes are the same record.
    pub proof fn lemma_bytes_injective(self, other: Contributor)
        requires
            self.spec_bytes() == other.spec_bytes(),
        ensures
            self == other,
    {
        crate::bytes::lemma_array_ext(self.amount, other.amount);
    }

    pub open spec fn spec_amount(self) -> u64 {
        le_u64(self.amount@) as u64
    }

    /// Reads the contribution that an account's data holds; the data must have the exact size.
    pub fn from_account_info(account: &AccountView) -> (r: Result<Contributor, ProgramError>)
        ensures
            r is Ok <==> account.data@.len() == Contributor::LEN,
            r matches Err(e) ==> e == ProgramError::InvalidAccountData,
            r matches Ok(c) ==> c.spec_bytes() == account.data@,
    {
        let data = account.data.as_slice();
        if data.len() != Self::LEN {
            return Err(ProgramError::InvalidAccountData);
        }
        let c = Contributor { amount: read_array8(data, 0) };
        assert(c.spec_bytes() =~= data@);
        Ok(c)
    }

    pub fn amount(&self) -> (r: u64)
        ensures
            r == self.spec_amount(),
    {
        u64_from_le_bytes(self.amount)
    }

    pub fn set_amount(&mut self, amount: u64)
        ensures
            final(self).amount == le_array(amount),
            final(self).amount@ == le_bytes(amount),
            final(self).spec_amount() == amount,
    {
        self.amount = u64_to_le_bytes(amount);
        proof {
            crate::bytes::lemma_le_roundtrip(amount);
        }
    }

    /// Setting the amount and reading it back gives the amount set, whatever the record
    /// held before: the record `set_amount(v)` leaves has the amount `v`.
    pub proof fn law_amount_after_set(v: u64)
        ensures
            (Contributor { amount: le_array(v) }).spec_amount() == v,
    {
        crate::bytes::lemma_le_array(v);
        crate::bytes::lemma_le_roundtrip(v);
    }

    /// Stores the contribution into account data of the contributor account's size.
    pub fn write_into(&self, data: &mut Vec<u8>)
        requires
            old(data)@.len() == Contributor::LEN,
        ensures
            final(data)@ == self.spec_bytes(),
    {
        write_bytes(data, 0, self.amount.as_slice());
        assert(data@ =~= self.spec_bytes());
    }
}

/// A record that has contributed nothing.
impl Default for Contributor {
    fn default() -> (r: Self)
        ensures
            r.amount@ == seq![0u8, 0, 0, 0, 0, 0, 0, 0],
            r.spec_amount() == 0,
    {
        let r = Contributor { amount: [0u8, 0, 0, 0, 0, 0, 0, 0] };
        assert(r.amount@ =~= seq![0u8, 0, 0, 0, 0, 0, 0, 0]);
        r
    }
}

} // verus!
