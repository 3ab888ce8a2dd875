//! The escrow account: what the maker deposited and what it asks in return.
use vstd::prelude::*;

use crate::account::{AccountView, Address};
use crate::bytes::{
    le_bytes, le_u64, read_array32, read_array8, u64_from_le_bytes, u64_to_le_bytes, write_bytes,
};
use crate::error::ProgramError;

verus! {

/// On-chain state representation of an escrow campaign.
///
/// Its data is the fields in order (integers little endian), 121 bytes, followed by
/// 7 bytes of padding up to the 128 bytes of the account.
#[derive(Clone, Copy, Debug, PartialEq)]
pub struct Escrow {
    /// Unique identifier / seed for this escrow.
    pub seed: u64,
    /// The creator of the escrow.
    pub maker: [u8; 32],
    /// The mint of the token deposited by the maker (held in the vault).
    pub mint_a: [u8; 32],
    /// The mint of the token expected in return from the taker.
    pub mint_b: [u8; 32],
    /// Amount of mint_a deposited.
    pub amount_a: u64,
    /// Amount of mint_b expected in return.
    pub amount_b: u64,
    /// PDA bump seed.
    pub bump: u8,
}

impl Escrow {
    /// The exact space required for on-chain state storage.
    pub const LEN: usize = 128;

    /// Bytes the fields take, before the padding.
    pub const FIELDS_LEN: usize = 121;

    /// The bytes the fields take in account data.
    pub open spec fn spec_bytes(self) -> Seq<u8> {
        le_bytes(self.seed) + self.maker@ + self.mint_a@ + self.mint_b@ + le_bytes(self.amount_a)
            + le_bytes(self.amount_b) + seq![self.bump]
    }

    /// Escrows with the same bytes are the same escrow: reading back a stored escrow
    /// gives that escrow.
    pub proof fn lemma_bytes_injective(self, other: Escrow)
        requires
            self.spec_bytes() == other.spec_bytes(),
        ensures
            self == other,
    {
        self.lemma_fields();
        other.lemma_fields();
        crate::bytes::lemma_le_roundtrip(self.seed);
        crate::bytes::lemma_le_roundtrip(other.seed);
        crate::bytes::lemma_le_roundtrip(self.amount_a);
        crate::bytes::lemma_le_roundtrip(other.amount_a);
        crate::bytes::lemma_le_roundtrip(self.amount_b);
        crate::bytes::lemma_le_roundtrip(other.amount_b);
        crate::bytes::lemma_array_ext(self.maker, other.maker);
        crate::bytes::lemma_array_ext(self.mint_a, other.mint_a);
        crate::bytes::lemma_array_ext(self.mint_b, other.mint_b);
    }

    /// Where each field sits in the escrow's bytes.
    pub proof fn lemma_fields(self)
        ensures
            self.spec_bytes().len() == Escrow::FIELDS_LEN,
            self.spec_bytes().subrange(0, 8) == le_bytes(self.seed),
            self.spec_bytes().subrange(8, 40) == self.maker@,
            self.spec_bytes().subrange(40, 72) == self.mint_a@,
            self.spec_bytes().subrange(72, 104) == self.mint_b@,
            self.spec_bytes().subrange(104, 112) == le_bytes(self.amount_a),
            self.spec_bytes().subrange(112, 120) == le_bytes(self.amount_b),
            self.spec_bytes()[120] == self.bump,
    {
        let b = self.spec_bytes();
        assert(b.subrange(0, 8) =~= le_bytes(self.seed));
        assert(b.subrange(8, 40) =~= self.maker@);
        assert(b.subrange(40, 72) =~= self.mint_a@);
        assert(b.subrange(72, 104) =~= self.mint_b@);
        assert(b.subrange(104, 112) =~= le_bytes(self.amount_a));
        assert(b.subrange(112, 120) =~= le_bytes(self.amount_b));
    }

    /// Reads the escrow that an account's data holds; the data must have the exact size.
    pub fn from_account_info(account: &AccountView) -> (r: Result<Escrow, ProgramError>)
        ensures
            r is Ok <==> account.data@.len() == Escrow::LEN,
            r matches Err(e) ==> e == ProgramError::InvalidAccountData,
            r matches Ok(e) ==> e.spec_bytes() == account.data@.subrange(0, Escrow::FIELDS_LEN as int),
    {
        let data = account.data.as_slice();
        if data.len() != Self::LEN {
            return Err(ProgramError::InvalidAccountData);
        }
        let seed = read_array8(data, 0);
        let amount_a = read_array8(data, 104);
        let amount_b = read_array8(data, 112);
        let e = Escrow {
            seed: u64_from_le_bytes(seed),
            maker: read_array32(data, 8),
            mint_a: read_array32(data, 40),
            mint_b: read_array32(data, 72),
            amount_a: u64_from_le_bytes(amount_a),
            amount_b: u64_from_le_bytes(amount_b),
            bump: data[120],
        };
        proof {
            crate::bytes::lemma_le_bytes_of_value(seed@);
            crate::bytes::lemma_le_bytes_of_value(amount_a@);
            crate::bytes::lemma_le_bytes_of_value(amount_b@);
        }
        assert(e.spec_bytes() =~= data@.subrange(0, 121));
        Ok(e)
    }

    pub fn maker(&self) -> (r: Address)
        ensures
            r == self.maker,
    {
        self.maker
    }

    pub fn set_maker(&mut self, maker: &Address)
        ensures
            *final(self) == (Escrow { maker: *maker, ..*old(self) }),
    {
        self.maker = *maker;
    }

    pub fn mint_a(&self) -> (r: Address)
        ensures
            r == self.mint_a,
    {
        self.mint_a
    }

    pub fn set_mint_a(&mut self, mint: &Address)
        ensures
            *final(self) == (Escrow { mint_a: *mint, ..*old(self) }),
    {
        self.mint_a = *mint;
    }

    pub fn mint_b(&self) -> (r: Address)
        ensures
            r == self.mint_b,
    {
        self.mint_b
    }

    pub fn set_mint_b(&mut self, mint: &Address)
        ensures
            *final(self) == (Escrow { mint_b: *mint, ..*old(self) }),
    {
        self.mint_b = *mint;
    }

    /// Stores the escrow into account data of the escrow's size; the padding keeps its bytes.
    pub fn write_into(&self, data: &mut Vec<u8>)
        requires
            old(data)@.len() == Escrow::LEN,
        ensures
            final(data)@ == self.spec_bytes() + old(data)@.subrange(
                Escrow::FIELDS_LEN as int,
                Escrow::LEN as int,
            ),
    {
        let seed = u64_to_le_bytes(self.seed);
        let amount_a = u64_to_le_bytes(self.amount_a);
        let amount_b = u64_to_le_bytes(self.amount_b);
        write_bytes(data, 0, seed.as_slice());
        write_bytes(data, 8, self.maker.as_slice());
        write_bytes(data, 40, self.mint_a.as_slice());
        write_bytes(data, 72, self.mint_b.as_slice());
        write_bytes(data, 104, amount_a.as_slice());
        write_bytes(data, 112, amount_b.as_slice());
        data.set(120, self.bump);
        assert(data@ =~= self.spec_bytes() + old(data)@.subrange(121, 128));
    }
}

} // verus!
