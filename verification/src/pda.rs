//! Program-derived addresses: the seeds each program uses, and their derivation.
use vstd::prelude::*;

use crate::account::Address;
use crate::bytes::{le_bytes, u64_to_le_bytes};

verus! {

/// The first seed of a program-derived address, naming what the account holds.
#[derive(Clone, Copy, Debug, PartialEq, Eq, Structural)]
pub enum SeedPrefix {
    Counter,
    Escrow,
    Fundraiser,
    Contributor,
}

/// The seeds of a program-derived address: a prefix, the address it is bound to,
/// for an escrow the escrow's own seed number, and the bump.
#[derive(Clone, Copy, Debug, PartialEq, Eq)]
pub struct PdaSeeds {
    pub prefix: SeedPrefix,
    pub key: Address,
    pub seed: Option<u64>,
    pub bump: u8,
}

/// The bytes of each prefix: `b"counter"`, `b"escrow"`, `b"fundraiser"`, `b"contributor"`.
pub open spec fn spec_prefix_bytes(prefix: SeedPrefix) -> Seq<u8> {
    match prefix {
        SeedPrefix::Counter => seq![99u8, 111, 117, 110, 116, 101, 114],
        SeedPrefix::Escrow => seq![101u8, 115, 99, 114, 111, 119],
        SeedPrefix::Fundraiser => seq![102u8, 117, 110, 100, 114, 97, 105, 115, 101, 114],
        SeedPrefix::Contributor => seq![99u8, 111, 110, 116, 114, 105, 98, 117, 116, 111, 114],
    }
}

/// The address that hashing `prefix`, `key`, `extra`, `[bump]`, `program_id` and the PDA
/// marker gives, as `pinocchio_pubkey::derive_address_const` computes it.
pub uninterp spec fn pda_of(
    prefix: Seq<u8>,
    key: Seq<u8>,
    extra: Seq<u8>,
    bump: u8,
    program_id: Seq<u8>,
) -> Seq<u8>;

/// Calls `pinocchio_pubkey::derive_address_const` with the seeds `prefix`, `key`, `extra`
/// and `[bump]`, no separate bump, and `program_id`. The contract only names its result:
/// the SHA-256 of those bytes, the program id and the PDA marker. (Its sibling
/// `derive_address`, which the programs call on chain, hashes the same bytes through a
/// syscall and is unavailable off chain.) The hash reads the seeds one after another, so
/// an empty `extra` derives the same address as the three seeds without it.
#[verifier::external_body]
fn derive_address(
    prefix: &[u8],
    key: &[u8; 32],
    extra: &[u8],
    bump: u8,
    program_id: &[u8; 32],
) -> (r: [u8; 32])
    ensures
        r@ == pda_of(prefix@, key@, extra@, bump, program_id@),
{
    pinocchio_pubkey::derive_address_const(&[prefix, key, extra, &[bump]], None, program_id)
}

impl PdaSeeds {
    /// The bytes of the seed number, little endian; none where there is no seed number.
    pub open spec fn spec_extra_bytes(self) -> Seq<u8> {
        match self.seed {
            Some(seed) => le_bytes(seed),
            None => Seq::empty(),
        }
    }

    /// The address these seeds derive under `program_id`.
    pub open spec fn spec_address(self, program_id: Seq<u8>) -> Seq<u8> {
        pda_of(
            spec_prefix_bytes(self.prefix),
            self.key@,
            self.spec_extra_bytes(),
            self.bump,
            program_id,
        )
    }

    /// The prefix seed.
    pub fn prefix_bytes(&self) -> (r: Vec<u8>)
        ensures
            r@ == spec_prefix_bytes(self.prefix),
    {
        let r = match self.prefix {
            SeedPrefix::Counter => vec![99u8, 111, 117, 110, 116, 101, 114],
            SeedPrefix::Escrow => vec![101u8, 115, 99, 114, 111, 119],
            SeedPrefix::Fundraiser => vec![102u8, 117, 110, 100, 114, 97, 105, 115, 101, 114],
            SeedPrefix::Contributor => vec![99u8, 111, 110, 116, 114, 105, 98, 117, 116, 111, 114],
        };
        assert(r@ =~= spec_prefix_bytes(self.prefix));
        r
    }

    /// The seed-number seed (empty where there is none).
    pub fn extra_bytes(&self) -> (r: Vec<u8>)
        ensures
            r@ == self.spec_extra_bytes(),
    {
        match self.seed {
            Some(seed) => {
                let b = u64_to_le_bytes(seed);
                let mut v: Vec<u8> = Vec::new();
                let mut i: usize = 0;
                while i < 8
                    invariant
                        i <= 8,
                        v@ == b@.subrange(0, i as int),
                    decreases 8 - i,
                {
                    v.push(b[i]);
                    i = i + 1;
                    assert(v@ =~= b@.subrange(0, i as int));
                }
                assert(b@.subrange(0, 8) =~= b@);
                v
            },
            None => {
                let v: Vec<u8> = Vec::new();
                assert(v@ =~= Seq::<u8>::empty());
                v
            },
        }
    }

    /// The address these seeds derive under `program_id`.
    pub fn derive_address(&self, program_id: &Address) -> (r: Address)
        ensures
            r@ == self.spec_address(program_id@),
    {
        let prefix = self.prefix_bytes();
        let extra = self.extra_bytes();
        derive_address(prefix.as_slice(), &self.key, extra.as_slice(), self.bump, program_id)
    }
}

} // verus!
