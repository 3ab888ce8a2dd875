//! The accounts an instruction receives, the sysvars it reads, and the checks that
//! every instruction makes on them before its own logic.
use vstd::prelude::*;

use crate::bytes::{address_eq, read_array32};
use crate::error::ProgramError;
use crate::pda::PdaSeeds;

verus! {

/// A 32-byte account address.
pub type Address = [u8; 32];

/// One account as an instruction sees it: its address, owning program, balance,
/// data and the flags the transaction gave it.
pub struct AccountView {
    pub address: Address,
    pub owner: Address,
    pub lamports: u64,
    pub data: Vec<u8>,
    pub is_signer: bool,
    pub is_writable: bool,
}

impl AccountView {
    /// Whether `program` owns the account.
    pub fn owned_by(&self, program: &Address) -> (r: bool)
        ensures
            r == (self.owner@ == program@),
    {
        address_eq(&self.owner, program)
    }
}

/// The rent sysvar: the rate, in lamports per byte, that makes an account rent exempt.
#[derive(Clone, Copy, Debug, PartialEq, Eq, Structural)]
pub struct Rent {
    pub lamports_per_byte: u64,
}

/// The clock sysvar, reduced to what the programs read of it.
#[derive(Clone, Copy, Debug, PartialEq, Eq, Structural)]
pub struct Clock {
    pub unix_timestamp: i64,
}

/// Largest account size the runtime accepts (10 MiB).
pub const MAX_PERMITTED_DATA_LENGTH: u64 = 10485760;

/// Largest rent rate for which the minimum balance of every permitted size fits in a `u64`.
pub const MAX_LAMPORTS_PER_BYTE: u64 = 1759197129867;

/// Bytes of storage that every account is charged for beside its data.
pub const ACCOUNT_STORAGE_OVERHEAD: u64 = 128;

/// What `Rent::try_minimum_balance` gives for an account of `data_len` bytes.
pub open spec fn spec_minimum_balance(rent: Rent, data_len: int) -> Result<u64, ProgramError> {
    if data_len > MAX_PERMITTED_DATA_LENGTH || rent.lamports_per_byte > MAX_LAMPORTS_PER_BYTE {
        Err(ProgramError::InvalidArgument)
    } else {
        Ok(((ACCOUNT_STORAGE_OVERHEAD + data_len) * rent.lamports_per_byte) as u64)
    }
}

/// Calls `pinocchio::sysvars::rent::Rent::try_minimum_balance` on the rent sysvar whose
/// rate is `lamports_per_byte`. Its source returns `InvalidArgument` when `data_len`
/// exceeds 10 MiB or the rate exceeds its maximum, and `(128 + data_len) * rate` otherwise;
/// `Rent::from_bytes`, which builds the sysvar from the rate's 8 bytes, fails only on
/// fewer than 8 bytes, also with `InvalidArgument`.
#[verifier::external_body]
fn rent_try_minimum_balance(lamports_per_byte: u64, data_len: usize) -> (r: Result<u64, ProgramError>)
    ensures
        r == (if data_len > MAX_PERMITTED_DATA_LENGTH || lamports_per_byte > MAX_LAMPORTS_PER_BYTE {
            Err::<u64, ProgramError>(ProgramError::InvalidArgument)
        } else {
            Ok::<u64, ProgramError>(((ACCOUNT_STORAGE_OVERHEAD + data_len) * lamports_per_byte) as u64)
        }),
{
    let rent = pinocchio::sysvars::rent::Rent::from_bytes(&lamports_per_byte.to_ne_bytes());
    match rent.and_then(|rent| rent.try_minimum_balance(data_len)) {
        Ok(lamports) => Ok(lamports),
        Err(_) => Err(ProgramError::InvalidArgument),
    }
}

impl Rent {
    /// The balance that makes an account of `data_len` bytes rent exempt.
    pub fn try_minimum_balance(&self, data_len: usize) -> (r: Result<u64, ProgramError>)
        ensures
            r == spec_minimum_balance(*self, data_len as int),
    {
        proof {
            if !(data_len > MAX_PERMITTED_DATA_LENGTH || self.lamports_per_byte
                > MAX_LAMPORTS_PER_BYTE) {
                assert((ACCOUNT_STORAGE_OVERHEAD + data_len) * self.lamports_per_byte <= u64::MAX)
                    by (nonlinear_arith)
                    requires
                        data_len <= MAX_PERMITTED_DATA_LENGTH,
                        self.lamports_per_byte <= MAX_LAMPORTS_PER_BYTE,
                ;
            }
        }
        rent_try_minimum_balance(self.lamports_per_byte, data_len)
    }
}

/// The address of the SPL token program (`TokenkegQfeZyiNwAJbNbGKPFXCWuBvf9Ss623VQ5DA`).
pub const TOKEN_PROGRAM_ID: Address = [
    6, 221, 246, 225, 215, 101, 161, 147, 217, 203, 225, 70, 206, 235, 121, 172, 28, 180, 133, 237,
    95, 91, 55, 145, 58, 140, 245, 133, 126, 255, 0, 169,
];

/// Size of a token account's data.
pub const TOKEN_ACCOUNT_LEN: usize = 165;

/// Check that `accounts` holds exactly the `n` accounts an instruction binds.
pub open spec fn spec_check_accounts_len(accounts: Seq<AccountView>, n: int) -> Result<(), ProgramError> {
    if accounts.len() != n {
        Err(ProgramError::NotEnoughAccountKeys)
    } else {
        Ok(())
    }
}

/// Check that the instruction data holds at least the `n` bytes its fields take.
pub open spec fn spec_check_data_len(data: Seq<u8>, n: int) -> Result<(), ProgramError> {
    if data.len() < n {
        Err(ProgramError::InvalidArgument)
    } else {
        Ok(())
    }
}

/// Check on an account marked `mut`.
pub open spec fn spec_check_writable(account: AccountView) -> Result<(), ProgramError> {
    if !account.is_writable {
        Err(ProgramError::InvalidAccountData)
    } else {
        Ok(())
    }
}

/// Check on an account marked `signer`.
pub open spec fn spec_check_signer(account: AccountView) -> Result<(), ProgramError> {
    if !account.is_signer {
        Err(ProgramError::MissingRequiredSignature)
    } else {
        Ok(())
    }
}

/// Check that an account sits at the address derived from `seeds` under `program_id`.
pub open spec fn spec_check_pda(
    account: AccountView,
    seeds: PdaSeeds,
    program_id: Seq<u8>,
) -> Result<(), ProgramError> {
    if account.address@ != seeds.spec_address(program_id) {
        Err(ProgramError::InvalidArgument)
    } else {
        Ok(())
    }
}

/// Check that an account is a token account of the token program that `owner` holds
/// for `mint` (the mint is stored at bytes 0..32 of its data, the owner at 32..64).
pub open spec fn spec_check_token_account(
    account: AccountView,
    owner: Seq<u8>,
    mint: Seq<u8>,
) -> Result<(), ProgramError> {
    if account.data@.len() != TOKEN_ACCOUNT_LEN {
        Err(ProgramError::InvalidAccountData)
    } else if account.owner@ != TOKEN_PROGRAM_ID@ {
        Err(ProgramError::IncorrectProgramId)
    } else if account.data@.subrange(32, 64) != owner {
        Err(ProgramError::IllegalOwner)
    } else if account.data@.subrange(0, 32) != mint {
        Err(ProgramError::InvalidAccountData)
    } else {
        Ok(())
    }
}

/// The balance a token account holds (bytes 64..72 of its data, little endian).
pub open spec fn spec_token_amount(account: AccountView) -> int {
    crate::bytes::le_u64(account.data@.subrange(64, 72))
}

/// Checks the number of accounts (see [`spec_check_accounts_len`]).
pub fn check_accounts_len(accounts: &[AccountView], n: usize) -> (r: Result<(), ProgramError>)
    ensures
        r == spec_check_accounts_len(accounts@, n as int),
{
    if accounts.len() != n {
        Err(ProgramError::NotEnoughAccountKeys)
    } else {
        Ok(())
    }
}

/// Checks the length of the instruction data (see [`spec_check_data_len`]).
pub fn check_data_len(data: &[u8], n: usize) -> (r: Result<(), ProgramError>)
    ensures
        r == spec_check_data_len(data@, n as int),
{
    if data.len() < n {
        Err(ProgramError::InvalidArgument)
    } else {
        Ok(())
    }
}

/// Checks that an account is writable (see [`spec_check_writable`]).
pub fn check_writable(account: &AccountView) -> (r: Result<(), ProgramError>)
    ensures
        r == spec_check_writable(*account),
{
    if !account.is_writable {
        Err(ProgramError::InvalidAccountData)
    } else {
        Ok(())
    }
}

/// Checks that an account signed (see [`spec_check_signer`]).
pub fn check_signer(account: &AccountView) -> (r: Result<(), ProgramError>)
    ensures
        r == spec_check_signer(*account),
{
    if !account.is_signer {
        Err(ProgramError::MissingRequiredSignature)
    } else {
        Ok(())
    }
}

/// Checks an account's derived address (see [`spec_check_pda`]).
pub fn check_pda(account: &AccountView, seeds: &PdaSeeds, program_id: &Address) -> (r: Result<
    (),
    ProgramError,
>)
    ensures
        r == spec_check_pda(*account, *seeds, program_id@),
{
    let expected = seeds.derive_address(program_id);
    if !address_eq(&account.address, &expected) {
        Err(ProgramError::InvalidArgument)
    } else {
        Ok(())
    }
}

/// Checks a token account's size, program, owner and mint (see [`spec_check_token_account`]).
pub fn check_token_account(account: &AccountView, owner: &Address, mint: &Address) -> (r: Result<
    (),
    ProgramError,
>)
    ensures
        r == spec_check_token_account(*account, owner@, mint@),
{
    if account.data.len() != TOKEN_ACCOUNT_LEN {
        return Err(ProgramError::InvalidAccountData);
    }
    let token_program = TOKEN_PROGRAM_ID;
    if !account.owned_by(&token_program) {
        return Err(ProgramError::IncorrectProgramId);
    }
    let stored_owner = read_array32(account.data.as_slice(), 32);
    if !address_eq(&stored_owner, owner) {
        return Err(ProgramError::IllegalOwner);
    }
    let stored_mint = read_array32(account.data.as_slice(), 0);
    if !address_eq(&stored_mint, mint) {
        return Err(ProgramError::InvalidAccountData);
    }
    Ok(())
}

/// The balance of a token account whose data has the token-account size.
pub fn token_amount(account: &AccountView) -> (r: u64)
    requires
        account.data@.len() == TOKEN_ACCOUNT_LEN,
    ensures
        r == spec_token_amount(*account),
{
    let bytes = crate::bytes::read_array8(account.data.as_slice(), 64);
    crate::bytes::u64_from_le_bytes(bytes)
}

} // verus!
