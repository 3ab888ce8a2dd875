use pinocchio_idl_examples::account::{AccountView, Rent, TOKEN_PROGRAM_ID};
use pinocchio_idl_examples::bytes::{
    address_eq, i64_from_le_bytes, i64_to_le_bytes, u64_from_le_bytes, u64_to_le_bytes,
};
use pinocchio_idl_examples::counter;
use pinocchio_idl_examples::counter::instructions::CounterInstruction;
use pinocchio_idl_examples::counter::state::Counter;
use pinocchio_idl_examples::error::ProgramError;
use pinocchio_idl_examples::escrow;
use pinocchio_idl_examples::escrow::instructions::EscrowInstruction;
use pinocchio_idl_examples::escrow::state::Escrow;
use pinocchio_idl_examples::fundraiser;
use pinocchio_idl_examples::fundraiser::instructions::{
    checked_pow10, contribution_cap, elapsed_days, FundraiserInstructions,
};
use pinocchio_idl_examples::fundraiser::state::{Contributor, Fundraiser};
use pinocchio_idl_examples::pda::{PdaSeeds, SeedPrefix};

fn account_with_data(data: Vec<u8>) -> AccountView {
    AccountView {
        address: [0; 32],
        owner: [0; 32],
        lamports: 0,
        data,
        is_signer: false,
        is_writable: true,
    }
}

#[test]
fn le_bytes_round_trip() {
    assert_eq!(u64_to_le_bytes(0x0102_0304_0506_0708), [8, 7, 6, 5, 4, 3, 2, 1]);
    assert_eq!(u64_from_le_bytes([8, 7, 6, 5, 4, 3, 2, 1]), 0x0102_0304_0506_0708);
    for v in [0u64, 1, 255, 256, 41, u64::MAX, 1 << 63] {
        assert_eq!(u64_from_le_bytes(u64_to_le_bytes(v)), v);
        assert_eq!(u64_to_le_bytes(v), v.to_le_bytes());
    }
    for v in [0i64, -1, 1, i64::MIN, i64::MAX, -86_400, 1_700_000_000] {
        assert_eq!(i64_to_le_bytes(v), v.to_le_bytes());
        assert_eq!(i64_from_le_bytes(v.to_le_bytes()), v);
    }
}

#[test]
fn address_comparison() {
    let a = [3u8; 32];
    let mut b = [3u8; 32];
    assert!(address_eq(&a, &b));
    b[31] = 4;
    assert!(!address_eq(&a, &b));
}

#[test]
fn counter_getters_and_setters() {
    let mut c = Counter { authority: [0; 32], count: [0; 8], bump: 0 };
    c.set_count(41);
    assert_eq!(c.count(), 41);
    assert_eq!(c.count, 41u64.to_le_bytes());
    c.set_authority(&[9; 32]);
    assert_eq!(c.authority(), [9; 32]);
    assert_eq!(c.count(), 41);
}

#[test]
fn counter_store_then_read() {
    let c = Counter { authority: [5; 32], count: 7u64.to_le_bytes(), bump: 254 };
    let mut data = vec![0u8; Counter::LEN];
    c.write_into(&mut data);
    assert_eq!(data.len(), 41);
    assert_eq!(&data[0..32], &[5u8; 32]);
    assert_eq!(&data[32..40], &7u64.to_le_bytes());
    assert_eq!(data[40], 254);
    let read = Counter::from_account_info(&account_with_data(data)).unwrap();
    assert_eq!(read, c);
}

#[test]
fn counter_wrong_size_is_invalid_account_data() {
    assert_eq!(
        Counter::from_account_info(&account_with_data(vec![0; 40])),
        Err(ProgramError::InvalidAccountData)
    );
    assert_eq!(
        Counter::from_account_info(&account_with_data(vec![0; 42])),
        Err(ProgramError::InvalidAccountData)
    );
}

#[test]
fn escrow_store_then_read_keeps_padding() {
    let mut e = Escrow {
        seed: 42,
        maker: [0; 32],
        mint_a: [0; 32],
        mint_b: [0; 32],
        amount_a: 400,
        amount_b: 200,
        bump: 253,
    };
    e.set_maker(&[1; 32]);
    e.set_mint_a(&[2; 32]);
    e.set_mint_b(&[3; 32]);
    assert_eq!(e.maker(), [1; 32]);
    assert_eq!(e.mint_a(), [2; 32]);
    assert_eq!(e.mint_b(), [3; 32]);
    let mut data = vec![0xAAu8; Escrow::LEN];
    e.write_into(&mut data);
    assert_eq!(data.len(), 128);
    assert_eq!(u64::from_le_bytes(data[0..8].try_into().unwrap()), 42);
    assert_eq!(&data[8..40], &[1u8; 32]);
    assert_eq!(&data[40..72], &[2u8; 32]);
    assert_eq!(&data[72..104], &[3u8; 32]);
    assert_eq!(u64::from_le_bytes(data[104..112].try_into().unwrap()), 400);
    assert_eq!(u64::from_le_bytes(data[112..120].try_into().unwrap()), 200);
    assert_eq!(data[120], 253);
    assert_eq!(&data[121..128], &[0xAAu8; 7]);
    let read = Escrow::from_account_info(&account_with_data(data)).unwrap();
    assert_eq!(read, e);
    assert_eq!(
        Escrow::from_account_info(&account_with_data(vec![0; 121])),
        Err(ProgramError::InvalidAccountData)
    );
}

#[test]
fn fundraiser_getters_setters_and_layout() {
    let mut f = Fundraiser {
        maker: [0; 32],
        mint_to_raise: [0; 32],
        amount_to_raise: [0; 8],
        current_amount: [0; 8],
        time_started: [0; 8],
        duration: 5,
        bump: 250,
    };
    f.set_maker(&[4; 32]);
    f.set_mint_to_raise(&[6; 32]);
    f.set_amount_to_raise(30);
    f.set_current_amount(12);
    f.set_time_started(-1_000);
    assert_eq!(f.maker(), [4; 32]);
    assert_eq!(f.mint_to_raise(), [6; 32]);
    assert_eq!(f.amount_to_raise(), 30);
    assert_eq!(f.current_amount(), 12);
    assert_eq!(f.time_started(), -1_000);
    let mut data = vec![0u8; Fundraiser::LEN];
    f.write_into(&mut data);
    assert_eq!(data.len(), 90);
    assert_eq!(u64::from_le_bytes(data[72..80].try_into().unwrap()), 12);
    assert_eq!(i64::from_le_bytes(data[80..88].try_into().unwrap()), -1_000);
    assert_eq!(data[88], 5);
    assert_eq!(data[89], 250);
    let read = Fundraiser::from_account_info(&account_with_data(data)).unwrap();
    assert_eq!(read, f);
}

#[test]
fn contributor_getters_setters_and_layout() {
    let mut c = Contributor::default();
    assert_eq!(c.amount(), 0);
    c.set_amount(3);
    assert_eq!(c.amount(), 3);
    c.set_amount(u64::MAX);
    assert_eq!(c.amount(), u64::MAX);
    c.set_amount(3);
    let mut data = vec![0u8; Contributor::LEN];
    c.write_into(&mut data);
    assert_eq!(data, 3u64.to_le_bytes().to_vec());
    assert_eq!(Contributor::from_account_info(&account_with_data(data)).unwrap(), c);
    assert_eq!(
        Contributor::from_account_info(&account_with_data(vec![0; 9])),
        Err(ProgramError::InvalidAccountData)
    );
}

#[test]
fn instruction_discriminators() {
    assert_eq!(CounterInstruction::try_from(&0), Ok(CounterInstruction::Initialize));
    assert_eq!(CounterInstruction::try_from(&1), Ok(CounterInstruction::Increment));
    assert_eq!(CounterInstruction::try_from(&2), Ok(CounterInstruction::Decrement));
    assert_eq!(CounterInstruction::try_from(&3), Err(ProgramError::InvalidInstructionData));
    assert_eq!(EscrowInstruction::try_from(&0), Ok(EscrowInstruction::Make));
    assert_eq!(EscrowInstruction::try_from(&1), Ok(EscrowInstruction::Take));
    assert_eq!(EscrowInstruction::try_from(&2), Ok(EscrowInstruction::Refund));
    assert_eq!(EscrowInstruction::try_from(&255), Err(ProgramError::InvalidInstructionData));
    assert_eq!(FundraiserInstructions::try_from(&0), Ok(FundraiserInstructions::Initialize));
    assert_eq!(FundraiserInstructions::try_from(&1), Ok(FundraiserInstructions::Contributor));
    assert_eq!(FundraiserInstructions::try_from(&2), Ok(FundraiserInstructions::Checker));
    assert_eq!(FundraiserInstructions::try_from(&3), Ok(FundraiserInstructions::Refund));
    assert_eq!(
        FundraiserInstructions::try_from(&4),
        Err(ProgramError::InvalidInstructionData)
    );
}

#[test]
fn program_ids() {
    assert_eq!(
        counter::ID,
        solana_address::Address::from_str_const("DM5R2269qS18hfHq54eHqZSEMkajVQDFgxn3UuYYhCJP")
            .to_bytes()
    );
    assert_eq!(
        escrow::ID,
        solana_address::Address::from_str_const("FDYpkuY64WaazRCsReFHTc32VeQwBxyev5DfUqBhwySA")
            .to_bytes()
    );
    assert_eq!(
        fundraiser::ID,
        solana_address::Address::from_str_const("96TFrsG998MvvrfuShRQmSemkzN555pnidGF4gquJsKr")
            .to_bytes()
    );
    assert_eq!(TOKEN_PROGRAM_ID, pinocchio_token::ID.to_bytes());
    assert!(fundraiser::check_id(&fundraiser::ID));
    assert!(!fundraiser::check_id(&counter::ID));
    assert_eq!(fundraiser::id(), fundraiser::ID);
    assert!(counter::check_id(&counter::id()));
    assert!(escrow::check_id(&escrow::id()));
    assert!(!escrow::check_id(&[0; 32]));
}

#[test]
fn pda_derivation_hashes_seeds_program_and_marker() {
    // sha256("counter" || [7; 32] || [255] || counter program id || "ProgramDerivedAddress")
    let expected: [u8; 32] = [
        241, 34, 56, 13, 160, 227, 61, 137, 176, 248, 195, 88, 56, 205, 206, 218, 170, 145, 250,
        222, 207, 32, 56, 123, 73, 107, 231, 108, 165, 121, 242, 81,
    ];
    let seeds = PdaSeeds { prefix: SeedPrefix::Counter, key: [7; 32], seed: None, bump: 255 };
    assert_eq!(seeds.derive_address(&counter::ID), expected);
    assert_eq!(seeds.prefix_bytes(), b"counter".to_vec());
    assert!(seeds.extra_bytes().is_empty());
    let escrow_seeds =
        PdaSeeds { prefix: SeedPrefix::Escrow, key: [7; 32], seed: Some(42), bump: 255 };
    assert_eq!(escrow_seeds.prefix_bytes(), b"escrow".to_vec());
    assert_eq!(escrow_seeds.extra_bytes(), 42u64.to_le_bytes().to_vec());
    assert_ne!(escrow_seeds.derive_address(&escrow::ID), seeds.derive_address(&escrow::ID));
    let other_bump = PdaSeeds { bump: 254, ..seeds };
    assert_ne!(other_bump.derive_address(&counter::ID), expected);
}

#[test]
fn rent_minimum_balance() {
    let rent = Rent { lamports_per_byte: 6960 };
    assert_eq!(rent.try_minimum_balance(41), Ok((128 + 41) * 6960));
    assert_eq!(rent.try_minimum_balance(0), Ok(128 * 6960));
    assert_eq!(
        rent.try_minimum_balance(10 * 1024 * 1024 + 1),
        Err(ProgramError::InvalidArgument)
    );
    let too_expensive = Rent { lamports_per_byte: 1_759_197_129_868 };
    assert_eq!(too_expensive.try_minimum_balance(8), Err(ProgramError::InvalidArgument));
}

#[test]
fn powers_of_ten() {
    assert_eq!(checked_pow10(0), Some(1));
    assert_eq!(checked_pow10(9), Some(1_000_000_000));
    assert_eq!(checked_pow10(19), Some(10_000_000_000_000_000_000));
    assert_eq!(checked_pow10(20), None);
    assert_eq!(checked_pow10(255), None);
}

#[test]
fn elapsed_days_round_toward_zero() {
    assert_eq!(elapsed_days(86_400 * 5 + 100, 0), 5);
    assert_eq!(elapsed_days(86_399, 0), 0);
    assert_eq!(elapsed_days(0, 86_399), 0);
    assert_eq!(elapsed_days(0, 86_400), -1);
    assert_eq!(elapsed_days(86_400 * 256, 0), 256);
    assert_eq!(elapsed_days(-86_400 * 300, 0), -300);
}

#[test]
fn contribution_cap_is_a_tenth() {
    assert_eq!(contribution_cap(30), 3);
    assert_eq!(contribution_cap(39), 3);
    assert_eq!(contribution_cap(9), 0);
}
