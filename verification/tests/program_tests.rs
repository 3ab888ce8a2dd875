//! The programs driven instruction by instruction, with a small in-memory stand-in for
//! the runtime that carries out the effects each instruction asks for.
use pinocchio_idl_examples::account::{AccountView, Address, Clock, Rent, TOKEN_PROGRAM_ID};
use pinocchio_idl_examples::counter;
use pinocchio_idl_examples::effect::{Effect, State};
use pinocchio_idl_examples::error::ProgramError;
use pinocchio_idl_examples::escrow;
use pinocchio_idl_examples::fundraiser;
use pinocchio_idl_examples::pda::{PdaSeeds, SeedPrefix};

const SYSTEM_PROGRAM: Address = [0; 32];
const ATA_PROGRAM: Address = [140; 32];
const RENT: Rent = Rent { lamports_per_byte: 6960 };
const ATA_RENT: u64 = 2_039_280;

/// Accounts by address, as the ledger holds them.
struct Ledger {
    accounts: Vec<AccountView>,
}

impl Ledger {
    fn new() -> Self {
        Ledger { accounts: Vec::new() }
    }

    fn get(&self, address: &Address) -> Option<&AccountView> {
        self.accounts.iter().find(|a| &a.address == address)
    }

    fn get_mut(&mut self, address: &Address) -> &mut AccountView {
        if self.get(address).is_none() {
            self.accounts.push(AccountView {
                address: *address,
                owner: SYSTEM_PROGRAM,
                lamports: 0,
                data: Vec::new(),
                is_signer: false,
                is_writable: false,
            });
        }
        self.accounts.iter_mut().find(|a| &a.address == address).unwrap()
    }

    fn airdrop(&mut self, address: &Address, lamports: u64) {
        self.get_mut(address).lamports += lamports;
    }

    /// Whether the account holds nothing: no balance and no data.
    fn is_closed(&self, address: &Address) -> bool {
        match self.get(address) {
            None => true,
            Some(a) => a.lamports == 0 && a.data.is_empty(),
        }
    }

    fn create_mint(&mut self, address: &Address, decimals: u8) {
        let mint = self.get_mut(address);
        mint.owner = TOKEN_PROGRAM_ID;
        mint.data = vec![0; 82];
        mint.data[44] = decimals;
        mint.data[45] = 1;
        mint.lamports = 1_461_600;
    }

    fn create_token_account(&mut self, address: &Address, owner: &Address, mint: &Address, amount: u64) {
        let account = self.get_mut(address);
        account.owner = TOKEN_PROGRAM_ID;
        account.data = vec![0; 165];
        account.data[0..32].copy_from_slice(mint);
        account.data[32..64].copy_from_slice(owner);
        account.data[64..72].copy_from_slice(&amount.to_le_bytes());
        account.data[108] = 1;
        account.lamports = ATA_RENT;
    }

    fn token_balance(&self, address: &Address) -> u64 {
        u64::from_le_bytes(self.get(address).unwrap().data[64..72].try_into().unwrap())
    }

    /// The accounts of an instruction, with their flags.
    fn views(&mut self, metas: &[(Address, bool, bool)]) -> Vec<AccountView> {
        metas
            .iter()
            .map(|(address, is_signer, is_writable)| {
                let mut view = self.get_mut(address).clone_view();
                view.is_signer = *is_signer;
                view.is_writable = *is_writable;
                view
            })
            .collect()
    }

    /// Carries out the effects on the accounts of the instruction, then writes them
    /// back; on a failure nothing is written back.
    fn apply(&mut self, mut views: Vec<AccountView>, effects: &[Effect]) -> Result<(), ProgramError> {
        for effect in effects {
            match *effect {
                Effect::CreateAccount { from, to, lamports, space, owner, .. } => {
                    if !views[to].data.is_empty() || views[to].lamports != 0 {
                        return Err(ProgramError::Custom(0));
                    }
                    if views[from].lamports < lamports {
                        return Err(ProgramError::Custom(1));
                    }
                    views[from].lamports -= lamports;
                    views[to].lamports += lamports;
                    views[to].data = vec![0; space as usize];
                    views[to].owner = owner;
                }
                Effect::CreateAssociatedTokenAccount { funding_account, account, wallet, mint, .. } => {
                    let (wallet, mint) = (views[wallet].address, views[mint].address);
                    views[funding_account].lamports -= ATA_RENT;
                    views[account].lamports += ATA_RENT;
                    views[account].owner = TOKEN_PROGRAM_ID;
                    views[account].data = vec![0; 165];
                    views[account].data[0..32].copy_from_slice(&mint);
                    views[account].data[32..64].copy_from_slice(&wallet);
                    views[account].data[108] = 1;
                }
                Effect::Transfer { from, to, amount, .. } => {
                    let balance = |v: &AccountView| u64::from_le_bytes(v.data[64..72].try_into().unwrap());
                    let (from_balance, to_balance) = (balance(&views[from]), balance(&views[to]));
                    if from_balance < amount {
                        return Err(ProgramError::Custom(1));
                    }
                    views[from].data[64..72].copy_from_slice(&(from_balance - amount).to_le_bytes());
                    let to_balance = if from == to { from_balance - amount } else { to_balance };
                    views[to].data[64..72].copy_from_slice(&(to_balance + amount).to_le_bytes());
                }
                Effect::Store { account, state } => {
                    assert_eq!(views[account].data.len(), state.len());
                    state.write_into(&mut views[account].data);
                }
                Effect::SetLamports { account, lamports } => views[account].lamports = lamports,
                Effect::Close { account } => {
                    views[account].lamports = 0;
                    views[account].owner = [0; 32];
                    views[account].data.clear();
                }
                Effect::Fail { error } => return Err(error),
            }
        }
        for view in views {
            let stored = self.get_mut(&view.address);
            stored.owner = view.owner;
            stored.lamports = view.lamports;
            stored.data = view.data;
        }
        Ok(())
    }
}

trait CloneView {
    fn clone_view(&self) -> AccountView;
}

impl CloneView for AccountView {
    fn clone_view(&self) -> AccountView {
        AccountView {
            address: self.address,
            owner: self.owner,
            lamports: self.lamports,
            data: self.data.clone(),
            is_signer: self.is_signer,
            is_writable: self.is_writable,
        }
    }
}

fn writable(address: Address) -> (Address, bool, bool) {
    (address, false, true)
}

fn readonly(address: Address) -> (Address, bool, bool) {
    (address, false, false)
}

fn signer(address: Address) -> (Address, bool, bool) {
    (address, true, true)
}

fn readonly_signer(address: Address) -> (Address, bool, bool) {
    (address, true, false)
}

fn key(n: u8) -> Address {
    let mut a = [n; 32];
    a[0] = 0xEE;
    a
}

fn counter_pda(authority: &Address, bump: u8) -> Address {
    PdaSeeds { prefix: SeedPrefix::Counter, key: *authority, seed: None, bump }
        .derive_address(&counter::ID)
}

fn escrow_pda(maker: &Address, seed: u64, bump: u8) -> Address {
    PdaSeeds { prefix: SeedPrefix::Escrow, key: *maker, seed: Some(seed), bump }
        .derive_address(&escrow::ID)
}

fn fundraiser_pda(maker: &Address, bump: u8) -> Address {
    PdaSeeds { prefix: SeedPrefix::Fundraiser, key: *maker, seed: None, bump }
        .derive_address(&fundraiser::ID)
}

fn contributor_pda(contributor: &Address, bump: u8) -> Address {
    PdaSeeds { prefix: SeedPrefix::Contributor, key: *contributor, seed: None, bump }
        .derive_address(&fundraiser::ID)
}

fn send_counter(ledger: &mut Ledger, metas: &[(Address, bool, bool)], data: &[u8]) -> Result<(), ProgramError> {
    let views = ledger.views(metas);
    let effects = counter::process_instruction(&counter::ID, &views, data, Ok(RENT))?;
    ledger.apply(views, &effects)
}

fn send_escrow(ledger: &mut Ledger, metas: &[(Address, bool, bool)], data: &[u8]) -> Result<(), ProgramError> {
    let views = ledger.views(metas);
    let effects = escrow::run(&escrow::ID, &views, data, Ok(RENT)).expect("the program aborts")?;
    ledger.apply(views, &effects)
}

fn send_fundraiser(
    ledger: &mut Ledger,
    metas: &[(Address, bool, bool)],
    data: &[u8],
    now: i64,
) -> Result<(), ProgramError> {
    let views = ledger.views(metas);
    let clock = Ok(Clock { unix_timestamp: now });
    let effects =
        fundraiser::run(&fundraiser::ID, &views, data, Ok(RENT), clock).expect("the program aborts")?;
    ledger.apply(views, &effects)
}

// ---------------------------------------------------------------- counter

fn counter_setup() -> (Ledger, Address) {
    let mut ledger = Ledger::new();
    let authority = key(1);
    ledger.airdrop(&authority, 10_000_000_000);
    (ledger, authority)
}

fn stored_count(ledger: &Ledger, counter_address: &Address) -> u64 {
    u64::from_le_bytes(ledger.get(counter_address).unwrap().data[32..40].try_into().unwrap())
}

#[test]
fn test_counter_happy_path() {
    let (mut ledger, authority) = counter_setup();
    let bump = 255;
    let counter_address = counter_pda(&authority, bump);

    // 1. Initialize
    send_counter(
        &mut ledger,
        &[signer(authority), writable(counter_address), readonly(SYSTEM_PROGRAM)],
        &[0, bump],
    )
    .expect("Failed to initialize counter");
    let account = ledger.get(&counter_address).expect("Counter account not found");
    assert_eq!(account.data.len(), 41);
    let stored_authority: [u8; 32] = account.data[0..32].try_into().unwrap();
    assert_eq!(stored_authority, authority);
    assert_eq!(stored_count(&ledger, &counter_address), 0);
    assert_eq!(account.data[40], bump);
    assert_eq!(account.owner, counter::ID);

    // 2. Increment
    send_counter(&mut ledger, &[readonly_signer(authority), writable(counter_address)], &[1, bump])
        .expect("Failed to increment counter");
    assert_eq!(stored_count(&ledger, &counter_address), 1);

    // 3. Decrement
    send_counter(&mut ledger, &[readonly_signer(authority), writable(counter_address)], &[2, bump])
        .expect("Failed to decrement counter");
    assert_eq!(stored_count(&ledger, &counter_address), 0);
}

#[test]
fn counter_tests_test_initialize_security_checks() {
    let (mut ledger, authority) = counter_setup();
    let bump = 255;
    let counter_address = counter_pda(&authority, bump);

    // 1. Not Enough Accounts
    let err = send_counter(&mut ledger, &[signer(authority), writable(counter_address)], &[0, bump]);
    assert_eq!(err, Err(ProgramError::NotEnoughAccountKeys));

    // 2. Authority Not Signer
    let err = send_counter(
        &mut ledger,
        &[writable(authority), writable(counter_address), readonly(SYSTEM_PROGRAM)],
        &[0, bump],
    );
    assert_eq!(err, Err(ProgramError::MissingRequiredSignature));

    // 3. Counter Account Not Writable
    let err = send_counter(
        &mut ledger,
        &[signer(authority), readonly(counter_address), readonly(SYSTEM_PROGRAM)],
        &[0, bump],
    );
    assert_eq!(err, Err(ProgramError::InvalidAccountData));

    // 4. Invalid PDA Address
    let err = send_counter(
        &mut ledger,
        &[signer(authority), writable(key(99)), readonly(SYSTEM_PROGRAM)],
        &[0, bump],
    );
    assert_eq!(err, Err(ProgramError::InvalidArgument));

    // 5. Invalid Data (no bump)
    let err = send_counter(
        &mut ledger,
        &[signer(authority), writable(counter_address), readonly(SYSTEM_PROGRAM)],
        &[0],
    );
    assert_eq!(err, Err(ProgramError::InvalidArgument));
}

#[test]
fn test_increment_decrement_security_checks() {
    let (mut ledger, authority) = counter_setup();
    let bump = 255;
    let counter_address = counter_pda(&authority, bump);
    send_counter(
        &mut ledger,
        &[signer(authority), writable(counter_address), readonly(SYSTEM_PROGRAM)],
        &[0, bump],
    )
    .unwrap();

    // 1. Not Enough Accounts for Increment
    let err = send_counter(&mut ledger, &[readonly_signer(authority)], &[1, bump]);
    assert_eq!(err, Err(ProgramError::NotEnoughAccountKeys));

    // 2. Authority Not Signer for Increment
    let err = send_counter(&mut ledger, &[readonly(authority), writable(counter_address)], &[1, bump]);
    assert_eq!(err, Err(ProgramError::MissingRequiredSignature));

    // 3. Counter Account Not Writable for Increment
    let err = send_counter(&mut ledger, &[readonly_signer(authority), readonly(counter_address)], &[1, bump]);
    assert_eq!(err, Err(ProgramError::InvalidAccountData));

    // 4. Invalid PDA Address
    let err = send_counter(&mut ledger, &[readonly_signer(authority), writable(key(98))], &[1, bump]);
    assert_eq!(err, Err(ProgramError::InvalidArgument));

    // 5. Authority Mismatch: the stored authority is not the signer
    let wrong_authority = key(2);
    ledger.airdrop(&wrong_authority, 1_000_000_000);
    let wrong_bump = 254;
    let wrong_counter = counter_pda(&wrong_authority, wrong_bump);
    send_counter(
        &mut ledger,
        &[signer(wrong_authority), writable(wrong_counter), readonly(SYSTEM_PROGRAM)],
        &[0, wrong_bump],
    )
    .unwrap();
    ledger.get_mut(&wrong_counter).data[0..32].copy_from_slice(&authority);
    let err = send_counter(
        &mut ledger,
        &[readonly_signer(wrong_authority), writable(wrong_counter)],
        &[1, wrong_bump],
    );
    assert_eq!(err, Err(ProgramError::InvalidAccountData));
}

#[test]
fn counter_increment_then_decrement_restores_data() {
    let (mut ledger, authority) = counter_setup();
    let counter_address = counter_pda(&authority, 7);
    send_counter(
        &mut ledger,
        &[signer(authority), writable(counter_address), readonly(SYSTEM_PROGRAM)],
        &[0, 7],
    )
    .unwrap();
    let metas = [readonly_signer(authority), writable(counter_address)];
    for _ in 0..3 {
        send_counter(&mut ledger, &metas, &[1, 7]).unwrap();
    }
    let before = ledger.get(&counter_address).unwrap().data.clone();
    send_counter(&mut ledger, &metas, &[1, 7]).unwrap();
    assert_eq!(stored_count(&ledger, &counter_address), 4);
    send_counter(&mut ledger, &metas, &[2, 7]).unwrap();
    assert_eq!(ledger.get(&counter_address).unwrap().data, before);
}

#[test]
fn counter_rejects_reinitialization_and_bad_discriminators() {
    let (mut ledger, authority) = counter_setup();
    let counter_address = counter_pda(&authority, 9);
    let metas = [signer(authority), writable(counter_address), readonly(SYSTEM_PROGRAM)];
    send_counter(&mut ledger, &metas, &[0, 9]).unwrap();
    assert_eq!(send_counter(&mut ledger, &metas, &[0, 9]), Err(ProgramError::AccountAlreadyInitialized));
    assert_eq!(send_counter(&mut ledger, &metas, &[3, 9]), Err(ProgramError::InvalidInstructionData));
    assert_eq!(send_counter(&mut ledger, &metas, &[]), Err(ProgramError::InvalidAccountData));
    let views = ledger.views(&metas);
    assert_eq!(
        counter::process_instruction(&counter::ID, &views, &[0, 9], Err(ProgramError::UnsupportedSysvar)),
        Err(ProgramError::AccountAlreadyInitialized)
    );
}

#[test]
fn counter_initialize_effects_and_rent_errors() {
    let (mut ledger, authority) = counter_setup();
    let counter_address = counter_pda(&authority, 3);
    let views = ledger.views(&[signer(authority), writable(counter_address), readonly(SYSTEM_PROGRAM)]);
    let effects = counter::instructions::initialize::process_initialize_instruction(&views, &[3], Ok(RENT)).unwrap();
    assert_eq!(effects.len(), 2);
    assert_eq!(
        effects[0],
        Effect::CreateAccount {
            from: 0,
            to: 1,
            lamports: (128 + 41) * 6960,
            space: 41,
            owner: counter::ID,
            signer: PdaSeeds { prefix: SeedPrefix::Counter, key: authority, seed: None, bump: 3 },
        }
    );
    match effects[1] {
        Effect::Store { account: 1, state: State::Counter(c) } => {
            assert_eq!(c.authority, authority);
            assert_eq!(c.count(), 0);
            assert_eq!(c.bump, 3);
        }
        _ => panic!("expected the counter to be stored"),
    }
    assert_eq!(
        counter::instructions::initialize::process_initialize_instruction(
            &views,
            &[3],
            Err(ProgramError::UnsupportedSysvar)
        ),
        Err(ProgramError::UnsupportedSysvar)
    );
    assert_eq!(
        counter::instructions::initialize::process_initialize_instruction(
            &views,
            &[3],
            Ok(Rent { lamports_per_byte: u64::MAX })
        ),
        Err(ProgramError::InvalidArgument)
    );
}

#[test]
fn counter_refuses_to_leave_the_u64_range() {
    let (mut ledger, authority) = counter_setup();
    let counter_address = counter_pda(&authority, 1);
    send_counter(
        &mut ledger,
        &[signer(authority), writable(counter_address), readonly(SYSTEM_PROGRAM)],
        &[0, 1],
    )
    .unwrap();
    let metas = [readonly_signer(authority), writable(counter_address)];
    // Decrementing zero is refused with the counter's Underflow error (custom code 2).
    assert_eq!(send_counter(&mut ledger, &metas, &[2, 1]), Err(ProgramError::Custom(2)));
    assert_eq!(stored_count(&ledger, &counter_address), 0);
    send_counter(&mut ledger, &metas, &[1, 1]).unwrap();
    assert_eq!(stored_count(&ledger, &counter_address), 1);
    // Incrementing u64::MAX is refused with the counter's Overflow error (custom code 1).
    ledger.get_mut(&counter_address).data[32..40].copy_from_slice(&u64::MAX.to_le_bytes());
    assert_eq!(send_counter(&mut ledger, &metas, &[1, 1]), Err(ProgramError::Custom(1)));
    assert_eq!(stored_count(&ledger, &counter_address), u64::MAX);
    send_counter(&mut ledger, &metas, &[2, 1]).unwrap();
    assert_eq!(stored_count(&ledger, &counter_address), u64::MAX - 1);
}

// ---------------------------------------------------------------- escrow

struct EscrowSetup {
    ledger: Ledger,
    maker: Address,
    taker: Address,
    mint_a: Address,
    mint_b: Address,
    maker_ata_a: Address,
    taker_ata_a: Address,
    taker_ata_b: Address,
    maker_ata_b: Address,
}

fn escrow_setup() -> EscrowSetup {
    let mut ledger = Ledger::new();
    let (maker, taker, mint_a, mint_b) = (key(10), key(11), key(12), key(13));
    ledger.airdrop(&maker, 2_000_000_000);
    ledger.airdrop(&taker, 2_000_000_000);
    ledger.create_mint(&mint_a, 9);
    ledger.create_mint(&mint_b, 9);
    let (maker_ata_a, taker_ata_a, taker_ata_b, maker_ata_b) = (key(20), key(21), key(22), key(23));
    ledger.create_token_account(&maker_ata_a, &maker, &mint_a, 1000);
    ledger.create_token_account(&taker_ata_b, &taker, &mint_b, 500);
    ledger.create_token_account(&taker_ata_a, &taker, &mint_a, 0);
    ledger.create_token_account(&maker_ata_b, &maker, &mint_b, 0);
    EscrowSetup { ledger, maker, taker, mint_a, mint_b, maker_ata_a, taker_ata_a, taker_ata_b, maker_ata_b }
}

fn make_data(seed: u64, amount_a: u64, amount_b: u64, bump: u8) -> Vec<u8> {
    let mut data = vec![0];
    data.extend_from_slice(&seed.to_le_bytes());
    data.extend_from_slice(&amount_a.to_le_bytes());
    data.extend_from_slice(&amount_b.to_le_bytes());
    data.push(bump);
    data
}

fn make_metas(s: &EscrowSetup, escrow_address: Address, vault: Address) -> Vec<(Address, bool, bool)> {
    vec![
        signer(s.maker),
        readonly(s.mint_a),
        readonly(s.mint_b),
        writable(escrow_address),
        writable(vault),
        writable(s.maker_ata_a),
        readonly(SYSTEM_PROGRAM),
        readonly(TOKEN_PROGRAM_ID),
        readonly(ATA_PROGRAM),
    ]
}

#[test]
fn test_escrow_happy_path_take() {
    let mut s = escrow_setup();
    let seed: u64 = 42;
    let amount_a: u64 = 400;
    let amount_b: u64 = 200;
    let bump = 255;
    let escrow_address = escrow_pda(&s.maker, seed, bump);
    let vault = key(30);

    // 1. MAKE
    let metas = make_metas(&s, escrow_address, vault);
    send_escrow(&mut s.ledger, &metas, &make_data(seed, amount_a, amount_b, bump))
        .expect("Failed to call MAKE instruction");
    assert_eq!(s.ledger.token_balance(&s.maker_ata_a), 600);
    assert_eq!(s.ledger.token_balance(&vault), 400);

    let escrow_account = s.ledger.get(&escrow_address).unwrap();
    assert_eq!(escrow_account.data.len(), 128);
    let data = &escrow_account.data;
    assert_eq!(u64::from_le_bytes(data[0..8].try_into().unwrap()), seed);
    assert_eq!(&data[8..40], &s.maker);
    assert_eq!(&data[40..72], &s.mint_a);
    assert_eq!(&data[72..104], &s.mint_b);
    assert_eq!(u64::from_le_bytes(data[104..112].try_into().unwrap()), amount_a);
    assert_eq!(u64::from_le_bytes(data[112..120].try_into().unwrap()), amount_b);
    assert_eq!(data[120], bump);

    // 2. TAKE
    let maker_lamports = s.ledger.get(&s.maker).unwrap().lamports;
    let escrow_lamports = s.ledger.get(&escrow_address).unwrap().lamports;
    let metas = vec![
        signer(s.taker),
        writable(s.maker),
        readonly(s.mint_a),
        readonly(s.mint_b),
        writable(escrow_address),
        writable(vault),
        writable(s.taker_ata_a),
        writable(s.taker_ata_b),
        writable(s.maker_ata_b),
        readonly(TOKEN_PROGRAM_ID),
        readonly(SYSTEM_PROGRAM),
    ];
    let mut data = vec![1];
    data.extend_from_slice(&seed.to_le_bytes());
    data.push(bump);
    data.extend_from_slice(&amount_a.to_le_bytes());
    data.extend_from_slice(&amount_b.to_le_bytes());
    send_escrow(&mut s.ledger, &metas, &data).expect("Failed to call TAKE instruction");

    assert_eq!(s.ledger.token_balance(&s.taker_ata_a), 400);
    assert_eq!(s.ledger.token_balance(&s.maker_ata_b), 200);
    assert_eq!(s.ledger.token_balance(&s.taker_ata_b), 300);
    assert!(s.ledger.is_closed(&escrow_address));
    assert_eq!(s.ledger.get(&s.maker).unwrap().lamports, maker_lamports + escrow_lamports);
}

#[test]
fn test_escrow_happy_path_refund() {
    let mut s = escrow_setup();
    let seed: u64 = 100;
    let amount_a: u64 = 500;
    let amount_b: u64 = 250;
    let bump = 254;
    let escrow_address = escrow_pda(&s.maker, seed, bump);
    let vault = key(31);

    let metas = make_metas(&s, escrow_address, vault);
    send_escrow(&mut s.ledger, &metas, &make_data(seed, amount_a, amount_b, bump)).unwrap();

    let metas = vec![
        signer(s.maker),
        readonly(s.mint_a),
        writable(escrow_address),
        writable(vault),
        writable(s.maker_ata_a),
        readonly(TOKEN_PROGRAM_ID),
        readonly(SYSTEM_PROGRAM),
    ];
    let mut data = vec![2];
    data.extend_from_slice(&seed.to_le_bytes());
    data.push(bump);
    data.extend_from_slice(&amount_a.to_le_bytes());
    send_escrow(&mut s.ledger, &metas, &data).expect("Failed to call REFUND");

    assert_eq!(s.ledger.token_balance(&s.maker_ata_a), 1000);
    assert!(s.ledger.is_closed(&escrow_address));
}

#[test]
fn escrow_take_and_refund_move_the_stored_amounts() {
    // A take whose data names other amounts still exchanges the made offer.
    let mut s = escrow_setup();
    let (seed, bump) = (7u64, 253u8);
    let escrow_address = escrow_pda(&s.maker, seed, bump);
    let vault = key(33);
    let metas = make_metas(&s, escrow_address, vault);
    send_escrow(&mut s.ledger, &metas, &make_data(seed, 400, 200, bump)).unwrap();
    let metas = vec![
        signer(s.taker),
        writable(s.maker),
        readonly(s.mint_a),
        readonly(s.mint_b),
        writable(escrow_address),
        writable(vault),
        writable(s.taker_ata_a),
        writable(s.taker_ata_b),
        writable(s.maker_ata_b),
        readonly(TOKEN_PROGRAM_ID),
        readonly(SYSTEM_PROGRAM),
    ];
    let mut data = vec![1];
    data.extend_from_slice(&seed.to_le_bytes());
    data.push(bump);
    data.extend_from_slice(&1u64.to_le_bytes());
    data.extend_from_slice(&1u64.to_le_bytes());
    send_escrow(&mut s.ledger, &metas, &data).unwrap();
    assert_eq!(s.ledger.token_balance(&s.taker_ata_a), 400);
    assert_eq!(s.ledger.token_balance(&s.maker_ata_b), 200);
    assert_eq!(s.ledger.token_balance(&s.taker_ata_b), 300);
    assert_eq!(s.ledger.token_balance(&vault), 0);

    // A refund whose data names another amount still returns the whole deposit.
    let mut s = escrow_setup();
    let escrow_address = escrow_pda(&s.maker, seed, bump);
    let metas = make_metas(&s, escrow_address, vault);
    send_escrow(&mut s.ledger, &metas, &make_data(seed, 500, 250, bump)).unwrap();
    let metas = vec![
        signer(s.maker),
        readonly(s.mint_a),
        writable(escrow_address),
        writable(vault),
        writable(s.maker_ata_a),
        readonly(TOKEN_PROGRAM_ID),
        readonly(SYSTEM_PROGRAM),
    ];
    let mut data = vec![2];
    data.extend_from_slice(&seed.to_le_bytes());
    data.push(bump);
    data.extend_from_slice(&5u64.to_le_bytes());
    send_escrow(&mut s.ledger, &metas, &data).unwrap();
    assert_eq!(s.ledger.token_balance(&s.maker_ata_a), 1000);
    assert_eq!(s.ledger.token_balance(&vault), 0);
    assert!(s.ledger.is_closed(&escrow_address));
}

#[test]
fn test_make_security_checks() {
    let mut s = escrow_setup();
    let seed: u64 = 42;
    let bump = 255;
    let escrow_address = escrow_pda(&s.maker, seed, bump);
    let vault = key(32);

    // 1. Not Enough Accounts
    let mut data = vec![0u8; 25];
    data.push(bump);
    let err = send_escrow(&mut s.ledger, &[signer(s.maker), readonly(s.mint_a)], &data);
    assert_eq!(err, Err(ProgramError::NotEnoughAccountKeys));

    // 2. Maker Not Signer
    let mut metas = make_metas(&s, escrow_address, vault);
    metas[0] = writable(s.maker);
    let err = send_escrow(&mut s.ledger, &metas, &make_data(seed, 400, 200, bump));
    assert_eq!(err, Err(ProgramError::MissingRequiredSignature));
}

#[test]
fn escrow_checks_token_accounts_and_maker() {
    let mut s = escrow_setup();
    let seed: u64 = 7;
    let bump = 250;
    let escrow_address = escrow_pda(&s.maker, seed, bump);
    let vault = key(33);
    let data = make_data(seed, 400, 200, bump);

    // The maker's token account must hold mint_a for the maker.
    let mut metas = make_metas(&s, escrow_address, vault);
    metas[5] = writable(s.maker_ata_b);
    assert_eq!(send_escrow(&mut s.ledger, &metas, &data), Err(ProgramError::InvalidAccountData));
    metas[5] = writable(s.taker_ata_a);
    assert_eq!(send_escrow(&mut s.ledger, &metas, &data), Err(ProgramError::IllegalOwner));
    metas[5] = writable(s.mint_a);
    assert_eq!(send_escrow(&mut s.ledger, &metas, &data), Err(ProgramError::InvalidAccountData));
    s.ledger.get_mut(&key(40)).data = vec![0; 165];
    metas[5] = writable(key(40));
    assert_eq!(send_escrow(&mut s.ledger, &metas, &data), Err(ProgramError::IncorrectProgramId));
    metas[4] = readonly(vault);
    assert_eq!(send_escrow(&mut s.ledger, &metas, &data), Err(ProgramError::InvalidAccountData));

    // A refund must come from the maker that made the escrow.
    let metas = make_metas(&s, escrow_address, vault);
    send_escrow(&mut s.ledger, &metas, &data).unwrap();
    assert_eq!(send_escrow(&mut s.ledger, &metas, &data), Err(ProgramError::AccountAlreadyInitialized));
    s.ledger.get_mut(&escrow_address).data[8..40].copy_from_slice(&s.taker);
    let refund_metas = vec![
        signer(s.maker),
        readonly(s.mint_a),
        writable(escrow_address),
        writable(vault),
        writable(s.maker_ata_a),
        readonly(TOKEN_PROGRAM_ID),
        readonly(SYSTEM_PROGRAM),
    ];
    let mut refund = vec![2];
    refund.extend_from_slice(&seed.to_le_bytes());
    refund.push(bump);
    refund.extend_from_slice(&400u64.to_le_bytes());
    assert_eq!(send_escrow(&mut s.ledger, &refund_metas, &refund), Err(ProgramError::InvalidAccountData));
    assert_eq!(send_escrow(&mut s.ledger, &refund_metas, &refund[..17]), Err(ProgramError::InvalidArgument));
}

// ---------------------------------------------------------------- fundraiser

const NOW: i64 = 1_700_000_000;

fn initialize_data(amount_to_raise: u64, time_started: i64, duration: u8, bump: u8) -> Vec<u8> {
    let mut data = vec![0];
    data.extend_from_slice(&amount_to_raise.to_le_bytes());
    data.extend_from_slice(&time_started.to_le_bytes());
    data.push(duration);
    data.push(bump);
    data
}

struct Campaign {
    ledger: Ledger,
    maker: Address,
    mint: Address,
    fundraiser: Address,
    vault: Address,
    bump: u8,
}

fn campaign(time_started: i64, amount_to_raise: u64, duration: u8) -> Campaign {
    let mut ledger = Ledger::new();
    let maker = key(50);
    let mint = key(51);
    ledger.airdrop(&maker, 2_000_000_000);
    ledger.create_mint(&mint, 0);
    let bump = 255;
    let fundraiser_address = fundraiser_pda(&maker, bump);
    let vault = key(52);
    send_fundraiser(
        &mut ledger,
        &[
            signer(maker),
            readonly(mint),
            writable(fundraiser_address),
            writable(vault),
            readonly(SYSTEM_PROGRAM),
            readonly(TOKEN_PROGRAM_ID),
            readonly(ATA_PROGRAM),
        ],
        &initialize_data(amount_to_raise, time_started, duration, bump),
        NOW,
    )
    .expect("Failed to INITIALIZE fundraiser");
    Campaign { ledger, maker, mint, fundraiser: fundraiser_address, vault, bump }
}

fn add_contributor(c: &mut Campaign, n: u8, balance: u64) -> (Address, Address, Address, u8) {
    let contributor = key(n);
    c.ledger.airdrop(&contributor, 1_000_000_000);
    let ata = key(n.wrapping_add(100));
    c.ledger.create_token_account(&ata, &contributor, &c.mint, balance);
    let bump = 255 - n;
    (contributor, ata, contributor_pda(&contributor, bump), bump)
}

fn contribute(c: &mut Campaign, who: (Address, Address, Address, u8), amount: u64, now: i64) -> Result<(), ProgramError> {
    let (contributor, ata, record, bump) = who;
    let mut data = vec![1];
    data.extend_from_slice(&amount.to_le_bytes());
    data.push(bump);
    send_fundraiser(
        &mut c.ledger,
        &[
            signer(contributor),
            readonly(c.mint),
            writable(c.fundraiser),
            writable(record),
            writable(ata),
            writable(c.vault),
            readonly(SYSTEM_PROGRAM),
            readonly(TOKEN_PROGRAM_ID),
            readonly(ATA_PROGRAM),
        ],
        &data,
        now,
    )
}

fn refund(c: &mut Campaign, who: (Address, Address, Address, u8), now: i64) -> Result<(), ProgramError> {
    let (contributor, ata, record, bump) = who;
    send_fundraiser(
        &mut c.ledger,
        &[
            signer(contributor),
            writable(c.maker),
            readonly(c.mint),
            writable(c.fundraiser),
            writable(record),
            writable(ata),
            writable(c.vault),
            readonly(SYSTEM_PROGRAM),
            readonly(TOKEN_PROGRAM_ID),
        ],
        &[3, c.bump, bump],
        now,
    )
}

fn checker(c: &mut Campaign, maker_ata: Address) -> Result<(), ProgramError> {
    send_fundraiser(
        &mut c.ledger,
        &[
            signer(c.maker),
            readonly(c.mint),
            writable(c.fundraiser),
            writable(c.vault),
            writable(maker_ata),
            readonly(SYSTEM_PROGRAM),
            readonly(TOKEN_PROGRAM_ID),
        ],
        &[2, c.bump],
        NOW,
    )
}

fn collected(c: &Campaign) -> u64 {
    u64::from_le_bytes(c.ledger.get(&c.fundraiser).unwrap().data[72..80].try_into().unwrap())
}

#[test]
fn test_fundraiser_happy_path_success() {
    let mut c = campaign(NOW, 30, 5);
    let stored = &c.ledger.get(&c.fundraiser).unwrap().data;
    assert_eq!(stored.len(), 90);
    assert_eq!(u64::from_le_bytes(stored[64..72].try_into().unwrap()), 30);

    for i in 0..10u8 {
        let who = add_contributor(&mut c, 60 + i, 3);
        contribute(&mut c, who, 3, NOW).expect("Failed to CONTRIBUTE");
    }
    assert_eq!(collected(&c), 30);

    let maker_ata = key(53);
    let (maker, mint) = (c.maker, c.mint);
    c.ledger.create_token_account(&maker_ata, &maker, &mint, 0);
    checker(&mut c, maker_ata).expect("Failed to call CHECKER");
    assert_eq!(c.ledger.token_balance(&maker_ata), 30);
    assert!(c.ledger.is_closed(&c.fundraiser));
}

#[test]
fn test_fundraiser_happy_path_refund() {
    let expired_start_time = NOW - (5 * 86400) - 100;
    let mut c = campaign(expired_start_time, 30, 5);
    let c1 = add_contributor(&mut c, 70, 3);
    let c2 = add_contributor(&mut c, 71, 3);
    contribute(&mut c, c1, 3, expired_start_time + 10).unwrap();
    contribute(&mut c, c2, 3, expired_start_time + 10).unwrap();
    assert_eq!(collected(&c), 6);

    refund(&mut c, c1, NOW).expect("Refund for contributor 1 failed");
    assert_eq!(c.ledger.token_balance(&c1.1), 3);
    assert!(c.ledger.is_closed(&c1.2));
    assert_eq!(collected(&c), 3);
}

#[test]
fn mod_test_initialize_security_checks() {
    let mut ledger = Ledger::new();
    let maker = key(80);
    let mint = key(81);
    ledger.airdrop(&maker, 2_000_000_000);
    ledger.create_mint(&mint, 0);
    let bump = 255;
    let fundraiser_address = fundraiser_pda(&maker, bump);
    let vault = key(82);

    // 1. Not Enough Accounts
    let data = vec![0, 3, 0, 0, 0, 0, 0, 0, 0, 0, 0, 0, 0, 0, 0, 0, 0, 5, bump];
    let err = send_fundraiser(&mut ledger, &[signer(maker), writable(fundraiser_address)], &data, NOW);
    assert_eq!(err, Err(ProgramError::NotEnoughAccountKeys));

    // 2. Maker Not Signer
    let metas = [
        writable(maker),
        readonly(mint),
        writable(fundraiser_address),
        writable(vault),
        readonly(SYSTEM_PROGRAM),
        readonly(TOKEN_PROGRAM_ID),
        readonly(ATA_PROGRAM),
    ];
    let err = send_fundraiser(&mut ledger, &metas, &initialize_data(3, NOW, 5, bump), NOW);
    assert_eq!(err, Err(ProgramError::MissingRequiredSignature));
}

#[test]
fn fundraiser_target_minimum_scales_with_decimals() {
    let mut ledger = Ledger::new();
    let maker = key(83);
    let mint = key(84);
    ledger.airdrop(&maker, 2_000_000_000);
    ledger.create_mint(&mint, 6);
    let bump = 200;
    let fundraiser_address = fundraiser_pda(&maker, bump);
    let metas = [
        signer(maker),
        readonly(mint),
        writable(fundraiser_address),
        writable(key(85)),
        readonly(SYSTEM_PROGRAM),
        readonly(TOKEN_PROGRAM_ID),
        readonly(ATA_PROGRAM),
    ];
    assert_eq!(
        send_fundraiser(&mut ledger, &metas, &initialize_data(2_999_999, NOW, 5, bump), NOW),
        Err(ProgramError::InvalidArgument)
    );
    ledger.get_mut(&mint).data[44] = 19;
    assert_eq!(
        send_fundraiser(&mut ledger, &metas, &initialize_data(u64::MAX, NOW, 5, bump), NOW),
        Err(ProgramError::ArithmeticOverflow)
    );
    ledger.get_mut(&mint).data[44] = 20;
    let views = ledger.views(&metas);
    assert!(fundraiser::instruction_aborts(
        &views,
        &initialize_data(u64::MAX, NOW, 5, bump),
        Ok(RENT),
        Ok(Clock { unix_timestamp: NOW })
    ));
    assert!(fundraiser::run(
        &fundraiser::ID,
        &views,
        &initialize_data(u64::MAX, NOW, 5, bump),
        Ok(RENT),
        Ok(Clock { unix_timestamp: NOW })
    )
    .is_none());
    ledger.get_mut(&mint).data = vec![0; 44];
    assert_eq!(
        send_fundraiser(&mut ledger, &metas, &initialize_data(3_000_000, NOW, 5, bump), NOW),
        Err(ProgramError::InvalidAccountData)
    );
    ledger.get_mut(&mint).data = vec![0; 82];
    ledger.get_mut(&mint).data[44] = 6;
    send_fundraiser(&mut ledger, &metas, &initialize_data(3_000_000, NOW, 5, bump), NOW).unwrap();
    assert_eq!(
        send_fundraiser(&mut ledger, &metas, &initialize_data(3_000_000, NOW, 5, bump), NOW),
        Err(ProgramError::AccountAlreadyInitialized)
    );
    assert_eq!(
        send_fundraiser(&mut ledger, &metas, &initialize_data(3_000_000, NOW, 5, bump)[..18], NOW),
        Err(ProgramError::InvalidArgument)
    );
}

#[test]
fn fundraiser_failed_contribution_changes_nothing() {
    let mut c = campaign(NOW, 100, 5);
    let who = add_contributor(&mut c, 93, 100);
    let fundraiser_address = c.fundraiser;
    c.ledger.get_mut(&fundraiser_address).data[72..80].copy_from_slice(&(u64::MAX - 1).to_le_bytes());
    let vault_before = c.ledger.token_balance(&c.vault);
    let contributor_lamports = c.ledger.get(&who.0).unwrap().lamports;
    // The collected amount would overflow after the transfer: the whole contribution is undone.
    assert_eq!(contribute(&mut c, who, 5, NOW), Err(ProgramError::ArithmeticOverflow));
    assert_eq!(collected(&c), u64::MAX - 1);
    assert_eq!(c.ledger.token_balance(&who.1), 100);
    assert_eq!(c.ledger.token_balance(&c.vault), vault_before);
    assert!(c.ledger.get(&who.2).map_or(true, |record| record.data.is_empty()));
    assert_eq!(c.ledger.get(&who.0).unwrap().lamports, contributor_lamports);
}

#[test]
fn fundraiser_contribution_limits() {
    let mut c = campaign(NOW, 100, 5);
    let who = add_contributor(&mut c, 90, 100);
    // Less than one whole token is refused.
    assert_eq!(contribute(&mut c, who, 0, NOW), Err(ProgramError::InvalidArgument));
    // Above a tenth of the target is refused.
    assert_eq!(contribute(&mut c, who, 11, NOW), Err(ProgramError::InvalidArgument));
    contribute(&mut c, who, 6, NOW).unwrap();
    // The contributor's total may not pass the cap either.
    assert_eq!(contribute(&mut c, who, 5, NOW), Err(ProgramError::InvalidArgument));
    contribute(&mut c, who, 4, NOW).unwrap();
    assert_eq!(collected(&c), 10);
    let record = c.ledger.get(&who.2).unwrap();
    assert_eq!(record.data, 10u64.to_le_bytes().to_vec());
    // Exactly one whole token is accepted.
    let exact = add_contributor(&mut c, 92, 100);
    contribute(&mut c, exact, 1, NOW).unwrap();
    assert_eq!(collected(&c), 11);
    // After the duration, contributions are refused, also 256 days on.
    let late = add_contributor(&mut c, 91, 100);
    assert_eq!(contribute(&mut c, late, 5, NOW + 5 * 86400), Err(ProgramError::InvalidArgument));
    assert_eq!(contribute(&mut c, late, 5, NOW + 256 * 86400), Err(ProgramError::InvalidArgument));
    assert_eq!(contribute(&mut c, late, 5, NOW + 261 * 86400), Err(ProgramError::InvalidArgument));
    // The clock's own error comes through.
    let views = c.ledger.views(&[
        signer(late.0),
        readonly(c.mint),
        writable(c.fundraiser),
        writable(late.2),
        writable(late.1),
        writable(c.vault),
        readonly(SYSTEM_PROGRAM),
        readonly(TOKEN_PROGRAM_ID),
        readonly(ATA_PROGRAM),
    ]);
    let mut data = vec![1];
    data.extend_from_slice(&5u64.to_le_bytes());
    data.push(late.3);
    assert_eq!(
        fundraiser::process_instruction(
            &fundraiser::ID,
            &views,
            &data,
            Ok(RENT),
            Err(ProgramError::UnsupportedSysvar)
        ),
        Err(ProgramError::UnsupportedSysvar)
    );
}

#[test]
fn fundraiser_collection_and_refund_are_exclusive() {
    let mut c = campaign(NOW - 10 * 86400, 30, 5);
    let who = add_contributor(&mut c, 95, 10);
    let maker_ata = key(54);
    let (maker, mint) = (c.maker, c.mint);
    c.ledger.create_token_account(&maker_ata, &maker, &mint, 0);
    // Nothing collected yet: the maker cannot collect.
    assert_eq!(checker(&mut c, maker_ata), Err(ProgramError::InvalidArgument));
    // The vault holds the target: refunds are refused, collection goes through.
    let vault = c.vault;
    c.ledger.get_mut(&vault).data[64..72].copy_from_slice(&30u64.to_le_bytes());
    let record = who.2;
    c.ledger.get_mut(&record).owner = fundraiser::ID;
    c.ledger.get_mut(&record).data = 3u64.to_le_bytes().to_vec();
    assert_eq!(refund(&mut c, who, NOW), Err(ProgramError::InvalidArgument));
    checker(&mut c, maker_ata).unwrap();
    assert_eq!(c.ledger.token_balance(&maker_ata), 30);
}

#[test]
fn fundraiser_refund_checks() {
    let start = NOW - 86400;
    let mut c = campaign(start, 30, 5);
    let who = add_contributor(&mut c, 96, 10);
    contribute(&mut c, who, 3, NOW).unwrap();
    // Before the end of the campaign, refunds are refused, also before its start.
    assert_eq!(refund(&mut c, who, NOW), Err(ProgramError::InvalidArgument));
    assert_eq!(refund(&mut c, who, start - 86400), Err(ProgramError::InvalidArgument));
    assert_eq!(refund(&mut c, who, start - 300 * 86400), Err(ProgramError::InvalidArgument));
    // A maker other than the campaign's is refused.
    let (contributor, ata, record, bump) = who;
    let err = send_fundraiser(
        &mut c.ledger,
        &[
            signer(contributor),
            writable(key(99)),
            readonly(c.mint),
            writable(c.fundraiser),
            writable(record),
            writable(ata),
            writable(c.vault),
            readonly(SYSTEM_PROGRAM),
            readonly(TOKEN_PROGRAM_ID),
        ],
        &[3, c.bump, bump],
        NOW + 10 * 86400,
    );
    assert_eq!(err, Err(ProgramError::InvalidArgument));
    // Collected amounts never go below zero on refund.
    let fundraiser_address = c.fundraiser;
    c.ledger.get_mut(&fundraiser_address).data[72..80].copy_from_slice(&1u64.to_le_bytes());
    refund(&mut c, who, NOW + 10 * 86400).unwrap();
    assert_eq!(collected(&c), 0);
    assert_eq!(c.ledger.token_balance(&ata), 10);
}
