use escrow::bytes::{read_u64_at, same_address};
use escrow::errors::{EscrowError, ProgramError};
use escrow::instructions::helpers::{
    assert_ata_address, assert_data_len, create_program_account, assert_mint_account, assert_owned_by, assert_program,
    assert_signer, assert_system_program, assert_token_account, assert_token_program,
    load_and_validate_escrow, parse_create_ix_data, read_u64_le, token_account_amount,
};
use escrow::{process_instruction, AccountState, Action, Escrow, EscrowSigner, Reply, Session, Step, ID};
use pinocchio::Address;

fn system_program_id() -> [u8; 32] {
    pinocchio_system::ID.to_bytes()
}

fn token_program_id() -> [u8; 32] {
    pinocchio_token::ID.to_bytes()
}

fn associated_token_program_id() -> [u8; 32] {
    pinocchio_associated_token_account::ID.to_bytes()
}

fn custom(e: EscrowError) -> ProgramError {
    ProgramError::Custom(e)
}

fn key(n: u8) -> [u8; 32] {
    let mut k = [0u8; 32];
    k[0] = n;
    k[31] = 0x5a;
    k
}

fn account(address: [u8; 32], owner: [u8; 32], is_signer: bool, lamports: u64, data: Vec<u8>) -> AccountState {
    AccountState { address, owner, is_signer, lamports, data }
}

fn ata(owner: &[u8; 32], mint: &[u8; 32]) -> [u8; 32] {
    let (a, _) = Address::find_program_address(
        &[owner.as_ref(), token_program_id().as_ref(), mint.as_ref()],
        &Address::new_from_array(associated_token_program_id()),
    );
    a.to_bytes()
}

fn escrow_pda(maker: &[u8; 32], seed: u64) -> ([u8; 32], u8) {
    let (a, bump) = Address::find_program_address(
        &[b"escrow".as_ref(), maker.as_ref(), &seed.to_le_bytes()],
        &Address::new_from_array(ID),
    );
    (a.to_bytes(), bump)
}

fn token_account_data(amount: u64) -> Vec<u8> {
    let mut d = vec![0u8; 165];
    d[64..72].copy_from_slice(&amount.to_le_bytes());
    d
}

fn write_state(data: &mut [u8], state: &Escrow) -> Result<(), ProgramError> {
    let mut view = Escrow::load_mut(data)?;
    view.init(state.seed, state.maker, state.mint_a, state.mint_b, state.receive, state.bump[0]);
    Ok(())
}

fn make_data(seed: u64, receive: u64, amount: u64) -> Vec<u8> {
    let mut d = vec![0u8];
    d.extend_from_slice(&seed.to_le_bytes());
    d.extend_from_slice(&receive.to_le_bytes());
    d.extend_from_slice(&amount.to_le_bytes());
    d
}

struct World {
    maker: [u8; 32],
    taker: [u8; 32],
    mint_a: [u8; 32],
    mint_b: [u8; 32],
    seed: u64,
    escrow: [u8; 32],
    bump: u8,
}

fn world() -> World {
    let maker = key(1);
    let seed = 42;
    let (escrow, bump) = escrow_pda(&maker, seed);
    World { maker, taker: key(2), mint_a: key(3), mint_b: key(4), seed, escrow, bump }
}

fn mint(address: [u8; 32]) -> AccountState {
    account(address, token_program_id(), false, 1, vec![0u8; 82])
}

fn program(address: [u8; 32]) -> AccountState {
    account(address, [9u8; 32], false, 1, vec![])
}

fn make_accounts(w: &World) -> Vec<AccountState> {
    vec![
        account(w.maker, system_program_id(), true, 1_000_000, vec![]),
        account(w.escrow, system_program_id(), false, 0, vec![]),
        mint(w.mint_a),
        mint(w.mint_b),
        account(ata(&w.maker, &w.mint_a), token_program_id(), false, 2, token_account_data(500)),
        account(ata(&w.escrow, &w.mint_a), system_program_id(), false, 0, vec![]),
        program(system_program_id()),
        program(token_program_id()),
    ]
}

fn stored_escrow(w: &World, receive: u64) -> Vec<u8> {
    let state = Escrow {
        seed: w.seed,
        maker: w.maker,
        mint_a: w.mint_a,
        mint_b: w.mint_b,
        receive,
        bump: [w.bump],
    };
    let mut data = vec![0u8; Escrow::LEN];
    write_state(&mut data, &state).unwrap();
    data
}

fn take_accounts(w: &World, receive: u64) -> Vec<AccountState> {
    vec![
        account(w.taker, system_program_id(), true, 5_000, vec![]),
        account(w.maker, system_program_id(), false, 1_000, vec![]),
        account(w.escrow, ID, false, 2_000, stored_escrow(w, receive)),
        mint(w.mint_a),
        mint(w.mint_b),
        account(ata(&w.escrow, &w.mint_a), token_program_id(), false, 3, token_account_data(77)),
        account(ata(&w.taker, &w.mint_a), system_program_id(), false, 0, vec![]),
        account(ata(&w.taker, &w.mint_b), token_program_id(), false, 3, token_account_data(900)),
        account(ata(&w.maker, &w.mint_b), token_program_id(), false, 3, token_account_data(0)),
        program(system_program_id()),
        program(token_program_id()),
    ]
}

fn refund_accounts(w: &World) -> Vec<AccountState> {
    vec![
        account(w.maker, system_program_id(), true, 1_000, vec![]),
        account(w.escrow, ID, false, 2_000, stored_escrow(w, 10)),
        mint(w.mint_a),
        account(ata(&w.escrow, &w.mint_a), token_program_id(), false, 3, token_account_data(55)),
        account(ata(&w.maker, &w.mint_a), token_program_id(), false, 3, token_account_data(1)),
        program(system_program_id()),
        program(token_program_id()),
    ]
}

/// The rent sysvar's rate on a cluster with default settings.
const LAMPORTS_PER_BYTE: u64 = 6960;

/// Runs a session against the given accounts, answering reads with their current state and the
/// rent rate with `lamports_per_byte`, reporting as failed each action for which `fails` gives
/// an error, and applying the actions that change the program's own view of the accounts;
/// returns every action.
fn run_with(
    accounts: &mut Vec<AccountState>,
    plan: Result<Vec<Step>, ProgramError>,
    lamports_per_byte: u64,
    fails: impl Fn(&Action) -> Option<ProgramError>,
) -> Vec<Action> {
    let mut session = Session::new(plan);
    let mut reply = Reply::Done;
    let mut actions = Vec::new();
    for _ in 0..100 {
        let action = session.next(reply);
        actions.push(action);
        if let Some(e) = fails(&action) {
            reply = Reply::Failed(e);
            continue;
        }
        reply = Reply::Done;
        match action {
            Action::Finish { .. } => return actions,
            Action::ReadAccount { index } => {
                let a = &accounts[index];
                reply = Reply::Account(AccountState {
                    address: a.address,
                    owner: a.owner,
                    is_signer: a.is_signer,
                    lamports: a.lamports,
                    data: a.data.clone(),
                });
            },
            Action::ReadRent => reply = Reply::Rent { lamports_per_byte },
            Action::WriteEscrow { account, state } => {
                write_state(&mut accounts[account].data, &state).unwrap();
            },
            Action::SetLamports { account, lamports } => accounts[account].lamports = lamports,
            Action::WriteByte { account, offset, value } => accounts[account].data[offset] = value,
            Action::CreateProgramAccount { account, space, owner, .. } => {
                accounts[account].data = vec![0u8; space];
                accounts[account].owner = owner;
            },
            _ => {},
        }
    }
    panic!("the session did not end");
}

/// Runs a session in which every action succeeds.
fn run(accounts: &mut Vec<AccountState>, plan: Result<Vec<Step>, ProgramError>) -> Vec<Action> {
    run_with(accounts, plan, LAMPORTS_PER_BYTE, |_| None)
}

#[test]
fn error_codes_are_stable() {
    let all = [
        (EscrowError::MissingRequiredSignature, 0),
        (EscrowError::InvalidProgram, 1),
        (EscrowError::InvalidOwner, 2),
        (EscrowError::InvalidAccountData, 3),
        (EscrowError::InvalidInstruction, 4),
        (EscrowError::InvalidAmount, 5),
        (EscrowError::InvalidAddress, 6),
        (EscrowError::InvalidEscrowState, 7),
    ];
    for (e, code) in all {
        assert_eq!(e.custom_code(), code);
    }
}

#[test]
fn escrow_state_round_trips_through_its_layout() {
    let w = world();
    let state = Escrow { seed: 0x0102030405060708, maker: w.maker, mint_a: w.mint_a, mint_b: w.mint_b, receive: 99, bump: [w.bump] };
    let mut data = vec![0u8; 113];
    assert_eq!(write_state(&mut data, &state), Ok(()));
    assert_eq!(&data[0..8], &[8, 7, 6, 5, 4, 3, 2, 1]);
    assert_eq!(&data[8..40], &w.maker);
    assert_eq!(&data[40..72], &w.mint_a);
    assert_eq!(&data[72..104], &w.mint_b);
    assert_eq!(&data[104..112], &99u64.to_le_bytes());
    assert_eq!(data[112], w.bump);
    assert_eq!(Escrow::load(&data), Ok(state));
}

#[test]
fn escrow_layout_needs_exactly_113_bytes() {
    let w = world();
    let state = Escrow { seed: 1, maker: w.maker, mint_a: w.mint_a, mint_b: w.mint_b, receive: 2, bump: [3] };
    let mut short = vec![7u8; 112];
    assert_eq!(write_state(&mut short, &state), Err(custom(EscrowError::InvalidAccountData)));
    assert_eq!(short, vec![7u8; 112]);
    assert_eq!(Escrow::load(&[0u8; 114]), Err(custom(EscrowError::InvalidAccountData)));
}

#[test]
fn init_sets_every_field() {
    let w = world();
    let mut state = Escrow { seed: 0, maker: [0; 32], mint_a: [0; 32], mint_b: [0; 32], receive: 0, bump: [0] };
    state.init(5, w.maker, w.mint_a, w.mint_b, 6, 7);
    assert_eq!(state, Escrow { seed: 5, maker: w.maker, mint_a: w.mint_a, mint_b: w.mint_b, receive: 6, bump: [7] });
}

#[test]
fn reads_little_endian_integers() {
    assert_eq!(read_u64_le(&[1, 0, 0, 0, 0, 0, 0, 0]), Ok(1));
    assert_eq!(read_u64_le(&[0, 1, 0, 0, 0, 0, 0, 0x80]), Ok(0x8000_0000_0000_0100));
    assert_eq!(read_u64_le(&[0; 7]), Err(custom(EscrowError::InvalidInstruction)));
    assert_eq!(read_u64_at(&[9, 1, 0, 0, 0, 0, 0, 0, 0, 9], 1), 1);
}

#[test]
fn parses_make_data() {
    let data = make_data(7, 8, 9);
    let ix = parse_create_ix_data(&data[1..]).unwrap();
    assert_eq!((ix.seed, ix.receive, ix.amount), (7, 8, 9));
    assert_eq!(parse_create_ix_data(&data[2..]).map(|_| ()), Err(custom(EscrowError::InvalidInstruction)));
    assert_eq!(parse_create_ix_data(&make_data(7, 0, 9)[1..]).map(|_| ()), Err(custom(EscrowError::InvalidAmount)));
    assert_eq!(parse_create_ix_data(&make_data(7, 8, 0)[1..]).map(|_| ()), Err(custom(EscrowError::InvalidAmount)));
}

#[test]
fn dispatch_refuses_bad_instructions() {
    let w = world();
    let accounts = make_accounts(&w);
    assert_eq!(process_instruction(&key(9), &accounts, &[1]), Err(custom(EscrowError::InvalidProgram)));
    assert_eq!(process_instruction(&ID, &accounts, &[]), Err(custom(EscrowError::InvalidInstruction)));
    assert_eq!(process_instruction(&ID, &accounts, &[3]), Err(custom(EscrowError::InvalidInstruction)));
    assert_eq!(process_instruction(&ID, &accounts, &[1, 0]), Err(custom(EscrowError::InvalidInstruction)));
    assert_eq!(process_instruction(&ID, &accounts, &[2, 0]), Err(custom(EscrowError::InvalidInstruction)));
    assert_eq!(process_instruction(&ID, &accounts, &[0, 1, 2]), Err(custom(EscrowError::InvalidInstruction)));
    assert_eq!(process_instruction(&ID, &accounts[..7].to_vec(), &make_data(w.seed, 1, 1)), Err(ProgramError::NotEnoughAccountKeys));
    assert_eq!(process_instruction(&ID, &accounts, &[1]), Err(ProgramError::NotEnoughAccountKeys));
}

#[test]
fn account_checks() {
    let w = world();
    let signer = account(w.maker, system_program_id(), true, 1, vec![]);
    let other = account(w.taker, system_program_id(), false, 1, vec![1, 2]);
    assert_eq!(assert_signer(&signer), Ok(()));
    assert_eq!(assert_signer(&other), Err(custom(EscrowError::MissingRequiredSignature)));
    assert_eq!(assert_program(&other, &w.taker), Ok(()));
    assert_eq!(assert_program(&other, &w.maker), Err(custom(EscrowError::InvalidProgram)));
    assert_eq!(assert_system_program(&program(system_program_id())), Ok(()));
    assert_eq!(assert_system_program(&program(token_program_id())), Err(custom(EscrowError::InvalidProgram)));
    assert_eq!(assert_token_program(&program(token_program_id())), Ok(()));
    assert_eq!(assert_owned_by(&other, &system_program_id()), Ok(()));
    assert_eq!(assert_owned_by(&other, &ID), Err(custom(EscrowError::InvalidOwner)));
    assert_eq!(assert_data_len(&other, 2), Ok(()));
    assert_eq!(assert_data_len(&other, 3), Err(custom(EscrowError::InvalidAccountData)));
    let tp = program(token_program_id());
    assert_eq!(assert_mint_account(&mint(w.mint_a), &tp), Ok(()));
    assert_eq!(assert_mint_account(&account(w.mint_a, token_program_id(), false, 1, vec![0; 81]), &tp), Err(custom(EscrowError::InvalidAccountData)));
    assert_eq!(assert_token_account(&account(w.mint_a, token_program_id(), false, 1, vec![0; 165]), &tp), Ok(()));
    assert_eq!(assert_token_account(&account(w.mint_a, ID, false, 1, vec![0; 165]), &tp), Err(custom(EscrowError::InvalidOwner)));
}

#[test]
fn ata_address_is_the_derived_one() {
    let w = world();
    let good = ata(&w.maker, &w.mint_a);
    assert_eq!(assert_ata_address(&good, &w.maker, &w.mint_a, &token_program_id()), Ok(()));
    assert_eq!(assert_ata_address(&w.maker, &w.maker, &w.mint_a, &token_program_id()), Err(custom(EscrowError::InvalidAddress)));
    assert_eq!(assert_ata_address(&good, &w.maker, &w.mint_b, &token_program_id()), Err(custom(EscrowError::InvalidAddress)));
    assert!(!same_address(&good, &ata(&w.taker, &w.mint_a)));
}

#[test]
fn token_amount_is_read_at_offset_64() {
    assert_eq!(token_account_amount(&token_account_data(12345)), Ok(12345));
    assert_eq!(token_account_amount(&[0u8; 71]), Err(custom(EscrowError::InvalidAccountData)));
    let mut d = vec![0u8; 72];
    d[64] = 2;
    assert_eq!(token_account_amount(&d), Ok(2));
}

#[test]
fn make_opens_the_escrow() {
    let w = world();
    let mut accounts = make_accounts(&w);
    let plan = process_instruction(&ID, &accounts, &make_data(w.seed, 10, 300));
    let steps = plan.clone().unwrap();
    assert_eq!(steps.len(), 4);
    let signer = EscrowSigner { maker: w.maker, seed: w.seed, bump: w.bump };
    assert_eq!(steps[0], Step::CreateProgramAccount { payer: 0, account: 1, space: 113, signer });
    let actions = run(&mut accounts, plan);
    assert_eq!(actions.len(), 6);
    assert_eq!(actions[0], Action::ReadRent);
    // (128 + 113) bytes at 6960 lamports each.
    assert_eq!(
        actions[1],
        Action::CreateProgramAccount { payer: 0, account: 1, lamports: 1_677_360, space: 113, owner: ID, signer }
    );
    assert_eq!(actions[2], Action::CreateAta { ata: 5, mint: 2, payer: 0, owner: 1, system_program: 6, token_program: 7 });
    assert_eq!(actions[4], Action::Transfer { from: 4, to: 5, authority: 0, amount: 300, signer: None });
    assert_eq!(actions[5], Action::Finish { result: Ok(()) });
    let state = Escrow::load(&accounts[1].data).unwrap();
    assert_eq!(state, Escrow { seed: w.seed, maker: w.maker, mint_a: w.mint_a, mint_b: w.mint_b, receive: 10, bump: [w.bump] });
    // The escrow that make leaves behind passes the validation of take and refund.
    let snapshot = load_and_validate_escrow(&accounts[1], &accounts[0], &accounts[2], Some(&accounts[3])).unwrap();
    assert_eq!((snapshot.seed, snapshot.receive, snapshot.bump), (w.seed, 10, w.bump));
}

#[test]
fn make_signing_seeds() {
    let w = world();
    let signer = EscrowSigner { maker: w.maker, seed: w.seed, bump: w.bump };
    let seeds = signer.seeds();
    assert_eq!(seeds, vec![b"escrow".to_vec(), w.maker.to_vec(), w.seed.to_le_bytes().to_vec(), vec![w.bump]]);
}

#[test]
fn make_refuses_a_wrong_escrow_address() {
    let w = world();
    let mut accounts = make_accounts(&w);
    accounts[1].address = key(77);
    accounts[5].address = ata(&key(77), &w.mint_a);
    assert_eq!(process_instruction(&ID, &accounts, &make_data(w.seed, 10, 300)), Err(custom(EscrowError::InvalidAddress)));
}

#[test]
fn make_checks_in_order() {
    let w = world();
    let mut accounts = make_accounts(&w);
    accounts[0].is_signer = false;
    accounts[6] = program(key(8));
    assert_eq!(process_instruction(&ID, &accounts, &make_data(w.seed, 10, 300)), Err(custom(EscrowError::MissingRequiredSignature)));
    accounts[0].is_signer = true;
    assert_eq!(process_instruction(&ID, &accounts, &make_data(w.seed, 10, 300)), Err(custom(EscrowError::InvalidProgram)));
    let mut accounts = make_accounts(&w);
    accounts[4].address = ata(&w.taker, &w.mint_a);
    assert_eq!(process_instruction(&ID, &accounts, &make_data(w.seed, 10, 300)), Err(custom(EscrowError::InvalidAddress)));
    assert_eq!(process_instruction(&ID, &make_accounts(&w), &make_data(w.seed, 10, 0)), Err(custom(EscrowError::InvalidAmount)));
}

#[test]
fn take_pays_the_maker_before_releasing_the_vault() {
    let w = world();
    let mut accounts = take_accounts(&w, 10);
    let plan = process_instruction(&ID, &accounts, &[1]);
    let actions = run(&mut accounts, plan);
    let signer = EscrowSigner { maker: w.maker, seed: w.seed, bump: w.bump };
    let expected = vec![
        Action::ReadAccount { index: 6 },
        Action::CreateAta { ata: 6, mint: 3, payer: 0, owner: 0, system_program: 9, token_program: 10 },
        Action::ReadAccount { index: 8 },
        Action::ReadAccount { index: 5 },
        Action::Transfer { from: 7, to: 8, authority: 0, amount: 10, signer: None },
        Action::Transfer { from: 5, to: 6, authority: 2, amount: 77, signer: Some(signer) },
        Action::CloseTokenAccount { account: 5, destination: 1, authority: 2, signer },
        Action::WriteByte { account: 2, offset: 0, value: 0xff },
        Action::ReadAccount { index: 1 },
        Action::ReadAccount { index: 2 },
        Action::SetLamports { account: 1, lamports: 3_000 },
        Action::Resize { account: 2, len: 1 },
        Action::Close { account: 2 },
        Action::Finish { result: Ok(()) },
    ];
    assert_eq!(actions, expected);
    assert_eq!(accounts[2].data[0], 0xff);
}

#[test]
fn take_refuses_a_different_mint_b() {
    let w = world();
    let mut accounts = take_accounts(&w, 10);
    let other_mint = key(44);
    accounts[4] = mint(other_mint);
    accounts[7].address = ata(&w.taker, &other_mint);
    assert_eq!(process_instruction(&ID, &accounts, &[1]), Err(custom(EscrowError::InvalidEscrowState)));
}

#[test]
fn take_refuses_a_vault_that_is_not_a_token_account() {
    let w = world();
    let mut accounts = take_accounts(&w, 10);
    accounts[5].data = vec![0u8; 100];
    assert_eq!(process_instruction(&ID, &accounts, &[1]), Err(custom(EscrowError::InvalidAccountData)));
}

#[test]
fn take_fails_when_an_existing_ata_is_not_a_token_account() {
    let w = world();
    let mut accounts = take_accounts(&w, 10);
    accounts[8].owner = system_program_id();
    let plan = process_instruction(&ID, &accounts, &[1]);
    let actions = run(&mut accounts, plan);
    assert_eq!(actions.last(), Some(&Action::Finish { result: Err(custom(EscrowError::InvalidOwner)) }));
    assert!(!actions.iter().any(|a| matches!(a, Action::Transfer { .. })));
}

#[test]
fn refund_returns_the_vault_to_the_maker() {
    let w = world();
    let mut accounts = refund_accounts(&w);
    let plan = process_instruction(&ID, &accounts, &[2]);
    let actions = run(&mut accounts, plan);
    let signer = EscrowSigner { maker: w.maker, seed: w.seed, bump: w.bump };
    let expected = vec![
        Action::ReadAccount { index: 4 },
        Action::ReadAccount { index: 3 },
        Action::Transfer { from: 3, to: 4, authority: 1, amount: 55, signer: Some(signer) },
        Action::CloseTokenAccount { account: 3, destination: 0, authority: 1, signer },
        Action::WriteByte { account: 1, offset: 0, value: 0xff },
        Action::ReadAccount { index: 0 },
        Action::ReadAccount { index: 1 },
        Action::SetLamports { account: 0, lamports: 3_000 },
        Action::Resize { account: 1, len: 1 },
        Action::Close { account: 1 },
        Action::Finish { result: Ok(()) },
    ];
    assert_eq!(actions, expected);
}

#[test]
fn refund_needs_the_recorded_maker() {
    let w = world();
    let mut accounts = refund_accounts(&w);
    accounts[0].is_signer = false;
    assert_eq!(process_instruction(&ID, &accounts, &[2]), Err(custom(EscrowError::MissingRequiredSignature)));
    let mut accounts = refund_accounts(&w);
    accounts[0].address = w.taker;
    assert_eq!(process_instruction(&ID, &accounts, &[2]), Err(custom(EscrowError::InvalidEscrowState)));
}

#[test]
fn refund_refuses_an_escrow_not_owned_by_the_program() {
    let w = world();
    let mut accounts = refund_accounts(&w);
    accounts[1].owner = system_program_id();
    assert_eq!(process_instruction(&ID, &accounts, &[2]), Err(custom(EscrowError::InvalidOwner)));
}

#[test]
fn refund_refuses_a_wrong_bump() {
    let w = world();
    let mut accounts = refund_accounts(&w);
    accounts[1].data[112] = w.bump.wrapping_sub(1);
    assert_eq!(process_instruction(&ID, &accounts, &[2]), Err(custom(EscrowError::InvalidAddress)));
}

#[test]
fn a_refused_instruction_asks_for_nothing() {
    let mut session = Session::new(Err(custom(EscrowError::InvalidProgram)));
    let end = Action::Finish { result: Err(custom(EscrowError::InvalidProgram)) };
    assert_eq!(session.next(Reply::Done), end);
    assert_eq!(session.next(Reply::Done), end);
    assert_eq!(session.outcome(), Some(Err(custom(EscrowError::InvalidProgram))));
    assert!(!session.awaiting_read());
}

#[test]
fn a_session_asks_again_for_a_missing_read() {
    let w = world();
    let accounts = refund_accounts(&w);
    let mut session = Session::new(process_instruction(&ID, &accounts, &[2]));
    assert_eq!(session.next(Reply::Done), Action::ReadAccount { index: 4 });
    assert!(session.awaiting_read());
    assert_eq!(session.next(Reply::Done), Action::ReadAccount { index: 4 });
    assert_eq!(session.next(Reply::Rent { lamports_per_byte: 1 }), Action::ReadAccount { index: 4 });
}

#[test]
fn escrow_errors_become_custom_failures() {
    assert_eq!(ProgramError::from(EscrowError::InvalidAmount), ProgramError::Custom(EscrowError::InvalidAmount));
}

#[test]
fn creation_is_funded_with_the_rent_exempt_minimum() {
    let w = world();
    let signer = EscrowSigner { maker: w.maker, seed: w.seed, bump: w.bump };
    assert_eq!(
        create_program_account(0, 1, signer, 113, 6960),
        Ok(Action::CreateProgramAccount { payer: 0, account: 1, lamports: 1_677_360, space: 113, owner: ID, signer })
    );
    assert_eq!(
        create_program_account(2, 3, signer, 0, 1),
        Ok(Action::CreateProgramAccount { payer: 2, account: 3, lamports: 128, space: 0, owner: ID, signer })
    );
    // The largest rate and size accepted still fit in 64 bits.
    assert_eq!(
        create_program_account(0, 1, signer, 10 * 1024 * 1024, 1_759_197_129_867),
        Ok(Action::CreateProgramAccount {
            payer: 0,
            account: 1,
            lamports: 18_446_744_073_706_816_896,
            space: 10 * 1024 * 1024,
            owner: ID,
            signer,
        })
    );
    assert_eq!(create_program_account(0, 1, signer, 10 * 1024 * 1024 + 1, 1), Err(ProgramError::InvalidArgument));
    assert_eq!(create_program_account(0, 1, signer, 113, 1_759_197_129_868), Err(ProgramError::InvalidArgument));
}

#[test]
fn make_fails_where_the_rent_cannot_be_computed() {
    let w = world();
    let mut accounts = make_accounts(&w);
    let plan = process_instruction(&ID, &accounts, &make_data(w.seed, 10, 300));
    let actions = run_with(&mut accounts, plan, u64::MAX, |_| None);
    assert_eq!(actions, vec![Action::ReadRent, Action::Finish { result: Err(ProgramError::InvalidArgument) }]);
}

#[test]
fn a_failed_rent_read_ends_make() {
    let w = world();
    let mut accounts = make_accounts(&w);
    let plan = process_instruction(&ID, &accounts, &make_data(w.seed, 10, 300));
    let failure = ProgramError::Runtime(17);
    let actions = run_with(&mut accounts, plan, LAMPORTS_PER_BYTE, |a| {
        if *a == Action::ReadRent { Some(failure) } else { None }
    });
    assert_eq!(actions, vec![Action::ReadRent, Action::Finish { result: Err(failure) }]);
}

#[test]
fn make_returns_the_error_of_its_last_transfer() {
    let w = world();
    let mut accounts = make_accounts(&w);
    let plan = process_instruction(&ID, &accounts, &make_data(w.seed, 10, 300));
    let short = ProgramError::Runtime(1);
    let actions = run_with(&mut accounts, plan, LAMPORTS_PER_BYTE, |a| {
        if matches!(a, Action::Transfer { .. }) { Some(short) } else { None }
    });
    assert_eq!(actions.len(), 6);
    assert_eq!(actions[4], Action::Transfer { from: 4, to: 5, authority: 0, amount: 300, signer: None });
    assert_eq!(actions[5], Action::Finish { result: Err(short) });
}

#[test]
fn a_failed_creation_stops_make() {
    let w = world();
    let mut accounts = make_accounts(&w);
    let plan = process_instruction(&ID, &accounts, &make_data(w.seed, 10, 300));
    let failure = ProgramError::Runtime(3);
    let actions = run_with(&mut accounts, plan, LAMPORTS_PER_BYTE, |a| {
        if matches!(a, Action::CreateProgramAccount { .. }) { Some(failure) } else { None }
    });
    assert_eq!(actions.len(), 3);
    assert_eq!(actions[2], Action::Finish { result: Err(failure) });
}

#[test]
fn a_failed_payment_stops_take_before_the_vault_moves() {
    let w = world();
    let mut accounts = take_accounts(&w, 10);
    let plan = process_instruction(&ID, &accounts, &[1]);
    let failure = ProgramError::Runtime(1);
    let payment = Action::Transfer { from: 7, to: 8, authority: 0, amount: 10, signer: None };
    let actions = run_with(&mut accounts, plan, LAMPORTS_PER_BYTE, |a| if *a == payment { Some(failure) } else { None });
    assert_eq!(actions[actions.len() - 2], payment);
    assert_eq!(actions.last(), Some(&Action::Finish { result: Err(failure) }));
    assert!(!actions.iter().any(|a| matches!(a, Action::Transfer { from: 5, .. } | Action::CloseTokenAccount { .. } | Action::Close { .. })));
    assert_eq!(accounts[2].data[0], stored_escrow(&w, 10)[0]);
}

#[test]
fn an_ended_session_repeats_its_failure() {
    let w = world();
    let accounts = refund_accounts(&w);
    let mut session = Session::new(process_instruction(&ID, &accounts, &[2]));
    assert_eq!(session.next(Reply::Done), Action::ReadAccount { index: 4 });
    let failure = ProgramError::Runtime(9);
    let end = Action::Finish { result: Err(failure) };
    assert_eq!(session.next(Reply::Failed(failure)), end);
    assert_eq!(session.next(Reply::Done), end);
    assert_eq!(session.next(Reply::Rent { lamports_per_byte: 1 }), end);
    assert_eq!(session.outcome(), Some(Err(failure)));
}
