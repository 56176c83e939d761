//! The checks that the instructions make on their accounts and data, and the steps they share.
use vstd::prelude::*;

use crate::account::AccountState;
use crate::bytes::{le_u64, lemma_bytes_deep_view, lemma_le_u64_of_u64_le, read_u64_at, same_address, to_owned_bytes, u64_le, u64_to_le_bytes};
use crate::errors::{fail, EscrowError, ProgramError};
use crate::outside::{
    associated_token_program_address, associated_token_program_id, create_program_address,
    minimum_balance, mint_len, rent_minimum, spec_create_program_address, spec_try_find_program_address,
    system_program_address, system_program_id, token_account_len, token_program_address,
    token_program_id, try_find_program_address,
};
use crate::session::{Action, EscrowSigner, Step};
use crate::state::{lemma_layout_fields, Escrow, EscrowSnapshot};
use crate::ID;

verus! {

/// The number of bytes of the data of `make`: seed, receive and amount, eight bytes each.
pub const CREATE_IX_DATA_LEN: usize = 24;

/// Where a token account stores its balance: bytes 64 to 72, little-endian.
pub const TOKEN_AMOUNT_OFFSET: usize = 64;

/// The end of a token account's balance.
pub const TOKEN_AMOUNT_END: usize = 72;

/// The first seed of every escrow address: the bytes of `escrow`.
pub open spec fn escrow_seed() -> Seq<u8> {
    seq![101u8, 115, 99, 114, 111, 119]
}

/// The bytes of `escrow`, the first seed of every escrow address.
pub fn escrow_seed_bytes() -> (r: Vec<u8>)
    ensures
        r@ == escrow_seed(),
{
    let mut r: Vec<u8> = Vec::new();
    r.push(101u8);
    r.push(115u8);
    r.push(99u8);
    r.push(114u8);
    r.push(111u8);
    r.push(119u8);
    assert(r@ =~= escrow_seed());
    r
}

/// The seeds of the escrow of `maker` with `seed`, before the bump seed.
pub open spec fn escrow_seeds(maker: Seq<u8>, seed: u64) -> Seq<Seq<u8>> {
    seq![escrow_seed(), maker, u64_le(seed)]
}

/// The escrow of `maker` with `seed` is found from three seeds: the bytes of `escrow`, the
/// maker's address, and all eight bytes of the seed, least significant first, from which the
/// whole seed reads back. So two seeds give the same seed list only where they are equal.
pub proof fn lemma_escrow_seeds_hold_the_whole_seed(maker: Seq<u8>, seed: u64, other: u64)
    ensures
        escrow_seeds(maker, seed).len() == 3,
        escrow_seeds(maker, seed)[0] == seq![101u8, 115, 99, 114, 111, 119],
        escrow_seeds(maker, seed)[1] == maker,
        escrow_seeds(maker, seed)[2].len() == 8,
        le_u64(escrow_seeds(maker, seed)[2]) == seed,
        escrow_seeds(maker, seed) == escrow_seeds(maker, other) ==> seed == other,
{
    lemma_le_u64_of_u64_le(seed);
    lemma_le_u64_of_u64_le(other);
    if escrow_seeds(maker, seed) == escrow_seeds(maker, other) {
        assert(escrow_seeds(maker, seed)[2] == escrow_seeds(maker, other)[2]);
    }
}

/// The seeds of the escrow of `maker` with `seed`, before the bump seed.
pub fn escrow_seed_list(maker: &[u8; 32], seed: u64) -> (r: Vec<Vec<u8>>)
    ensures
        r.deep_view() == escrow_seeds(maker@, seed),
{
    let mut r: Vec<Vec<u8>> = Vec::new();
    r.push(escrow_seed_bytes());
    r.push(to_owned_bytes(maker));
    r.push(u64_to_le_bytes(seed));
    proof {
        lemma_bytes_deep_view(r@[0]);
        lemma_bytes_deep_view(r@[1]);
        lemma_bytes_deep_view(r@[2]);
    }
    assert(r.deep_view() =~= escrow_seeds(maker@, seed));
    r
}

/// The first failure of two checks made one after the other.
pub open spec fn followed_by(first: Result<(), ProgramError>, second: Result<(), ProgramError>) -> Result<(), ProgramError> {
    match first {
        Ok(_) => second,
        Err(e) => Err(e),
    }
}

/// The fields of the data of `make`.
#[derive(Clone, Copy, Debug, PartialEq, Eq, Structural)]
pub struct CreateInstructionData {
    pub seed: u64,
    pub receive: u64,
    pub amount: u64,
}

/// What the data of `make` says: exactly 24 bytes holding seed, receive and amount, the last two
/// not zero.
pub open spec fn create_ix_data(data: Seq<u8>) -> Result<CreateInstructionData, ProgramError> {
    if data.len() != 24 {
        fail(EscrowError::InvalidInstruction)
    } else {
        let seed = le_u64(data.subrange(0, 8));
        let receive = le_u64(data.subrange(8, 16));
        let amount = le_u64(data.subrange(16, 24));
        if receive == 0 || amount == 0 {
            fail(EscrowError::InvalidAmount)
        } else {
            Ok(CreateInstructionData { seed, receive, amount })
        }
    }
}

/// Reads the data of `make`. Fails with `InvalidInstruction` unless it is 24 bytes long, and
/// with `InvalidAmount` where receive or amount is zero.
pub fn parse_create_ix_data(data: &[u8]) -> (r: Result<CreateInstructionData, ProgramError>)
    ensures
        r == create_ix_data(data@),
{
    if data.len() != CREATE_IX_DATA_LEN {
        return Err(ProgramError::Custom(EscrowError::InvalidInstruction));
    }
    let seed = read_u64_le(&data[0..8])?;
    let receive = read_u64_le(&data[8..16])?;
    let amount = read_u64_le(&data[16..24])?;
    if receive == 0 || amount == 0 {
        return Err(ProgramError::Custom(EscrowError::InvalidAmount));
    }
    Ok(CreateInstructionData { seed, receive, amount })
}

/// Reads a little-endian `u64` from exactly eight bytes; fails with `InvalidInstruction` for any
/// other length.
pub fn read_u64_le(bytes: &[u8]) -> (r: Result<u64, ProgramError>)
    ensures
        bytes@.len() == 8 ==> r == Ok::<u64, ProgramError>(le_u64(bytes@)),
        bytes@.len() != 8 ==> r == fail::<u64>(EscrowError::InvalidInstruction),
{
    if bytes.len() != 8 {
        return Err(ProgramError::Custom(EscrowError::InvalidInstruction));
    }
    let v = read_u64_at(bytes, 0);
    assert(bytes@.subrange(0, 8) =~= bytes@);
    Ok(v)
}

} // verus!

verus! {

/// A one-byte seed.
pub fn single_byte(b: u8) -> (r: Vec<u8>)
    ensures
        r@ == seq![b],
{
    let mut r: Vec<u8> = Vec::new();
    r.push(b);
    assert(r@ =~= seq![b]);
    r
}

/// The account signed the transaction, else `MissingRequiredSignature`.
pub open spec fn signer_check(account: AccountState) -> Result<(), ProgramError> {
    if account.is_signer {
        Ok(())
    } else {
        fail(EscrowError::MissingRequiredSignature)
    }
}

/// The account is at `expected`, else `InvalidProgram`.
pub open spec fn program_check(account: AccountState, expected: Seq<u8>) -> Result<(), ProgramError> {
    if account.address@ == expected {
        Ok(())
    } else {
        fail(EscrowError::InvalidProgram)
    }
}

/// The account is owned by `owner`, else `InvalidOwner`.
pub open spec fn owner_check(account: AccountState, owner: Seq<u8>) -> Result<(), ProgramError> {
    if account.owner@ == owner {
        Ok(())
    } else {
        fail(EscrowError::InvalidOwner)
    }
}

/// The account holds `len` bytes of data, else `InvalidAccountData`.
pub open spec fn data_len_check(account: AccountState, len: nat) -> Result<(), ProgramError> {
    if account.data@.len() == len {
        Ok(())
    } else {
        fail(EscrowError::InvalidAccountData)
    }
}

/// The account is owned by `owner` and holds `len` bytes, checked in that order.
pub open spec fn program_account_check(account: AccountState, len: nat, owner: Seq<u8>) -> Result<(), ProgramError> {
    followed_by(owner_check(account, owner), data_len_check(account, len))
}

/// The account is a mint of `token_program`: owned by it and 82 bytes long.
pub open spec fn mint_account_check(mint: AccountState, token_program: AccountState) -> Result<(), ProgramError> {
    program_account_check(mint, 82, token_program.address@)
}

/// The account is a token account of `token_program`: owned by it and 165 bytes long.
pub open spec fn token_account_check(account: AccountState, token_program: AccountState) -> Result<(), ProgramError> {
    program_account_check(account, 165, token_program.address@)
}

/// `ata` is the associated token account address of `authority` for `mint` under the token
/// program `token_program`, else `InvalidAddress`.
pub open spec fn ata_address_check(ata: Seq<u8>, authority: Seq<u8>, mint: Seq<u8>, token_program: Seq<u8>) -> Result<(), ProgramError> {
    match spec_try_find_program_address(
        seq![authority, token_program, mint],
        associated_token_program_address(),
    ) {
        None => Err(ProgramError::NoViableBump),
        Some((expected, _)) => if expected@ == ata {
            Ok(())
        } else {
            fail(EscrowError::InvalidAddress)
        },
    }
}

/// `ata` is at the associated token account address of `authority` for `mint` and is a token
/// account.
pub open spec fn ata_account_check(ata: AccountState, authority: AccountState, mint: AccountState, token_program: AccountState) -> Result<(), ProgramError> {
    followed_by(
        ata_address_check(ata.address@, authority.address@, mint.address@, token_program.address@),
        token_account_check(ata, token_program),
    )
}

/// The account signed the transaction; fails with `MissingRequiredSignature` otherwise.
pub fn assert_signer(account: &AccountState) -> (r: Result<(), ProgramError>)
    ensures
        r == signer_check(*account),
{
    if !account.is_signer {
        return Err(ProgramError::Custom(EscrowError::MissingRequiredSignature));
    }
    Ok(())
}

/// The account is the program at `expected`; fails with `InvalidProgram` otherwise.
pub fn assert_program(account: &AccountState, expected: &[u8; 32]) -> (r: Result<(), ProgramError>)
    ensures
        r == program_check(*account, expected@),
{
    if !same_address(&account.address, expected) {
        return Err(ProgramError::Custom(EscrowError::InvalidProgram));
    }
    Ok(())
}

/// The account is the system program; fails with `InvalidProgram` otherwise.
pub fn assert_system_program(system_program: &AccountState) -> (r: Result<(), ProgramError>)
    ensures
        r == program_check(*system_program, system_program_address()),
{
    assert_program(system_program, &system_program_id())
}

/// The account is the token program; fails with `InvalidProgram` otherwise.
pub fn assert_token_program(token_program: &AccountState) -> (r: Result<(), ProgramError>)
    ensures
        r == program_check(*token_program, token_program_address()),
{
    assert_program(token_program, &token_program_id())
}

/// The account is owned by `owner`; fails with `InvalidOwner` otherwise.
pub fn assert_owned_by(account: &AccountState, owner: &[u8; 32]) -> (r: Result<(), ProgramError>)
    ensures
        r == owner_check(*account, owner@),
{
    if !same_address(&account.owner, owner) {
        return Err(ProgramError::Custom(EscrowError::InvalidOwner));
    }
    Ok(())
}

/// The account holds `expected_len` bytes; fails with `InvalidAccountData` otherwise.
pub fn assert_data_len(account: &AccountState, expected_len: usize) -> (r: Result<(), ProgramError>)
    ensures
        r == data_len_check(*account, expected_len as nat),
{
    if account.data.len() != expected_len {
        return Err(ProgramError::Custom(EscrowError::InvalidAccountData));
    }
    Ok(())
}

/// The account is owned by `owner` and holds `expected_len` bytes.
pub fn assert_program_account(account: &AccountState, expected_len: usize, owner: &[u8; 32]) -> (r: Result<(), ProgramError>)
    ensures
        r == program_account_check(*account, expected_len as nat, owner@),
{
    assert_owned_by(account, owner)?;
    assert_data_len(account, expected_len)
}

/// The account is a mint of `token_program`.
pub fn assert_mint_account(mint: &AccountState, token_program: &AccountState) -> (r: Result<(), ProgramError>)
    ensures
        r == mint_account_check(*mint, *token_program),
{
    assert_owned_by(mint, &token_program.address)?;
    assert_data_len(mint, mint_len())
}

/// The account is a token account of `token_program`.
pub fn assert_token_account(token_account: &AccountState, token_program: &AccountState) -> (r: Result<(), ProgramError>)
    ensures
        r == token_account_check(*token_account, *token_program),
{
    assert_owned_by(token_account, &token_program.address)?;
    assert_data_len(token_account, token_account_len())
}

/// `ata` is the associated token account address of `authority` for `mint`; fails with
/// `InvalidAddress` otherwise.
pub fn assert_ata_address(ata: &[u8; 32], authority: &[u8; 32], mint: &[u8; 32], token_program: &[u8; 32]) -> (r: Result<(), ProgramError>)
    ensures
        r == ata_address_check(ata@, authority@, mint@, token_program@),
{
    let mut seeds: Vec<Vec<u8>> = Vec::new();
    seeds.push(to_owned_bytes(authority));
    seeds.push(to_owned_bytes(token_program));
    seeds.push(to_owned_bytes(mint));
    proof {
        lemma_bytes_deep_view(seeds@[0]);
        lemma_bytes_deep_view(seeds@[1]);
        lemma_bytes_deep_view(seeds@[2]);
        assert(seeds.deep_view() =~= seq![authority@, token_program@, mint@]);
    }
    match try_find_program_address(&seeds, &associated_token_program_id()) {
        None => Err(ProgramError::NoViableBump),
        Some((expected, _)) => {
            if !same_address(&expected, ata) {
                return Err(ProgramError::Custom(EscrowError::InvalidAddress));
            }
            Ok(())
        },
    }
}

/// `ata` is at the associated token account address of `authority` for `mint` and is a token
/// account of `token_program`.
pub fn assert_ata_account(ata: &AccountState, authority: &AccountState, mint: &AccountState, token_program: &AccountState) -> (r: Result<(), ProgramError>)
    ensures
        r == ata_account_check(*ata, *authority, *mint, *token_program),
{
    assert_ata_address(&ata.address, &authority.address, &mint.address, &token_program.address)?;
    assert_token_account(ata, token_program)
}

/// The balance that a token account's data records: fails with `InvalidAccountData` where the
/// data is shorter than 72 bytes, else the little-endian integer at bytes 64 to 72.
pub open spec fn token_amount(data: Seq<u8>) -> Result<u64, ProgramError> {
    if data.len() < 72 {
        fail(EscrowError::InvalidAccountData)
    } else {
        Ok(le_u64(data.subrange(64, 72)))
    }
}

/// Reads a token account's balance from its data.
pub fn token_account_amount(data: &[u8]) -> (r: Result<u64, ProgramError>)
    ensures
        r == token_amount(data@),
{
    if data.len() < TOKEN_AMOUNT_END {
        return Err(ProgramError::Custom(EscrowError::InvalidAccountData));
    }
    Ok(read_u64_at(data, TOKEN_AMOUNT_OFFSET))
}

} // verus!

verus! {

/// What validating an escrow account gives: its data must hold a state (113 bytes) that
/// records `maker` and `mint_a` (and `mint_b` where one is given), and the account must sit at
/// the program-derived address of that maker, the recorded seed and the recorded bump.
pub open spec fn escrow_validation(
    escrow: AccountState,
    maker: AccountState,
    mint_a: AccountState,
    mint_b: Option<AccountState>,
) -> Result<EscrowSnapshot, ProgramError> {
    let data = escrow.data@;
    if data.len() != 113 {
        fail(EscrowError::InvalidAccountData)
    } else if data.subrange(8, 40) != maker.address@ || data.subrange(40, 72) != mint_a.address@ {
        fail(EscrowError::InvalidEscrowState)
    } else if (match mint_b {
        Some(b) => data.subrange(72, 104) != b.address@,
        None => false,
    }) {
        fail(EscrowError::InvalidEscrowState)
    } else {
        let seed = le_u64(data.subrange(0, 8));
        let bump = data[112];
        match spec_create_program_address(escrow_seeds(maker.address@, seed).push(seq![bump]), ID@) {
            None => fail(EscrowError::InvalidAddress),
            Some(expected) => if expected@ == escrow.address@ {
                Ok(EscrowSnapshot { seed, receive: le_u64(data.subrange(104, 112)), bump })
            } else {
                fail(EscrowError::InvalidAddress)
            },
        }
    }
}

/// Reads and validates an escrow account for `maker`, `mint_a` and, where given, `mint_b`; see
/// [`escrow_validation`].
pub fn load_and_validate_escrow(
    escrow_account: &AccountState,
    maker: &AccountState,
    mint_a: &AccountState,
    mint_b: Option<&AccountState>,
) -> (r: Result<EscrowSnapshot, ProgramError>)
    ensures
        r == escrow_validation(
            *escrow_account,
            *maker,
            *mint_a,
            match mint_b {
                Some(b) => Some(*b),
                None => None,
            },
        ),
{
    let escrow = Escrow::load(escrow_account.data.as_slice())?;
    proof {
        lemma_layout_fields(escrow);
        lemma_le_u64_of_u64_le(escrow.seed);
        lemma_le_u64_of_u64_le(escrow.receive);
    }
    if !same_address(&escrow.maker, &maker.address) || !same_address(&escrow.mint_a, &mint_a.address) {
        return Err(ProgramError::Custom(EscrowError::InvalidEscrowState));
    }
    match mint_b {
        Some(mint_b_account) => {
            if !same_address(&escrow.mint_b, &mint_b_account.address) {
                return Err(ProgramError::Custom(EscrowError::InvalidEscrowState));
            }
        },
        None => {},
    }
    let mut seeds = escrow_seed_list(&maker.address, escrow.seed);
    seeds.push(single_byte(escrow.bump[0]));
    proof {
        lemma_bytes_deep_view(seeds@[3]);
        assert(seeds.deep_view() =~= escrow_seeds(maker.address@, escrow.seed).push(seq![escrow.bump@[0]]));
    }
    let expected_escrow = match create_program_address(&seeds, &ID) {
        Some(address) => address,
        None => {
            return Err(ProgramError::Custom(EscrowError::InvalidAddress));
        },
    };
    if !same_address(&expected_escrow, &escrow_account.address) {
        return Err(ProgramError::Custom(EscrowError::InvalidAddress));
    }
    Ok(EscrowSnapshot { seed: escrow.seed, receive: escrow.receive, bump: escrow.bump[0] })
}

} // verus!

verus! {

/// Asks for the creation of the associated token account `ata` of `owner` for `mint`.
pub fn init_ata(
    ata: usize,
    mint: usize,
    payer: usize,
    owner: usize,
    system_program: usize,
    token_program: usize,
) -> (a: Action)
    ensures
        a == (Action::CreateAta { ata, mint, payer, owner, system_program, token_program }),
{
    Action::CreateAta { ata, mint, payer, owner, system_program, token_program }
}

/// The step that makes sure the account at `ata` is the associated token account of `owner` for
/// `mint`, creating it where it holds no data yet.
pub open spec fn ensure_ata_step(
    accounts: Seq<AccountState>,
    ata: usize,
    mint: usize,
    payer: usize,
    owner: usize,
    system_program: usize,
    token_program: usize,
) -> Step {
    Step::EnsureAta {
        ata,
        mint,
        payer,
        owner,
        system_program,
        token_program,
        address_check: ata_address_check(
            accounts[ata as int].address@,
            accounts[owner as int].address@,
            accounts[mint as int].address@,
            accounts[token_program as int].address@,
        ),
        token_program_address: accounts[token_program as int].address,
    }
}

/// The step that makes sure `ata` is the associated token account of `owner` for `mint`,
/// creating it where it holds no data yet; see [`ensure_ata_step`].
pub fn init_ata_if_needed(
    accounts: &Vec<AccountState>,
    ata: usize,
    mint: usize,
    payer: usize,
    owner: usize,
    system_program: usize,
    token_program: usize,
) -> (s: Step)
    requires
        ata < accounts@.len(),
        mint < accounts@.len(),
        owner < accounts@.len(),
        token_program < accounts@.len(),
    ensures
        s == ensure_ata_step(accounts@, ata, mint, payer, owner, system_program, token_program),
{
    let address_check = assert_ata_address(
        &accounts[ata].address,
        &accounts[owner].address,
        &accounts[mint].address,
        &accounts[token_program].address,
    );
    Step::EnsureAta {
        ata,
        mint,
        payer,
        owner,
        system_program,
        token_program,
        address_check,
        token_program_address: accounts[token_program].address,
    }
}

/// The request that creates the program account `account`: `space` bytes owned by this program,
/// funded by `payer` with the rent-exempt minimum at `lamports_per_byte`, the new account
/// signing with `signer`; `InvalidArgument` where that minimum cannot be computed.
pub open spec fn creation_request(
    payer: usize,
    account: usize,
    signer: EscrowSigner,
    space: usize,
    lamports_per_byte: u64,
) -> Result<Action, ProgramError> {
    match rent_minimum(lamports_per_byte, space) {
        Some(lamports) => Ok(Action::CreateProgramAccount { payer, account, lamports, space, owner: ID, signer }),
        None => Err(ProgramError::InvalidArgument),
    }
}

/// Asks for the creation of the program account `account`, `space` bytes owned by this
/// program, funded by `payer` with the rent-exempt minimum at the rate `lamports_per_byte` that
/// the rent sysvar gives, the new account signing with `signer`; see [`creation_request`].
pub fn create_program_account(
    payer: usize,
    account: usize,
    signer: EscrowSigner,
    space: usize,
    lamports_per_byte: u64,
) -> (r: Result<Action, ProgramError>)
    ensures
        r == (match rent_minimum(lamports_per_byte, space) {
            Some(lamports) => Ok(Action::CreateProgramAccount { payer, account, lamports, space, owner: ID, signer }),
            None => Err(ProgramError::InvalidArgument),
        }),
        r == creation_request(payer, account, signer, space, lamports_per_byte),
{
    match minimum_balance(lamports_per_byte, space) {
        Some(lamports) => Ok(Action::CreateProgramAccount { payer, account, lamports, space, owner: ID, signer }),
        None => Err(ProgramError::InvalidArgument),
    }
}

/// The steps that close the escrow account `account` into `destination`: mark its first byte
/// `0xff`, add its balance to the destination's, shrink its data to one byte and close it.
pub open spec fn close_steps(account: usize, destination: usize) -> Seq<Step> {
    seq![
        Step::Perform { action: Action::WriteByte { account, offset: 0, value: 0xffu8 } },
        Step::CreditLamports { from: account, to: destination },
        Step::Perform { action: Action::Resize { account, len: 1 } },
        Step::Perform { action: Action::Close { account } },
    ]
}

/// Appends to `plan` the steps that close the escrow account `account` into `destination`; see
/// [`close_steps`].
pub fn close_program_account(plan: &mut Vec<Step>, account: usize, destination: usize)
    ensures
        final(plan)@ == old(plan)@ + close_steps(account, destination),
{
    plan.push(Step::Perform { action: Action::WriteByte { account, offset: 0, value: 0xffu8 } });
    plan.push(Step::CreditLamports { from: account, to: destination });
    plan.push(Step::Perform { action: Action::Resize { account, len: 1 } });
    plan.push(Step::Perform { action: Action::Close { account } });
    assert(plan@ =~= old(plan)@ + close_steps(account, destination));
}

/// Whether an executable plan `r` is the plan `p` that a specification describes.
pub open spec fn is_plan(r: Result<Vec<Step>, ProgramError>, p: Result<Seq<Step>, ProgramError>) -> bool {
    match r {
        Ok(steps) => p == Ok::<Seq<Step>, ProgramError>(steps@),
        Err(e) => p == Err::<Seq<Step>, ProgramError>(e),
    }
}

} // verus!
