//! `make`: open an escrow that holds `amount` of `mint_a` and asks `receive` of `mint_b`.
use vstd::prelude::*;

use crate::account::AccountState;
use crate::bytes::{le_u64, lemma_le_u64_of_u64_le, same_address};
use crate::errors::{fail, EscrowError, ProgramError};
use crate::instructions::helpers::{
    assert_ata_account, assert_ata_address, assert_mint_account, assert_signer,
    assert_system_program, assert_token_program, ata_account_check, ata_address_check,
    create_ix_data, escrow_seed_list, escrow_seeds, escrow_validation, lemma_escrow_seeds_hold_the_whole_seed,
    init_ata, is_plan, mint_account_check, parse_create_ix_data, program_check, signer_check,
    followed_by, CreateInstructionData,
};
use crate::outside::{
    rent_minimum, spec_create_program_address, spec_try_find_program_address, system_program_address,
    token_program_address, try_find_program_address,
};
use crate::session::{advance, Action, EscrowSigner, Reply, SessionView, Step};
use crate::state::{lemma_layout_fields, Escrow, EscrowSnapshot};
use crate::ID;

verus! {

/// The checks of `make` on its accounts, in order: the maker signed; the system and token
/// programs are the real ones; both mints are mints of the token program; the maker's account
/// of `mint_a` is its associated token account; the vault is at the escrow's associated token
/// account address for `mint_a`.
pub open spec fn make_checks(a: Seq<AccountState>) -> Result<(), ProgramError> {
    followed_by(
        signer_check(a[0]),
        followed_by(
            program_check(a[6], system_program_address()),
            followed_by(
                program_check(a[7], token_program_address()),
                followed_by(
                    mint_account_check(a[2], a[7]),
                    followed_by(
                        mint_account_check(a[3], a[7]),
                        followed_by(
                            ata_account_check(a[4], a[0], a[2], a[7]),
                            ata_address_check(a[5].address@, a[1].address@, a[2].address@, a[7].address@),
                        ),
                    ),
                ),
            ),
        ),
    )
}

/// The state that `make` stores for `ix`, the maker `a[0]`, the mints `a[2]` and `a[3]` and the
/// escrow's bump seed.
pub open spec fn made_escrow(a: Seq<AccountState>, ix: CreateInstructionData, bump: u8) -> Escrow {
    Escrow {
        seed: ix.seed,
        maker: a[0].address,
        mint_a: a[2].address,
        mint_b: a[3].address,
        receive: ix.receive,
        bump: [bump],
    }
}

/// What `make` does once validated: create the escrow account (113 bytes, owned by the
/// program, funded with the rent-exempt minimum) and the vault, store the state, and move `amount` of `mint_a` from the maker's
/// account into the vault.
pub open spec fn make_steps(a: Seq<AccountState>, ix: CreateInstructionData, bump: u8) -> Seq<Step> {
    let signer = EscrowSigner { maker: a[0].address, seed: ix.seed, bump };
    seq![
        Step::CreateProgramAccount { payer: 0, account: 1, space: 113, signer },
        Step::Perform {
            action: Action::CreateAta {
                ata: 5,
                mint: 2,
                payer: 0,
                owner: 1,
                system_program: 6,
                token_program: 7,
            },
        },
        Step::Perform { action: Action::WriteEscrow { account: 1, state: made_escrow(a, ix, bump) } },
        Step::Perform {
            action: Action::Transfer { from: 4, to: 5, authority: 0, amount: ix.amount, signer: None },
        },
    ]
}

/// The plan of `make` for the accounts `maker, escrow, mint_a, mint_b, maker_ata_a, vault,
/// system_program, token_program` (more are ignored) and the data after the discriminator: the
/// data is read first, then the accounts are counted and checked, then the escrow must sit at
/// the address found for `escrow`, the maker and the seed, whose bump seed it records.
pub open spec fn make_plan(a: Seq<AccountState>, data: Seq<u8>) -> Result<Seq<Step>, ProgramError> {
    match create_ix_data(data) {
        Err(e) => Err(e),
        Ok(ix) => if a.len() < 8 {
            Err(ProgramError::NotEnoughAccountKeys)
        } else {
            match make_checks(a) {
                Err(e) => Err(e),
                Ok(_) => match spec_try_find_program_address(escrow_seeds(a[0].address@, ix.seed), ID@) {
                    None => Err(ProgramError::NoViableBump),
                    Some((expected, bump)) => if expected@ != a[1].address@ {
                        fail(EscrowError::InvalidAddress)
                    } else {
                        Ok(make_steps(a, ix, bump))
                    },
                },
            }
        },
    }
}

/// Validates `make` and gives its steps; see [`make_plan`]. The state it stores is one that
/// `take` and `refund` accept: in the escrow account, with the maker and mints it records, it
/// passes their validation and gives back the seed, receive and bump it was made with.
pub fn make(accounts: &Vec<AccountState>, data: &[u8]) -> (r: Result<Vec<Step>, ProgramError>)
    ensures
        is_plan(r, make_plan(accounts@, data@)),
        r matches Ok(steps) ==> ({
            let a = accounts@;
            let ix = create_ix_data(data@)->Ok_0;
            let e = steps@[2]->Perform_action->WriteEscrow_state;
            forall|escrow: AccountState|
                escrow.address == a[1].address && escrow.data@ == e.layout() ==> {
                    &&& escrow_validation(escrow, a[0], a[2], Some(a[3])) == Ok::<EscrowSnapshot, ProgramError>(
                        EscrowSnapshot { seed: ix.seed, receive: ix.receive, bump: e.bump@[0] },
                    )
                    &&& escrow_validation(escrow, a[0], a[2], None) == Ok::<EscrowSnapshot, ProgramError>(
                        EscrowSnapshot { seed: ix.seed, receive: ix.receive, bump: e.bump@[0] },
                    )
                }
        }),
        r matches Ok(steps) ==> ({
            &&& steps@[0] is CreateProgramAccount
            &&& spec_create_program_address(steps@[0]->CreateProgramAccount_signer.seed_list(), ID@) matches Some(
                address,
            )
            &&& address@ == accounts@[1].address@
        }),
{
    let ix = parse_create_ix_data(data)?;
    if accounts.len() < 8 {
        return Err(ProgramError::NotEnoughAccountKeys);
    }
    let maker = &accounts[0];
    let escrow = &accounts[1];
    let mint_a = &accounts[2];
    let mint_b = &accounts[3];
    let maker_ata_a = &accounts[4];
    let vault = &accounts[5];
    let system_program = &accounts[6];
    let token_program = &accounts[7];

    assert_signer(maker)?;
    assert_system_program(system_program)?;
    assert_token_program(token_program)?;

    assert_mint_account(mint_a, token_program)?;
    assert_mint_account(mint_b, token_program)?;
    assert_ata_account(maker_ata_a, maker, mint_a, token_program)?;
    assert_ata_address(&vault.address, &escrow.address, &mint_a.address, &token_program.address)?;

    let seeds = escrow_seed_list(&maker.address, ix.seed);
    let (expected_escrow, bump) = match try_find_program_address(&seeds, &ID) {
        Some(found) => found,
        None => {
            return Err(ProgramError::NoViableBump);
        },
    };
    if !same_address(&expected_escrow, &escrow.address) {
        return Err(ProgramError::Custom(EscrowError::InvalidAddress));
    }

    let signer = EscrowSigner { maker: maker.address, seed: ix.seed, bump };
    let mut state = Escrow {
        seed: 0,
        maker: [0u8; 32],
        mint_a: [0u8; 32],
        mint_b: [0u8; 32],
        receive: 0,
        bump: [0u8],
    };
    state.init(ix.seed, maker.address, mint_a.address, mint_b.address, ix.receive, bump);
    let mut plan: Vec<Step> = Vec::new();
    plan.push(Step::CreateProgramAccount { payer: 0, account: 1, space: Escrow::LEN, signer });
    plan.push(Step::Perform { action: init_ata(5, 2, 0, 1, 6, 7) });
    plan.push(Step::Perform { action: Action::WriteEscrow { account: 1, state } });
    plan.push(
        Step::Perform {
            action: Action::Transfer { from: 4, to: 5, authority: 0, amount: ix.amount, signer: None },
        },
    );
    proof {
        let a = accounts@;
        assert(state.bump =~= [bump]);
        assert(state == made_escrow(a, ix, bump));
        assert(plan@ =~= make_steps(a, ix, bump));
        lemma_layout_fields(state);
        lemma_le_u64_of_u64_le(ix.seed);
        lemma_le_u64_of_u64_le(ix.receive);
        assert forall|e2: AccountState|
            e2.address == a[1].address && e2.data@ == state.layout() implies {
                &&& escrow_validation(e2, a[0], a[2], Some(a[3])) == Ok::<EscrowSnapshot, ProgramError>(
                    EscrowSnapshot { seed: ix.seed, receive: ix.receive, bump: state.bump@[0] },
                )
                &&& escrow_validation(e2, a[0], a[2], None) == Ok::<EscrowSnapshot, ProgramError>(
                    EscrowSnapshot { seed: ix.seed, receive: ix.receive, bump: state.bump@[0] },
                )
            } by {
            assert(state.bump@[0] == bump);
            assert(escrow_seeds(a[0].address@, ix.seed) == seeds.deep_view());
        }
        assert(signer.seed_list() == seeds.deep_view().push(seq![bump]));
    }
    Ok(plan)
}

} // verus!

verus! {

/// `make` funds the escrow account with the rent-exempt minimum for its 113 bytes: its first
/// move asks for the rent sysvar's rate, and at the rate reported it asks for the creation of
/// the escrow account with exactly that minimum, owned by this program and signed with the
/// escrow's seeds, or ends with `InvalidArgument` where the minimum cannot be computed.
pub proof fn lemma_make_funds_the_escrow(
    a: Seq<AccountState>,
    ix: CreateInstructionData,
    bump: u8,
    v: SessionView,
    lamports_per_byte: u64,
)
    requires
        v.steps == make_steps(a, ix, bump),
        v.pc == 0,
        v.stage == 0,
        v.outcome is None,
    ensures
        advance(v, Reply::Done).1 == Action::ReadRent,
        advance(advance(v, Reply::Done).0, Reply::Rent { lamports_per_byte }).1 == (match rent_minimum(
            lamports_per_byte,
            113,
        ) {
            Some(lamports) => Action::CreateProgramAccount {
                payer: 0,
                account: 1,
                lamports,
                space: 113,
                owner: ID,
                signer: EscrowSigner { maker: a[0].address, seed: ix.seed, bump },
            },
            None => Action::Finish { result: Err(ProgramError::InvalidArgument) },
        }),
{
}

/// The result of `make` is the result of its last request, the transfer of `amount` from the
/// maker's account into the vault: where the runtime reports that it failed (the maker holds
/// too little, say), `make` ends with that error; where it succeeded, `make` succeeds.
pub proof fn lemma_make_returns_the_transfer(
    a: Seq<AccountState>,
    ix: CreateInstructionData,
    bump: u8,
    v: SessionView,
    e: ProgramError,
)
    requires
        v.steps == make_steps(a, ix, bump),
        v.pc == 3,
        v.stage == 0,
        v.outcome is None,
    ensures
        ({
            let transfer = advance(v, Reply::Done);
            &&& transfer.1 == (Action::Transfer { from: 4, to: 5, authority: 0, amount: ix.amount, signer: None })
            &&& advance(transfer.0, Reply::Failed(e)).1 == (Action::Finish { result: Err::<(), ProgramError>(e) })
            &&& advance(transfer.0, Reply::Done).1 == (Action::Finish { result: Ok::<(), ProgramError>(()) })
        }),
{
}

/// `make` puts the escrow at the address found for the whole 64-bit seed of its data: the seeds
/// searched are the bytes of `escrow`, the maker's address and all eight bytes of the seed (the
/// first eight bytes of the data, read back whole), and the escrow account passed is the address
/// found; the account is created signed with those seeds and the bump found.
pub proof fn lemma_make_escrow_at_the_seeds_address(a: Seq<AccountState>, data: Seq<u8>)
    requires
        make_plan(a, data) is Ok,
    ensures
        ({
            let seed = le_u64(data.subrange(0, 8));
            let seeds = escrow_seeds(a[0].address@, seed);
            &&& seeds.len() == 3
            &&& seeds[0] == seq![101u8, 115, 99, 114, 111, 119]
            &&& seeds[1] == a[0].address@
            &&& seeds[2].len() == 8
            &&& le_u64(seeds[2]) == seed
            &&& spec_try_find_program_address(seeds, ID@) matches Some((address, bump))
            &&& address@ == a[1].address@
            &&& make_plan(a, data)->Ok_0[0] == (Step::CreateProgramAccount {
                payer: 0,
                account: 1,
                space: 113,
                signer: EscrowSigner { maker: a[0].address, seed, bump },
            })
        }),
{
    let seed = le_u64(data.subrange(0, 8));
    lemma_escrow_seeds_hold_the_whole_seed(a[0].address@, seed, seed);
}

} // verus!
