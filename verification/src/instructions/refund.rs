//! `refund`: the maker takes the vault back and closes the escrow.
use vstd::prelude::*;

use crate::account::AccountState;
use crate::errors::ProgramError;
use crate::instructions::helpers::{
    assert_ata_account, assert_mint_account, assert_program_account, assert_signer,
    assert_system_program, assert_token_program, ata_account_check, ata_address_check, close_program_account,
    close_steps, ensure_ata_step, escrow_validation, init_ata_if_needed, is_plan,
    load_and_validate_escrow, mint_account_check, program_account_check, program_check,
    signer_check, followed_by,
};
use crate::instructions::take::escrow_signer;
use crate::outside::{spec_create_program_address, system_program_address, token_program_address};
use crate::session::{advance, Action, EscrowSigner, Reply, SessionView, Step};
use crate::state::{Escrow, EscrowSnapshot};
use crate::ID;

verus! {

/// The checks of `refund` on its accounts, in order: the maker signed; the system and token
/// programs are the real ones; the escrow is a 113-byte account of this program; `mint_a` is a
/// mint of the token program; the vault is the escrow's associated token account of `mint_a`.
pub open spec fn refund_checks(a: Seq<AccountState>) -> Result<(), ProgramError> {
    followed_by(
        signer_check(a[0]),
        followed_by(
            program_check(a[5], system_program_address()),
            followed_by(
                program_check(a[6], token_program_address()),
                followed_by(
                    program_account_check(a[1], 113, ID@),
                    followed_by(mint_account_check(a[2], a[6]), ata_account_check(a[3], a[1], a[2], a[6])),
                ),
            ),
        ),
    )
}

/// What `refund` does once validated: make sure the maker's account of `mint_a` exists, read
/// the vault's balance, move it all to the maker, close the vault and the escrow into the maker.
pub open spec fn refund_steps(a: Seq<AccountState>, snapshot: EscrowSnapshot) -> Seq<Step> {
    let signer = escrow_signer(a[0], snapshot);
    seq![
        ensure_ata_step(a, 4, 2, 0, 0, 5, 6),
        Step::LoadVaultAmount { vault: 3 },
        Step::TransferVault { from: 3, to: 4, authority: 1, signer },
        Step::Perform {
            action: Action::CloseTokenAccount { account: 3, destination: 0, authority: 1, signer },
        },
    ] + close_steps(1, 0)
}

/// The plan of `refund` for the accounts `maker, escrow, mint_a, vault, maker_ata_a,
/// system_program, token_program` (more are ignored): count, check, then validate the escrow
/// against the maker and `mint_a`.
pub open spec fn refund_plan(a: Seq<AccountState>) -> Result<Seq<Step>, ProgramError> {
    if a.len() < 7 {
        Err(ProgramError::NotEnoughAccountKeys)
    } else {
        match refund_checks(a) {
            Err(e) => Err(e),
            Ok(_) => match escrow_validation(a[1], a[0], a[2], None) {
                Err(e) => Err(e),
                Ok(snapshot) => Ok(refund_steps(a, snapshot)),
            },
        }
    }
}

/// Validates `refund` and gives its steps; see [`refund_plan`].
pub fn refund(accounts: &Vec<AccountState>) -> (r: Result<Vec<Step>, ProgramError>)
    ensures
        is_plan(r, refund_plan(accounts@)),
{
    if accounts.len() < 7 {
        return Err(ProgramError::NotEnoughAccountKeys);
    }
    let maker = &accounts[0];
    let escrow = &accounts[1];
    let mint_a = &accounts[2];
    let vault = &accounts[3];
    let system_program = &accounts[5];
    let token_program = &accounts[6];

    assert_signer(maker)?;
    assert_system_program(system_program)?;
    assert_token_program(token_program)?;

    assert_program_account(escrow, Escrow::LEN, &ID)?;
    assert_mint_account(mint_a, token_program)?;
    assert_ata_account(vault, escrow, mint_a, token_program)?;

    // Only the maker and `mint_a` are checked: a refund does not involve `mint_b`.
    let escrow_state = load_and_validate_escrow(escrow, maker, mint_a, None)?;

    let signer = EscrowSigner { maker: maker.address, seed: escrow_state.seed, bump: escrow_state.bump };
    let mut plan: Vec<Step> = Vec::new();
    plan.push(init_ata_if_needed(accounts, 4, 2, 0, 0, 5, 6));
    plan.push(Step::LoadVaultAmount { vault: 3 });
    plan.push(Step::TransferVault { from: 3, to: 4, authority: 1, signer });
    plan.push(
        Step::Perform {
            action: Action::CloseTokenAccount { account: 3, destination: 0, authority: 1, signer },
        },
    );
    close_program_account(&mut plan, 1, 0);
    assert(plan@ =~= refund_steps(accounts@, escrow_state));
    Ok(plan)
}

} // verus!

verus! {

/// What a `refund` that goes ahead guarantees: it is signed by the maker that the escrow
/// records, for the `mint_a` it records; the vault's whole balance goes to the maker's account
/// of `mint_a`; then the vault closes into the maker, and so does the escrow.
pub proof fn lemma_refund_guarantees(a: Seq<AccountState>)
    requires
        refund_plan(a) is Ok,
    ensures
        ({
            let steps = refund_plan(a)->Ok_0;
            let data = a[1].data@;
            &&& a[0].is_signer
            &&& data.len() == 113
            &&& data.subrange(8, 40) == a[0].address@
            &&& data.subrange(40, 72) == a[2].address@
            &&& steps[1] == (Step::LoadVaultAmount { vault: 3 })
            &&& steps[2] is TransferVault
            &&& steps[2]->TransferVault_from == 3
            &&& steps[2]->TransferVault_to == 4
            &&& steps[3] is Perform
            &&& steps[3]->Perform_action is CloseTokenAccount
            &&& steps[3]->Perform_action->CloseTokenAccount_account == 3
            &&& steps[3]->Perform_action->CloseTokenAccount_destination == 0
            &&& steps.subrange(4, 8) == close_steps(1, 0)
        }),
{
    let steps = refund_plan(a)->Ok_0;
    assert(steps.subrange(4, 8) =~= close_steps(1, 0));
}

/// `refund` does not depend on the state of the maker's account of `mint_a`: whatever account
/// sits at its address (a token account, or nothing yet), the plan is the same, so the maker can
/// take the vault back even after closing that account.
pub proof fn lemma_refund_ignores_the_makers_account(a: Seq<AccountState>, maker_ata_a: AccountState)
    requires
        a.len() >= 7,
        maker_ata_a.address == a[4].address,
    ensures
        refund_plan(a.update(4, maker_ata_a)) == refund_plan(a),
{
    let b = a.update(4, maker_ata_a);
    assert(b[0] == a[0] && b[1] == a[1] && b[2] == a[2] && b[3] == a[3] && b[5] == a[5] && b[6] == a[6]);
    assert(refund_checks(b) == refund_checks(a));
    if let Ok(snapshot) = escrow_validation(a[1], a[0], a[2], None) {
        assert(refund_steps(b, snapshot) =~= refund_steps(a, snapshot));
    }
}

/// Where the maker's account of `mint_a` is missing (its associated token account address holds
/// no data), `refund` first creates it for the maker, paid by the maker: after reading it, the
/// session asks for `CreateAta` of account 4 for `mint_a`.
pub proof fn lemma_refund_creates_the_makers_account(a: Seq<AccountState>, v: SessionView, maker_ata_a: AccountState)
    requires
        refund_plan(a) is Ok,
        v.steps == refund_plan(a)->Ok_0,
        v.pc == 0,
        v.stage == 0,
        v.outcome is None,
        ata_address_check(a[4].address@, a[0].address@, a[2].address@, a[6].address@) is Ok,
        maker_ata_a.data@.len() == 0,
    ensures
        advance(v, Reply::Done).1 == (Action::ReadAccount { index: 4 }),
        advance(advance(v, Reply::Done).0, Reply::Account(maker_ata_a)).1 == (Action::CreateAta {
            ata: 4,
            mint: 2,
            payer: 0,
            owner: 0,
            system_program: 5,
            token_program: 6,
        }),
{
}

/// `refund` moves and closes the vault signed as the escrow: its signer is the maker and the
/// whole seed and bump recorded in the escrow account, and those seeds derive the escrow's own
/// address, the authority of the vault.
pub proof fn lemma_refund_signs_as_escrow(a: Seq<AccountState>)
    requires
        refund_plan(a) is Ok,
    ensures
        ({
            let steps = refund_plan(a)->Ok_0;
            let signer = steps[2]->TransferVault_signer;
            &&& steps[2] is TransferVault
            &&& steps[2]->TransferVault_authority == 1
            &&& steps[3]->Perform_action->CloseTokenAccount_signer == signer
            &&& signer.maker == a[0].address
            &&& signer.seed == crate::bytes::le_u64(a[1].data@.subrange(0, 8))
            &&& signer.bump == a[1].data@[112]
            &&& spec_create_program_address(signer.seed_list(), ID@) matches Some(address)
                && address@ == a[1].address@
        }),
{
}

} // verus!
