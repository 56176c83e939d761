//! `take`: the taker pays `receive` of `mint_b` to the maker and receives the vault.
use vstd::prelude::*;

use crate::account::AccountState;
use crate::errors::ProgramError;
use crate::instructions::helpers::{
    assert_ata_account, assert_mint_account, assert_program_account, assert_signer,
    assert_system_program, assert_token_program, ata_account_check, close_program_account,
    ata_address_check, close_steps, ensure_ata_step, escrow_validation, init_ata_if_needed, is_plan,
    load_and_validate_escrow, mint_account_check, program_account_check, program_check,
    signer_check, followed_by,
};
use crate::outside::{spec_create_program_address, system_program_address, token_program_address};
use crate::session::{advance, Action, EscrowSigner, Reply, SessionView, Step};
use crate::state::{Escrow, EscrowSnapshot};
use crate::ID;

verus! {

/// The checks of `take` on its accounts, in order: the taker signed; the system and token
/// programs are the real ones; the escrow is a 113-byte account of this program; both mints are
/// mints of the token program; the vault is the escrow's associated token account of `mint_a`;
/// the taker's account of `mint_b` is its associated token account.
pub open spec fn take_checks(a: Seq<AccountState>) -> Result<(), ProgramError> {
    followed_by(
        signer_check(a[0]),
        followed_by(
            program_check(a[9], system_program_address()),
            followed_by(
                program_check(a[10], token_program_address()),
                followed_by(
                    program_account_check(a[2], 113, ID@),
                    followed_by(
                        mint_account_check(a[3], a[10]),
                        followed_by(
                            mint_account_check(a[4], a[10]),
                            followed_by(
                                ata_account_check(a[5], a[2], a[3], a[10]),
                                ata_account_check(a[7], a[0], a[4], a[10]),
                            ),
                        ),
                    ),
                ),
            ),
        ),
    )
}

/// The escrow's signing seeds, from the maker's address and the validated state.
pub open spec fn escrow_signer(maker: AccountState, snapshot: EscrowSnapshot) -> EscrowSigner {
    EscrowSigner { maker: maker.address, seed: snapshot.seed, bump: snapshot.bump }
}

/// What `take` does once validated: make sure the taker's account of `mint_a` and the maker's
/// account of `mint_b` exist (the taker pays for either), read the vault's balance, pay
/// `receive` of `mint_b` from the taker to the maker, only then move the whole vault to the
/// taker, close the vault and the escrow into the maker.
pub open spec fn take_steps(a: Seq<AccountState>, snapshot: EscrowSnapshot) -> Seq<Step> {
    let signer = escrow_signer(a[1], snapshot);
    seq![
        ensure_ata_step(a, 6, 3, 0, 0, 9, 10),
        ensure_ata_step(a, 8, 4, 0, 1, 9, 10),
        Step::LoadVaultAmount { vault: 5 },
        Step::Perform {
            action: Action::Transfer { from: 7, to: 8, authority: 0, amount: snapshot.receive, signer: None },
        },
        Step::TransferVault { from: 5, to: 6, authority: 2, signer },
        Step::Perform {
            action: Action::CloseTokenAccount { account: 5, destination: 1, authority: 2, signer },
        },
    ] + close_steps(2, 1)
}

/// The plan of `take` for the accounts `taker, maker, escrow, mint_a, mint_b, vault,
/// taker_ata_a, taker_ata_b, maker_ata_b, system_program, token_program` (more are ignored):
/// count, check, then validate the escrow against the maker and both mints.
pub open spec fn take_plan(a: Seq<AccountState>) -> Result<Seq<Step>, ProgramError> {
    if a.len() < 11 {
        Err(ProgramError::NotEnoughAccountKeys)
    } else {
        match take_checks(a) {
            Err(e) => Err(e),
            Ok(_) => match escrow_validation(a[2], a[1], a[3], Some(a[4])) {
                Err(e) => Err(e),
                Ok(snapshot) => Ok(take_steps(a, snapshot)),
            },
        }
    }
}

/// Validates `take` and gives its steps; see [`take_plan`].
pub fn take(accounts: &Vec<AccountState>) -> (r: Result<Vec<Step>, ProgramError>)
    ensures
        is_plan(r, take_plan(accounts@)),
{
    if accounts.len() < 11 {
        return Err(ProgramError::NotEnoughAccountKeys);
    }
    let taker = &accounts[0];
    let maker = &accounts[1];
    let escrow = &accounts[2];
    let mint_a = &accounts[3];
    let mint_b = &accounts[4];
    let vault = &accounts[5];
    let taker_ata_b = &accounts[7];
    let system_program = &accounts[9];
    let token_program = &accounts[10];

    assert_signer(taker)?;
    assert_system_program(system_program)?;
    assert_token_program(token_program)?;

    assert_program_account(escrow, Escrow::LEN, &ID)?;
    assert_mint_account(mint_a, token_program)?;
    assert_mint_account(mint_b, token_program)?;
    assert_ata_account(vault, escrow, mint_a, token_program)?;
    assert_ata_account(taker_ata_b, taker, mint_b, token_program)?;

    let escrow_state = load_and_validate_escrow(escrow, maker, mint_a, Some(mint_b))?;

    let signer = EscrowSigner { maker: maker.address, seed: escrow_state.seed, bump: escrow_state.bump };
    let mut plan: Vec<Step> = Vec::new();
    plan.push(init_ata_if_needed(accounts, 6, 3, 0, 0, 9, 10));
    plan.push(init_ata_if_needed(accounts, 8, 4, 0, 1, 9, 10));
    plan.push(Step::LoadVaultAmount { vault: 5 });
    // The taker pays before anything leaves the vault.
    plan.push(
        Step::Perform {
            action: Action::Transfer { from: 7, to: 8, authority: 0, amount: escrow_state.receive, signer: None },
        },
    );
    plan.push(Step::TransferVault { from: 5, to: 6, authority: 2, signer });
    plan.push(
        Step::Perform {
            action: Action::CloseTokenAccount { account: 5, destination: 1, authority: 2, signer },
        },
    );
    close_program_account(&mut plan, 2, 1);
    assert(plan@ =~= take_steps(accounts@, escrow_state));
    Ok(plan)
}

} // verus!

verus! {

/// What a `take` that goes ahead guarantees: the taker signed; the escrow account holds a
/// state that records the maker, `mint_a` and `mint_b` that were passed; the first movement of
/// tokens is the taker paying exactly the recorded `receive` of `mint_b` to the maker's
/// account, and only after it does the vault's balance go to the taker's account of `mint_a`;
/// then the vault closes into the maker, and so does the escrow.
pub proof fn lemma_take_guarantees(a: Seq<AccountState>)
    requires
        take_plan(a) is Ok,
    ensures
        ({
            let steps = take_plan(a)->Ok_0;
            let data = a[2].data@;
            &&& a[0].is_signer
            &&& data.len() == 113
            &&& data.subrange(8, 40) == a[1].address@
            &&& data.subrange(40, 72) == a[3].address@
            &&& data.subrange(72, 104) == a[4].address@
            &&& forall|i: int|
                0 <= i < 3 ==> !(steps[i] is TransferVault) && !(steps[i] is Perform && steps[i]->Perform_action is Transfer)
            &&& steps[3] == (Step::Perform {
                action: Action::Transfer {
                    from: 7,
                    to: 8,
                    authority: 0,
                    amount: crate::bytes::le_u64(data.subrange(104, 112)),
                    signer: None,
                },
            })
            &&& steps[4] is TransferVault
            &&& steps[4]->TransferVault_from == 5
            &&& steps[4]->TransferVault_to == 6
            &&& steps[5] is Perform
            &&& steps[5]->Perform_action is CloseTokenAccount
            &&& steps[5]->Perform_action->CloseTokenAccount_account == 5
            &&& steps[5]->Perform_action->CloseTokenAccount_destination == 1
            &&& steps.subrange(6, 10) == close_steps(2, 1)
        }),
{
    let steps = take_plan(a)->Ok_0;
    assert(steps.subrange(6, 10) =~= close_steps(2, 1));
    assert forall|i: int|
        0 <= i < 3 implies !(steps[i] is TransferVault) && !(steps[i] is Perform && steps[i]->Perform_action is Transfer) by {
        assert(steps[0] is EnsureAta);
        assert(steps[1] is EnsureAta);
        assert(steps[2] is LoadVaultAmount);
    }
}

/// In `take` the vault is released only once the taker's payment has gone through. Once the
/// vault's balance is read, the session asks for the payment of the recorded `receive` from the
/// taker's account of `mint_b` to the maker's; where the runtime reports that the payment
/// failed, the instruction ends with that error and asks for nothing more; only where it reports
/// success does the vault's balance, as read, move to the taker.
pub proof fn lemma_failed_payment_stops_take(
    a: Seq<AccountState>,
    snapshot: EscrowSnapshot,
    v: SessionView,
    vault: AccountState,
    e: ProgramError,
    later: Reply,
)
    requires
        v.steps == take_steps(a, snapshot),
        v.pc == 2,
        v.stage == 1,
        v.outcome is None,
        vault.data@.len() >= 72,
    ensures
        ({
            let paying = advance(v, Reply::Account(vault));
            let failed = advance(paying.0, Reply::Failed(e));
            &&& paying.1 == (Action::Transfer {
                from: 7,
                to: 8,
                authority: 0,
                amount: snapshot.receive,
                signer: None,
            })
            &&& failed.1 == (Action::Finish { result: Err::<(), ProgramError>(e) })
            &&& advance(failed.0, later) == (failed.0, Action::Finish { result: Err::<(), ProgramError>(e) })
            &&& advance(paying.0, Reply::Done).1 == (Action::Transfer {
                from: 5,
                to: 6,
                authority: 2,
                amount: crate::bytes::le_u64(vault.data@.subrange(64, 72)),
                signer: Some(escrow_signer(a[1], snapshot)),
            })
        }),
{
    let steps = take_steps(a, snapshot);
    assert(steps[2] == Step::LoadVaultAmount { vault: 5 });
    assert(steps[3] == (Step::Perform {
        action: Action::Transfer { from: 7, to: 8, authority: 0, amount: snapshot.receive, signer: None },
    }));
    assert(steps[4] == Step::TransferVault { from: 5, to: 6, authority: 2, signer: escrow_signer(a[1], snapshot) });
}

/// Every account that `take` creates is paid for by the taker, the one signer: the first step
/// makes sure of the taker's account of `mint_a` (account 6), the second of the maker's account
/// of `mint_b` (account 8, owned by the maker), each paid by account 0; no later step creates an
/// account.
pub proof fn lemma_take_creations_paid_by_taker(a: Seq<AccountState>)
    requires
        take_plan(a) is Ok,
    ensures
        ({
            let steps = take_plan(a)->Ok_0;
            &&& a[0].is_signer
            &&& steps[0] is EnsureAta
            &&& steps[0]->EnsureAta_ata == 6
            &&& steps[0]->EnsureAta_mint == 3
            &&& steps[0]->EnsureAta_payer == 0
            &&& steps[0]->EnsureAta_owner == 0
            &&& steps[0]->EnsureAta_system_program == 9
            &&& steps[0]->EnsureAta_token_program == 10
            &&& steps[1] is EnsureAta
            &&& steps[1]->EnsureAta_ata == 8
            &&& steps[1]->EnsureAta_mint == 4
            &&& steps[1]->EnsureAta_payer == 0
            &&& steps[1]->EnsureAta_owner == 1
            &&& steps[1]->EnsureAta_system_program == 9
            &&& steps[1]->EnsureAta_token_program == 10
            &&& forall|i: int|
                2 <= i < steps.len() ==> !(#[trigger] steps[i] is EnsureAta) && !(steps[i] is CreateProgramAccount)
                    && !(steps[i] is Perform && steps[i]->Perform_action is CreateAta)
        }),
{
    let steps = take_plan(a)->Ok_0;
    assert(steps.len() == 10);
    assert forall|i: int| 2 <= i < steps.len() implies !(#[trigger] steps[i] is EnsureAta)
        && !(steps[i] is CreateProgramAccount) && !(steps[i] is Perform && steps[i]->Perform_action is CreateAta) by {
        assert(steps[6] == (Step::Perform { action: Action::WriteByte { account: 2, offset: 0, value: 0xffu8 } }));
        assert(steps[7] == (Step::CreditLamports { from: 2, to: 1 }));
        assert(steps[8] == (Step::Perform { action: Action::Resize { account: 2, len: 1 } }));
        assert(steps[9] == (Step::Perform { action: Action::Close { account: 2 } }));
    }
}

/// Where the maker has no account of `mint_b` yet (its associated token account address holds
/// no data), `take` asks for it to be created for the maker, paid by the taker: after reading it,
/// the session asks for `CreateAta` of account 8 for `mint_b`, owner the maker, payer the taker.
pub proof fn lemma_take_creates_the_makers_account_at_the_takers_cost(
    a: Seq<AccountState>,
    v: SessionView,
    maker_ata_b: AccountState,
)
    requires
        take_plan(a) is Ok,
        v.steps == take_plan(a)->Ok_0,
        v.pc == 1,
        v.stage == 0,
        v.outcome is None,
        ata_address_check(a[8].address@, a[1].address@, a[4].address@, a[10].address@) is Ok,
        maker_ata_b.data@.len() == 0,
    ensures
        advance(v, Reply::Done).1 == (Action::ReadAccount { index: 8 }),
        advance(advance(v, Reply::Done).0, Reply::Account(maker_ata_b)).1 == (Action::CreateAta {
            ata: 8,
            mint: 4,
            payer: 0,
            owner: 1,
            system_program: 9,
            token_program: 10,
        }),
{
    lemma_take_creations_paid_by_taker(a);
}

/// `take` moves and closes the vault signed as the escrow: its signer is the maker and the
/// whole seed and bump recorded in the escrow account, and those seeds derive the escrow's own
/// address, the authority of the vault.
pub proof fn lemma_take_signs_as_escrow(a: Seq<AccountState>)
    requires
        take_plan(a) is Ok,
    ensures
        ({
            let steps = take_plan(a)->Ok_0;
            let signer = steps[4]->TransferVault_signer;
            &&& steps[4] is TransferVault
            &&& steps[4]->TransferVault_authority == 2
            &&& steps[5]->Perform_action->CloseTokenAccount_signer == signer
            &&& signer.maker == a[1].address
            &&& signer.seed == crate::bytes::le_u64(a[2].data@.subrange(0, 8))
            &&& signer.bump == a[2].data@[112]
            &&& spec_create_program_address(signer.seed_list(), ID@) matches Some(address)
                && address@ == a[2].address@
        }),
{
}

} // verus!
