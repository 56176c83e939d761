//! Running an instruction: the steps that a validated instruction takes, and the session that
//! turns them into the actions the runtime performs, one at a time, reading accounts where a
//! step decides on their current state.
use vstd::prelude::*;

use crate::account::AccountState;
use crate::bytes::{le_u64, lemma_bytes_deep_view, lemma_le_u64_of_u64_le};
use crate::errors::ProgramError;
use crate::instructions::helpers::{
    assert_program_account, create_program_account, creation_request, escrow_seed_list, escrow_seeds,
    program_account_check, single_byte, token_account_amount, token_amount,
};
use crate::outside::token_account_len;
use crate::state::Escrow;

verus! {

/// The seeds with which the escrow of `maker` and `seed` signs, its bump seed last.
#[derive(Clone, Copy, Debug, PartialEq, Eq)]
pub struct EscrowSigner {
    pub maker: [u8; 32],
    pub seed: u64,
    pub bump: u8,
}

impl EscrowSigner {
    /// The seeds: `escrow`, the maker's address, the seed in little-endian, the bump.
    pub open spec fn seed_list(self) -> Seq<Seq<u8>> {
        escrow_seeds(self.maker@, self.seed).push(seq![self.bump])
    }

    /// The seeds as byte strings.
    pub fn seeds(&self) -> (r: Vec<Vec<u8>>)
        ensures
            r.deep_view() == self.seed_list(),
    {
        let mut r = escrow_seed_list(&self.maker, self.seed);
        r.push(single_byte(self.bump));
        proof {
            lemma_bytes_deep_view(r@[3]);
            assert(r.deep_view() =~= self.seed_list());
        }
        r
    }
}

/// What the runtime is asked to do. Accounts are named by their position in the instruction's
/// account list.
#[derive(Clone, Copy, Debug, PartialEq, Eq)]
#[allow(inconsistent_fields)]
pub enum Action {
    /// Report the account's current state back to the session.
    ReadAccount { index: usize },
    /// Report the rent sysvar's rate, in lamports per byte, back to the session.
    ReadRent,
    /// Create `account` with `space` bytes, owned by `owner`, moving `lamports` into it from
    /// `payer`, the new account signing with `signer`.
    CreateProgramAccount {
        payer: usize,
        account: usize,
        lamports: u64,
        space: usize,
        owner: [u8; 32],
        signer: EscrowSigner,
    },
    /// Create the associated token account `ata` of `owner` for `mint`, paid by `payer`.
    CreateAta {
        ata: usize,
        mint: usize,
        payer: usize,
        owner: usize,
        system_program: usize,
        token_program: usize,
    },
    /// Write `state` into the data of `account` in place (see [`Escrow::load_mut`]).
    WriteEscrow { account: usize, state: Escrow },
    /// Move `amount` tokens from `from` to `to` with the authority of `authority`, signing
    /// with `signer` where the authority is the escrow.
    Transfer { from: usize, to: usize, authority: usize, amount: u64, signer: Option<EscrowSigner> },
    /// Close the token account `account` into `destination`, the escrow signing as authority.
    CloseTokenAccount { account: usize, destination: usize, authority: usize, signer: EscrowSigner },
    /// Set byte `offset` of the data of `account` to `value`.
    WriteByte { account: usize, offset: usize, value: u8 },
    /// Set the balance of `account`.
    SetLamports { account: usize, lamports: u64 },
    /// Resize the data of `account` to `len` bytes.
    Resize { account: usize, len: usize },
    /// Close `account`.
    Close { account: usize },
    /// The instruction ends with `result`.
    Finish { result: Result<(), ProgramError> },
}

/// One step of a validated instruction.
#[derive(Clone, Copy, Debug, PartialEq, Eq)]
#[allow(inconsistent_fields)]
pub enum Step {
    /// Ask the runtime to perform `action`.
    Perform { action: Action },
    /// Read the rent sysvar's rate, then create the program account `account` with `space`
    /// bytes, funded by `payer` with the rent-exempt minimum at that rate, the new account
    /// signing with `signer`; see [`create_program_account`].
    CreateProgramAccount { payer: usize, account: usize, space: usize, signer: EscrowSigner },
    /// Make sure `ata` is the associated token account of `owner` for `mint`: fail with
    /// `address_check` where that is an error; else read `ata`, create it where it holds no
    /// data, and otherwise require a token account of the token program.
    EnsureAta {
        ata: usize,
        mint: usize,
        payer: usize,
        owner: usize,
        system_program: usize,
        token_program: usize,
        address_check: Result<(), ProgramError>,
        token_program_address: [u8; 32],
    },
    /// Read the balance of the token account `vault`.
    LoadVaultAmount { vault: usize },
    /// Move the balance read by the last `LoadVaultAmount` from `from` to `to`, the escrow
    /// signing as authority.
    TransferVault { from: usize, to: usize, authority: usize, signer: EscrowSigner },
    /// Add the balance of `from` to the balance of `to`.
    CreditLamports { from: usize, to: usize },
}

/// What the runtime reports after performing an action.
#[derive(Clone, Debug)]
pub enum Reply {
    /// The action succeeded; there is nothing else to report.
    Done,
    /// The current state of the account that a `ReadAccount` asked for.
    Account(AccountState),
    /// The rent sysvar's rate, for a `ReadRent`.
    Rent { lamports_per_byte: u64 },
    /// The action failed with this error.
    Failed(ProgramError),
}

/// A session's state: the steps, the one under way and how far it got, the balances read so far,
/// and the outcome once the instruction has ended.
pub struct SessionView {
    pub steps: Seq<Step>,
    pub pc: int,
    pub stage: int,
    pub vault_amount: u64,
    pub credit: u64,
    pub outcome: Option<Result<(), ProgramError>>,
}

/// The session ends with `result`.
pub open spec fn finish(v: SessionView, result: Result<(), ProgramError>) -> (SessionView, Action) {
    (SessionView { outcome: Some(result), stage: 0, ..v }, Action::Finish { result })
}

/// Begins the step at `v.pc`, or ends the session successfully after the last step.
pub open spec fn start_step(v: SessionView) -> (SessionView, Action) {
    if v.pc >= v.steps.len() {
        finish(v, Ok(()))
    } else {
        match v.steps[v.pc] {
            Step::Perform { action } => (SessionView { pc: v.pc + 1, ..v }, action),
            Step::CreateProgramAccount { .. } => (SessionView { stage: 1, ..v }, Action::ReadRent),
            Step::EnsureAta { ata, address_check, .. } => match address_check {
                Err(e) => finish(v, Err(e)),
                Ok(_) => (SessionView { stage: 1, ..v }, Action::ReadAccount { index: ata }),
            },
            Step::LoadVaultAmount { vault } => (
                SessionView { stage: 1, ..v },
                Action::ReadAccount { index: vault },
            ),
            Step::TransferVault { from, to, authority, signer } => (
                SessionView { pc: v.pc + 1, ..v },
                Action::Transfer { from, to, authority, amount: v.vault_amount, signer: Some(signer) },
            ),
            Step::CreditLamports { from, to } => (
                SessionView { stage: 1, ..v },
                Action::ReadAccount { index: to },
            ),
        }
    }
}

/// Continues the step at `v.pc` with the state `account` that the runtime read.
pub open spec fn complete_step(v: SessionView, account: AccountState) -> (SessionView, Action) {
    match v.steps[v.pc] {
        Step::EnsureAta {
            ata,
            mint,
            payer,
            owner,
            system_program,
            token_program,
            token_program_address,
            ..
        } => if account.data@.len() == 0 {
            (
                SessionView { pc: v.pc + 1, stage: 0, ..v },
                Action::CreateAta { ata, mint, payer, owner, system_program, token_program },
            )
        } else {
            match program_account_check(account, 165, token_program_address@) {
                Err(e) => finish(v, Err(e)),
                Ok(_) => start_step(SessionView { pc: v.pc + 1, stage: 0, ..v }),
            }
        },
        Step::LoadVaultAmount { .. } => match token_amount(account.data@) {
            Err(e) => finish(v, Err(e)),
            Ok(amount) => start_step(
                SessionView { pc: v.pc + 1, stage: 0, vault_amount: amount, ..v },
            ),
        },
        Step::CreditLamports { from, to } => if v.stage == 1 {
            (SessionView { stage: 2, credit: account.lamports, ..v }, Action::ReadAccount { index: from })
        } else {
            (
                SessionView { pc: v.pc + 1, stage: 0, ..v },
                Action::SetLamports { account: to, lamports: v.credit.wrapping_add(account.lamports) },
            )
        },
        _ => (v, Action::Finish { result: Ok(()) }),
    }
}

/// Continues the creation at `v.pc` with the rate `lamports_per_byte` that the runtime read:
/// asks for the creation, or ends the session where the rent-exempt minimum cannot be computed.
pub open spec fn complete_creation(v: SessionView, lamports_per_byte: u64) -> (SessionView, Action) {
    match v.steps[v.pc] {
        Step::CreateProgramAccount { payer, account, space, signer } => match creation_request(
            payer,
            account,
            signer,
            space,
            lamports_per_byte,
        ) {
            Ok(action) => (SessionView { pc: v.pc + 1, stage: 0, ..v }, action),
            Err(e) => finish(v, Err(e)),
        },
        _ => (v, Action::Finish { result: Ok(()) }),
    }
}

/// The read that the step at `v.pc` waits for.
pub open spec fn pending_read(v: SessionView) -> Action {
    match v.steps[v.pc] {
        Step::CreateProgramAccount { .. } => Action::ReadRent,
        Step::EnsureAta { ata, .. } => Action::ReadAccount { index: ata },
        Step::LoadVaultAmount { vault } => Action::ReadAccount { index: vault },
        Step::CreditLamports { from, to } => if v.stage == 1 {
            Action::ReadAccount { index: to }
        } else {
            Action::ReadAccount { index: from }
        },
        _ => Action::Finish { result: Ok(()) },
    }
}

/// A step waiting for a read goes on with what was read, or asks again where the reply is not
/// the read it waits for.
pub open spec fn take_reply(v: SessionView, reply: Reply) -> (SessionView, Action) {
    match reply {
        Reply::Account(account) => if v.steps[v.pc] is CreateProgramAccount {
            (v, pending_read(v))
        } else {
            complete_step(v, account)
        },
        Reply::Rent { lamports_per_byte } => if v.steps[v.pc] is CreateProgramAccount {
            complete_creation(v, lamports_per_byte)
        } else {
            (v, pending_read(v))
        },
        _ => (v, pending_read(v)),
    }
}

/// One move of a session: an ended session repeats its outcome; a failed action ends it with
/// that failure; a step waiting for a read goes on with the reply; otherwise the next step
/// begins.
pub open spec fn advance(v: SessionView, reply: Reply) -> (SessionView, Action) {
    if v.outcome is Some {
        (v, Action::Finish { result: v.outcome->0 })
    } else {
        match reply {
            Reply::Failed(e) => finish(v, Err(e)),
            _ => if v.stage > 0 {
                take_reply(v, reply)
            } else {
                start_step(v)
            },
        }
    }
}

/// An instruction under way: the runtime performs each action that `next` returns and reports
/// back how it went: the account's current state for a `ReadAccount`, the rate for a
/// `ReadRent`, otherwise success or the failure.
pub struct Session {
    steps: Vec<Step>,
    pc: usize,
    stage: u8,
    vault_amount: u64,
    credit: u64,
    outcome: Option<Result<(), ProgramError>>,
}

impl View for Session {
    type V = SessionView;

    closed spec fn view(&self) -> SessionView {
        SessionView {
            steps: self.steps@,
            pc: self.pc as int,
            stage: self.stage as int,
            vault_amount: self.vault_amount,
            credit: self.credit,
            outcome: self.outcome,
        }
    }
}

/// Whether a session's state is one that its moves reach: the step under way exists where it
/// waits for a read, and only steps that read wait.
pub open spec fn session_wf(v: SessionView) -> bool {
    &&& 0 <= v.pc <= v.steps.len()
    &&& 0 <= v.stage <= 2
    &&& v.stage > 0 ==> {
        &&& v.pc < v.steps.len()
        &&& match v.steps[v.pc] {
            Step::CreateProgramAccount { .. } => v.stage == 1,
            Step::EnsureAta { .. } => v.stage == 1,
            Step::LoadVaultAmount { .. } => v.stage == 1,
            Step::CreditLamports { .. } => true,
            _ => false,
        }
    }
}

impl Session {
    #[verifier::type_invariant]
    spec fn inv(self) -> bool {
        session_wf(self@)
    }

    /// A session for the outcome of validating an instruction: its steps, or the failure that
    /// the first move reports.
    pub fn new(plan: Result<Vec<Step>, ProgramError>) -> (s: Session)
        ensures
            s@.pc == 0,
            s@.stage == 0,
            s@.vault_amount == 0,
            s@.credit == 0,
            match plan {
                Ok(steps) => s@.steps == steps@ && s@.outcome is None,
                Err(e) => s@.steps == Seq::<Step>::empty() && s@.outcome == Some(
                    Err::<(), ProgramError>(e),
                ),
            },
    {
        match plan {
            Ok(steps) => Session { steps, pc: 0, stage: 0, vault_amount: 0, credit: 0, outcome: None },
            Err(e) => Session {
                steps: Vec::new(),
                pc: 0,
                stage: 0,
                vault_amount: 0,
                credit: 0,
                outcome: Some(Err(e)),
            },
        }
    }

    /// Whether the session waits for a read: of an account or of the rent sysvar.
    pub fn awaiting_read(&self) -> (r: bool)
        ensures
            r == (self@.outcome is None && self@.stage > 0),
    {
        self.outcome.is_none() && self.stage > 0
    }

    /// The session's outcome, once it has ended.
    pub fn outcome(&self) -> (r: Option<Result<(), ProgramError>>)
        ensures
            r == self@.outcome,
    {
        self.outcome
    }

    fn finish_with(&mut self, result: Result<(), ProgramError>) -> (a: Action)
        requires
            session_wf(old(self)@),
        ensures
            (final(self)@, a) == finish(old(self)@, result),
    {
        self.outcome = Some(result);
        self.stage = 0;
        Action::Finish { result }
    }

    fn start_step(&mut self) -> (a: Action)
        requires
            session_wf(old(self)@),
            old(self)@.stage == 0,
        ensures
            (final(self)@, a) == start_step(old(self)@),
            session_wf(final(self)@),
    {
        let n = self.steps.len();
        if self.pc >= n {
            return self.finish_with(Ok(()));
        }
        match self.steps[self.pc] {
            Step::Perform { action } => {
                self.pc = self.pc + 1;
                action
            },
            Step::CreateProgramAccount { .. } => {
                self.stage = 1;
                Action::ReadRent
            },
            Step::EnsureAta { ata, address_check, .. } => match address_check {
                Err(e) => self.finish_with(Err(e)),
                Ok(_) => {
                    self.stage = 1;
                    Action::ReadAccount { index: ata }
                },
            },
            Step::LoadVaultAmount { vault } => {
                self.stage = 1;
                Action::ReadAccount { index: vault }
            },
            Step::TransferVault { from, to, authority, signer } => {
                self.pc = self.pc + 1;
                Action::Transfer {
                    from,
                    to,
                    authority,
                    amount: self.vault_amount,
                    signer: Some(signer),
                }
            },
            Step::CreditLamports { from, to } => {
                self.stage = 1;
                Action::ReadAccount { index: to }
            },
        }
    }

    fn complete_step(&mut self, account: AccountState) -> (a: Action)
        requires
            session_wf(old(self)@),
            old(self)@.stage > 0,
            !(old(self)@.steps[old(self)@.pc] is CreateProgramAccount),
        ensures
            (final(self)@, a) == complete_step(old(self)@, account),
            session_wf(final(self)@),
    {
        let n = self.steps.len();
        assert(self.pc < n);
        match self.steps[self.pc] {
            Step::EnsureAta {
                ata,
                mint,
                payer,
                owner,
                system_program,
                token_program,
                token_program_address,
                ..
            } => {
                if account.data.len() == 0 {
                    self.stage = 0;
                    self.pc = self.pc + 1;
                    return Action::CreateAta { ata, mint, payer, owner, system_program, token_program };
                }
                if let Err(e) = assert_program_account(
                    &account,
                    token_account_len(),
                    &token_program_address,
                ) {
                    return self.finish_with(Err(e));
                }
                self.stage = 0;
                self.pc = self.pc + 1;
                self.start_step()
            },
            Step::LoadVaultAmount { .. } => match token_account_amount(account.data.as_slice()) {
                Err(e) => self.finish_with(Err(e)),
                Ok(amount) => {
                    self.vault_amount = amount;
                    self.stage = 0;
                    self.pc = self.pc + 1;
                    self.start_step()
                },
            },
            Step::CreditLamports { from, to } => {
                if self.stage == 1 {
                    self.credit = account.lamports;
                    self.stage = 2;
                    Action::ReadAccount { index: from }
                } else {
                    self.stage = 0;
                    self.pc = self.pc + 1;
                    Action::SetLamports { account: to, lamports: self.credit.wrapping_add(account.lamports) }
                }
            },
            _ => {
                proof {
                    assert(false);
                }
                Action::Finish { result: Ok(()) }
            },
        }
    }

    fn complete_creation(&mut self, lamports_per_byte: u64) -> (a: Action)
        requires
            session_wf(old(self)@),
            old(self)@.stage > 0,
            old(self)@.steps[old(self)@.pc] is CreateProgramAccount,
        ensures
            (final(self)@, a) == complete_creation(old(self)@, lamports_per_byte),
            session_wf(final(self)@),
    {
        let n = self.steps.len();
        assert(self.pc < n);
        match self.steps[self.pc] {
            Step::CreateProgramAccount { payer, account, space, signer } => match create_program_account(
                payer,
                account,
                signer,
                space,
                lamports_per_byte,
            ) {
                Ok(action) => {
                    self.stage = 0;
                    self.pc = self.pc + 1;
                    action
                },
                Err(e) => self.finish_with(Err(e)),
            },
            _ => {
                proof {
                    assert(false);
                }
                Action::Finish { result: Ok(()) }
            },
        }
    }

    fn pending_read(&self) -> (a: Action)
        requires
            session_wf(self@),
            self@.stage > 0,
        ensures
            a == pending_read(self@),
    {
        match self.steps[self.pc] {
            Step::CreateProgramAccount { .. } => Action::ReadRent,
            Step::EnsureAta { ata, .. } => Action::ReadAccount { index: ata },
            Step::LoadVaultAmount { vault } => Action::ReadAccount { index: vault },
            Step::CreditLamports { from, to } => if self.stage == 1 {
                Action::ReadAccount { index: to }
            } else {
                Action::ReadAccount { index: from }
            },
            _ => Action::Finish { result: Ok(()) },
        }
    }

    /// One move: the action the runtime performs next. `reply` reports how the last action went:
    /// the state of the account that a `ReadAccount` asked for, the rate that a `ReadRent` asked
    /// for, `Done` after any other action that succeeded (and before the first move), or the
    /// failure of the last action.
    pub fn next(&mut self, reply: Reply) -> (a: Action)
        ensures
            (final(self)@, a) == advance(old(self)@, reply),
    {
        proof {
            use_type_invariant(&*self);
        }
        if let Some(result) = self.outcome {
            return Action::Finish { result };
        }
        match reply {
            Reply::Failed(e) => self.finish_with(Err(e)),
            Reply::Account(account) => if self.stage == 0 {
                self.start_step()
            } else if matches!(self.steps[self.pc], Step::CreateProgramAccount { .. }) {
                self.pending_read()
            } else {
                self.complete_step(account)
            },
            Reply::Rent { lamports_per_byte } => if self.stage == 0 {
                self.start_step()
            } else if matches!(self.steps[self.pc], Step::CreateProgramAccount { .. }) {
                self.complete_creation(lamports_per_byte)
            } else {
                self.pending_read()
            },
            Reply::Done => if self.stage == 0 {
                self.start_step()
            } else {
                self.pending_read()
            },
        }
    }
}

} // verus!

verus! {

/// Once a session has ended, every move repeats its outcome and changes nothing: no action is
/// asked of the runtime after a failure or after the last step.
pub proof fn lemma_ended_session_repeats(v: SessionView, reply: Reply)
    requires
        v.outcome is Some,
    ensures
        advance(v, reply) == (v, Action::Finish { result: v.outcome->0 }),
{
}

/// A session made from a failed validation asks for nothing: its first move ends the
/// instruction with that failure.
pub proof fn lemma_refused_instruction_ends_at_once(e: ProgramError, reply: Reply)
    ensures
        ({
            let v = SessionView {
                steps: Seq::<Step>::empty(),
                pc: 0,
                stage: 0,
                vault_amount: 0,
                credit: 0,
                outcome: Some(Err::<(), ProgramError>(e)),
            };
            advance(v, reply).1 == (Action::Finish { result: Err::<(), ProgramError>(e) })
        }),
{
}

/// A failed action ends the instruction with its error, and nothing is asked of the runtime
/// after it: every later move repeats that failure.
pub proof fn lemma_failed_action_ends(v: SessionView, e: ProgramError, later: Reply)
    requires
        v.outcome is None,
    ensures
        advance(v, Reply::Failed(e)).1 == (Action::Finish { result: Err::<(), ProgramError>(e) }),
        advance(v, Reply::Failed(e)).0.outcome == Some(Err::<(), ProgramError>(e)),
        advance(advance(v, Reply::Failed(e)).0, later) == (
            advance(v, Reply::Failed(e)).0,
            Action::Finish { result: Err::<(), ProgramError>(e) },
        ),
{
}

/// The vault's balance moves as it was read: after the read of the vault (a token account with
/// at least 72 bytes of data), the step that moves the vault transfers exactly the balance that
/// the data records.
pub proof fn lemma_vault_moves_as_read(v: SessionView, vault: AccountState)
    requires
        session_wf(v),
        v.outcome is None,
        v.stage == 1,
        v.steps[v.pc] is LoadVaultAmount,
        v.pc + 1 < v.steps.len(),
        v.steps[v.pc + 1] is TransferVault,
        vault.data@.len() >= 72,
    ensures
        advance(v, Reply::Account(vault)).1 == (Action::Transfer {
            from: v.steps[v.pc + 1]->TransferVault_from,
            to: v.steps[v.pc + 1]->TransferVault_to,
            authority: v.steps[v.pc + 1]->TransferVault_authority,
            amount: crate::bytes::le_u64(vault.data@.subrange(64, 72)),
            signer: Some(v.steps[v.pc + 1]->TransferVault_signer),
        }),
{
}

/// The escrow signs with the seeds of its address and its bump: the bytes of `escrow`, the
/// maker's address, all eight bytes of the seed (least significant first, the whole seed reads
/// back from them) and the bump.
pub proof fn lemma_signer_seeds(s: EscrowSigner)
    ensures
        s.seed_list().len() == 4,
        s.seed_list()[0] == seq![101u8, 115, 99, 114, 111, 119],
        s.seed_list()[1] == s.maker@,
        s.seed_list()[2].len() == 8,
        le_u64(s.seed_list()[2]) == s.seed,
        s.seed_list()[3] == seq![s.bump],
{
    lemma_le_u64_of_u64_le(s.seed);
}

/// Closing into a destination adds the closed account's balance to the destination's: the
/// session reads the destination, then the source, then sets the destination's balance to the
/// sum of the two balances read (where it fits in 64 bits, as every real balance sum does).
pub proof fn lemma_credit_adds_balances(v: SessionView, destination: AccountState, source: AccountState)
    requires
        v.outcome is None,
        v.stage == 0,
        0 <= v.pc < v.steps.len(),
        v.steps[v.pc] is CreditLamports,
        destination.lamports + source.lamports <= u64::MAX,
    ensures
        ({
            let from = v.steps[v.pc]->CreditLamports_from;
            let to = v.steps[v.pc]->CreditLamports_to;
            let first = advance(v, Reply::Done);
            let second = advance(first.0, Reply::Account(destination));
            let third = advance(second.0, Reply::Account(source));
            &&& first.1 == (Action::ReadAccount { index: to })
            &&& second.1 == (Action::ReadAccount { index: from })
            &&& third.1 is SetLamports
            &&& third.1->SetLamports_account == to
            &&& third.1->SetLamports_lamports == destination.lamports + source.lamports
            &&& third.0.pc == v.pc + 1
        }),
{
}

} // verus!
