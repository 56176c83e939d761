//! An escrow program for Solana tokens: a maker locks an amount of one token in a vault and
//! names the amount of another token that it asks in exchange; a taker pays that amount and
//! receives the vault; until then the maker can take the vault back.
//!
//! The program's decisions are verified here: decoding instructions, checking the accounts,
//! the escrow state's byte layout and the order of the token movements. A [`Session`] hands the
//! runtime the actions to perform one at a time.
use vstd::prelude::*;

pub mod account;
pub mod bytes;
pub mod errors;
pub mod instructions;
pub mod outside;
pub mod session;
pub mod state;

pub use account::AccountState;
pub use errors::{EscrowError, ProgramError};
pub use session::{Action, EscrowSigner, Reply, Session, Step};
pub use state::{Escrow, EscrowSnapshot};

use crate::bytes::{same_address, u64_le};
use crate::errors::fail;
use crate::instructions::helpers::{create_ix_data, is_plan, CreateInstructionData};
use crate::instructions::make::{make, make_plan};
use crate::instructions::refund::{refund, refund_plan};
use crate::instructions::take::{take, take_plan};

verus! {

/// The address of the escrow program.
pub const ID: [u8; 32] = [
    0x0f, 0x1e, 0x6b, 0x14, 0x21, 0xc0, 0x4a, 0x07, 0x04, 0x31, 0x26, 0x5c, 0x19, 0xc5, 0xbb, 0xee,
    0x19, 0x92, 0xba, 0xe8, 0xaf, 0xd1, 0xcd, 0x07, 0x8e, 0xf8, 0xaf, 0x70, 0x47, 0xdc, 0x11, 0xf7,
];

/// The plan of an instruction: it must be addressed to this program; its first byte chooses
/// `make` (0, followed by its 24 bytes of data), `take` (1, alone) or `refund` (2, alone);
/// anything else is `InvalidInstruction`.
pub open spec fn instruction_plan(program_id: Seq<u8>, accounts: Seq<AccountState>, data: Seq<u8>) -> Result<Seq<Step>, ProgramError> {
    if program_id != ID@ {
        fail(EscrowError::InvalidProgram)
    } else if data.len() == 0 {
        fail(EscrowError::InvalidInstruction)
    } else {
        let rest = data.subrange(1, data.len() as int);
        if data[0] == 0 {
            make_plan(accounts, rest)
        } else if data[0] == 1 {
            if rest.len() != 0 {
                fail(EscrowError::InvalidInstruction)
            } else {
                take_plan(accounts)
            }
        } else if data[0] == 2 {
            if rest.len() != 0 {
                fail(EscrowError::InvalidInstruction)
            } else {
                refund_plan(accounts)
            }
        } else {
            fail(EscrowError::InvalidInstruction)
        }
    }
}

/// Validates an instruction and gives the steps it takes; see [`instruction_plan`]. A
/// [`Session`] made from the result runs it.
pub fn process_instruction(
    program_id: &[u8; 32],
    accounts: &Vec<AccountState>,
    instruction_data: &[u8],
) -> (r: Result<Vec<Step>, ProgramError>)
    ensures
        is_plan(r, instruction_plan(program_id@, accounts@, instruction_data@)),
{
    if !same_address(program_id, &ID) {
        return Err(ProgramError::Custom(EscrowError::InvalidProgram));
    }
    if instruction_data.len() == 0 {
        return Err(ProgramError::Custom(EscrowError::InvalidInstruction));
    }
    let discriminator = instruction_data[0];
    let data = &instruction_data[1..instruction_data.len()];
    assert(data@ == instruction_data@.subrange(1, instruction_data@.len() as int));
    match discriminator {
        0 => make(accounts, data),
        1 => {
            if data.len() != 0 {
                return Err(ProgramError::Custom(EscrowError::InvalidInstruction));
            }
            take(accounts)
        },
        2 => {
            if data.len() != 0 {
                return Err(ProgramError::Custom(EscrowError::InvalidInstruction));
            }
            refund(accounts)
        },
        _ => Err(ProgramError::Custom(EscrowError::InvalidInstruction)),
    }
}

/// The instruction data of `make` as clients build it: `0`, then seed, receive and amount,
/// each a little-endian `u64`.
pub open spec fn make_instruction_data(seed: u64, receive: u64, amount: u64) -> Seq<u8> {
    seq![0u8] + u64_le(seed) + u64_le(receive) + u64_le(amount)
}

/// The program reads back what a client encodes for `make`: the plan is that of `make` with the
/// seed, receive and amount the client chose, unless receive or amount is zero, which fails with
/// `InvalidAmount`.
pub proof fn lemma_make_instruction_decodes(accounts: Seq<AccountState>, seed: u64, receive: u64, amount: u64)
    ensures
        instruction_plan(ID@, accounts, make_instruction_data(seed, receive, amount)) == make_plan(
            accounts,
            u64_le(seed) + u64_le(receive) + u64_le(amount),
        ),
        create_ix_data(u64_le(seed) + u64_le(receive) + u64_le(amount)) == if receive == 0 || amount
            == 0 {
            fail::<CreateInstructionData>(EscrowError::InvalidAmount)
        } else {
            Ok(CreateInstructionData { seed, receive, amount })
        },
{
    let data = make_instruction_data(seed, receive, amount);
    let rest = u64_le(seed) + u64_le(receive) + u64_le(amount);
    assert(data.subrange(1, data.len() as int) =~= rest);
    assert(rest.subrange(0, 8) =~= u64_le(seed));
    assert(rest.subrange(8, 16) =~= u64_le(receive));
    assert(rest.subrange(16, 24) =~= u64_le(amount));
    crate::bytes::lemma_le_u64_of_u64_le(seed);
    crate::bytes::lemma_le_u64_of_u64_le(receive);
    crate::bytes::lemma_le_u64_of_u64_le(amount);
}

/// `take` is the single byte `1` and `refund` the single byte `2`; anything after the byte is
/// refused with `InvalidInstruction`.
pub proof fn lemma_take_and_refund_decode(accounts: Seq<AccountState>, extra: Seq<u8>)
    ensures
        instruction_plan(ID@, accounts, seq![1u8]) == take_plan(accounts),
        instruction_plan(ID@, accounts, seq![2u8]) == refund_plan(accounts),
        extra.len() > 0 ==> instruction_plan(ID@, accounts, seq![1u8] + extra) == fail::<Seq<Step>>(
            EscrowError::InvalidInstruction,
        ),
        extra.len() > 0 ==> instruction_plan(ID@, accounts, seq![2u8] + extra) == fail::<Seq<Step>>(
            EscrowError::InvalidInstruction,
        ),
{
    assert(seq![1u8].subrange(1, 1).len() == 0);
    assert(seq![2u8].subrange(1, 1).len() == 0);
    let t = seq![1u8] + extra;
    let r = seq![2u8] + extra;
    assert(t[0] == 1u8);
    assert(r[0] == 2u8);
    assert(t.subrange(1, t.len() as int) =~= extra);
    assert(r.subrange(1, r.len() as int) =~= extra);
}

} // verus!
