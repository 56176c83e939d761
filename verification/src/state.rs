//! The escrow account's state and its fixed byte layout.
use vstd::prelude::*;

use crate::bytes::{
    le_u64, lemma_u64_le_injective, lemma_u64_le_of_le_u64, read_array32_at, read_u64_at, u64_le,
    write_array32_at, write_u64_at,
};
use crate::errors::{EscrowError, ProgramError};

verus! {

/// The state of an escrow: who made it, the two mints, how much of `mint_b` the taker owes, and
/// the seed and bump from which its address is derived.
///
/// Stored as 113 bytes: `seed` at 0, `maker` at 8, `mint_a` at 40, `mint_b` at 72, `receive` at
/// 104 (integers little-endian) and `bump` at 112.
#[derive(Clone, Copy, Debug, PartialEq, Eq)]
pub struct Escrow {
    pub seed: u64,
    pub maker: [u8; 32],
    pub mint_a: [u8; 32],
    pub mint_b: [u8; 32],
    pub receive: u64,
    pub bump: [u8; 1],
}

impl Escrow {
    /// The number of bytes of an escrow account's data.
    pub const LEN: usize = 113;

    /// The bytes that store this state.
    pub open spec fn layout(self) -> Seq<u8> {
        u64_le(self.seed) + self.maker@ + self.mint_a@ + self.mint_b@ + u64_le(self.receive)
            + self.bump@
    }

    /// Reads the state stored in an escrow account's data. Fails with `InvalidAccountData`
    /// exactly when the data is not 113 bytes long.
    pub fn load(bytes: &[u8]) -> (r: Result<Escrow, ProgramError>)
        ensures
            bytes@.len() != 113 ==> r == Err::<Escrow, ProgramError>(
                ProgramError::Custom(EscrowError::InvalidAccountData),
            ),
            bytes@.len() == 113 ==> (r matches Ok(e) && e.layout() == bytes@),
    {
        if bytes.len() != 113 {
            return Err(ProgramError::Custom(EscrowError::InvalidAccountData));
        }
        let seed = read_u64_at(bytes, 0);
        let maker = read_array32_at(bytes, 8);
        let mint_a = read_array32_at(bytes, 40);
        let mint_b = read_array32_at(bytes, 72);
        let receive = read_u64_at(bytes, 104);
        let bump = [bytes[112]];
        let e = Escrow { seed, maker, mint_a, mint_b, receive, bump };
        proof {
            let b = bytes@;
            lemma_u64_le_of_le_u64(b.subrange(0, 8));
            lemma_u64_le_of_le_u64(b.subrange(104, 112));
            assert(e.bump@ =~= b.subrange(112, 113));
            assert(e.layout() =~= b);
        }
        Ok(e)
    }

    /// Views an escrow account's data as a state to be written in place. Fails with
    /// `InvalidAccountData`, leaving the data as it was, exactly when it is not 113 bytes long.
    pub fn load_mut<'a>(bytes: &'a mut [u8]) -> (r: Result<EscrowMut<'a>, ProgramError>)
        ensures
            old(bytes)@.len() != 113 ==> (r matches Err(e) && e == ProgramError::Custom(
                EscrowError::InvalidAccountData,
            ) && final(bytes)@ == old(bytes)@),
            old(bytes)@.len() == 113 ==> (r matches Ok(view) && view.data@ == old(bytes)@
                && final(view.data)@ == final(bytes)@),
    {
        if bytes.len() != 113 {
            return Err(ProgramError::Custom(EscrowError::InvalidAccountData));
        }
        Ok(EscrowMut { data: bytes })
    }

    /// Sets every field of the state.
    pub fn init(
        &mut self,
        seed: u64,
        maker: [u8; 32],
        mint_a: [u8; 32],
        mint_b: [u8; 32],
        receive: u64,
        bump: u8,
    )
        ensures
            final(self).seed == seed,
            final(self).maker == maker,
            final(self).mint_a == mint_a,
            final(self).mint_b == mint_b,
            final(self).receive == receive,
            final(self).bump@ == seq![bump],
    {
        self.seed = seed;
        self.maker = maker;
        self.mint_a = mint_a;
        self.mint_b = mint_b;
        self.receive = receive;
        self.bump = [bump];
    }
}

/// An escrow account's data, viewed in place as a state: what [`Escrow::load_mut`] gives.
pub struct EscrowMut<'a> {
    pub data: &'a mut [u8],
}

impl<'a> EscrowMut<'a> {
    /// Writes a state with these fields into the account's data.
    pub fn init(
        &mut self,
        seed: u64,
        maker: [u8; 32],
        mint_a: [u8; 32],
        mint_b: [u8; 32],
        receive: u64,
        bump: u8,
    )
        requires
            old(self).data@.len() == 113,
        ensures
            final(self).data@ == (Escrow { seed, maker, mint_a, mint_b, receive, bump: [bump] }).layout(),
            final(final(self).data)@ == final(old(self).data)@,
    {
        write_u64_at(self.data, 0, seed);
        write_array32_at(self.data, 8, &maker);
        write_array32_at(self.data, 40, &mint_a);
        write_array32_at(self.data, 72, &mint_b);
        write_u64_at(self.data, 104, receive);
        self.data[112] = bump;
        assert(self.data@ =~= (Escrow { seed, maker, mint_a, mint_b, receive, bump: [bump] }).layout());
    }
}

/// Where each field of a state stands in its bytes.
pub proof fn lemma_layout_fields(e: Escrow)
    ensures
        e.layout().len() == 113,
        e.layout().subrange(0, 8) == u64_le(e.seed),
        e.layout().subrange(8, 40) == e.maker@,
        e.layout().subrange(40, 72) == e.mint_a@,
        e.layout().subrange(72, 104) == e.mint_b@,
        e.layout().subrange(104, 112) == u64_le(e.receive),
        e.layout()[112] == e.bump@[0],
{
    let l = e.layout();
    assert(l.subrange(0, 8) =~= u64_le(e.seed));
    assert(l.subrange(8, 40) =~= e.maker@);
    assert(l.subrange(40, 72) =~= e.mint_a@);
    assert(l.subrange(72, 104) =~= e.mint_b@);
    assert(l.subrange(104, 112) =~= u64_le(e.receive));
}

/// Two states with the same bytes are the same state: what `load` reads back from the bytes that
/// `init` wrote through `load_mut` is the state that was written.
pub proof fn lemma_layout_injective(a: Escrow, b: Escrow)
    ensures
        a.layout() == b.layout() ==> a == b,
{
    if a.layout() == b.layout() {
        lemma_layout_fields(a);
        lemma_layout_fields(b);
        lemma_u64_le_injective(a.seed, b.seed);
        lemma_u64_le_injective(a.receive, b.receive);
        assert(a.maker =~= b.maker);
        assert(a.mint_a =~= b.mint_a);
        assert(a.mint_b =~= b.mint_b);
        assert(a.bump@[0] == b.bump@[0]);
        assert(a.bump =~= b.bump);
    }
}

/// The fields of an escrow that `take` and `refund` go on with once the account is validated.
#[derive(Clone, Copy, Debug, PartialEq, Eq, Structural)]
pub struct EscrowSnapshot {
    pub seed: u64,
    pub receive: u64,
    pub bump: u8,
}

} // verus!
