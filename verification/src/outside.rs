//! What the program takes from the Solana crates: program-derived addresses, the addresses of
//! the programs it calls, the sizes of the token program's accounts and the rent-exempt minimum.
use vstd::prelude::*;

verus! {

/// The address and bump seed that the address search finds for `seeds` under `program_id`, or
/// `None` where it finds none.
pub uninterp spec fn spec_try_find_program_address(seeds: Seq<Seq<u8>>, program_id: Seq<u8>) -> Option<([u8; 32], u8)>;

/// The program-derived address of `seeds` under `program_id`, or `None` where the seeds are
/// refused (too many or too long) or give a point on the curve.
pub uninterp spec fn spec_create_program_address(seeds: Seq<Seq<u8>>, program_id: Seq<u8>) -> Option<[u8; 32]>;

/// Calls `Address::try_find_program_address` of `solana-address` (re-exported by `pinocchio`).
/// Claims that its result is a function of the seeds and the program id alone, and, as the
/// search loop in the crate's source shows, that a found address is the one that
/// `create_program_address` gives for the seeds followed by the found bump seed.
#[verifier::external_body]
pub(crate) fn try_find_program_address(seeds: &Vec<Vec<u8>>, program_id: &[u8; 32]) -> (r: Option<([u8; 32], u8)>)
    ensures
        r == spec_try_find_program_address(seeds.deep_view(), program_id@),
        r matches Some((address, bump)) ==> spec_create_program_address(
            seeds.deep_view().push(seq![bump]),
            program_id@,
        ) == Some(address),
{
    let refs: Vec<&[u8]> = seeds.iter().map(|s| s.as_slice()).collect();
    pinocchio::Address::try_find_program_address(&refs, &pinocchio::Address::new_from_array(*program_id))
        .map(|(address, bump)| (address.to_bytes(), bump))
}

/// Calls `Address::create_program_address` of `solana-address` (re-exported by `pinocchio`).
/// Claims that its result is a function of the seeds and the program id alone; the crate's
/// error is dropped, as every error leads to the same failure here.
#[verifier::external_body]
pub(crate) fn create_program_address(seeds: &Vec<Vec<u8>>, program_id: &[u8; 32]) -> (r: Option<[u8; 32]>)
    ensures
        r == spec_create_program_address(seeds.deep_view(), program_id@),
{
    let refs: Vec<&[u8]> = seeds.iter().map(|s| s.as_slice()).collect();
    pinocchio::Address::create_program_address(&refs, &pinocchio::Address::new_from_array(*program_id))
        .ok()
        .map(|address| address.to_bytes())
}

/// The system program's address, `11111111111111111111111111111111`.
pub open spec fn system_program_address() -> Seq<u8> {
    seq![0u8, 0, 0, 0, 0, 0, 0, 0, 0, 0, 0, 0, 0, 0, 0, 0, 0, 0, 0, 0, 0, 0, 0, 0, 0, 0, 0, 0, 0, 0, 0, 0]
}

/// The token program's address, `TokenkegQfeZyiNwAJbNbGKPFXCWuBvf9Ss623VQ5DA`.
pub open spec fn token_program_address() -> Seq<u8> {
    seq![6u8, 221, 246, 225, 215, 101, 161, 147, 217, 203, 225, 70, 206, 235, 121, 172, 28, 180, 133, 237, 95, 91, 55, 145, 58, 140, 245, 133, 126, 255, 0, 169]
}

/// The associated token account program's address,
/// `ATokenGPvbdGVxr1b2hvZbsiqW5xWH25efTNsLJA8knL`.
pub open spec fn associated_token_program_address() -> Seq<u8> {
    seq![140u8, 151, 37, 143, 78, 36, 137, 241, 187, 61, 16, 41, 20, 142, 13, 131, 11, 90, 19, 153, 218, 255, 16, 132, 4, 142, 123, 216, 219, 233, 248, 89]
}

/// Reads `pinocchio_system::ID`, declared in that crate as
/// `11111111111111111111111111111111`; claims its 32 bytes.
#[verifier::external_body]
pub(crate) fn system_program_id() -> (r: [u8; 32])
    ensures
        r@ == system_program_address(),
{
    pinocchio_system::ID.to_bytes()
}

/// Reads `pinocchio_token::ID`, declared in that crate as
/// `TokenkegQfeZyiNwAJbNbGKPFXCWuBvf9Ss623VQ5DA`; claims its 32 bytes.
#[verifier::external_body]
pub(crate) fn token_program_id() -> (r: [u8; 32])
    ensures
        r@ == token_program_address(),
{
    pinocchio_token::ID.to_bytes()
}

/// Reads `pinocchio_associated_token_account::ID`, declared in that crate as
/// `ATokenGPvbdGVxr1b2hvZbsiqW5xWH25efTNsLJA8knL`; claims its 32 bytes.
#[verifier::external_body]
pub(crate) fn associated_token_program_id() -> (r: [u8; 32])
    ensures
        r@ == associated_token_program_address(),
{
    pinocchio_associated_token_account::ID.to_bytes()
}

/// Reads `pinocchio_token::state::Mint::LEN`, the size of the crate's `#[repr(C)]` mint layout:
/// 82 bytes (4 + 32 + 8 + 1 + 1 + 4 + 32, all fields of alignment 1).
#[verifier::external_body]
pub(crate) fn mint_len() -> (r: usize)
    ensures
        r == 82,
{
    pinocchio_token::state::Mint::LEN
}

/// Reads `pinocchio_token::state::Account::LEN`, the size of the crate's `#[repr(C)]` token
/// account layout: 165 bytes (32 + 32 + 8 + 4 + 32 + 1 + 4 + 8 + 8 + 4 + 32, all fields of
/// alignment 1).
#[verifier::external_body]
pub(crate) fn token_account_len() -> (r: usize)
    ensures
        r == 165,
{
    pinocchio_token::state::Account::LEN
}

/// The rent-exempt minimum balance of an account with `space` bytes of data at a rate of
/// `lamports_per_byte`: the data and 128 bytes of account overhead, times the rate; `None` where
/// the data exceeds 10 MiB or the rate exceeds 1_759_197_129_867, the bounds under which the
/// product fits in 64 bits.
pub open spec fn rent_minimum(lamports_per_byte: u64, space: usize) -> Option<u64> {
    if space > 10 * 1024 * 1024 || lamports_per_byte > 1_759_197_129_867 {
        None
    } else {
        Some(((128 + space) * lamports_per_byte) as u64)
    }
}

/// Calls `Rent::try_minimum_balance` of `pinocchio` on the rent built by `Rent::from_bytes` from
/// the rate's bytes in the sysvar's (native) byte order. Claims what the crate's source
/// computes, [`rent_minimum`]; the crate's one error, `InvalidArgument`, comes back as `None`.
#[verifier::external_body]
pub(crate) fn minimum_balance(lamports_per_byte: u64, space: usize) -> (r: Option<u64>)
    ensures
        r == rent_minimum(lamports_per_byte, space),
{
    match pinocchio::sysvars::rent::Rent::from_bytes(&lamports_per_byte.to_ne_bytes()) {
        Ok(rent) => rent.try_minimum_balance(space).ok(),
        Err(_) => None,
    }
}

} // verus!
