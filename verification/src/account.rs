//! What the program reads of an account.
use vstd::prelude::*;

verus! {

/// The fields of an account that the program's decisions read: its address, the program that
/// owns it, whether it signed the transaction, its balance in lamports and its data.
#[derive(Clone, Debug)]
pub struct AccountState {
    pub address: [u8; 32],
    pub owner: [u8; 32],
    pub is_signer: bool,
    pub lamports: u64,
    pub data: Vec<u8>,
}

} // verus!
