use crate::pubkey::Pubkey;
use vstd::prelude::*;

verus! {

/// Longest vault name, in bytes; it is also the longest seed an address
/// derivation takes.
pub const MAX_NAME_LEN: usize = 32;

/// The persistent record of one vault.
#[derive(Debug)]
pub struct Vault {
    pub total_staked: u64,
    pub bump: u8,
    pub owner: Pubkey,
    pub token_mint: Pubkey,
    pub name: String,
}

impl Vault {
    /// Bytes of storage a vault record takes: an 8-byte header, the total,
    /// the bump, two addresses and a length-prefixed name.
    pub const LEN: usize = 8 + 8 + 1 + 32 + 32 + 4 + 32;
}

} // verus!
