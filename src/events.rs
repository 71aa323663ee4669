use crate::pubkey::Pubkey;
use vstd::prelude::*;

verus! {

/// Record of one deposit into a vault.
#[derive(Clone, Copy, Debug, PartialEq, Eq)]
pub struct StakeEvent {
    pub user: Pubkey,
    pub amount: u64,
    pub timestamp: i64,
}

/// Record of one withdrawal from a vault.
#[derive(Clone, Copy, Debug, PartialEq, Eq)]
pub struct UnstakeEvent {
    pub user: Pubkey,
    pub amount: u64,
    pub timestamp: i64,
}

/// Record of share tokens minted to a recipient.
#[derive(Clone, Copy, Debug, PartialEq, Eq)]
pub struct MintEvent {
    pub recipient: Pubkey,
    pub mint: Pubkey,
    pub amount: u64,
    pub timestamp: i64,
}

} // verus!
