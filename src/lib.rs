//! Accounting core of a token staking vault: vault records keyed by
//! (owner, mint, name), account-relationship checks, dispatch between the
//! two token programs, overflow-safe balance updates and a decoder for mint
//! metadata.

pub mod errors;
pub mod events;
pub mod instructions;
pub mod proofs;
pub mod pubkey;
pub mod spl_token_metadata;
pub mod state;
pub mod token_ops;

pub use errors::ErrorCode;
pub use events::{MintEvent, StakeEvent, UnstakeEvent};
pub use instructions::{
    initialize_vault, mint, settle_stake, stake, validate_stake, InitializeVault, Mint,
    MintAccount, MintToInstruction, Stake, TokenAccount, VaultStore,
};
pub use pubkey::Pubkey;
pub use spl_token_metadata::{SplTokenMetadata, TransferFee};
pub use state::Vault;
pub use token_ops::{SplTokenOperation, TransferInstruction};
