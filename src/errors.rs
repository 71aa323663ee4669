use vstd::prelude::*;

verus! {

/// Every failure the vault core reports.
#[derive(Clone, Copy, Debug, PartialEq, Eq, Structural)]
pub enum ErrorCode {
    /// A mint does not match the vault's mint, or is not governed by a token program.
    InvalidTokenMint,
    /// The depositor's token account belongs to someone else.
    InvalidTokenAccount,
    /// The declared token program is neither of the two supported ones.
    InvalidTokenProgram,
    /// The signer is not the mint authority of the share mint.
    UnauthorizedMinter,
    /// The staked total would leave the range of a `u64`.
    ArithmeticOverflow,
    /// A vault already occupies the derived address.
    AlreadyExists,
    /// The token program refused the transfer.
    TransferFailed,
    /// Mint account data is too short for the fields it announces.
    DecodeFailure,
    /// The vault name is longer than a vault record can hold.
    InvalidVaultName,
    /// No program address could be derived from the vault's seeds.
    InvalidSeeds,
}

impl ErrorCode {
    /// A human-readable description of the failure.
    pub fn message(&self) -> (r: &'static str) {
        match self {
            ErrorCode::InvalidTokenMint => "Token mint doesn't match vault's token mint",
            ErrorCode::InvalidTokenAccount => "Invalid token account owner",
            ErrorCode::InvalidTokenProgram => "Invalid token program",
            ErrorCode::UnauthorizedMinter => "Unauthorized minter",
            ErrorCode::ArithmeticOverflow => "Arithmetic overflow",
            ErrorCode::AlreadyExists => "Vault already exists",
            ErrorCode::TransferFailed => "Token transfer failed",
            ErrorCode::DecodeFailure => "Mint account data could not be decoded",
            ErrorCode::InvalidVaultName => "Vault name is too long",
            ErrorCode::InvalidSeeds => "No program address for the vault seeds",
        }
    }
}

} // verus!
