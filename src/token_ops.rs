use crate::errors::ErrorCode;
use crate::pubkey::Pubkey;
use crate::spl_token_metadata::SplTokenMetadata;
use vstd::prelude::*;

verus! {

/// Address of the basic token program, "TokenkegQfeZyiNwAJbNbGKPFXCWuBvf9Ss623VQ5DA".
pub open spec fn spl_token_id() -> Seq<u8> {
    seq![
        6u8, 221u8, 246u8, 225u8, 215u8, 101u8, 161u8, 147u8, 217u8, 203u8, 225u8, 70u8, 206u8,
        235u8, 121u8, 172u8, 28u8, 180u8, 133u8, 237u8, 95u8, 91u8, 55u8, 145u8, 58u8, 140u8,
        245u8, 133u8, 126u8, 255u8, 0u8, 169u8,
    ]
}

/// Address of the extended token program, "TokenzQdBNbLqP5VEhdkAS6EPFLC1PHnBqCXEpPxuEb".
pub open spec fn spl_token_2022_id() -> Seq<u8> {
    seq![
        6u8, 221u8, 246u8, 225u8, 238u8, 117u8, 143u8, 222u8, 24u8, 66u8, 93u8, 188u8, 228u8,
        108u8, 205u8, 218u8, 182u8, 26u8, 252u8, 77u8, 131u8, 185u8, 13u8, 39u8, 254u8, 189u8,
        249u8, 40u8, 216u8, 161u8, 139u8, 252u8,
    ]
}

/// Whether an account owned by `program` is governed by one of the two token programs.
pub open spec fn is_token_program(program: Seq<u8>) -> bool {
    program == spl_token_id() || program == spl_token_2022_id()
}

/// Relies on anchor_spl::token::ID, spl-token's
/// `declare_id!("TokenkegQfeZyiNwAJbNbGKPFXCWuBvf9Ss623VQ5DA")`.
#[verifier::external_body]
fn spl_token_program_id() -> (r: Pubkey)
    ensures
        r@ == spl_token_id(),
{
    Pubkey { bytes: anchor_spl::token::ID.to_bytes() }
}

/// Relies on anchor_spl::token_2022::ID, spl-token-2022's
/// `declare_id!("TokenzQdBNbLqP5VEhdkAS6EPFLC1PHnBqCXEpPxuEb")`.
#[verifier::external_body]
fn spl_token_2022_program_id() -> (r: Pubkey)
    ensures
        r@ == spl_token_2022_id(),
{
    Pubkey { bytes: anchor_spl::token_2022::ID.to_bytes() }
}

/// Whether `program` is one of the two token programs.
pub fn owned_by_token_program(program: &Pubkey) -> (r: bool)
    ensures
        r == is_token_program(program@),
{
    let basic = spl_token_program_id();
    let extended = spl_token_2022_program_id();
    program.same(&basic) || program.same(&extended)
}

/// A token movement, in the shape the chosen token program expects it.
#[derive(Clone, Copy, Debug, PartialEq, Eq)]
pub enum TransferInstruction {
    /// A plain transfer: no mint, no decimals.
    Transfer { program: Pubkey, from: Pubkey, to: Pubkey, authority: Pubkey, amount: u64 },
    /// A transfer that the program checks against the mint's decimals and fee settings.
    TransferChecked {
        program: Pubkey,
        from: Pubkey,
        mint: Pubkey,
        to: Pubkey,
        authority: Pubkey,
        amount: u64,
        decimals: u8,
    },
}

/// The two token programs a vault can move tokens through.
#[derive(Clone, Copy, Debug, PartialEq, Eq, Structural)]
pub enum SplTokenOperation {
    /// The basic token program: `transfer(from, to, authority, amount)`.
    SplToken,
    /// The extended program: `transfer_checked(from, mint, to, authority, amount, decimals)`.
    SplToken2022,
}

/// The token program whose address is `program`, if any.
pub open spec fn operation_for(program: Seq<u8>) -> Option<SplTokenOperation> {
    if program == spl_token_id() {
        Some(SplTokenOperation::SplToken)
    } else if program == spl_token_2022_id() {
        Some(SplTokenOperation::SplToken2022)
    } else {
        None
    }
}

impl SplTokenOperation {
    pub open spec fn id(&self) -> Seq<u8> {
        match self {
            SplTokenOperation::SplToken => spl_token_id(),
            SplTokenOperation::SplToken2022 => spl_token_2022_id(),
        }
    }

    /// Picks the program by its exact address; there is no fallback.
    pub fn from_program_id(program: &Pubkey) -> (r: Option<SplTokenOperation>)
        ensures
            r == operation_for(program@),
    {
        let basic = spl_token_program_id();
        if program.same(&basic) {
            return Some(SplTokenOperation::SplToken);
        }
        let extended = spl_token_2022_program_id();
        if program.same(&extended) {
            return Some(SplTokenOperation::SplToken2022);
        }
        None
    }

    /// The address of this program.
    pub fn program_id(&self) -> (r: Pubkey)
        ensures
            r@ == self.id(),
    {
        match self {
            SplTokenOperation::SplToken => spl_token_program_id(),
            SplTokenOperation::SplToken2022 => spl_token_2022_program_id(),
        }
    }

    /// The instruction that moves `amount` units from `from` to `to`, signed
    /// by `authority`. The basic program takes neither `mint` nor `decimals`.
    pub fn transfer(
        &self,
        from: Pubkey,
        mint: Pubkey,
        to: Pubkey,
        authority: Pubkey,
        amount: u64,
        decimals: u8,
    ) -> (r: TransferInstruction)
        ensures
            transfer_matches(r, *self, from, mint, to, authority, amount, decimals),
    {
        let program = self.program_id();
        match self {
            SplTokenOperation::SplToken => TransferInstruction::Transfer {
                program,
                from,
                to,
                authority,
                amount,
            },
            SplTokenOperation::SplToken2022 => TransferInstruction::TransferChecked {
                program,
                from,
                mint,
                to,
                authority,
                amount,
                decimals,
            },
        }
    }

    /// Reads the metadata of a mint account owned by this program.
    pub fn get_metadata(&self, data: &[u8]) -> (r: Result<SplTokenMetadata, ErrorCode>)
        ensures
            crate::spl_token_metadata::decoded(data@, r),
    {
        SplTokenMetadata::try_from_account(data)
    }
}

/// `r` is the instruction of program `op` for these parties and figures.
pub open spec fn transfer_matches(
    r: TransferInstruction,
    op: SplTokenOperation,
    from: Pubkey,
    mint: Pubkey,
    to: Pubkey,
    authority: Pubkey,
    amount: u64,
    decimals: u8,
) -> bool {
    match (op, r) {
        (
            SplTokenOperation::SplToken,
            TransferInstruction::Transfer { program, from: f, to: t, authority: a, amount: n },
        ) => program@ == op.id() && f == from && t == to && a == authority && n == amount,
        (
            SplTokenOperation::SplToken2022,
            TransferInstruction::TransferChecked {
                program,
                from: f,
                mint: m,
                to: t,
                authority: a,
                amount: n,
                decimals: d,
            },
        ) => program@ == op.id() && f == from && m == mint && t == to && a == authority && n
            == amount && d == decimals,
        _ => false,
    }
}

} // verus!
