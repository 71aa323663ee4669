use crate::errors::ErrorCode;
use crate::pubkey::Pubkey;
use vstd::prelude::*;

verus! {

/// Offset of the decimals byte.
pub const DECIMALS_OFFSET: usize = 32;
/// Offset of the flag byte that announces a transfer fee.
pub const FEE_FLAG_OFFSET: usize = 33;
/// Offset of the flag byte that announces a permanent delegate.
pub const DELEGATE_FLAG_OFFSET: usize = 42;

/// Fee settings of a mint of the extended token program.
#[derive(Clone, Copy, Debug, PartialEq, Eq, Structural)]
pub struct TransferFee {
    pub epoch: u64,
    pub maximum_fee: u64,
    pub transfer_fee_basis_points: u16,
}

/// What the vault reads from a mint account.
#[derive(Clone, Copy, Debug, PartialEq, Eq)]
pub struct SplTokenMetadata {
    pub mint: Pubkey,
    pub decimals: u8,
    pub transfer_fee: Option<TransferFee>,
    pub permanent_delegate: Option<Pubkey>,
}

/// The little-endian `u16` at `o`.
pub open spec fn le_u16_at(d: Seq<u8>, o: int) -> int {
    d[o] as int + d[o + 1] as int * 0x100
}

/// The little-endian `u64` at `o`.
pub open spec fn le_u64_at(d: Seq<u8>, o: int) -> int {
    d[o] as int + d[o + 1] as int * 0x100 + d[o + 2] as int * 0x1_0000 + d[o + 3] as int
        * 0x100_0000 + d[o + 4] as int * 0x1_0000_0000 + d[o + 5] as int * 0x100_0000_0000 + d[o
        + 6] as int * 0x1_0000_0000_0000 + d[o + 7] as int * 0x100_0000_0000_0000
}

/// Whether `d` holds every field that its flag bytes announce: the mint,
/// the decimals and both flags always; the fee section (bytes 34 to 51)
/// when the fee flag is 1; the delegate (bytes 43 to 74) when the delegate
/// flag is 1.
pub open spec fn decodable(d: Seq<u8>) -> bool {
    &&& d.len() > DELEGATE_FLAG_OFFSET
    &&& d[FEE_FLAG_OFFSET as int] == 1 ==> d.len() >= 52
    &&& d[DELEGATE_FLAG_OFFSET as int] == 1 ==> d.len() >= 75
}

/// The fee section of `d`.
pub open spec fn fee_at(d: Seq<u8>) -> TransferFee {
    TransferFee {
        epoch: le_u64_at(d, 34) as u64,
        maximum_fee: le_u64_at(d, 42) as u64,
        transfer_fee_basis_points: le_u16_at(d, 50) as u16,
    }
}

/// `r` is what decoding the mint account data `d` gives.
pub open spec fn decoded(d: Seq<u8>, r: Result<SplTokenMetadata, ErrorCode>) -> bool {
    match r {
        Ok(m) => {
            &&& decodable(d)
            &&& m.mint@ == d.subrange(0, 32)
            &&& m.decimals == d[DECIMALS_OFFSET as int]
            &&& m.transfer_fee == (if d[FEE_FLAG_OFFSET as int] == 1 {
                Some(fee_at(d))
            } else {
                None::<TransferFee>
            })
            &&& match m.permanent_delegate {
                Some(k) => d[DELEGATE_FLAG_OFFSET as int] == 1 && k@ == d.subrange(43, 75),
                None => d[DELEGATE_FLAG_OFFSET as int] != 1,
            }
        },
        Err(e) => !decodable(d) && e == ErrorCode::DecodeFailure,
    }
}

fn read_u16_le(data: &[u8], o: usize) -> (r: u16)
    requires
        o + 2 <= data@.len(),
    ensures
        r as int == le_u16_at(data@, o as int),
{
    (data[o] as u16) + (data[o + 1] as u16) * 0x100
}

fn read_u64_le(data: &[u8], o: usize) -> (r: u64)
    requires
        o + 8 <= data@.len(),
    ensures
        r as int == le_u64_at(data@, o as int),
{
    (data[o] as u64) + (data[o + 1] as u64) * 0x100 + (data[o + 2] as u64) * 0x1_0000 + (data[o
        + 3] as u64) * 0x100_0000 + (data[o + 4] as u64) * 0x1_0000_0000 + (data[o + 5] as u64)
        * 0x100_0000_0000 + (data[o + 6] as u64) * 0x1_0000_0000_0000 + (data[o + 7] as u64)
        * 0x100_0000_0000_0000
}

impl SplTokenMetadata {
    /// Decodes mint account data at fixed offsets: the mint (bytes 0 to 31),
    /// the decimals (32), the fee flag (33) and, when it is 1, the fee epoch
    /// (34 to 41), maximum fee (42 to 49) and basis points (50, 51); the
    /// delegate flag (42) and, when it is 1, the delegate (43 to 74). All
    /// integers are little-endian. Data too short for what it announces is
    /// refused with `DecodeFailure`.
    pub fn try_from_account(data: &[u8]) -> (r: Result<SplTokenMetadata, ErrorCode>)
        ensures
            decoded(data@, r),
    {
        let len = data.len();
        if len <= DELEGATE_FLAG_OFFSET {
            return Err(ErrorCode::DecodeFailure);
        }
        let has_fee = data[FEE_FLAG_OFFSET] == 1;
        let has_delegate = data[DELEGATE_FLAG_OFFSET] == 1;
        if (has_fee && len < 52) || (has_delegate && len < 75) {
            return Err(ErrorCode::DecodeFailure);
        }
        let transfer_fee = if has_fee {
            Some(
                TransferFee {
                    epoch: read_u64_le(data, 34),
                    maximum_fee: read_u64_le(data, 42),
                    transfer_fee_basis_points: read_u16_le(data, 50),
                },
            )
        } else {
            None
        };
        let permanent_delegate = if has_delegate {
            Some(Pubkey::from_slice_at(data, 43))
        } else {
            None
        };
        Ok(
            SplTokenMetadata {
                mint: Pubkey::from_slice_at(data, 0),
                decimals: data[DECIMALS_OFFSET],
                transfer_fee,
                permanent_delegate,
            },
        )
    }
}

} // verus!
