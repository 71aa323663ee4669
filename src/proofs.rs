use crate::errors::ErrorCode;
use crate::instructions::{stake_check, InitializeVault, Stake, VaultStore};
use crate::spl_token_metadata::{decodable, decoded, fee_at, le_u64_at, SplTokenMetadata};
use crate::state::Vault;
use crate::token_ops::{is_token_program, operation_for};
use vstd::prelude::*;
use vstd::seq_lib::{to_multiset_build, to_multiset_contains, to_multiset_remove};

verus! {

/// The sum of a run of amounts.
pub open spec fn sum(amounts: Seq<u64>) -> int
    decreases amounts.len(),
{
    if amounts.len() == 0 {
        0
    } else {
        sum(amounts.drop_last()) + amounts.last()
    }
}

/// Once a vault has been created for an owner, a mint and a name, creating
/// it again for the same three fails with `AlreadyExists`.
pub proof fn second_initialize_fails(
    before: VaultStore,
    after: VaultStore,
    accounts: InitializeVault,
    name: Seq<u8>,
)
    requires
        before.initialize_outcome(accounts, name) is Ok,
        after.program() == before.program(),
        after.addresses() == before.addresses().push(
            before.initialize_outcome(accounts, name).unwrap().0,
        ),
    ensures
        after.initialize_outcome(accounts, name) == Err::<(Seq<u8>, u8), ErrorCode>(
            ErrorCode::AlreadyExists,
        ),
{
    let address = before.initialize_outcome(accounts, name).unwrap().0;
    assert(after.addresses()[before.addresses().len() as int] == address);
}

/// A run of successful deposits into a vault that starts empty leaves
/// the sum of their amounts staked: `totals[i]` is the total before the
/// `i`-th deposit and `totals[i + 1]` the one after it.
pub proof fn total_is_sum_of_deposits(totals: Seq<u64>, amounts: Seq<u64>)
    requires
        totals.len() == amounts.len() + 1,
        totals[0] == 0,
        forall|i: int| 0 <= i < amounts.len() ==> totals[i + 1] == totals[i] + amounts[i],
    ensures
        totals.last() == sum(amounts),
    decreases amounts.len(),
{
    if amounts.len() > 0 {
        total_is_sum_of_deposits(totals.drop_last(), amounts.drop_last());
    }
}

/// Taking one amount out of a run lowers its sum by that amount.
pub proof fn sum_without(s: Seq<u64>, j: int)
    requires
        0 <= j < s.len(),
    ensures
        sum(s) == sum(s.remove(j)) + s[j],
    decreases s.len(),
{
    if j == s.len() - 1 {
        assert(s.remove(j) =~= s.drop_last());
    } else {
        let t = s.drop_last();
        sum_without(t, j);
        assert(s.remove(j).drop_last() =~= t.remove(j));
    }
}

/// The staked total does not depend on the order of the deposits: two runs
/// of the same amounts in any order have the same sum.
pub proof fn sum_ignores_order(a: Seq<u64>, b: Seq<u64>)
    requires
        a.to_multiset() == b.to_multiset(),
    ensures
        sum(a) == sum(b),
    decreases a.len(),
{
    broadcast use vstd::multiset::group_multiset_axioms;

    vstd::seq_lib::to_multiset_len(a);
    vstd::seq_lib::to_multiset_len(b);
    if a.len() > 0 {
        let x = a.last();
        let a1 = a.drop_last();
        assert(a =~= a1.push(x));
        to_multiset_build(a1, x);
        to_multiset_contains(b, x);
        assert(b.contains(x));
        let j = choose|j: int| 0 <= j < b.len() && b[j] == x;
        let b1 = b.remove(j);
        to_multiset_remove(b, j);
        assert(a1.to_multiset() =~= b1.to_multiset());
        sum_ignores_order(a1, b1);
        sum_without(b, j);
    }
}

/// A deposit whose declared mint is not the vault's fails with
/// `InvalidTokenMint`, whatever the other accounts are.
pub proof fn foreign_mint_is_refused(vault: Vault, accounts: Stake)
    requires
        vault.token_mint@ != accounts.token_mint@,
    ensures
        stake_check(vault, accounts) == Some(ErrorCode::InvalidTokenMint),
{
}

/// A deposit from a token account that the depositor does not own fails
/// with `InvalidTokenAccount` (once the vault's mint is the declared one).
pub proof fn foreign_token_account_is_refused(vault: Vault, accounts: Stake)
    requires
        vault.token_mint@ == accounts.token_mint@,
        accounts.user_token_account.owner@ != accounts.user@,
    ensures
        stake_check(vault, accounts) == Some(ErrorCode::InvalidTokenAccount),
{
}

/// A deposit through a program that is neither token program fails with
/// `InvalidTokenProgram` once the account relationships hold; `stake` then
/// leaves the vault unchanged.
pub proof fn unknown_program_is_refused(vault: Vault, accounts: Stake)
    requires
        vault.token_mint@ == accounts.token_mint@,
        accounts.user_token_account.owner@ == accounts.user@,
        accounts.user_token_account.mint@ == accounts.token_mint@,
        accounts.vault_token_account.mint@ == accounts.token_mint@,
        is_token_program(accounts.token_mint_owner@),
        !is_token_program(accounts.token_program@),
    ensures
        stake_check(vault, accounts) == Some(ErrorCode::InvalidTokenProgram),
{
    assert(operation_for(accounts.token_program@) is None);
}

/// Decoding 52 bytes whose fee flag is set (and whose delegate flag, which
/// shares its byte with the maximum fee, is not) gives the fee fields
/// exactly as the bytes at their offsets hold them.
pub proof fn fee_section_decodes_exactly(d: Seq<u8>, r: Result<SplTokenMetadata, ErrorCode>)
    requires
        decoded(d, r),
        d.len() == 52,
        d[33] == 1,
        d[42] != 1,
    ensures
        r matches Ok(m) && m.transfer_fee == Some(fee_at(d)),
        fee_at(d).epoch as int == le_u64_at(d, 34),
        fee_at(d).maximum_fee as int == le_u64_at(d, 42),
        fee_at(d).transfer_fee_basis_points as int == d[50] as int + d[51] as int * 256,
{
    assert(decodable(d));
}

/// Decoding fewer than 33 bytes fails with `DecodeFailure`.
pub proof fn short_data_is_refused(d: Seq<u8>, r: Result<SplTokenMetadata, ErrorCode>)
    requires
        decoded(d, r),
        d.len() < 33,
    ensures
        r == Err::<SplTokenMetadata, ErrorCode>(ErrorCode::DecodeFailure),
{
}

} // verus!
