use crate::errors::ErrorCode;
use crate::events::{MintEvent, StakeEvent};
use crate::pubkey::Pubkey;
use crate::state::{Vault, MAX_NAME_LEN};
use crate::token_ops::{
    is_token_program, operation_for, owned_by_token_program, spl_token_2022_id,
    transfer_matches, SplTokenOperation, TransferInstruction,
};
use vstd::prelude::*;
use vstd::utf8::encode_utf8;

verus! {

/// First seed of every vault address: the bytes of "vault".
pub open spec fn vault_seed_prefix() -> Seq<u8> {
    seq![118u8, 97u8, 117u8, 108u8, 116u8]
}

/// The seeds a vault's address is derived from.
pub open spec fn vault_seeds(owner: Seq<u8>, mint: Seq<u8>, name: Seq<u8>) -> Seq<Seq<u8>> {
    seq![vault_seed_prefix(), owner, mint, name]
}

/// What `Pubkey::try_find_program_address` gives for these seeds and program.
pub uninterp spec fn program_address(seeds: Seq<Seq<u8>>, program_id: Seq<u8>) -> Option<(Seq<u8>, u8)>;

/// Relies on anchor_lang's `Pubkey::try_find_program_address`, which hashes
/// the seeds, a bump and the program id, and so depends on them alone.
#[verifier::external_body]
fn try_find_program_address(seeds: &Vec<Vec<u8>>, program_id: &Pubkey) -> (r: Option<(Pubkey, u8)>)
    ensures
        program_address(seeds@.map_values(|s: Vec<u8>| s@), program_id@) == (match r {
            Some(p) => Some((p.0@, p.1)),
            None => None::<(Seq<u8>, u8)>,
        }),
{
    let s: Vec<&[u8]> = seeds.iter().map(|x| x.as_slice()).collect();
    let program = anchor_lang::prelude::Pubkey::new_from_array(program_id.bytes);
    anchor_lang::prelude::Pubkey::try_find_program_address(&s, &program).map(
        |(k, b)| (Pubkey { bytes: k.to_bytes() }, b),
    )
}

fn bytes_to_vec(s: &[u8]) -> (r: Vec<u8>)
    ensures
        r@ == s@,
{
    let mut v: Vec<u8> = Vec::new();
    let mut i: usize = 0;
    while i < s.len()
        invariant
            0 <= i <= s@.len(),
            v@ == s@.subrange(0, i as int),
        decreases s@.len() - i,
    {
        v.push(s[i]);
        i += 1;
    }
    assert(v@ =~= s@);
    v
}

/// The accounts that creating a vault names.
#[derive(Clone, Copy, Debug)]
pub struct InitializeVault {
    /// Creates and owns the vault.
    pub payer: Pubkey,
    /// The mint the vault accepts.
    pub token_mint: Pubkey,
    /// The program that owns the mint account.
    pub token_mint_owner: Pubkey,
}

/// The vault records of one program, each at its derived address.
pub struct VaultStore {
    program_id: Pubkey,
    addresses: Vec<Pubkey>,
    vaults: Vec<Vault>,
}

impl VaultStore {
    pub closed spec fn program(&self) -> Seq<u8> {
        self.program_id@
    }

    /// The address of each record, in order of creation.
    pub closed spec fn addresses(&self) -> Seq<Seq<u8>> {
        self.addresses@.map_values(|k: Pubkey| k@)
    }

    /// The records, in the order of `addresses`.
    pub closed spec fn vaults(&self) -> Seq<Vault> {
        self.vaults@
    }

    /// One record per address, and an address for each record.
    pub closed spec fn wf(&self) -> bool {
        &&& self.addresses@.len() == self.vaults@.len()
        &&& forall|i: int, j: int|
            0 <= i < j < self.addresses@.len() ==> self.addresses@[i]@ != self.addresses@[j]@
    }

    pub open spec fn occupied(&self, address: Seq<u8>) -> bool {
        self.addresses().contains(address)
    }

    /// What creating the vault (payer, mint, name) gives: its address and bump, or the error.
    pub open spec fn initialize_outcome(&self, a: InitializeVault, name: Seq<u8>) -> Result<
        (Seq<u8>, u8),
        ErrorCode,
    > {
        if name.len() > MAX_NAME_LEN {
            Err(ErrorCode::InvalidVaultName)
        } else {
            match program_address(vault_seeds(a.payer@, a.token_mint@, name), self.program()) {
                None => Err(ErrorCode::InvalidSeeds),
                Some(p) => if self.occupied(p.0) {
                    Err(ErrorCode::AlreadyExists)
                } else if !is_token_program(a.token_mint_owner@) {
                    Err(ErrorCode::InvalidTokenMint)
                } else {
                    Ok(p)
                },
            }
        }
    }

    /// An empty store for the program `program_id`.
    pub fn new(program_id: Pubkey) -> (r: VaultStore)
        ensures
            r.wf(),
            r.program() == program_id@,
            r.addresses().len() == 0,
    {
        let r = VaultStore { program_id, addresses: Vec::new(), vaults: Vec::new() };
        assert(r.addresses() =~= Seq::<Seq<u8>>::empty());
        r
    }

    pub fn program_id(&self) -> (r: Pubkey)
        ensures
            r@ == self.program(),
    {
        self.program_id
    }

    /// Number of vault records.
    pub fn len(&self) -> (r: usize)
        requires
            self.wf(),
        ensures
            r == self.addresses().len(),
    {
        self.addresses.len()
    }

    /// Position of the record at `address`, if there is one.
    pub fn find(&self, address: &Pubkey) -> (r: Option<usize>)
        requires
            self.wf(),
        ensures
            match r {
                Some(i) => i < self.addresses().len() && self.addresses()[i as int] == address@,
                None => !self.occupied(address@),
            },
    {
        let mut i: usize = 0;
        while i < self.addresses.len()
            invariant
                0 <= i <= self.addresses@.len(),
                forall|j: int| 0 <= j < i ==> self.addresses@[j]@ != address@,
            decreases self.addresses@.len() - i,
        {
            if self.addresses[i].same(address) {
                return Some(i);
            }
            i += 1;
        }
        assert forall|j: int| 0 <= j < self.addresses().len() implies self.addresses()[j]
            != address@ by {}
        None
    }

    /// The record at `address`, if there is one.
    pub fn get(&self, address: &Pubkey) -> (r: Option<&Vault>)
        requires
            self.wf(),
        ensures
            match r {
                Some(v) => exists|i: int|
                    0 <= i < self.addresses().len() && self.addresses()[i] == address@ && *v
                        == self.vaults()[i],
                None => !self.occupied(address@),
            },
    {
        match self.find(address) {
            Some(i) => Some(&self.vaults[i]),
            None => None,
        }
    }
}

/// Creates the vault of (payer, mint, name) at the address derived from
/// `["vault", payer, mint, name]` and the store's program id, with nothing
/// staked. Fails when the name is longer than a record holds, when no
/// address can be derived, when a vault already stands at the address, or
/// when no token program owns the mint. On failure the store is unchanged.
pub fn initialize_vault(store: &mut VaultStore, accounts: &InitializeVault, vault_name: String) -> (r:
    Result<Pubkey, ErrorCode>)
    requires
        old(store).wf(),
    ensures
        final(store).wf(),
        final(store).program() == old(store).program(),
        match old(store).initialize_outcome(*accounts, encode_utf8(vault_name@)) {
            Err(e) => r == Err::<Pubkey, ErrorCode>(e) && *final(store) == *old(store),
            Ok(p) => r matches Ok(k) && k@ == p.0 && final(store).addresses() == old(store).addresses().push(p.0) && final(store).vaults() == old(store).vaults().push(
                Vault {
                    total_staked: 0,
                    bump: p.1,
                    owner: accounts.payer,
                    token_mint: accounts.token_mint,
                    name: vault_name,
                },
            ),
        },
{
    let name_bytes = vault_name.as_str().as_bytes();
    if name_bytes.len() > MAX_NAME_LEN {
        return Err(ErrorCode::InvalidVaultName);
    }
    let mut seeds: Vec<Vec<u8>> = Vec::new();
    seeds.push(vec![118u8, 97u8, 117u8, 108u8, 116u8]);
    seeds.push(bytes_to_vec(accounts.payer.bytes.as_slice()));
    seeds.push(bytes_to_vec(accounts.token_mint.bytes.as_slice()));
    seeds.push(bytes_to_vec(name_bytes));
    assert(seeds@.map_values(|s: Vec<u8>| s@) =~= vault_seeds(
        accounts.payer@,
        accounts.token_mint@,
        encode_utf8(vault_name@),
    ));
    let (address, bump) = match try_find_program_address(&seeds, &store.program_id) {
        Some(p) => p,
        None => return Err(ErrorCode::InvalidSeeds),
    };
    if store.find(&address).is_some() {
        return Err(ErrorCode::AlreadyExists);
    }
    if !owned_by_token_program(&accounts.token_mint_owner) {
        return Err(ErrorCode::InvalidTokenMint);
    }
    let ghost old_addresses = store.addresses@;
    store.addresses.push(address);
    store.vaults.push(
        Vault {
            total_staked: 0,
            bump,
            owner: accounts.payer,
            token_mint: accounts.token_mint,
            name: vault_name,
        },
    );
    assert(store.addresses() =~= old(store).addresses().push(address@));
    assert forall|i: int, j: int|
        0 <= i < j < store.addresses@.len() implies store.addresses@[i]@
        != store.addresses@[j]@ by {
        if j == old_addresses.len() {
            assert(old(store).addresses()[i] == old_addresses[i]@);
        }
    }
    Ok(address)
}

/// A token account as the vault reads it.
#[derive(Clone, Copy, Debug)]
pub struct TokenAccount {
    pub address: Pubkey,
    pub owner: Pubkey,
    pub mint: Pubkey,
}

/// The accounts that a deposit names.
#[derive(Clone, Copy, Debug)]
pub struct Stake {
    /// The depositor, who signs the deposit.
    pub user: Pubkey,
    /// The depositor's token account, the source of the tokens.
    pub user_token_account: TokenAccount,
    /// The vault's custody token account, their destination.
    pub vault_token_account: TokenAccount,
    /// The mint of the staked token.
    pub token_mint: Pubkey,
    /// The program that owns the mint account.
    pub token_mint_owner: Pubkey,
    /// The token program the caller declares for the transfer.
    pub token_program: Pubkey,
}

/// The first relationship among the accounts of a deposit that fails, in
/// the order they are checked, or `None` when all hold.
pub open spec fn stake_check(vault: Vault, a: Stake) -> Option<ErrorCode> {
    if vault.token_mint@ != a.token_mint@ {
        Some(ErrorCode::InvalidTokenMint)
    } else if a.user_token_account.owner@ != a.user@ {
        Some(ErrorCode::InvalidTokenAccount)
    } else if a.user_token_account.mint@ != a.token_mint@ {
        Some(ErrorCode::InvalidTokenMint)
    } else if a.vault_token_account.mint@ != a.token_mint@ {
        Some(ErrorCode::InvalidTokenMint)
    } else if !is_token_program(a.token_mint_owner@) {
        Some(ErrorCode::InvalidTokenMint)
    } else if operation_for(a.token_program@) is None {
        Some(ErrorCode::InvalidTokenProgram)
    } else {
        None
    }
}

/// `r` moves `amount` from the depositor's account to the vault's custody
/// account through the declared program, signed by the depositor.
pub open spec fn stake_transfer(r: TransferInstruction, a: Stake, amount: u64, decimals: u8) -> bool {
    &&& operation_for(a.token_program@) is Some
    &&& transfer_matches(
        r,
        operation_for(a.token_program@).unwrap(),
        a.user_token_account.address,
        a.token_mint,
        a.vault_token_account.address,
        a.user,
        amount,
        decimals,
    )
}

/// `v` with its total replaced by `total`.
pub open spec fn with_total(v: Vault, total: u64) -> Vault {
    Vault {
        total_staked: total,
        bump: v.bump,
        owner: v.owner,
        token_mint: v.token_mint,
        name: v.name,
    }
}

/// Checks the accounts of a deposit and builds the transfer it makes.
pub fn validate_stake(vault: &Vault, accounts: &Stake, amount: u64, decimals: u8) -> (r: Result<
    TransferInstruction,
    ErrorCode,
>)
    ensures
        match stake_check(*vault, *accounts) {
            Some(e) => r == Err::<TransferInstruction, ErrorCode>(e),
            None => r matches Ok(t) && stake_transfer(t, *accounts, amount, decimals),
        },
{
    if !vault.token_mint.same(&accounts.token_mint) {
        return Err(ErrorCode::InvalidTokenMint);
    }
    if !accounts.user_token_account.owner.same(&accounts.user) {
        return Err(ErrorCode::InvalidTokenAccount);
    }
    if !accounts.user_token_account.mint.same(&accounts.token_mint) {
        return Err(ErrorCode::InvalidTokenMint);
    }
    if !accounts.vault_token_account.mint.same(&accounts.token_mint) {
        return Err(ErrorCode::InvalidTokenMint);
    }
    if !owned_by_token_program(&accounts.token_mint_owner) {
        return Err(ErrorCode::InvalidTokenMint);
    }
    let token = match SplTokenOperation::from_program_id(&accounts.token_program) {
        Some(op) => op,
        None => return Err(ErrorCode::InvalidTokenProgram),
    };
    Ok(
        token.transfer(
            accounts.user_token_account.address,
            accounts.token_mint,
            accounts.vault_token_account.address,
            accounts.user,
            amount,
            decimals,
        ),
    )
}

/// Books a deposit whose transfer has run: adds `amount` to the total when
/// the transfer succeeded and the sum fits in a `u64`, and records the event.
/// Otherwise the vault is unchanged.
pub fn settle_stake(vault: &mut Vault, user: Pubkey, amount: u64, transferred: bool, timestamp: i64) -> (r:
    Result<StakeEvent, ErrorCode>)
    ensures
        !transferred ==> r == Err::<StakeEvent, ErrorCode>(ErrorCode::TransferFailed) && *final(vault) == *old(vault),
        transferred && old(vault).total_staked + amount > u64::MAX ==> r == Err::<
            StakeEvent,
            ErrorCode,
        >(ErrorCode::ArithmeticOverflow) && *final(vault) == *old(vault),
        transferred && old(vault).total_staked + amount <= u64::MAX ==> r == Ok::<
            StakeEvent,
            ErrorCode,
        >(StakeEvent { user, amount, timestamp }) && *final(vault) == with_total(
            *old(vault),
            (old(vault).total_staked + amount) as u64,
        ),
{
    if !transferred {
        return Err(ErrorCode::TransferFailed);
    }
    match vault.total_staked.checked_add(amount) {
        Some(total) => {
            vault.total_staked = total;
            Ok(StakeEvent { user, amount, timestamp })
        },
        None => Err(ErrorCode::ArithmeticOverflow),
    }
}

/// A deposit: checks the accounts, hands the transfer to `transfer` (which
/// runs it and tells whether it succeeded), then books it. Nothing is handed
/// to `transfer` when a check fails.
pub fn stake<F: FnOnce(TransferInstruction) -> bool>(
    vault: &mut Vault,
    accounts: &Stake,
    amount: u64,
    decimals: u8,
    timestamp: i64,
    transfer: F,
) -> (r: Result<StakeEvent, ErrorCode>)
    requires
        forall|t: TransferInstruction| transfer.requires((t,)),
    ensures
        match stake_check(*old(vault), *accounts) {
            Some(e) => r == Err::<StakeEvent, ErrorCode>(e) && *final(vault) == *old(vault),
            None => match r {
                Ok(ev) => {
                    &&& old(vault).total_staked + amount <= u64::MAX
                    &&& ev == StakeEvent { user: accounts.user, amount, timestamp }
                    &&& *final(vault) == with_total(
                        *old(vault),
                        (old(vault).total_staked + amount) as u64,
                    )
                    &&& exists|t: TransferInstruction|
                        stake_transfer(t, *accounts, amount, decimals) && transfer.ensures(
                            (t,),
                            true,
                        )
                },
                Err(e) => {
                    &&& *final(vault) == *old(vault)
                    &&& e == ErrorCode::TransferFailed || (e == ErrorCode::ArithmeticOverflow
                        && old(vault).total_staked + amount > u64::MAX)
                },
            },
        },
{
    let instruction = match validate_stake(vault, accounts, amount, decimals) {
        Ok(t) => t,
        Err(e) => return Err(e),
    };
    let transferred = transfer(instruction);
    settle_stake(vault, accounts.user, amount, transferred, timestamp)
}

/// The share mint as the minting step reads it.
#[derive(Clone, Copy, Debug)]
pub struct MintAccount {
    pub address: Pubkey,
    pub mint_authority: Option<Pubkey>,
}

/// The accounts that minting shares names.
#[derive(Clone, Copy, Debug)]
pub struct Mint {
    pub mint: MintAccount,
    /// The recipient's token account for the share token.
    pub user_token_account: TokenAccount,
    /// The signer that claims to be the mint authority.
    pub mint_authority: Pubkey,
    /// The token program the caller declares; it must be the extended one.
    pub token_program: Pubkey,
}

/// A `mint_to` call of the extended token program.
#[derive(Clone, Copy, Debug, PartialEq, Eq)]
pub struct MintToInstruction {
    pub program: Pubkey,
    pub mint: Pubkey,
    pub to: Pubkey,
    pub authority: Pubkey,
    pub amount: u64,
}

/// The first check of a share mint that fails, or `None` when all hold.
pub open spec fn mint_check(a: Mint) -> Option<ErrorCode> {
    if a.user_token_account.mint@ != a.mint.address@ {
        Some(ErrorCode::InvalidTokenMint)
    } else if a.token_program@ != spl_token_2022_id() {
        Some(ErrorCode::InvalidTokenProgram)
    } else if !(a.mint.mint_authority matches Some(k) && k@ == a.mint_authority@) {
        Some(ErrorCode::UnauthorizedMinter)
    } else {
        None
    }
}

/// Mints `amount` share tokens to the recipient's account: checks that the
/// account holds the share mint, that the program is the extended one and
/// that the signer is the mint's authority, hands the `mint_to` call to
/// `mint_to` (which runs it and tells whether it succeeded), and records the
/// event.
pub fn mint<F: FnOnce(MintToInstruction) -> bool>(
    accounts: &Mint,
    amount: u64,
    timestamp: i64,
    mint_to: F,
) -> (r: Result<MintEvent, ErrorCode>)
    requires
        forall|t: MintToInstruction| mint_to.requires((t,)),
    ensures
        match mint_check(*accounts) {
            Some(e) => r == Err::<MintEvent, ErrorCode>(e),
            None => {
                let call = MintToInstruction {
                    program: accounts.token_program,
                    mint: accounts.mint.address,
                    to: accounts.user_token_account.address,
                    authority: accounts.mint_authority,
                    amount,
                };
                match r {
                    Ok(ev) => ev == MintEvent {
                        recipient: accounts.user_token_account.owner,
                        mint: accounts.mint.address,
                        amount,
                        timestamp,
                    } && mint_to.ensures((call,), true),
                    Err(e) => e == ErrorCode::TransferFailed && mint_to.ensures((call,), false),
                }
            },
        },
{
    if !accounts.user_token_account.mint.same(&accounts.mint.address) {
        return Err(ErrorCode::InvalidTokenMint);
    }
    let extended = SplTokenOperation::SplToken2022.program_id();
    if !accounts.token_program.same(&extended) {
        return Err(ErrorCode::InvalidTokenProgram);
    }
    let authorized = match accounts.mint.mint_authority {
        Some(k) => k.same(&accounts.mint_authority),
        None => false,
    };
    if !authorized {
        return Err(ErrorCode::UnauthorizedMinter);
    }
    let call = MintToInstruction {
        program: accounts.token_program,
        mint: accounts.mint.address,
        to: accounts.user_token_account.address,
        authority: accounts.mint_authority,
        amount,
    };
    if !mint_to(call) {
        return Err(ErrorCode::TransferFailed);
    }
    Ok(
        MintEvent {
            recipient: accounts.user_token_account.owner,
            mint: accounts.mint.address,
            amount,
            timestamp,
        },
    )
}

} // verus!
