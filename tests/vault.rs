use anchor_lang::prelude::Pubkey as AnchorPubkey;
use kermes::{
    initialize_vault, settle_stake, stake, validate_stake, ErrorCode, InitializeVault, Pubkey,
    SplTokenOperation, Stake, StakeEvent, TokenAccount, TransferInstruction, Vault, VaultStore,
};
use std::str::FromStr;

fn key(b: u8) -> Pubkey {
    Pubkey::new_from_array([b; 32])
}

fn basic_program() -> Pubkey {
    SplTokenOperation::SplToken.program_id()
}

fn extended_program() -> Pubkey {
    SplTokenOperation::SplToken2022.program_id()
}

fn program_id() -> Pubkey {
    Pubkey::new_from_array(
        AnchorPubkey::from_str("3aWDZ2X82E8mx6ACPmKhmvsZUwXftQtQF9u9vTjnJ6FV").unwrap().to_bytes(),
    )
}

fn init_accounts(owner: Pubkey, mint: Pubkey) -> InitializeVault {
    InitializeVault { payer: owner, token_mint: mint, token_mint_owner: basic_program() }
}

fn vault(mint: Pubkey, total: u64) -> Vault {
    Vault { total_staked: total, bump: 254, owner: key(1), token_mint: mint, name: "pool1".to_string() }
}

fn stake_accounts(user: Pubkey, mint: Pubkey, program: Pubkey) -> Stake {
    Stake {
        user,
        user_token_account: TokenAccount { address: key(20), owner: user, mint },
        vault_token_account: TokenAccount { address: key(21), owner: key(99), mint },
        token_mint: mint,
        token_mint_owner: basic_program(),
        token_program: program,
    }
}

#[test]
fn program_ids_are_the_token_programs() {
    let basic = AnchorPubkey::from_str("TokenkegQfeZyiNwAJbNbGKPFXCWuBvf9Ss623VQ5DA").unwrap();
    let extended = AnchorPubkey::from_str("TokenzQdBNbLqP5VEhdkAS6EPFLC1PHnBqCXEpPxuEb").unwrap();
    assert_eq!(basic_program().to_bytes(), basic.to_bytes());
    assert_eq!(extended_program().to_bytes(), extended.to_bytes());
    assert_eq!(SplTokenOperation::from_program_id(&basic_program()), Some(SplTokenOperation::SplToken));
    assert_eq!(SplTokenOperation::from_program_id(&extended_program()), Some(SplTokenOperation::SplToken2022));
    assert_eq!(SplTokenOperation::from_program_id(&key(7)), None);
}

#[test]
fn initialize_records_vault_at_derived_address() {
    let mut store = VaultStore::new(program_id());
    let owner = key(1);
    let mint = key(2);
    let address = initialize_vault(&mut store, &init_accounts(owner, mint), "pool1".to_string()).unwrap();
    let pid = AnchorPubkey::new_from_array(program_id().to_bytes());
    let (expected, bump) = AnchorPubkey::find_program_address(
        &[b"vault", &owner.to_bytes(), &mint.to_bytes(), b"pool1"],
        &pid,
    );
    assert_eq!(address.to_bytes(), expected.to_bytes());
    assert_ne!(address, owner);
    let v = store.get(&address).unwrap();
    assert_eq!(v.total_staked, 0);
    assert_eq!(v.bump, bump);
    assert_eq!(v.owner, owner);
    assert_eq!(v.token_mint, mint);
    assert_eq!(v.name, "pool1");
    assert_eq!(store.len(), 1);
}

#[test]
fn initialize_twice_already_exists() {
    let mut store = VaultStore::new(program_id());
    let accounts = init_accounts(key(1), key(2));
    assert!(initialize_vault(&mut store, &accounts, "pool1".to_string()).is_ok());
    assert_eq!(
        initialize_vault(&mut store, &accounts, "pool1".to_string()),
        Err(ErrorCode::AlreadyExists)
    );
    assert_eq!(store.len(), 1);
}

#[test]
fn initialize_distinct_triples_get_distinct_vaults() {
    let mut store = VaultStore::new(program_id());
    let a = initialize_vault(&mut store, &init_accounts(key(1), key(2)), "pool1".to_string()).unwrap();
    let b = initialize_vault(&mut store, &init_accounts(key(1), key(2)), "pool2".to_string()).unwrap();
    let c = initialize_vault(&mut store, &init_accounts(key(3), key(2)), "pool1".to_string()).unwrap();
    let mut ext = init_accounts(key(1), key(4));
    ext.token_mint_owner = extended_program();
    let d = initialize_vault(&mut store, &ext, "pool1".to_string()).unwrap();
    assert_ne!(a, b);
    assert_ne!(a, c);
    assert_ne!(a, d);
    assert_eq!(store.len(), 4);
}

#[test]
fn initialize_rejects_mint_of_other_program() {
    let mut store = VaultStore::new(program_id());
    let mut accounts = init_accounts(key(1), key(2));
    accounts.token_mint_owner = key(9);
    assert_eq!(
        initialize_vault(&mut store, &accounts, "pool1".to_string()),
        Err(ErrorCode::InvalidTokenMint)
    );
    assert_eq!(store.len(), 0);
}

#[test]
fn initialize_rejects_long_name() {
    let mut store = VaultStore::new(program_id());
    let accounts = init_accounts(key(1), key(2));
    assert_eq!(
        initialize_vault(&mut store, &accounts, "a".repeat(33)),
        Err(ErrorCode::InvalidVaultName)
    );
    assert!(initialize_vault(&mut store, &accounts, "a".repeat(32)).is_ok());
}

#[test]
fn stake_wrong_vault_mint() {
    let mut v = vault(key(2), 0);
    let accounts = stake_accounts(key(5), key(3), basic_program());
    let r = stake(&mut v, &accounts, 10, 6, 100, |_t: TransferInstruction| panic!("no transfer"));
    assert_eq!(r, Err(ErrorCode::InvalidTokenMint));
    assert_eq!(v.total_staked, 0);
}

#[test]
fn stake_foreign_token_account() {
    let mut v = vault(key(2), 0);
    let mut accounts = stake_accounts(key(5), key(2), basic_program());
    accounts.user_token_account.owner = key(6);
    for amount in [0u64, 1, u64::MAX] {
        let r = stake(&mut v, &accounts, amount, 6, 100, |_t: TransferInstruction| true);
        assert_eq!(r, Err(ErrorCode::InvalidTokenAccount));
    }
    assert_eq!(v.total_staked, 0);
}

#[test]
fn stake_account_mints_must_match() {
    let mut v = vault(key(2), 0);
    let mut accounts = stake_accounts(key(5), key(2), basic_program());
    accounts.user_token_account.mint = key(8);
    assert_eq!(validate_stake(&v, &accounts, 1, 0), Err(ErrorCode::InvalidTokenMint));
    let mut accounts = stake_accounts(key(5), key(2), basic_program());
    accounts.vault_token_account.mint = key(8);
    assert_eq!(validate_stake(&v, &accounts, 1, 0), Err(ErrorCode::InvalidTokenMint));
    let mut accounts = stake_accounts(key(5), key(2), basic_program());
    accounts.token_mint_owner = key(8);
    let r = stake(&mut v, &accounts, 1, 0, 0, |_t: TransferInstruction| true);
    assert_eq!(r, Err(ErrorCode::InvalidTokenMint));
}

#[test]
fn stake_unknown_program() {
    let mut v = vault(key(2), 40);
    let accounts = stake_accounts(key(5), key(2), key(77));
    let r = stake(&mut v, &accounts, 10, 6, 100, |_t: TransferInstruction| panic!("no transfer"));
    assert_eq!(r, Err(ErrorCode::InvalidTokenProgram));
    assert_eq!(v.total_staked, 40);
    assert_eq!(v.name, "pool1");
}

#[test]
fn stake_overflow_leaves_total() {
    let mut v = vault(key(2), u64::MAX - 5);
    let accounts = stake_accounts(key(5), key(2), basic_program());
    let r = stake(&mut v, &accounts, 10, 6, 100, |_t: TransferInstruction| true);
    assert_eq!(r, Err(ErrorCode::ArithmeticOverflow));
    assert_eq!(v.total_staked, u64::MAX - 5);
    let r = stake(&mut v, &accounts, 5, 6, 100, |_t: TransferInstruction| true);
    assert!(r.is_ok());
    assert_eq!(v.total_staked, u64::MAX);
}

#[test]
fn stake_failed_transfer() {
    let mut v = vault(key(2), 7);
    let accounts = stake_accounts(key(5), key(2), extended_program());
    let r = stake(&mut v, &accounts, 10, 6, 100, |_t: TransferInstruction| false);
    assert_eq!(r, Err(ErrorCode::TransferFailed));
    assert_eq!(v.total_staked, 7);
    assert_eq!(settle_stake(&mut v, key(5), 1, false, 0), Err(ErrorCode::TransferFailed));
    assert_eq!(v.total_staked, 7);
}

#[test]
fn stake_totals_ignore_order() {
    let accounts = stake_accounts(key(5), key(2), basic_program());
    let mut a = vault(key(2), 0);
    let mut b = vault(key(2), 0);
    for amount in [3u64, 500, 42] {
        stake(&mut a, &accounts, amount, 0, 1, |_t: TransferInstruction| true).unwrap();
    }
    for amount in [42u64, 3, 500] {
        stake(&mut b, &accounts, amount, 0, 1, |_t: TransferInstruction| true).unwrap();
    }
    assert_eq!(a.total_staked, 545);
    assert_eq!(b.total_staked, 545);
}

#[test]
fn end_to_end_basic_then_checked() {
    let owner = key(1);
    let mint = key(2);
    let depositor = key(5);
    let mut store = VaultStore::new(program_id());
    let address = initialize_vault(&mut store, &init_accounts(owner, mint), "pool1".to_string()).unwrap();
    let stored = store.get(&address).unwrap();
    let mut v = Vault {
        total_staked: stored.total_staked,
        bump: stored.bump,
        owner: stored.owner,
        token_mint: stored.token_mint,
        name: stored.name.clone(),
    };

    let mut sent: Vec<TransferInstruction> = Vec::new();
    let accounts = stake_accounts(depositor, mint, basic_program());
    let event = stake(&mut v, &accounts, 1000, 6, 1_700_000_000, |t: TransferInstruction| {
        sent.push(t);
        true
    })
    .unwrap();
    assert_eq!(v.total_staked, 1000);
    assert_eq!(event, StakeEvent { user: depositor, amount: 1000, timestamp: 1_700_000_000 });
    assert_eq!(
        sent[0],
        TransferInstruction::Transfer {
            program: basic_program(),
            from: key(20),
            to: key(21),
            authority: depositor,
            amount: 1000,
        }
    );

    let accounts = stake_accounts(depositor, mint, extended_program());
    let event = stake(&mut v, &accounts, 500, 6, 1_700_000_060, |t: TransferInstruction| {
        sent.push(t);
        true
    })
    .unwrap();
    assert_eq!(v.total_staked, 1500);
    assert_eq!(event, StakeEvent { user: depositor, amount: 500, timestamp: 1_700_000_060 });
    assert_eq!(
        sent[1],
        TransferInstruction::TransferChecked {
            program: extended_program(),
            from: key(20),
            mint,
            to: key(21),
            authority: depositor,
            amount: 500,
            decimals: 6,
        }
    );
    assert_eq!(sent.len(), 2);
}
