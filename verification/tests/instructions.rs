use serum_rust_cli::address::{Address, RENT_SYSVAR_ID, SYSTEM_PROGRAM_ID, TOKEN_PROGRAM_ID};
use serum_rust_cli::dex::{create_dex_account, padded_len, OPEN_ORDERS_LEN};
use serum_rust_cli::error::ClientError;
use serum_rust_cli::instruction::{
    create_account, init_open_orders_instruction, initialize_account, initialize_market,
    initialize_mint, mint_to, AccountMeta, Instruction, MarketAccounts,
};
use serum_rust_cli::ledger::RentQuote;
use solana_program::pubkey::Pubkey;

fn address(seed: u8) -> Address {
    let mut bytes = [seed; 32];
    bytes[0] = seed.wrapping_add(1);
    bytes[31] = seed.wrapping_mul(3);
    Address::new(bytes)
}

fn key(a: &Address) -> Pubkey {
    Pubkey::new_from_array(a.bytes)
}

fn metas(ix: &Instruction) -> Vec<([u8; 32], bool, bool)> {
    ix.accounts.iter().map(|m| (m.pubkey.bytes, m.is_signer, m.is_writable)).collect()
}

fn outside_metas(ix: &solana_program::instruction::Instruction) -> Vec<([u8; 32], bool, bool)> {
    ix.accounts.iter().map(|m| (m.pubkey.to_bytes(), m.is_signer, m.is_writable)).collect()
}

#[test]
fn account_meta_constructors() {
    let a = address(1);
    let w = AccountMeta::new(a, true);
    assert!(w.is_writable && w.is_signer && w.pubkey.bytes == a.bytes);
    let r = AccountMeta::new_readonly(a, false);
    assert!(!r.is_writable && !r.is_signer && r.pubkey.bytes == a.bytes);
}

#[test]
fn create_account_is_the_system_instruction() {
    let (from, to, owner) = (address(1), address(2), address(3));
    let ix = create_account(&from, &to, 0x0102030405060708, 388, &owner);
    assert_eq!(ix.program_id.bytes, SYSTEM_PROGRAM_ID);
    assert_eq!(metas(&ix), vec![(from.bytes, true, true), (to.bytes, true, true)]);
    let mut data = vec![0u8, 0, 0, 0, 8, 7, 6, 5, 4, 3, 2, 1, 0x84, 1, 0, 0, 0, 0, 0, 0];
    data.extend_from_slice(&owner.bytes);
    assert_eq!(ix.data, data);
}

#[test]
fn create_dex_account_adds_the_padding() {
    let (program, payer, fresh) = (address(9), address(1), address(2));
    assert_eq!(padded_len(376), Some(388));
    assert_eq!(padded_len(0), Some(12));
    assert_eq!(padded_len(usize::MAX - 11), None);
    let rent = RentQuote { len: 388, lamports: 3_591_360 };
    let ix = create_dex_account(&program, &payer, &fresh, 376, &rent).unwrap();
    let expected = solana_program::system_instruction::create_account(
        &key(&payer),
        &key(&fresh),
        3_591_360,
        388,
        &key(&program),
    );
    assert_eq!(ix.program_id.bytes, expected.program_id.to_bytes());
    assert_eq!(metas(&ix), outside_metas(&expected));
    assert_eq!(ix.data, expected.data);
}

#[test]
fn create_dex_account_refuses_a_quote_for_another_length() {
    let (program, payer, fresh) = (address(9), address(1), address(2));
    for len in [0usize, 376, 387, 389, OPEN_ORDERS_LEN + 12] {
        let rent = RentQuote { len, lamports: 1 };
        let made = create_dex_account(&program, &payer, &fresh, 376, &rent);
        assert!(matches!(made, Err(ClientError::UnexpectedReply)));
    }
    let rent = RentQuote { len: OPEN_ORDERS_LEN + 12, lamports: 7 };
    assert!(create_dex_account(&program, &payer, &fresh, OPEN_ORDERS_LEN, &rent).is_ok());
    let rent = RentQuote { len: 5, lamports: 7 };
    assert!(create_dex_account(&program, &payer, &fresh, usize::MAX - 6, &rent).is_err());
}

#[test]
fn initialize_account_is_the_token_instruction() {
    let (account, mint, owner) = (address(4), address(5), address(6));
    let ix = initialize_account(&account, &mint, &owner);
    assert_eq!(ix.program_id.bytes, TOKEN_PROGRAM_ID);
    assert_eq!(
        metas(&ix),
        vec![
            (account.bytes, false, true),
            (mint.bytes, false, false),
            (owner.bytes, false, false),
            (RENT_SYSVAR_ID, false, false),
        ]
    );
    assert_eq!(ix.data, vec![1u8]);
}

#[test]
fn initialize_mint_is_the_token_instruction() {
    let (mint, authority) = (address(7), address(8));
    let ix = initialize_mint(&mint, &authority, 3);
    assert_eq!(ix.program_id.bytes, TOKEN_PROGRAM_ID);
    assert_eq!(metas(&ix), vec![(mint.bytes, false, true), (RENT_SYSVAR_ID, false, false)]);
    let mut data = vec![0u8, 3];
    data.extend_from_slice(&authority.bytes);
    data.push(0);
    assert_eq!(ix.data, data);
}

#[test]
fn mint_to_is_the_token_instruction() {
    let (mint, account, authority) = (address(7), address(4), address(8));
    let ix = mint_to(&mint, &account, &authority, 1_000_000_000_000_000);
    assert_eq!(ix.program_id.bytes, TOKEN_PROGRAM_ID);
    assert_eq!(
        metas(&ix),
        vec![
            (mint.bytes, false, true),
            (account.bytes, false, true),
            (authority.bytes, true, false),
        ]
    );
    let mut data = vec![7u8];
    data.extend_from_slice(&1_000_000_000_000_000u64.to_le_bytes());
    assert_eq!(ix.data, data);
}

fn market_accounts() -> MarketAccounts {
    MarketAccounts {
        market: address(10),
        request_queue: address(11),
        event_queue: address(12),
        bids: address(13),
        asks: address(14),
        coin_vault: address(15),
        pc_vault: address(16),
        coin_mint: address(17),
        pc_mint: address(18),
    }
}

#[test]
fn initialize_market_is_the_exchange_instruction() {
    let program = address(20);
    let a = market_accounts();
    let ix = initialize_market(&program, &a, 1_000_000, 10_000, 2, 100);
    assert_eq!(ix.program_id.bytes, program.bytes);
    assert_eq!(
        metas(&ix),
        vec![
            (a.market.bytes, false, true),
            (a.request_queue.bytes, false, true),
            (a.event_queue.bytes, false, true),
            (a.bids.bytes, false, true),
            (a.asks.bytes, false, true),
            (a.coin_vault.bytes, false, true),
            (a.pc_vault.bytes, false, true),
            (a.coin_mint.bytes, false, false),
            (a.pc_mint.bytes, false, false),
            (RENT_SYSVAR_ID, false, false),
        ]
    );
    let mut data = vec![0u8, 0, 0, 0, 0];
    data.extend_from_slice(&1_000_000u64.to_le_bytes());
    data.extend_from_slice(&10_000u64.to_le_bytes());
    data.extend_from_slice(&0u16.to_le_bytes());
    data.extend_from_slice(&2u64.to_le_bytes());
    data.extend_from_slice(&100u64.to_le_bytes());
    assert_eq!(ix.data, data);
    let expected = serum_dex::instruction::initialize_market(
        &key(&a.market),
        &key(&program),
        &key(&a.coin_mint),
        &key(&a.pc_mint),
        &key(&a.coin_vault),
        &key(&a.pc_vault),
        None,
        None,
        None,
        &key(&a.bids),
        &key(&a.asks),
        &key(&a.request_queue),
        &key(&a.event_queue),
        1_000_000,
        10_000,
        2,
        100,
    )
    .unwrap();
    assert_eq!(metas(&ix), outside_metas(&expected));
    assert_eq!(ix.data, expected.data);
}

#[test]
fn init_open_orders_is_the_exchange_instruction() {
    let (program, orders, owner, market) = (address(20), address(21), address(22), address(10));
    let ix = init_open_orders_instruction(&program, &orders, &owner, &market);
    assert_eq!(ix.program_id.bytes, program.bytes);
    assert_eq!(
        metas(&ix),
        vec![
            (orders.bytes, false, true),
            (owner.bytes, true, false),
            (market.bytes, false, false),
            (RENT_SYSVAR_ID, false, false),
        ]
    );
    assert_eq!(ix.data, vec![0u8, 15, 0, 0, 0]);
}
