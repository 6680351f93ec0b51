use serum_rust_cli::address::Address;
use serum_rust_cli::dex::{
    account_content, encode_market_account, get_keys_for_market, remove_dex_account_padding,
    MarketTerms,
};
use serum_rust_cli::error::ClientError;
use serum_rust_cli::order::{fetch_and_show_orders, read_book, ASKS_FLAGS, BIDS_FLAGS};
use serum_rust_cli::vault::find_vault_signer;
use serum_rust_cli::MarketPubkeys;
use serum_dex::critbit::{LeafNode, Slab, SlabView};
use serum_dex::state::{Market, MarketState, ToAlignedBytes};
use solana_program::pubkey::Pubkey;

fn address(seed: u8) -> Address {
    let mut bytes = [0u8; 32];
    for (i, b) in bytes.iter_mut().enumerate() {
        *b = seed.wrapping_mul(7).wrapping_add(i as u8);
    }
    Address::new(bytes)
}

fn program() -> Address {
    address(200)
}

fn market_keys() -> (MarketPubkeys, MarketTerms) {
    let market = address(1);
    let (nonce, signer) = find_vault_signer(&market, &program(), 0, 100).unwrap();
    let keys = MarketPubkeys {
        market: Box::new(market),
        req_q: Box::new(address(2)),
        event_q: Box::new(address(3)),
        bids: Box::new(address(4)),
        asks: Box::new(address(5)),
        coin_vault: Box::new(address(6)),
        pc_vault: Box::new(address(7)),
        vault_signer_key: Box::new(signer),
    };
    let terms = MarketTerms {
        vault_signer_nonce: nonce,
        coin_mint: address(8),
        pc_mint: address(9),
        coin_lot_size: 1_000_000,
        pc_lot_size: 10_000,
        pc_dust_threshold: 100,
    };
    (keys, terms)
}

fn assert_same(found: &MarketPubkeys, expected: &MarketPubkeys) {
    assert_eq!(found.market.bytes, expected.market.bytes);
    assert_eq!(found.req_q.bytes, expected.req_q.bytes);
    assert_eq!(found.event_q.bytes, expected.event_q.bytes);
    assert_eq!(found.bids.bytes, expected.bids.bytes);
    assert_eq!(found.asks.bytes, expected.asks.bytes);
    assert_eq!(found.coin_vault.bytes, expected.coin_vault.bytes);
    assert_eq!(found.pc_vault.bytes, expected.pc_vault.bytes);
    assert_eq!(found.vault_signer_key.bytes, expected.vault_signer_key.bytes);
}

#[test]
fn padding_is_stripped_and_words_are_little_endian() {
    let mut data = b"serum".to_vec();
    data.extend_from_slice(&[1, 0, 0, 0, 0, 0, 0, 0, 8, 7, 6, 5, 4, 3, 2, 1]);
    data.extend_from_slice(b"padding");
    assert_eq!(remove_dex_account_padding(&data).unwrap(), vec![1u64, 0x0102030405060708]);
    assert_eq!(account_content(&data).unwrap(), &data[5..21]);
}

#[test]
fn short_or_unpadded_accounts_are_malformed() {
    for data in [
        Vec::new(),
        b"seru".to_vec(),
        b"serumpaddin".to_vec(),
        b"serumpadding".to_vec(),
        b"serum1234567padding".to_vec(),
        b"Serum12345678padding".to_vec(),
        b"serum12345678padding!".to_vec(),
        b"serum12345678Padding".to_vec(),
    ] {
        assert!(matches!(remove_dex_account_padding(&data), Err(ClientError::MalformedAccount)));
    }
    assert!(account_content(b"serumpadding").unwrap().is_empty());
    assert!(matches!(account_content(b"serumpaddinG"), Err(ClientError::MalformedAccount)));
    assert!(remove_dex_account_padding(b"serum12345678padding").is_ok());
}

#[test]
fn round_trip_reproduces_the_address_set() {
    let (keys, terms) = market_keys();
    let data = encode_market_account(&keys, &terms);
    assert_eq!(data.len(), 388);
    let found = get_keys_for_market(&program(), &keys.market, &data).unwrap();
    assert_same(&found, &keys);
}

#[test]
fn the_encoded_record_is_the_exchange_programs_record() {
    let (keys, terms) = market_keys();
    let data = encode_market_account(&keys, &terms);
    let flags = Market::account_flags(&data).unwrap();
    assert_eq!(flags.bits(), 3);
    let state: &MarketState = bytemuck::from_bytes(&data[5..381]);
    assert!(state.check_flags(false).is_ok());
    let words = |a: &Address| Pubkey::new_from_array(a.bytes).to_aligned_bytes();
    assert_eq!({ state.own_address }, words(&keys.market));
    assert_eq!({ state.vault_signer_nonce }, terms.vault_signer_nonce);
    assert_eq!({ state.coin_mint }, words(&terms.coin_mint));
    assert_eq!({ state.pc_mint }, words(&terms.pc_mint));
    assert_eq!({ state.coin_vault }, words(&keys.coin_vault));
    assert_eq!({ state.pc_vault }, words(&keys.pc_vault));
    assert_eq!({ state.req_q }, words(&keys.req_q));
    assert_eq!({ state.event_q }, words(&keys.event_q));
    assert_eq!({ state.bids }, words(&keys.bids));
    assert_eq!({ state.asks }, words(&keys.asks));
    assert_eq!({ state.coin_lot_size }, 1_000_000);
    assert_eq!({ state.pc_lot_size }, 10_000);
    assert_eq!({ state.pc_dust_threshold }, 100);
    assert_eq!({ state.fee_rate_bps }, 0);
    assert_eq!({ state.coin_deposits_total }, 0);
    assert_eq!({ state.pc_fees_accrued }, 0);
}

#[test]
fn a_corrupted_tail_padding_is_malformed() {
    let (keys, terms) = market_keys();
    let good = encode_market_account(&keys, &terms);
    for at in 381..388 {
        let mut data = good.clone();
        data[at] ^= 0x20;
        let found = get_keys_for_market(&program(), &keys.market, &data);
        assert!(matches!(found, Err(ClientError::MalformedAccount)));
    }
    for at in 0..5 {
        let mut data = good.clone();
        data[at] = 0;
        let found = get_keys_for_market(&program(), &keys.market, &data);
        assert!(matches!(found, Err(ClientError::MalformedAccount)));
    }
    let mut truncated = good.clone();
    truncated.pop();
    assert!(get_keys_for_market(&program(), &keys.market, &truncated).is_err());
    assert!(get_keys_for_market(&program(), &keys.market, &[]).is_err());
}

#[test]
fn a_record_of_another_market_is_malformed() {
    let (keys, terms) = market_keys();
    let data = encode_market_account(&keys, &terms);
    assert!(matches!(
        get_keys_for_market(&program(), &address(77), &data),
        Err(ClientError::MalformedAccount)
    ));
    let mut other = data.clone();
    other[5 + 8] ^= 1;
    assert!(get_keys_for_market(&program(), &keys.market, &other).is_err());
}

#[test]
fn a_nonce_that_derives_nothing_is_malformed() {
    let market = address(1);
    let mut nonce = 0u64;
    while serum_rust_cli::vault::gen_vault_signer_key(nonce, &market, &program()).is_some() {
        nonce += 1;
    }
    let (keys, mut terms) = market_keys();
    terms.vault_signer_nonce = nonce;
    let data = encode_market_account(&keys, &terms);
    assert!(matches!(
        get_keys_for_market(&program(), &keys.market, &data),
        Err(ClientError::MalformedAccount)
    ));
}

#[test]
fn flags_select_the_layout() {
    let (keys, terms) = market_keys();
    let good = encode_market_account(&keys, &terms);
    let with_flags = |flags: u64| {
        let mut data = good.clone();
        data[5..13].copy_from_slice(&flags.to_le_bytes());
        data
    };
    assert!(get_keys_for_market(&program(), &keys.market, &with_flags(3)).is_ok());
    assert!(get_keys_for_market(&program(), &keys.market, &with_flags(131)).is_ok());
    for flags in [0u64, 1, 2, 7, 35, 515, 643, 2048 + 3, 1 << 40, u64::MAX] {
        let found = get_keys_for_market(&program(), &keys.market, &with_flags(flags));
        assert!(matches!(found, Err(ClientError::MalformedAccount)));
    }
    let permissioned = |flags: u64| {
        let mut data = good[..381].to_vec();
        data[5..13].copy_from_slice(&flags.to_le_bytes());
        data.extend_from_slice(&[0u8; 1464 - 376]);
        data.extend_from_slice(b"padding");
        data
    };
    for flags in [515u64, 1539, 643, 1667] {
        let data = permissioned(flags);
        assert_eq!(data.len(), 1476);
        let found = get_keys_for_market(&program(), &keys.market, &data).unwrap();
        assert_same(&found, &keys);
    }
    for flags in [3u64, 131, 512, 1024 + 3] {
        assert!(get_keys_for_market(&program(), &keys.market, &permissioned(flags)).is_err());
    }
}

fn leaf(order_id: u128, client_order_id: u64, quantity: u64) -> LeafNode {
    let mut bytes = [0u8; 72];
    bytes[0..4].copy_from_slice(&2u32.to_le_bytes());
    bytes[4] = 1;
    bytes[8..24].copy_from_slice(&order_id.to_le_bytes());
    bytes[24..56].copy_from_slice(&[9u8; 32]);
    bytes[56..64].copy_from_slice(&quantity.to_le_bytes());
    bytes[64..72].copy_from_slice(&client_order_id.to_le_bytes());
    *bytemuck::from_bytes::<LeafNode>(&bytes)
}

fn book(flags: u64, orders: &[(u128, u64, u64)], nodes: usize, slop: usize) -> Vec<u8> {
    let mut slab_bytes = vec![0u8; 32 + 72 * nodes + slop];
    {
        let slab = Slab::new(&mut slab_bytes);
        for (order_id, client, quantity) in orders {
            slab.insert_leaf(&leaf(*order_id, *client, *quantity)).unwrap();
        }
    }
    let mut data = b"serum".to_vec();
    data.extend_from_slice(&flags.to_le_bytes());
    data.extend_from_slice(&slab_bytes);
    data.extend_from_slice(b"padding");
    data
}

fn expected_leaves(data: &[u8]) -> Vec<(u128, u64, u64)> {
    let mut bytes = data[13..data.len() - 7].to_vec();
    let slab = Slab::new(&mut bytes);
    let mut found = Vec::new();
    for i in 0..slab.capacity() {
        if let Some(l) = slab.get(i as u32).and_then(|n| n.as_leaf()) {
            found.push((l.order_id(), l.client_order_id(), l.quantity()));
        }
    }
    found
}

/// The leaves as the layout of a slab gives them: nodes of 72 bytes behind a header of
/// 32, a leaf by the tag 2, its fields at their places.
fn leaves_by_layout(data: &[u8]) -> Vec<(u128, u64, u64)> {
    let slab = &data[13..data.len() - 7];
    let mut found = Vec::new();
    for i in 0..(slab.len() - 32) / 72 {
        let node = &slab[32 + 72 * i..32 + 72 * (i + 1)];
        let mut tag = [0u8; 4];
        tag.copy_from_slice(&node[0..4]);
        if u32::from_le_bytes(tag) == 2 {
            let mut id = [0u8; 16];
            id.copy_from_slice(&node[8..24]);
            let mut quantity = [0u8; 8];
            quantity.copy_from_slice(&node[56..64]);
            let mut client = [0u8; 8];
            client.copy_from_slice(&node[64..72]);
            found.push((
                u128::from_le_bytes(id),
                u64::from_le_bytes(client),
                u64::from_le_bytes(quantity),
            ));
        }
    }
    found
}

#[test]
fn a_book_is_read_by_its_layout() {
    let orders = [
        ((9u128 << 64) | 11, 21u64, 31u64),
        ((8u128 << 64) | 12, 22, 32),
        ((7u128 << 64) | 13, 23, 33),
        ((6u128 << 64) | 14, 24, 34),
        ((5u128 << 64) | 15, 25, 35),
    ];
    for (nodes, slop) in [(16usize, 0usize), (16, 8), (12, 64)] {
        let mut data = book(BIDS_FLAGS, &orders, nodes, slop);
        let seen = |data: &[u8]| -> Vec<(u128, u64, u64)> {
            read_book(data, BIDS_FLAGS)
                .unwrap()
                .iter()
                .map(|o| (o.order_id, o.client_order_id, o.quantity))
                .collect()
        };
        assert_eq!(seen(&data), leaves_by_layout(&data));
        assert_eq!(seen(&data).len(), 5);
        let first_leaf = (0..nodes).find(|i| data[13 + 32 + 72 * i] == 2).unwrap();
        data[13 + 32 + 72 * first_leaf] = 3;
        assert_eq!(seen(&data), leaves_by_layout(&data));
        assert_eq!(seen(&data).len(), 4);
    }
}

#[test]
fn a_book_gives_its_resting_orders() {
    let orders = [
        ((5u128 << 64) | 1, 1_000_000u64, 10u64),
        ((7u128 << 64) | 2, 1_000_100, 20),
        ((6u128 << 64) | 3, 0, 30),
    ];
    let data = book(ASKS_FLAGS, &orders, 8, 0);
    let found = read_book(&data, ASKS_FLAGS).unwrap();
    let seen: Vec<(u128, u64, u64)> =
        found.iter().map(|o| (o.order_id, o.client_order_id, o.quantity)).collect();
    assert_eq!(seen, expected_leaves(&data));
    assert_eq!(seen.len(), 3);
    for order in orders {
        assert!(seen.contains(&order));
    }
    let prices: Vec<u64> = found.iter().map(|o| o.price()).collect();
    assert!(prices.contains(&5) && prices.contains(&6) && prices.contains(&7));
    assert!(read_book(&book(BIDS_FLAGS, &[], 4, 0), BIDS_FLAGS).unwrap().is_empty());
    assert_eq!(read_book(&book(BIDS_FLAGS, &orders[..1], 4, 16), BIDS_FLAGS).unwrap().len(), 1);
}

#[test]
fn a_book_of_the_other_side_is_malformed() {
    let data = book(ASKS_FLAGS, &[((5u128 << 64) | 1, 1, 10)], 4, 0);
    assert!(matches!(read_book(&data, BIDS_FLAGS), Err(ClientError::MalformedAccount)));
    let mut corrupted = data.clone();
    let last = corrupted.len() - 1;
    corrupted[last] = b'G';
    assert!(matches!(read_book(&corrupted, ASKS_FLAGS), Err(ClientError::MalformedAccount)));
    let mut short = b"serum".to_vec();
    short.extend_from_slice(&ASKS_FLAGS.to_le_bytes());
    short.extend_from_slice(&[0u8; 24]);
    short.extend_from_slice(b"padding");
    assert!(matches!(read_book(&short, ASKS_FLAGS), Err(ClientError::MalformedAccount)));
    let ragged = book(ASKS_FLAGS, &[], 4, 3);
    assert!(matches!(read_book(&ragged, ASKS_FLAGS), Err(ClientError::MalformedAccount)));
}

#[test]
fn orders_are_read_back_from_market_and_books() {
    let (keys, terms) = market_keys();
    let market_data = encode_market_account(&keys, &terms);
    let asks = book(ASKS_FLAGS, &[((5u128 << 64) | 1, 1_000_000, 10)], 4, 0);
    let bids = book(BIDS_FLAGS, &[((4u128 << 64) | 2, 1_000_100, 20), ((3u128 << 64) | 3, 7, 5)], 8, 0);
    let read = fetch_and_show_orders(&program(), &keys.market, &market_data, &asks, &bids).unwrap();
    assert_eq!(read.asks.len(), 1);
    assert_eq!(read.asks[0].client_order_id, 1_000_000);
    assert_eq!(read.asks[0].price(), 5);
    assert_eq!(read.asks[0].quantity, 10);
    assert_eq!(read.bids.len(), 2);
    assert!(fetch_and_show_orders(&program(), &keys.market, &market_data, &bids, &asks).is_err());
    let mut disabled = market_data.clone();
    disabled[5..13].copy_from_slice(&131u64.to_le_bytes());
    assert!(get_keys_for_market(&program(), &keys.market, &disabled).is_ok());
    assert!(matches!(
        fetch_and_show_orders(&program(), &keys.market, &disabled, &asks, &bids),
        Err(ClientError::MalformedAccount)
    ));
}
