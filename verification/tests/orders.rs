use serum_rust_cli::address::{Address, RENT_SYSVAR_ID, SYSTEM_PROGRAM_ID, TOKEN_PROGRAM_ID};
use serum_rust_cli::dex::{
    get_open_order_pubkey, init_open_orders, open_order_record_name, save_open_order_pubkey,
};
use serum_rust_cli::error::ClientError;
use serum_rust_cli::ledger::{FundedAccount, LedgerRequest, RentQuote};
use serum_rust_cli::order::{
    open_orders_request, place_order, OrderFields, OrderIntent, OrderType, SelfTradeBehavior,
    Side,
};
use serum_rust_cli::utils::{read_file, write_file, KeyStore};
use serum_rust_cli::MarketPubkeys;
use serum_dex::instruction::{MarketInstruction, NewOrderInstructionV3};
use solana_program::pubkey::Pubkey;
use std::num::NonZeroU64;

fn address(seed: u8) -> Address {
    Address::new([seed; 32])
}

fn market() -> MarketPubkeys {
    MarketPubkeys {
        market: Box::new(address(1)),
        req_q: Box::new(address(2)),
        event_q: Box::new(address(3)),
        bids: Box::new(address(4)),
        asks: Box::new(address(5)),
        coin_vault: Box::new(address(6)),
        pc_vault: Box::new(address(7)),
        vault_signer_key: Box::new(address(8)),
    }
}

fn lend(size: u64, rate: u64) -> OrderFields {
    OrderFields {
        side: Side::Ask,
        limit_price: rate,
        max_coin_qty: size,
        max_native_pc_qty_including_fees: u64::MAX,
        self_trade_behavior: SelfTradeBehavior::DecrementTake,
        order_type: OrderType::Limit,
        client_order_id: 1_000_000,
        limit: u16::MAX,
        max_ts: 1_700_000_020,
    }
}

fn keys(ix: &serum_rust_cli::instruction::Instruction) -> Vec<([u8; 32], bool, bool)> {
    ix.accounts.iter().map(|m| (m.pubkey.bytes, m.is_signer, m.is_writable)).collect()
}

#[test]
fn an_order_needs_a_price_and_quantities() {
    assert!(OrderIntent::new(lend(10, 5)).is_some());
    assert!(OrderIntent::new(lend(0, 5)).is_none());
    assert!(OrderIntent::new(lend(10, 0)).is_none());
    let mut free = lend(10, 5);
    free.max_native_pc_qty_including_fees = 0;
    assert!(OrderIntent::new(free).is_none());
    let order = OrderIntent::new(lend(10, 5)).unwrap();
    let fields = order.fields();
    assert_eq!(fields.limit_price, 5);
    assert_eq!(fields.max_coin_qty, 10);
    assert_eq!(fields.max_ts, 1_700_000_020);
    assert!(matches!(fields.side, Side::Ask));
}

#[test]
fn codes_are_those_of_the_exchange_program() {
    assert_eq!(Side::Bid.code(), u8::from(serum_dex::matching::Side::Bid));
    assert_eq!(Side::Ask.code(), u8::from(serum_dex::matching::Side::Ask));
    assert_eq!(OrderType::Limit.code(), u8::from(serum_dex::matching::OrderType::Limit));
    assert_eq!(
        OrderType::ImmediateOrCancel.code(),
        u8::from(serum_dex::matching::OrderType::ImmediateOrCancel)
    );
    assert_eq!(OrderType::PostOnly.code(), u8::from(serum_dex::matching::OrderType::PostOnly));
    assert_eq!(
        SelfTradeBehavior::DecrementTake.code(),
        u8::from(serum_dex::instruction::SelfTradeBehavior::DecrementTake)
    );
    assert_eq!(
        SelfTradeBehavior::CancelProvide.code(),
        u8::from(serum_dex::instruction::SelfTradeBehavior::CancelProvide)
    );
    assert_eq!(
        SelfTradeBehavior::AbortTransaction.code(),
        u8::from(serum_dex::instruction::SelfTradeBehavior::AbortTransaction)
    );
}

#[test]
fn order_data_is_the_packed_order_and_the_expiry() {
    let mut fields = lend(0x0102, 0x0304);
    fields.side = Side::Bid;
    fields.order_type = OrderType::PostOnly;
    fields.self_trade_behavior = SelfTradeBehavior::AbortTransaction;
    fields.max_native_pc_qty_including_fees = 5_000_000;
    fields.client_order_id = 1_000_100;
    fields.limit = 65_535;
    fields.max_ts = -2;
    let data = OrderIntent::new(fields).unwrap().data();
    let mut expected = vec![0u8, 10, 0, 0, 0];
    expected.extend_from_slice(&0u32.to_le_bytes());
    expected.extend_from_slice(&0x0304u64.to_le_bytes());
    expected.extend_from_slice(&0x0102u64.to_le_bytes());
    expected.extend_from_slice(&5_000_000u64.to_le_bytes());
    expected.extend_from_slice(&2u32.to_le_bytes());
    expected.extend_from_slice(&2u32.to_le_bytes());
    expected.extend_from_slice(&1_000_100u64.to_le_bytes());
    expected.extend_from_slice(&65_535u16.to_le_bytes());
    expected.extend_from_slice(&(-2i64).to_le_bytes());
    assert_eq!(data, expected);
    assert_eq!(data.len(), 59);
    let packed = MarketInstruction::NewOrderV3(NewOrderInstructionV3 {
        side: serum_dex::matching::Side::Bid,
        limit_price: NonZeroU64::new(0x0304).unwrap(),
        max_coin_qty: NonZeroU64::new(0x0102).unwrap(),
        max_native_pc_qty_including_fees: NonZeroU64::new(5_000_000).unwrap(),
        self_trade_behavior: serum_dex::instruction::SelfTradeBehavior::AbortTransaction,
        order_type: serum_dex::matching::OrderType::PostOnly,
        client_order_id: 1_000_100,
        limit: 65_535,
    })
    .pack();
    assert_eq!(&data[..51], &packed[..]);
}

#[test]
fn an_order_with_known_open_orders_is_one_instruction() {
    let (program, payer, wallet) = (address(20), address(21), address(22));
    let state = market();
    let order = OrderIntent::new(lend(10, 5)).unwrap();
    let mut orders = Some(address(30));
    assert!(open_orders_request(&orders).is_none());
    let offered = Some(FundedAccount { address: address(31), rent: RentQuote { len: 3228, lamports: 9 } });
    let plan = place_order(&program, &payer, &wallet, &state, &mut orders, offered, &order).unwrap();
    assert_eq!(orders.unwrap().bytes, address(30).bytes);
    assert_eq!(plan.instructions.len(), 1);
    let ix = &plan.instructions[0];
    assert_eq!(ix.program_id.bytes, program.bytes);
    assert_eq!(
        keys(ix),
        vec![
            ([1u8; 32], false, true),
            ([30u8; 32], false, true),
            ([2u8; 32], false, true),
            ([3u8; 32], false, true),
            ([4u8; 32], false, true),
            ([5u8; 32], false, true),
            ([22u8; 32], false, true),
            ([21u8; 32], true, false),
            ([6u8; 32], false, true),
            ([7u8; 32], false, true),
            (TOKEN_PROGRAM_ID, false, false),
            (RENT_SYSVAR_ID, false, false),
        ]
    );
    assert_eq!(ix.data, order.data());
    let signers: Vec<[u8; 32]> = plan.signers.iter().map(|a| a.bytes).collect();
    assert_eq!(signers, vec![[21u8; 32]]);
    assert_eq!(plan.payer.bytes, payer.bytes);

    let pk = |seed: u8| Pubkey::new_from_array([seed; 32]);
    let expected = serum_dex::instruction::new_order(
        &pk(1), &pk(30), &pk(2), &pk(3), &pk(4), &pk(5), &pk(22), &pk(21), &pk(6), &pk(7),
        &spl_token::id(), &solana_program::sysvar::rent::id(), None, &pk(20),
        serum_dex::matching::Side::Ask,
        NonZeroU64::new(5).unwrap(),
        NonZeroU64::new(10).unwrap(),
        serum_dex::matching::OrderType::Limit,
        1_000_000,
        serum_dex::instruction::SelfTradeBehavior::DecrementTake,
        u16::MAX,
        NonZeroU64::new(u64::MAX).unwrap(),
    )
    .unwrap();
    let outside: Vec<([u8; 32], bool, bool)> =
        expected.accounts.iter().map(|m| (m.pubkey.to_bytes(), m.is_signer, m.is_writable)).collect();
    assert_eq!(keys(ix), outside);
    assert_eq!(&ix.data[..51], &expected.data[..]);
}

#[test]
fn a_first_order_creates_the_open_orders_account_before_it() {
    let (program, payer, wallet) = (address(20), address(21), address(22));
    let state = market();
    let order = OrderIntent::new(lend(10, 5)).unwrap();
    let mut orders = None;
    match open_orders_request(&orders) {
        Some(LedgerRequest::MinimumBalance { len }) => assert_eq!(len, 3228),
        _ => panic!("the rent of an open-orders account is asked for"),
    }
    let offered = Some(FundedAccount { address: address(31), rent: RentQuote { len: 3228, lamports: 23_357_760 } });
    let plan = place_order(&program, &payer, &wallet, &state, &mut orders, offered, &order).unwrap();
    assert_eq!(orders.unwrap().bytes, [31u8; 32]);
    assert_eq!(plan.instructions.len(), 2);
    let create = &plan.instructions[0];
    assert_eq!(create.program_id.bytes, SYSTEM_PROGRAM_ID);
    assert_eq!(keys(create), vec![([21u8; 32], true, true), ([31u8; 32], true, true)]);
    assert_eq!(&create.data[4..12], &23_357_760u64.to_le_bytes());
    assert_eq!(&create.data[12..20], &3228u64.to_le_bytes());
    assert_eq!(&create.data[20..], &[20u8; 32]);
    assert_eq!(plan.instructions[1].accounts[1].pubkey.bytes, [31u8; 32]);
    let signers: Vec<[u8; 32]> = plan.signers.iter().map(|a| a.bytes).collect();
    assert_eq!(signers, vec![[21u8; 32], [31u8; 32]]);
}

#[test]
fn a_first_order_without_a_funded_account_is_refused() {
    let (program, payer, wallet) = (address(20), address(21), address(22));
    let state = market();
    let order = OrderIntent::new(lend(10, 5)).unwrap();
    let mut orders = None;
    let none = place_order(&program, &payer, &wallet, &state, &mut orders, None, &order);
    assert!(matches!(none, Err(ClientError::UnexpectedReply)));
    assert!(orders.is_none());
    let stale = Some(FundedAccount { address: address(31), rent: RentQuote { len: 165, lamports: 1 } });
    let refused = place_order(&program, &payer, &wallet, &state, &mut orders, stale, &order);
    assert!(matches!(refused, Err(ClientError::UnexpectedReply)));
    assert!(orders.is_none());
}

#[test]
fn open_orders_are_opened_for_the_owner() {
    let (program, owner) = (address(20), address(21));
    let state = market();
    let mut orders = None;
    let offered = Some(FundedAccount { address: address(31), rent: RentQuote { len: 3228, lamports: 4 } });
    let plan = init_open_orders(&program, &owner, &state, &mut orders, offered).unwrap();
    assert_eq!(orders.unwrap().bytes, [31u8; 32]);
    assert_eq!(plan.instructions.len(), 2);
    assert_eq!(plan.instructions[0].program_id.bytes, SYSTEM_PROGRAM_ID);
    assert_eq!(
        keys(&plan.instructions[1]),
        vec![
            ([31u8; 32], false, true),
            ([21u8; 32], true, false),
            ([1u8; 32], false, false),
            (RENT_SYSVAR_ID, false, false),
        ]
    );
    assert_eq!(plan.payer.bytes, owner.bytes);
    let mut known = Some(address(40));
    let again = init_open_orders(&program, &owner, &state, &mut known, None).unwrap();
    assert_eq!(again.instructions.len(), 1);
    assert_eq!(again.instructions[0].accounts[0].pubkey.bytes, [40u8; 32]);
    let mut missing = None;
    assert!(matches!(
        init_open_orders(&program, &owner, &state, &mut missing, None),
        Err(ClientError::UnexpectedReply)
    ));
    assert!(missing.is_none());
}

#[test]
fn open_orders_resolution_is_idempotent() {
    let owner = Address::new([21u8; 32]);
    let other = Address::new([22u8; 32]);
    let orders = Address::new([31u8; 32]);
    let mut store = KeyStore::new();
    assert!(matches!(get_open_order_pubkey(&store, &owner), Ok(None)));
    save_open_order_pubkey(&mut store, &owner, &orders).unwrap();
    let first = get_open_order_pubkey(&store, &owner).unwrap().unwrap();
    let second = get_open_order_pubkey(&store, &owner).unwrap().unwrap();
    assert_eq!(first.bytes, orders.bytes);
    assert_eq!(second.bytes, orders.bytes);
    assert!(open_orders_request(&Some(second)).is_none());
    assert!(matches!(get_open_order_pubkey(&store, &other), Ok(None)));
    let name = open_order_record_name(&owner);
    assert_eq!(name, Pubkey::new_from_array([21u8; 32]).to_string() + "_open_order_pubkey.json");
    assert_eq!(
        read_file(&store, "configs", &name).unwrap(),
        Pubkey::new_from_array([31u8; 32]).to_string()
    );
}

#[test]
fn a_record_that_holds_no_address_is_reported() {
    let owner = Address::new([21u8; 32]);
    let mut store = KeyStore::new();
    let name = open_order_record_name(&owner);
    write_file(&mut store, "configs", &name, "not an address").unwrap();
    assert!(matches!(get_open_order_pubkey(&store, &owner), Err(ClientError::ConfigMissing)));
}
