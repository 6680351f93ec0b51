//! Orders: what a trader intends, the instruction that carries it, the transaction that
//! places an order, and the orders that rest in the books of a market.

use crate::address::{rent_sysvar_id, token_program_id, Address, RENT_SYSVAR_ID, TOKEN_PROGRAM_ID};
use crate::dex::{
    account_content, create_dex_account, has_padding, is_open_order_lookup, open_orders_size,
    read_market, spec_create_dex_account, spec_read_market, unpadded, ACCOUNT_PADDING_LEN,
    ASKS_FLAG, BIDS_FLAG, INITIALIZED_FLAG, OPEN_ORDERS_LEN,
};
use crate::error::{ClientError, ClientErrorView};
use crate::instruction::{readonly, writable, AccountMeta, Instruction, InstructionView};
use crate::ledger::{FundedAccount, LedgerRequest, LedgerRequestView};
use crate::transaction::{
    assemble, creation_precedes_use, lemma_system_instructions_first, plan_of, TransactionPlan,
};
use crate::utils::StoreView;
use crate::MarketPubkeys;
use serum_dex::critbit::{Slab, SlabView};
use serum_dex::instruction::{MarketInstruction, NewOrderInstructionV3};
use std::num::NonZeroU64;
use vstd::bytes::{
    spec_u128_from_le_bytes, spec_u16_to_le_bytes, spec_u32_from_le_bytes, spec_u64_from_le_bytes,
    spec_u64_to_le_bytes, u64_from_le_bytes, u64_to_le_bytes,
};
use vstd::prelude::*;
use vstd::slice::{slice_subrange, slice_to_vec};

verus! {

/// The side of the book that an order rests on.
#[derive(Clone, Copy, Debug)]
pub enum Side {
    Bid,
    Ask,
}

/// How an order is matched.
#[derive(Clone, Copy, Debug)]
pub enum OrderType {
    Limit,
    ImmediateOrCancel,
    PostOnly,
}

/// What happens when an order meets an order of the same owner.
#[derive(Clone, Copy, Debug)]
pub enum SelfTradeBehavior {
    DecrementTake,
    CancelProvide,
    AbortTransaction,
}

/// What a trader intends: immutable once it is submitted. The price and both
/// quantities are never zero.
#[derive(Clone, Copy, Debug)]
pub struct OrderIntent {
    side: Side,
    limit_price: u64,
    max_coin_qty: u64,
    max_native_pc_qty_including_fees: u64,
    self_trade_behavior: SelfTradeBehavior,
    order_type: OrderType,
    client_order_id: u64,
    limit: u16,
    max_ts: i64,
}

/// An `OrderIntent` as plain values.
pub struct OrderIntentView {
    pub side: Side,
    pub limit_price: u64,
    pub max_coin_qty: u64,
    pub max_native_pc_qty_including_fees: u64,
    pub self_trade_behavior: SelfTradeBehavior,
    pub order_type: OrderType,
    pub client_order_id: u64,
    pub limit: u16,
    pub max_ts: i64,
}

/// The number by which the exchange program knows a side.
pub open spec fn side_code(side: Side) -> u8 {
    match side {
        Side::Bid => 0,
        Side::Ask => 1,
    }
}

/// The number by which the exchange program knows an order type.
pub open spec fn order_type_code(order_type: OrderType) -> u8 {
    match order_type {
        OrderType::Limit => 0,
        OrderType::ImmediateOrCancel => 1,
        OrderType::PostOnly => 2,
    }
}

/// The number by which the exchange program knows a self-trade behavior.
pub open spec fn self_trade_code(behavior: SelfTradeBehavior) -> u8 {
    match behavior {
        SelfTradeBehavior::DecrementTake => 0,
        SelfTradeBehavior::CancelProvide => 1,
        SelfTradeBehavior::AbortTransaction => 2,
    }
}

/// The bytes into which `MarketInstruction::pack` packs a new order of the third
/// version: the version byte 0, the instruction's number, 10, and the side in four bytes
/// each, the price and both quantities in eight bytes each, the self-trade behavior and
/// the order type in four bytes each, the client order id in eight bytes and the limit
/// in two. Every number is little-endian.
pub open spec fn new_order_v3_data(
    side: u8,
    limit_price: u64,
    max_coin_qty: u64,
    max_native_pc_qty_including_fees: u64,
    self_trade_behavior: u8,
    order_type: u8,
    client_order_id: u64,
    limit: u16,
) -> Seq<u8> {
    seq![0u8] + seq![10u8, 0u8, 0u8, 0u8] + seq![side, 0u8, 0u8, 0u8] + spec_u64_to_le_bytes(
        limit_price,
    ) + spec_u64_to_le_bytes(max_coin_qty) + spec_u64_to_le_bytes(
        max_native_pc_qty_including_fees,
    ) + seq![self_trade_behavior, 0u8, 0u8, 0u8] + seq![order_type, 0u8, 0u8, 0u8]
        + spec_u64_to_le_bytes(client_order_id) + spec_u16_to_le_bytes(limit)
}

impl View for OrderIntent {
    type V = OrderIntentView;

    closed spec fn view(&self) -> OrderIntentView {
        OrderIntentView {
            side: self.side,
            limit_price: self.limit_price,
            max_coin_qty: self.max_coin_qty,
            max_native_pc_qty_including_fees: self.max_native_pc_qty_including_fees,
            self_trade_behavior: self.self_trade_behavior,
            order_type: self.order_type,
            client_order_id: self.client_order_id,
            limit: self.limit,
            max_ts: self.max_ts,
        }
    }
}

/// Calls `MarketInstruction::pack` on a `NewOrderV3` with these fields, the side, the
/// self-trade behavior and the order type given by their numbers. Its source has
/// `bincode` write the version, the variant and the eight fields in their order, the
/// layout that `MarketInstruction::unpack` reads. The numbers must be ones that the
/// exchange program defines, and the price and both quantities must not be zero.
#[verifier::external_body]
pub(crate) fn pack_new_order_v3(
    side: u8,
    limit_price: u64,
    max_coin_qty: u64,
    max_native_pc_qty_including_fees: u64,
    self_trade_behavior: u8,
    order_type: u8,
    client_order_id: u64,
    limit: u16,
) -> (data: Vec<u8>)
    requires
        side < 2,
        self_trade_behavior < 3,
        order_type < 3,
        limit_price != 0,
        max_coin_qty != 0,
        max_native_pc_qty_including_fees != 0,
    ensures
        data@ == new_order_v3_data(
            side,
            limit_price,
            max_coin_qty,
            max_native_pc_qty_including_fees,
            self_trade_behavior,
            order_type,
            client_order_id,
            limit,
        ),
{
    MarketInstruction::NewOrderV3(NewOrderInstructionV3 {
        side: side.try_into().unwrap(),
        limit_price: NonZeroU64::new(limit_price).unwrap(),
        max_coin_qty: NonZeroU64::new(max_coin_qty).unwrap(),
        max_native_pc_qty_including_fees: NonZeroU64::new(max_native_pc_qty_including_fees)
            .unwrap(),
        self_trade_behavior: self_trade_behavior.try_into().unwrap(),
        order_type: order_type.try_into().unwrap(),
        client_order_id,
        limit,
    }).pack()
}

impl Side {
    /// The number by which the exchange program knows the side.
    pub fn code(&self) -> (code: u8)
        ensures
            code == side_code(*self),
    {
        match self {
            Side::Bid => 0,
            Side::Ask => 1,
        }
    }
}

impl OrderType {
    /// The number by which the exchange program knows the order type.
    pub fn code(&self) -> (code: u8)
        ensures
            code == order_type_code(*self),
    {
        match self {
            OrderType::Limit => 0,
            OrderType::ImmediateOrCancel => 1,
            OrderType::PostOnly => 2,
        }
    }
}

impl SelfTradeBehavior {
    /// The number by which the exchange program knows the behavior.
    pub fn code(&self) -> (code: u8)
        ensures
            code == self_trade_code(*self),
    {
        match self {
            SelfTradeBehavior::DecrementTake => 0,
            SelfTradeBehavior::CancelProvide => 1,
            SelfTradeBehavior::AbortTransaction => 2,
        }
    }
}

/// The fields of an order, for `OrderIntent::new`.
#[derive(Clone, Copy, Debug)]
pub struct OrderFields {
    pub side: Side,
    pub limit_price: u64,
    pub max_coin_qty: u64,
    pub max_native_pc_qty_including_fees: u64,
    pub self_trade_behavior: SelfTradeBehavior,
    pub order_type: OrderType,
    pub client_order_id: u64,
    pub limit: u16,
    pub max_ts: i64,
}

/// The same fields as the view of an order.
pub open spec fn fields_view(fields: OrderFields) -> OrderIntentView {
    OrderIntentView {
        side: fields.side,
        limit_price: fields.limit_price,
        max_coin_qty: fields.max_coin_qty,
        max_native_pc_qty_including_fees: fields.max_native_pc_qty_including_fees,
        self_trade_behavior: fields.self_trade_behavior,
        order_type: fields.order_type,
        client_order_id: fields.client_order_id,
        limit: fields.limit,
        max_ts: fields.max_ts,
    }
}

/// Whether the price and both quantities are other than zero.
pub open spec fn is_order(order: OrderIntentView) -> bool {
    order.limit_price != 0 && order.max_coin_qty != 0 && order.max_native_pc_qty_including_fees
        != 0
}

/// The data of the instruction that carries the order: the packed order, then the
/// expiry timestamp in eight little-endian bytes, where the exchange programs that know
/// an expiry look for it.
pub open spec fn order_data(order: OrderIntentView) -> Seq<u8> {
    new_order_v3_data(
        side_code(order.side),
        order.limit_price,
        order.max_coin_qty,
        order.max_native_pc_qty_including_fees,
        self_trade_code(order.self_trade_behavior),
        order_type_code(order.order_type),
        order.client_order_id,
        order.limit,
    ) + spec_u64_to_le_bytes(order.max_ts as u64)
}

impl OrderIntent {
    #[verifier::type_invariant]
    spec fn well_formed(self) -> bool {
        self.limit_price != 0 && self.max_coin_qty != 0 && self.max_native_pc_qty_including_fees
            != 0
    }

    /// The order with these fields; `None` where the price or a quantity is zero.
    pub fn new(fields: OrderFields) -> (order: Option<OrderIntent>)
        ensures
            order.is_some() <==> is_order(fields_view(fields)),
            order matches Some(o) ==> o@ == fields_view(fields),
    {
        if fields.limit_price == 0 || fields.max_coin_qty == 0
            || fields.max_native_pc_qty_including_fees == 0 {
            return None;
        }
        Some(
            OrderIntent {
                side: fields.side,
                limit_price: fields.limit_price,
                max_coin_qty: fields.max_coin_qty,
                max_native_pc_qty_including_fees: fields.max_native_pc_qty_including_fees,
                self_trade_behavior: fields.self_trade_behavior,
                order_type: fields.order_type,
                client_order_id: fields.client_order_id,
                limit: fields.limit,
                max_ts: fields.max_ts,
            },
        )
    }

    /// The fields of the order.
    pub fn fields(&self) -> (fields: OrderFields)
        ensures
            fields_view(fields) == self@,
            is_order(self@),
    {
        proof {
            use_type_invariant(self);
        }
        OrderFields {
            side: self.side,
            limit_price: self.limit_price,
            max_coin_qty: self.max_coin_qty,
            max_native_pc_qty_including_fees: self.max_native_pc_qty_including_fees,
            self_trade_behavior: self.self_trade_behavior,
            order_type: self.order_type,
            client_order_id: self.client_order_id,
            limit: self.limit,
            max_ts: self.max_ts,
        }
    }

    /// The data of the instruction that carries the order.
    pub fn data(&self) -> (data: Vec<u8>)
        ensures
            data@ == order_data(self@),
    {
        proof {
            use_type_invariant(self);
        }
        let mut data = pack_new_order_v3(
            self.side.code(),
            self.limit_price,
            self.max_coin_qty,
            self.max_native_pc_qty_including_fees,
            self.self_trade_behavior.code(),
            self.order_type.code(),
            self.client_order_id,
            self.limit,
        );
        let mut expiry = u64_to_le_bytes(#[verifier::truncate] (self.max_ts as u64));
        data.append(&mut expiry);
        data
    }
}

/// The accounts of a new-order instruction, in the order that the exchange program
/// dictates: the market, the open-orders account, both queues, both books, the wallet
/// that funds the order, the owner, who signs, both vaults, the token program and the
/// rent sysvar.
pub open spec fn new_order_accounts(
    state: MarketPubkeys,
    orders: Address,
    wallet: Address,
    payer: Address,
) -> Seq<AccountMeta> {
    seq![
        writable(*state.market, false),
        writable(orders, false),
        writable(*state.req_q, false),
        writable(*state.event_q, false),
        writable(*state.bids, false),
        writable(*state.asks, false),
        writable(wallet, false),
        readonly(payer, true),
        writable(*state.coin_vault, false),
        writable(*state.pc_vault, false),
        readonly(Address { bytes: TOKEN_PROGRAM_ID }, false),
        readonly(Address { bytes: RENT_SYSVAR_ID }, false),
    ]
}

/// The instruction that carries the order to the market.
pub open spec fn spec_new_order(
    program_id: Address,
    state: MarketPubkeys,
    orders: Address,
    wallet: Address,
    payer: Address,
    order: OrderIntentView,
) -> InstructionView {
    InstructionView {
        program_id,
        accounts: new_order_accounts(state, orders, wallet, payer),
        data: order_data(order),
    }
}

/// The length of an open-orders account as it is created.
pub open spec fn open_orders_account_len() -> usize {
    (OPEN_ORDERS_LEN + ACCOUNT_PADDING_LEN) as usize
}

/// What has to be asked of the ledger before an order can be placed or an open-orders
/// account opened: the rent of an open-orders account where none is known, and else
/// nothing.
pub open spec fn spec_open_orders_request(orders: Option<Address>) -> Option<LedgerRequestView> {
    match orders {
        Some(_) => None,
        None => Some(LedgerRequestView::MinimumBalance { len: open_orders_account_len() }),
    }
}

/// The instructions that place the order, and the open-orders account that they use.
/// Where an open-orders account is known there is the order alone. Where none is
/// known, the instruction that creates the `fresh` account for the exchange program
/// comes first and the order uses that account; the rent has to be the oracle's answer
/// for the length of an open-orders account.
pub open spec fn spec_place_order(
    program_id: Address,
    payer: Address,
    wallet: Address,
    state: MarketPubkeys,
    orders: Option<Address>,
    fresh: Option<FundedAccount>,
    order: OrderIntentView,
) -> Result<(Seq<InstructionView>, Address), ClientErrorView> {
    match orders {
        Some(known) => Ok(
            (seq![spec_new_order(program_id, state, known, wallet, payer, order)], known),
        ),
        None => match fresh {
            Some(account) => match spec_create_dex_account(
                program_id,
                payer,
                account.address,
                OPEN_ORDERS_LEN,
                account.rent,
            ) {
                Ok(created) => Ok(
                    (
                        seq![
                            created,
                            spec_new_order(
                                program_id,
                                state,
                                account.address,
                                wallet,
                                payer,
                                order,
                            ),
                        ],
                        account.address,
                    ),
                ),
                Err(e) => Err(e),
            },
            None => Err(ClientErrorView::UnexpectedReply),
        },
    }
}

/// Idempotence: where a lookup finds the open-orders account of an owner in the store,
/// a second lookup in that store finds the same account, nothing is asked of the ledger
/// for it, and an order is placed by the order's instruction alone, whatever fresh
/// account is offered: no account is created a second time.
pub proof fn lemma_known_open_orders_are_reused(
    store: StoreView,
    program_id: Address,
    owner: Address,
    wallet: Address,
    state: MarketPubkeys,
    orders: Address,
    second: Result<Option<Address>, ClientErrorView>,
    fresh: Option<FundedAccount>,
    order: OrderIntentView,
)
    requires
        is_open_order_lookup(store, owner, Ok(Some(orders))),
        is_open_order_lookup(store, owner, second),
    ensures
        second == Ok::<Option<Address>, ClientErrorView>(Some(orders)),
        spec_open_orders_request(Some(orders)).is_none(),
        spec_place_order(program_id, owner, wallet, state, Some(orders), fresh, order) == Ok::<
            (Seq<InstructionView>, Address),
            ClientErrorView,
        >((seq![spec_new_order(program_id, state, orders, wallet, owner, order)], orders)),
{
    match second {
        Ok(Some(again)) => {
            crate::address::lemma_address_ext(again, orders);
        },
        _ => {},
    }
}

/// Whatever `place_order` plans obeys the ordering rule: where the open-orders account
/// is created in the transaction, it is created before the order uses it.
pub proof fn lemma_order_plan_is_ordered(
    program_id: Address,
    payer: Address,
    wallet: Address,
    state: MarketPubkeys,
    orders: Option<Address>,
    fresh: Option<FundedAccount>,
    order: OrderIntentView,
)
    requires
        spec_place_order(program_id, payer, wallet, state, orders, fresh, order) is Ok,
    ensures
        creation_precedes_use(
            spec_place_order(program_id, payer, wallet, state, orders, fresh, order)->Ok_0.0,
        ),
{
    let instructions = spec_place_order(
        program_id,
        payer,
        wallet,
        state,
        orders,
        fresh,
        order,
    )->Ok_0.0;
    match orders {
        Some(known) => {
            assert(instructions[0].accounts.len() == 12);
            lemma_system_instructions_first(instructions, 0);
        },
        None => {
            assert(instructions[1].accounts.len() == 12);
            lemma_system_instructions_first(instructions, 1);
        },
    }
}

/// What to ask of the ledger before `place_order` or `init_open_orders`: the rent of an
/// open-orders account where none is known yet, and nothing where one is.
pub fn open_orders_request(orders: &Option<Address>) -> (request: Option<LedgerRequest>)
    ensures
        match request {
            Some(r) => spec_open_orders_request(*orders) == Some(r@),
            None => spec_open_orders_request(*orders).is_none(),
        },
{
    match orders {
        Some(_) => None,
        None => Some(
            LedgerRequest::MinimumBalance { len: open_orders_size() + ACCOUNT_PADDING_LEN },
        ),
    }
}

fn new_order_instruction(
    program_id: &Address,
    state: &MarketPubkeys,
    orders: &Address,
    wallet: &Address,
    payer: &Address,
    new_order: &OrderIntent,
) -> (ix: Instruction)
    ensures
        ix@ == spec_new_order(*program_id, *state, *orders, *wallet, *payer, new_order@),
{
    let mut accounts: Vec<AccountMeta> = Vec::new();
    accounts.push(AccountMeta::new(*state.market, false));
    accounts.push(AccountMeta::new(*orders, false));
    accounts.push(AccountMeta::new(*state.req_q, false));
    accounts.push(AccountMeta::new(*state.event_q, false));
    accounts.push(AccountMeta::new(*state.bids, false));
    accounts.push(AccountMeta::new(*state.asks, false));
    accounts.push(AccountMeta::new(*wallet, false));
    accounts.push(AccountMeta::new_readonly(*payer, true));
    accounts.push(AccountMeta::new(*state.coin_vault, false));
    accounts.push(AccountMeta::new(*state.pc_vault, false));
    accounts.push(AccountMeta::new_readonly(token_program_id(), false));
    accounts.push(AccountMeta::new_readonly(rent_sysvar_id(), false));
    assert(accounts@ =~= new_order_accounts(*state, *orders, *wallet, *payer));
    Instruction { program_id: *program_id, accounts, data: new_order.data() }
}

/// Plans the transaction that places `new_order` on the market `state` for the owner
/// `payer`, funded from `wallet`. Where `orders` holds the owner's open-orders account
/// the transaction is the order alone. Where it holds none, the `fresh` account is
/// created in the same transaction, before the order, and `orders` holds it afterwards;
/// the order is refused with `UnexpectedReply` where no fresh account is given or its
/// rent was quoted for another length, and `orders` stays empty.
pub fn place_order(
    program_id: &Address,
    payer: &Address,
    wallet: &Address,
    state: &MarketPubkeys,
    orders: &mut Option<Address>,
    fresh: Option<FundedAccount>,
    new_order: &OrderIntent,
) -> (placed: Result<TransactionPlan, ClientError>)
    ensures
        match placed {
            Ok(plan) => final(orders).is_some() && spec_place_order(
                *program_id,
                *payer,
                *wallet,
                *state,
                *old(orders),
                fresh,
                new_order@,
            ) == Ok::<(Seq<InstructionView>, Address), ClientErrorView>(
                (plan@.instructions, final(orders).unwrap()),
            ) && plan@ == plan_of(plan@.instructions, *payer),
            Err(e) => *final(orders) == *old(orders) && spec_place_order(
                *program_id,
                *payer,
                *wallet,
                *state,
                *old(orders),
                fresh,
                new_order@,
            ) == Err::<(Seq<InstructionView>, Address), ClientErrorView>(e@),
        },
{
    let mut instructions: Vec<Instruction> = Vec::new();
    let orders_pubkey = match *orders {
        Some(known) => known,
        None => {
            let account = match fresh {
                Some(account) => account,
                None => {
                    return Err(ClientError::UnexpectedReply);
                },
            };
            match create_dex_account(
                program_id,
                payer,
                &account.address,
                open_orders_size(),
                &account.rent,
            ) {
                Ok(created) => {
                    instructions.push(created);
                },
                Err(e) => {
                    return Err(e);
                },
            }
            account.address
        },
    };
    instructions.push(
        new_order_instruction(program_id, state, &orders_pubkey, wallet, payer, new_order),
    );
    *orders = Some(orders_pubkey);
    proof {
        let expected = spec_place_order(
            *program_id,
            *payer,
            *wallet,
            *state,
            *old(orders),
            fresh,
            new_order@,
        );
        assert(expected is Ok);
        assert(instructions.deep_view() =~= expected->Ok_0.0);
    }
    Ok(assemble(instructions, *payer))
}

/// The bytes of an order book's content that come before its slab: the account flags.
pub const BOOK_HEADER_LEN: usize = 8;

/// The bytes of a slab that come before its nodes.
pub const SLAB_HEADER_LEN: usize = 32;

/// The size of a slab's node.
pub const SLAB_NODE_LEN: usize = 72;

/// The flags of the book of bids: initialized and bids.
pub const BIDS_FLAGS: u64 = INITIALIZED_FLAG + BIDS_FLAG;

/// The flags of the book of asks: initialized and asks.
pub const ASKS_FLAGS: u64 = INITIALIZED_FLAG + ASKS_FLAG;

/// An order that rests in a book.
#[derive(Clone, Copy, Debug)]
pub struct LeafOrder {
    /// The order's id: its price in the upper half, its sequence number in the lower.
    pub order_id: u128,
    pub client_order_id: u64,
    pub quantity: u64,
}

/// The orders of a market that rest in its books.
#[derive(Debug)]
pub struct OrderBook {
    /// The lending orders.
    pub asks: Vec<LeafOrder>,
    /// The borrowing orders.
    pub bids: Vec<LeafOrder>,
}

/// The tag of a slab's node that is a leaf.
pub const LEAF_NODE_TAG: u32 = 2;

/// Where the node `index` of a slab starts.
pub open spec fn node_start(index: u32) -> int {
    SLAB_HEADER_LEN + SLAB_NODE_LEN * index
}

/// The leaf that `Slab::get` and `AnyNode::as_leaf` find in the node `index` of the slab
/// in these bytes: its order id, its client order id and its quantity. `None` where the
/// slab has no such node or the node is no leaf. A node starts with its tag in four
/// bytes; a leaf holds its order id in the sixteen bytes from the eighth on, its
/// quantity in the eight bytes from the 56th on and its client order id in the eight
/// bytes after them. Every number is little-endian.
pub open spec fn slab_leaf(slab: Seq<u8>, index: u32) -> Option<(u128, u64, u64)> {
    let at = node_start(index);
    if slab.len() >= SLAB_HEADER_LEN && index < (slab.len() - SLAB_HEADER_LEN)
        / SLAB_NODE_LEN as int && spec_u32_from_le_bytes(slab.subrange(at, at + 4))
        == LEAF_NODE_TAG {
        Some(
            (
                spec_u128_from_le_bytes(slab.subrange(at + 8, at + 24)),
                spec_u64_from_le_bytes(slab.subrange(at + 64, at + 72)),
                spec_u64_from_le_bytes(slab.subrange(at + 56, at + 64)),
            ),
        )
    } else {
        None
    }
}

/// The leaf as the order that it is.
pub open spec fn leaf_order(leaf: (u128, u64, u64)) -> LeafOrder {
    LeafOrder { order_id: leaf.0, client_order_id: leaf.1, quantity: leaf.2 }
}

/// Makes a `Slab` of a copy of the bytes with `Slab::new` and calls `capacity` on it.
/// Its source takes at least the 32 bytes of the slab's header and counts the whole
/// nodes of 72 bytes behind it.
#[verifier::external_body]
pub(crate) fn slab_capacity(slab: &Vec<u8>) -> (capacity: u64)
    requires
        slab@.len() >= SLAB_HEADER_LEN,
    ensures
        capacity == (slab@.len() - SLAB_HEADER_LEN) / SLAB_NODE_LEN as int,
{
    Slab::new(&mut slab.clone()).capacity()
}

/// Makes a `Slab` of a copy of the bytes with `Slab::new`, calls `get` on it and
/// `as_leaf` on the node that it finds. Its source finds a node where the index is below
/// the capacity and the tag is that of an inner node or of a leaf, takes it for a leaf
/// by the tag 2, and reads the packed fields of `LeafNode`.
#[verifier::external_body]
pub(crate) fn slab_leaf_at(slab: &Vec<u8>, index: u32) -> (leaf: Option<LeafOrder>)
    requires
        slab@.len() >= SLAB_HEADER_LEN,
    ensures
        match leaf {
            Some(order) => slab_leaf(slab@, index) == Some(
                (order.order_id, order.client_order_id, order.quantity),
            ),
            None => slab_leaf(slab@, index).is_none(),
        },
{
    Slab::new(&mut slab.clone()).get(index).and_then(|node| node.as_leaf()).map(|leaf|
        LeafOrder {
            order_id: leaf.order_id(),
            client_order_id: leaf.client_order_id(),
            quantity: leaf.quantity(),
        })
}

impl LeafOrder {
    /// The price of the order: the upper half of its id.
    pub fn price(&self) -> (price: u64)
        ensures
            price == (self.order_id >> 64) as u64,
    {
        let id = self.order_id;
        assert((id >> 64) <= 0xffff_ffff_ffff_ffffu128) by (bit_vector);
        (id >> 64) as u64
    }
}

/// The number of nodes that a slab of `len` bytes has, as far as a node's index
/// reaches.
pub open spec fn slab_nodes(len: int) -> int {
    let capacity = (len - SLAB_HEADER_LEN) / SLAB_NODE_LEN as int;
    if capacity <= u32::MAX {
        capacity
    } else {
        u32::MAX + 1
    }
}

/// The leaves among the first `count` nodes of the slab, in the order of the nodes.
pub open spec fn leaves(slab: Seq<u8>, count: int) -> Seq<LeafOrder>
    decreases count,
{
    if count <= 0 {
        Seq::empty()
    } else {
        match slab_leaf(slab, (count - 1) as u32) {
            Some(leaf) => leaves(slab, count - 1).push(leaf_order(leaf)),
            None => leaves(slab, count - 1),
        }
    }
}

/// Whether the bytes are those of a book with these flags: both paddings, a content of
/// whole words that holds the flags and a slab's header, and the flags themselves.
pub open spec fn is_book(data: Seq<u8>, flags: u64) -> bool {
    &&& has_padding(data)
    &&& unpadded(data).len() % 8 == 0
    &&& unpadded(data).len() >= BOOK_HEADER_LEN + SLAB_HEADER_LEN
    &&& spec_u64_from_le_bytes(unpadded(data).subrange(0, 8)) == flags
}

/// The slab of a book: its content behind the flags.
pub open spec fn book_slab(data: Seq<u8>) -> Seq<u8> {
    unpadded(data).subrange(BOOK_HEADER_LEN as int, unpadded(data).len() as int)
}

/// The orders that rest in the book in these bytes; `None` where the bytes are not
/// those of a book with these flags.
pub open spec fn spec_read_book(data: Seq<u8>, flags: u64) -> Option<Seq<LeafOrder>> {
    if is_book(data, flags) {
        Some(leaves(book_slab(data), slab_nodes(book_slab(data).len() as int)))
    } else {
        None
    }
}

/// Reads the orders that rest in a book from the bytes of the book's account. `flags`
/// says which book is expected: `BIDS_FLAGS` or `ASKS_FLAGS`. The account is malformed
/// where a padding is missing, where its content is not made of whole words or is too
/// short for the flags and the slab's header, or where it carries other flags.
pub fn read_book(data: &[u8], flags: u64) -> (orders: Result<Vec<LeafOrder>, ClientError>)
    ensures
        match orders {
            Ok(found) => spec_read_book(data@, flags) == Some(found@),
            Err(e) => e@ == ClientErrorView::MalformedAccount && spec_read_book(
                data@,
                flags,
            ).is_none(),
        },
{
    let content = match account_content(data) {
        Ok(content) => content,
        Err(e) => {
            return Err(e);
        },
    };
    if content.len() % 8 != 0 || content.len() < BOOK_HEADER_LEN + SLAB_HEADER_LEN {
        return Err(ClientError::MalformedAccount);
    }
    if u64_from_le_bytes(slice_subrange(content, 0, 8)) != flags {
        return Err(ClientError::MalformedAccount);
    }
    let slab = slice_to_vec(slice_subrange(content, BOOK_HEADER_LEN, content.len()));
    let capacity = slab_capacity(&slab);
    let count: u64 = if capacity <= 0xffff_ffff {
        capacity
    } else {
        0x1_0000_0000
    };
    let mut found: Vec<LeafOrder> = Vec::new();
    let mut i: u64 = 0;
    while i < count
        invariant
            i <= count <= 0x1_0000_0000,
            slab@.len() >= SLAB_HEADER_LEN,
            found@ == leaves(slab@, i as int),
        decreases count - i,
    {
        match slab_leaf_at(&slab, i as u32) {
            Some(order) => {
                found.push(order);
            },
            None => {},
        }
        i += 1;
    }
    Ok(found)
}

/// What `fetch_and_show_orders` reads; `None` where one of the accounts is malformed.
pub open spec fn spec_fetch_and_show_orders(
    program_id: Address,
    market_pk: Address,
    market_data: Seq<u8>,
    asks_data: Seq<u8>,
    bids_data: Seq<u8>,
) -> Option<(Seq<LeafOrder>, Seq<LeafOrder>)> {
    if spec_read_market(program_id, market_pk, market_data, false).is_none() {
        None
    } else {
        match (spec_read_book(asks_data, ASKS_FLAGS), spec_read_book(bids_data, BIDS_FLAGS)) {
            (Some(asks), Some(bids)) => Some((asks, bids)),
            _ => None,
        }
    }
}

/// Reads back the orders that rest in the books of the market at `market_pk`, from the
/// bytes of the market's account and of its books of asks and of bids, whose addresses
/// `get_keys_for_market` gives. The market must be a market of `program_id` that is not
/// disabled, and each book must carry the flags of its side; else the account that
/// fails is reported as malformed and no order is returned.
pub fn fetch_and_show_orders(
    program_id: &Address,
    market_pk: &Address,
    market_data: &[u8],
    asks_data: &[u8],
    bids_data: &[u8],
) -> (book: Result<OrderBook, ClientError>)
    ensures
        match book {
            Ok(b) => spec_fetch_and_show_orders(
                *program_id,
                *market_pk,
                market_data@,
                asks_data@,
                bids_data@,
            ) == Some((b.asks@, b.bids@)),
            Err(e) => e@ == ClientErrorView::MalformedAccount && spec_fetch_and_show_orders(
                *program_id,
                *market_pk,
                market_data@,
                asks_data@,
                bids_data@,
            ).is_none(),
        },
{
    match read_market(program_id, market_pk, market_data, false) {
        Ok(_) => {},
        Err(e) => {
            return Err(e);
        },
    }
    let asks = match read_book(asks_data, ASKS_FLAGS) {
        Ok(asks) => asks,
        Err(e) => {
            return Err(e);
        },
    };
    let bids = match read_book(bids_data, BIDS_FLAGS) {
        Ok(bids) => bids,
        Err(e) => {
            return Err(e);
        },
    };
    Ok(OrderBook { asks, bids })
}

} // verus!
