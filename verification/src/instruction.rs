//! Instructions as plain values, and the instructions that the system, token and
//! exchange programs define.

use crate::address::{
    token_program_id, Address, RENT_SYSVAR_ID, SYSTEM_PROGRAM_ID, TOKEN_PROGRAM_ID,
};
use solana_program::pubkey::Pubkey;
use vstd::bytes::spec_u64_to_le_bytes;
use vstd::prelude::*;

verus! {

/// One account that an instruction refers to.
#[derive(Clone, Copy, Debug)]
pub struct AccountMeta {
    pub pubkey: Address,
    /// Whether the transaction needs a signature of `pubkey`.
    pub is_signer: bool,
    /// Whether the program may change the account.
    pub is_writable: bool,
}

/// A writable account reference.
pub open spec fn writable(pubkey: Address, is_signer: bool) -> AccountMeta {
    AccountMeta { pubkey, is_signer, is_writable: true }
}

/// A read-only account reference.
pub open spec fn readonly(pubkey: Address, is_signer: bool) -> AccountMeta {
    AccountMeta { pubkey, is_signer, is_writable: false }
}

impl AccountMeta {
    /// A writable account reference.
    pub fn new(pubkey: Address, is_signer: bool) -> (meta: AccountMeta)
        ensures
            meta == writable(pubkey, is_signer),
    {
        AccountMeta { pubkey, is_signer, is_writable: true }
    }

    /// A read-only account reference.
    pub fn new_readonly(pubkey: Address, is_signer: bool) -> (meta: AccountMeta)
        ensures
            meta == readonly(pubkey, is_signer),
    {
        AccountMeta { pubkey, is_signer, is_writable: false }
    }
}

/// One instruction for a program: inert until a signed transaction carries it.
#[derive(Debug)]
pub struct Instruction {
    pub program_id: Address,
    pub accounts: Vec<AccountMeta>,
    pub data: Vec<u8>,
}

/// An `Instruction` with its vectors as sequences.
pub struct InstructionView {
    pub program_id: Address,
    pub accounts: Seq<AccountMeta>,
    pub data: Seq<u8>,
}

impl View for Instruction {
    type V = InstructionView;

    open spec fn view(&self) -> InstructionView {
        InstructionView { program_id: self.program_id, accounts: self.accounts@, data: self.data@ }
    }
}

impl DeepView for Instruction {
    type V = InstructionView;

    open spec fn deep_view(&self) -> InstructionView {
        self@
    }
}

/// The data of the instruction that `system_instruction::create_account` builds: the
/// number of the system program's first instruction in four bytes, the balance and the
/// length in eight bytes each, then the owner. Every number is little-endian.
pub open spec fn create_account_data(lamports: u64, space: u64, owner: Seq<u8>) -> Seq<u8> {
    seq![0u8, 0u8, 0u8, 0u8] + spec_u64_to_le_bytes(lamports) + spec_u64_to_le_bytes(space)
        + owner
}

/// The instruction that creates `to`, funded by `from`, with `space` bytes owned by
/// `owner`.
pub open spec fn spec_create_account(
    from: Address,
    to: Address,
    lamports: u64,
    space: u64,
    owner: Address,
) -> InstructionView {
    InstructionView {
        program_id: Address { bytes: SYSTEM_PROGRAM_ID },
        accounts: seq![writable(from, true), writable(to, true)],
        data: create_account_data(lamports, space, owner@),
    }
}

/// Calls `system_instruction::create_account`. Its source gives the program and the two
/// accounts, both writable signers, and has `bincode` write `CreateAccount`, the first
/// variant of the system program's instructions, with its three fields as the data.
#[verifier::external_body]
pub(crate) fn system_create_account(
    from: &Address,
    to: &Address,
    lamports: u64,
    space: u64,
    owner: &Address,
) -> (ix: Instruction)
    ensures
        ix.program_id.bytes == SYSTEM_PROGRAM_ID,
        ix.accounts@ == seq![writable(*from, true), writable(*to, true)],
        ix.data@ == create_account_data(lamports, space, owner@),
{
    let (from, to) = (Pubkey::new_from_array(from.bytes), Pubkey::new_from_array(to.bytes));
    let owner = Pubkey::new_from_array(owner.bytes);
    let ix =
        solana_program::system_instruction::create_account(&from, &to, lamports, space, &owner);
    Instruction {
        program_id: Address { bytes: ix.program_id.to_bytes() },
        accounts: ix.accounts.iter().map(|m| AccountMeta {
            pubkey: Address { bytes: m.pubkey.to_bytes() },
            is_signer: m.is_signer,
            is_writable: m.is_writable,
        }).collect(),
        data: ix.data,
    }
}

/// The instruction that binds the token account `account` to `mint` and `owner`.
pub open spec fn spec_initialize_account(
    account: Address,
    mint: Address,
    owner: Address,
) -> InstructionView {
    InstructionView {
        program_id: Address { bytes: TOKEN_PROGRAM_ID },
        accounts: seq![
            writable(account, false),
            readonly(mint, false),
            readonly(owner, false),
            readonly(Address { bytes: RENT_SYSVAR_ID }, false),
        ],
        data: seq![1u8],
    }
}

/// Calls `spl_token::instruction::initialize_account`. Its source refuses every
/// program but the token program, lists the account, the mint, the owner and the rent
/// sysvar, and packs the instruction as the single byte 1.
#[verifier::external_body]
pub(crate) fn token_initialize_account(
    token_program: &Address,
    account: &Address,
    mint: &Address,
    owner: &Address,
) -> (built: Option<Instruction>)
    ensures
        built.is_some() <==> token_program.bytes == TOKEN_PROGRAM_ID,
        built.is_some() ==> built.unwrap()@ == spec_initialize_account(*account, *mint, *owner),
{
    let pk = |x: &Address| Pubkey::new_from_array(x.bytes);
    spl_token::instruction::initialize_account(
        &pk(token_program), &pk(account), &pk(mint), &pk(owner),
    ).ok().map(|ix| Instruction {
        program_id: Address { bytes: ix.program_id.to_bytes() },
        accounts: ix.accounts.iter().map(|m| AccountMeta {
            pubkey: Address { bytes: m.pubkey.to_bytes() },
            is_signer: m.is_signer,
            is_writable: m.is_writable,
        }).collect(),
        data: ix.data,
    })
}

/// The data of the instruction that `serum_dex::instruction::initialize_market` builds:
/// the version byte 0, the number of the exchange program's first instruction in four
/// bytes, both lot sizes in eight bytes each, a fee rate of zero in two bytes, then the
/// nonce and the dust threshold in eight bytes each. Every number is little-endian.
pub open spec fn initialize_market_data(
    coin_lot_size: u64,
    pc_lot_size: u64,
    vault_signer_nonce: u64,
    pc_dust_threshold: u64,
) -> Seq<u8> {
    seq![0u8] + seq![0u8, 0u8, 0u8, 0u8] + spec_u64_to_le_bytes(coin_lot_size)
        + spec_u64_to_le_bytes(pc_lot_size) + seq![0u8, 0u8] + spec_u64_to_le_bytes(
        vault_signer_nonce,
    ) + spec_u64_to_le_bytes(pc_dust_threshold)
}

/// The addresses that a market is made of, as the market-initialization instruction
/// lists them.
#[derive(Clone, Copy, Debug)]
pub struct MarketAccounts {
    pub market: Address,
    pub request_queue: Address,
    pub event_queue: Address,
    pub bids: Address,
    pub asks: Address,
    pub coin_vault: Address,
    pub pc_vault: Address,
    pub coin_mint: Address,
    pub pc_mint: Address,
}

/// The accounts of a market-initialization instruction without authorities.
pub open spec fn initialize_market_accounts(a: MarketAccounts) -> Seq<AccountMeta> {
    seq![
        writable(a.market, false),
        writable(a.request_queue, false),
        writable(a.event_queue, false),
        writable(a.bids, false),
        writable(a.asks, false),
        writable(a.coin_vault, false),
        writable(a.pc_vault, false),
        readonly(a.coin_mint, false),
        readonly(a.pc_mint, false),
        readonly(Address { bytes: RENT_SYSVAR_ID }, false),
    ]
}

/// Calls `serum_dex::instruction::initialize_market` without authorities. Its source
/// always returns an instruction for `program_id` with the ten accounts in this order,
/// and has `bincode` write the version and `InitializeMarket`, the first variant of the
/// exchange program's instructions, with its five fields as the data.
#[verifier::external_body]
pub(crate) fn dex_initialize_market(
    program_id: &Address,
    a: &MarketAccounts,
    coin_lot_size: u64,
    pc_lot_size: u64,
    vault_signer_nonce: u64,
    pc_dust_threshold: u64,
) -> (built: Option<Instruction>)
    ensures
        built.is_some(),
        built.unwrap().program_id == *program_id,
        built.unwrap().accounts@ == initialize_market_accounts(*a),
        built.unwrap().data@ == initialize_market_data(
            coin_lot_size,
            pc_lot_size,
            vault_signer_nonce,
            pc_dust_threshold,
        ),
{
    let pk = |x: Address| Pubkey::new_from_array(x.bytes);
    serum_dex::instruction::initialize_market(
        &pk(a.market), &pk(*program_id), &pk(a.coin_mint), &pk(a.pc_mint), &pk(a.coin_vault),
        &pk(a.pc_vault), None, None, None, &pk(a.bids), &pk(a.asks), &pk(a.request_queue),
        &pk(a.event_queue), coin_lot_size, pc_lot_size, vault_signer_nonce, pc_dust_threshold
    ).ok().map(|ix| Instruction {
        program_id: Address { bytes: ix.program_id.to_bytes() },
        accounts: ix.accounts.iter().map(|m| AccountMeta {
            pubkey: Address { bytes: m.pubkey.to_bytes() },
            is_signer: m.is_signer,
            is_writable: m.is_writable
        }).collect(),
        data: ix.data
    })
}

/// The instruction that opens `open_orders` for `owner` on `market`.
pub open spec fn spec_init_open_orders(
    program_id: Address,
    open_orders: Address,
    owner: Address,
    market: Address,
) -> InstructionView {
    InstructionView {
        program_id,
        accounts: seq![
            writable(open_orders, false),
            readonly(owner, true),
            readonly(market, false),
            readonly(Address { bytes: RENT_SYSVAR_ID }, false),
        ],
        data: seq![0u8, 15u8, 0u8, 0u8, 0u8],
    }
}

/// Calls `serum_dex::instruction::init_open_orders` without a market authority. Its
/// source always returns an instruction for `program_id` with these four accounts; the
/// data is the version byte 0 and the instruction's number, 15, in four bytes.
#[verifier::external_body]
pub(crate) fn dex_init_open_orders(
    program_id: &Address,
    open_orders: &Address,
    owner: &Address,
    market: &Address,
) -> (built: Option<Instruction>)
    ensures
        built.is_some(),
        built.unwrap()@ == spec_init_open_orders(*program_id, *open_orders, *owner, *market),
{
    let pk = |x: &Address| Pubkey::new_from_array(x.bytes);
    serum_dex::instruction::init_open_orders(
        &pk(program_id), &pk(open_orders), &pk(owner), &pk(market), None,
    ).ok().map(|ix| Instruction {
        program_id: Address { bytes: ix.program_id.to_bytes() },
        accounts: ix.accounts.iter().map(|m| AccountMeta {
            pubkey: Address { bytes: m.pubkey.to_bytes() },
            is_signer: m.is_signer,
            is_writable: m.is_writable,
        }).collect(),
        data: ix.data,
    })
}

/// The instruction that initializes `mint` with `decimals` decimals, with
/// `mint_authority` as the only authority.
pub open spec fn spec_initialize_mint(
    mint: Address,
    mint_authority: Address,
    decimals: u8,
) -> InstructionView {
    InstructionView {
        program_id: Address { bytes: TOKEN_PROGRAM_ID },
        accounts: seq![writable(mint, false), readonly(Address { bytes: RENT_SYSVAR_ID }, false)],
        data: seq![0u8, decimals] + mint_authority@ + seq![0u8],
    }
}

/// Calls `spl_token::instruction::initialize_mint` without a freeze authority. Its
/// source refuses every program but the token program, lists the mint and the rent
/// sysvar, and packs the byte 0, the decimals, the 32 bytes of the authority and the
/// byte 0 for the absent freeze authority.
#[verifier::external_body]
pub(crate) fn token_initialize_mint(
    token_program: &Address,
    mint: &Address,
    mint_authority: &Address,
    decimals: u8,
) -> (built: Option<Instruction>)
    ensures
        built.is_some() <==> token_program.bytes == TOKEN_PROGRAM_ID,
        built.is_some() ==> built.unwrap()@ == spec_initialize_mint(
            *mint,
            *mint_authority,
            decimals,
        ),
{
    let pk = |x: Address| Pubkey::new_from_array(x.bytes);
    spl_token::instruction::initialize_mint(
        &pk(*token_program), &pk(*mint), &pk(*mint_authority), None, decimals
    ).ok().map(|ix| Instruction {
        program_id: Address { bytes: ix.program_id.to_bytes() },
        accounts: ix.accounts.iter().map(|m| AccountMeta {
            pubkey: Address { bytes: m.pubkey.to_bytes() },
            is_signer: m.is_signer,
            is_writable: m.is_writable
        }).collect(),
        data: ix.data
    })
}

/// The instruction by which `authority`, who signs, mints `amount` of `mint` to the
/// token account `account`.
pub open spec fn spec_mint_to(
    mint: Address,
    account: Address,
    authority: Address,
    amount: u64,
) -> InstructionView {
    InstructionView {
        program_id: Address { bytes: TOKEN_PROGRAM_ID },
        accounts: seq![writable(mint, false), writable(account, false), readonly(authority, true)],
        data: seq![7u8] + spec_u64_to_le_bytes(amount),
    }
}

/// Calls `spl_token::instruction::mint_to` without further signers. Its source refuses
/// every program but the token program, lists the mint, the account and the authority,
/// who then signs, and packs the byte 7 and the amount in eight little-endian bytes.
#[verifier::external_body]
pub(crate) fn token_mint_to(
    token_program: &Address,
    mint: &Address,
    account: &Address,
    authority: &Address,
    amount: u64,
) -> (built: Option<Instruction>)
    ensures
        built.is_some() <==> token_program.bytes == TOKEN_PROGRAM_ID,
        built.is_some() ==> built.unwrap()@ == spec_mint_to(*mint, *account, *authority, amount),
{
    let pk = |x: Address| Pubkey::new_from_array(x.bytes);
    spl_token::instruction::mint_to(
        &pk(*token_program), &pk(*mint), &pk(*account), &pk(*authority), &[], amount
    ).ok().map(|ix| Instruction {
        program_id: Address { bytes: ix.program_id.to_bytes() },
        accounts: ix.accounts.iter().map(|m| AccountMeta {
            pubkey: Address { bytes: m.pubkey.to_bytes() },
            is_signer: m.is_signer,
            is_writable: m.is_writable
        }).collect(),
        data: ix.data
    })
}

/// The instruction that initializes a market from its accounts.
pub open spec fn spec_initialize_market(
    program_id: Address,
    a: MarketAccounts,
    coin_lot_size: u64,
    pc_lot_size: u64,
    vault_signer_nonce: u64,
    pc_dust_threshold: u64,
) -> InstructionView {
    InstructionView {
        program_id,
        accounts: initialize_market_accounts(a),
        data: initialize_market_data(
            coin_lot_size,
            pc_lot_size,
            vault_signer_nonce,
            pc_dust_threshold,
        ),
    }
}

/// The system program's instruction that creates the account `to` with `space` bytes,
/// owned by `owner` and funded with `lamports` by `from`. Both accounts have to sign.
pub fn create_account(
    from: &Address,
    to: &Address,
    lamports: u64,
    space: u64,
    owner: &Address,
) -> (ix: Instruction)
    ensures
        ix@ == spec_create_account(*from, *to, lamports, space, *owner),
{
    system_create_account(from, to, lamports, space, owner)
}

/// The token program's instruction that binds the token account `account` to `mint`,
/// with `owner` as the authority over its funds.
pub fn initialize_account(account: &Address, mint: &Address, owner: &Address) -> (ix: Instruction)
    ensures
        ix@ == spec_initialize_account(*account, *mint, *owner),
{
    let token_program = token_program_id();
    token_initialize_account(&token_program, account, mint, owner).unwrap()
}

/// The token program's instruction that initializes `mint` with `decimals` decimals
/// and `mint_authority` as its only authority.
pub fn initialize_mint(mint: &Address, mint_authority: &Address, decimals: u8) -> (ix: Instruction)
    ensures
        ix@ == spec_initialize_mint(*mint, *mint_authority, decimals),
{
    let token_program = token_program_id();
    token_initialize_mint(&token_program, mint, mint_authority, decimals).unwrap()
}

/// The token program's instruction by which `authority` mints `amount` of `mint` to the
/// token account `account`. The authority has to sign.
pub fn mint_to(mint: &Address, account: &Address, authority: &Address, amount: u64) -> (ix:
    Instruction)
    ensures
        ix@ == spec_mint_to(*mint, *account, *authority, amount),
{
    let token_program = token_program_id();
    token_mint_to(&token_program, mint, account, authority, amount).unwrap()
}

/// The exchange program's instruction that initializes the market over its accounts,
/// without authorities and with a fee rate of zero.
pub fn initialize_market(
    program_id: &Address,
    accounts: &MarketAccounts,
    coin_lot_size: u64,
    pc_lot_size: u64,
    vault_signer_nonce: u64,
    pc_dust_threshold: u64,
) -> (ix: Instruction)
    ensures
        ix@ == spec_initialize_market(
            *program_id,
            *accounts,
            coin_lot_size,
            pc_lot_size,
            vault_signer_nonce,
            pc_dust_threshold,
        ),
{
    dex_initialize_market(
        program_id,
        accounts,
        coin_lot_size,
        pc_lot_size,
        vault_signer_nonce,
        pc_dust_threshold,
    ).unwrap()
}

/// The exchange program's instruction that opens the account `open_orders` for `owner`
/// on `market`. The owner has to sign.
pub fn init_open_orders_instruction(
    program_id: &Address,
    open_orders: &Address,
    owner: &Address,
    market: &Address,
) -> (ix: Instruction)
    ensures
        ix@ == spec_init_open_orders(*program_id, *open_orders, *owner, *market),
{
    dex_init_open_orders(program_id, open_orders, owner, market).unwrap()
}

} // verus!
