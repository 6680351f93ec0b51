//! Client-side orchestration of an order-book exchange that a ledger program hosts:
//! derived addresses, account creation, transaction plans, the market's on-chain record
//! and the local key store.

pub mod address;
pub mod dex;
pub mod error;
pub mod initial_setup;
pub mod instruction;
pub mod ledger;
pub mod market;
pub mod order;
pub mod text;
pub mod transaction;
pub mod utils;
pub mod vault;

pub use address::Address;
pub use dex::{create_dex_account, get_keys_for_market, get_open_order_pubkey};
pub use initial_setup::initialize;
pub use market::{info, new};
pub use order::{fetch_and_show_orders, place_order};
pub use utils::{
    is_initialized, read_file, remove_dir_and_files, validate_input_for_space,
    validate_url_address, write_file,
};

use vstd::prelude::*;

verus! {

/// The configuration root.
pub const CONFIG_DIR: &'static str = "configs";

/// The record of the base mint's address.
pub const COIN_MINT: &'static str = "coin_mint.json";

/// The record of the quote mint's address.
pub const PC_MINT: &'static str = "pc_mint.json";

/// The record of the base wallet's address.
pub const COIN_WALLET: &'static str = "coin_wallet.json";

/// The record of the quote wallet's address.
pub const PC_WALLET: &'static str = "pc_wallet.json";

/// The record of the market's address.
pub const MARKET_PUBKEY: &'static str = "market_pubkey.json";

/// The end of the name of an owner's open-orders record; the owner's address comes
/// before it.
pub const OPEN_ORDER: &'static str = "open_order_pubkey.json";

/// The record of the network address.
pub const URL: &'static str = "url.json";

/// The record of the exchange program's address.
pub const PROGRAM_ID: &'static str = "program_id.json";

/// The record of the path to the payer's key pair.
pub const WALLET: &'static str = "wallet.json";

/// The addresses of one market: the market, its queues and books, its vaults, and the
/// vault signer that owns the vaults.
#[derive(Debug)]
pub struct MarketPubkeys {
    pub market: Box<Address>,
    pub req_q: Box<Address>,
    pub event_q: Box<Address>,
    pub bids: Box<Address>,
    pub asks: Box<Address>,
    pub coin_vault: Box<Address>,
    pub pc_vault: Box<Address>,
    pub vault_signer_key: Box<Address>,
}

/// The addresses of one market as sequences of bytes.
pub struct MarketPubkeysView {
    pub market: Seq<u8>,
    pub req_q: Seq<u8>,
    pub event_q: Seq<u8>,
    pub bids: Seq<u8>,
    pub asks: Seq<u8>,
    pub coin_vault: Seq<u8>,
    pub pc_vault: Seq<u8>,
    pub vault_signer_key: Seq<u8>,
}

impl View for MarketPubkeys {
    type V = MarketPubkeysView;

    open spec fn view(&self) -> MarketPubkeysView {
        MarketPubkeysView {
            market: self.market@,
            req_q: self.req_q@,
            event_q: self.event_q@,
            bids: self.bids@,
            asks: self.asks@,
            coin_vault: self.coin_vault@,
            pc_vault: self.pc_vault@,
            vault_signer_key: self.vault_signer_key@,
        }
    }
}

} // verus!
