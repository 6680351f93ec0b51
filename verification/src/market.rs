//! The market creation protocol: two token vaults owned by the vault signer, each in a
//! transaction of its own, then one transaction that creates the market, its queues and
//! its books and initializes the market over all of them.

use crate::address::{token_program_id, Address, SYSTEM_PROGRAM_ID, TOKEN_PROGRAM_ID};
use crate::dex::{ACCOUNT_PADDING_LEN, PLAIN_MARKET_LEN};
use crate::error::{ClientError, ClientErrorView};
use crate::instruction::{
    create_account, initialize_account, initialize_market, spec_create_account,
    spec_initialize_account, spec_initialize_market, Instruction, InstructionView, MarketAccounts,
};
use crate::ledger::{LedgerReply, LedgerReplyView, LedgerRequest, LedgerRequestView, RentQuote};
use crate::transaction::{
    assemble, consumes, creates, creation_precedes_use, lemma_required_signers, plan_of,
    required_signers, signs_somewhere, TransactionPlan,
};
use crate::text::{lemma_trim, same_text, spec_starts_with, spec_trim, starts_with, trim};
use crate::utils::{
    entries_under, is_consistent, is_initialized, lemma_config_names, list_files, spec_list_files,
    with_config, KeyStore, StoreView,
};
use crate::vault::{find_vault_signer, is_vault_signer_search, NONCE_SEARCH_BOUND};
use crate::{
    MarketPubkeys, COIN_MINT, CONFIG_DIR, MARKET_PUBKEY, OPEN_ORDER, PC_MINT, PROGRAM_ID, URL,
    WALLET,
};
use vstd::prelude::*;
use vstd::string::StringExecFns;

verus! {

/// The size of a token account.
pub const TOKEN_ACCOUNT_LEN: usize = 165;

/// The size of a request queue's content.
pub const REQUEST_QUEUE_LEN: usize = 640;

/// The size of an event queue's content.
pub const EVENT_QUEUE_LEN: usize = 1048576;

/// The size of an order book's content, for bids and for asks.
pub const ORDER_BOOK_LEN: usize = 65536;

/// The smallest quote amount that a new market settles.
pub const QUOTE_DUST_THRESHOLD: u64 = 100;

/// Reads `LEN` of `spl_token::state::Account`, which its source sets to 165.
#[verifier::external_body]
pub(crate) fn token_account_size() -> (len: usize)
    ensures
        len == TOKEN_ACCOUNT_LEN,
{
    <spl_token::state::Account as solana_program::program_pack::Pack>::LEN
}

/// The addresses of the accounts that a new market needs, each of a key pair made for
/// it: every one of them has to sign the transaction that creates it.
#[derive(Clone, Copy, Debug)]
pub struct FreshAccounts {
    pub market: Address,
    pub request_queue: Address,
    pub event_queue: Address,
    pub bids: Address,
    pub asks: Address,
    pub base_vault: Address,
    pub quote_vault: Address,
}

/// What a market is listed with: its new accounts, the vault signer derived from the
/// market's address, and the nonce that derives it.
#[derive(Clone, Copy, Debug)]
pub struct ListingKeys {
    pub market: Address,
    pub request_queue: Address,
    pub event_queue: Address,
    pub bids: Address,
    pub asks: Address,
    pub vault_signer: Address,
    pub vault_signer_nonce: u64,
}

/// Where a market creation stands: what it waits for next.
#[derive(Clone, Copy, Debug)]
pub enum Stage {
    /// The rent of a token account.
    VaultRent,
    /// The confirmation of the base vault's transaction.
    BaseVault,
    /// The confirmation of the quote vault's transaction.
    QuoteVault,
    /// The rent of the market account.
    MarketRent,
    /// The rent of the request queue.
    RequestQueueRent,
    /// The rent of the event queue.
    EventQueueRent,
    /// The rent of the bids book.
    BidsRent,
    /// The rent of the asks book.
    AsksRent,
    /// The confirmation of the transaction that creates and initializes the market.
    Initialize,
    /// Nothing: the market exists.
    Done,
}

/// A market creation under way.
#[derive(Clone, Copy, Debug)]
pub struct MarketCreation {
    pub payer: Address,
    pub base_mint: Address,
    pub quote_mint: Address,
    pub base_lot_size: u64,
    pub quote_lot_size: u64,
    pub program_id: Address,
    pub keys: ListingKeys,
    pub base_vault: Address,
    pub quote_vault: Address,
    pub stage: Stage,
    /// The balance that the oracle gave for a token account.
    pub vault_lamports: u64,
    pub market_lamports: u64,
    pub request_queue_lamports: u64,
    pub event_queue_lamports: u64,
    pub bids_lamports: u64,
    pub asks_lamports: u64,
}

/// The length of an exchange account with `unpadded_len` bytes of content.
pub open spec fn padded(unpadded_len: usize) -> usize {
    (unpadded_len + ACCOUNT_PADDING_LEN) as usize
}

/// The state in which a market creation starts.
pub open spec fn spec_new(
    payer: Address,
    base_mint: Address,
    quote_mint: Address,
    base_lot_size: u64,
    quote_lot_size: u64,
    program_id: Address,
    fresh: FreshAccounts,
    vault_signer_nonce: u64,
    vault_signer: Address,
) -> MarketCreation {
    MarketCreation {
        payer,
        base_mint,
        quote_mint,
        base_lot_size,
        quote_lot_size,
        program_id,
        keys: ListingKeys {
            market: fresh.market,
            request_queue: fresh.request_queue,
            event_queue: fresh.event_queue,
            bids: fresh.bids,
            asks: fresh.asks,
            vault_signer,
            vault_signer_nonce,
        },
        base_vault: fresh.base_vault,
        quote_vault: fresh.quote_vault,
        stage: Stage::VaultRent,
        vault_lamports: 0,
        market_lamports: 0,
        request_queue_lamports: 0,
        event_queue_lamports: 0,
        bids_lamports: 0,
        asks_lamports: 0,
    }
}

impl MarketCreation {
    /// The market's accounts as the initialization instruction lists them.
    pub open spec fn accounts(self) -> MarketAccounts {
        MarketAccounts {
            market: self.keys.market,
            request_queue: self.keys.request_queue,
            event_queue: self.keys.event_queue,
            bids: self.keys.bids,
            asks: self.keys.asks,
            coin_vault: self.base_vault,
            pc_vault: self.quote_vault,
            coin_mint: self.base_mint,
            pc_mint: self.quote_mint,
        }
    }

    /// The transaction of a vault: create the token account, then bind it to its mint
    /// with the vault signer as its owner.
    pub open spec fn vault_instructions(self, vault: Address, mint: Address) -> Seq<
        InstructionView,
    > {
        seq![
            spec_create_account(
                self.payer,
                vault,
                self.vault_lamports,
                TOKEN_ACCOUNT_LEN as u64,
                Address { bytes: TOKEN_PROGRAM_ID },
            ),
            spec_initialize_account(vault, mint, self.keys.vault_signer),
        ]
    }

    /// The instruction that creates one of the exchange program's accounts.
    pub open spec fn dex_account(
        self,
        account: Address,
        lamports: u64,
        unpadded_len: usize,
    ) -> InstructionView {
        spec_create_account(
            self.payer,
            account,
            lamports,
            padded(unpadded_len) as u64,
            self.program_id,
        )
    }

    /// The last transaction: create the market, both queues and both books, then
    /// initialize the market.
    pub open spec fn market_instructions(self) -> Seq<InstructionView> {
        seq![
            self.dex_account(self.keys.market, self.market_lamports, PLAIN_MARKET_LEN),
            self.dex_account(
                self.keys.request_queue,
                self.request_queue_lamports,
                REQUEST_QUEUE_LEN,
            ),
            self.dex_account(self.keys.event_queue, self.event_queue_lamports, EVENT_QUEUE_LEN),
            self.dex_account(self.keys.bids, self.bids_lamports, ORDER_BOOK_LEN),
            self.dex_account(self.keys.asks, self.asks_lamports, ORDER_BOOK_LEN),
            spec_initialize_market(
                self.program_id,
                self.accounts(),
                self.base_lot_size,
                self.quote_lot_size,
                self.keys.vault_signer_nonce,
                QUOTE_DUST_THRESHOLD,
            ),
        ]
    }

    /// The account length whose rent the creation waits for, where it waits for one.
    pub open spec fn awaited_len(self) -> Option<usize> {
        match self.stage {
            Stage::VaultRent => Some(TOKEN_ACCOUNT_LEN),
            Stage::MarketRent => Some(padded(PLAIN_MARKET_LEN)),
            Stage::RequestQueueRent => Some(padded(REQUEST_QUEUE_LEN)),
            Stage::EventQueueRent => Some(padded(EVENT_QUEUE_LEN)),
            Stage::BidsRent => Some(padded(ORDER_BOOK_LEN)),
            Stage::AsksRent => Some(padded(ORDER_BOOK_LEN)),
            _ => None,
        }
    }

    /// The instructions whose confirmation the creation waits for, where it waits for
    /// one.
    pub open spec fn awaited_instructions(self) -> Option<Seq<InstructionView>> {
        match self.stage {
            Stage::BaseVault => Some(self.vault_instructions(self.base_vault, self.base_mint)),
            Stage::QuoteVault => Some(self.vault_instructions(self.quote_vault, self.quote_mint)),
            Stage::Initialize => Some(self.market_instructions()),
            _ => None,
        }
    }

    /// What the creation asks of the ledger next; nothing once the market exists.
    pub open spec fn spec_request(self) -> Option<LedgerRequestView> {
        match self.awaited_len() {
            Some(len) => Some(LedgerRequestView::MinimumBalance { len }),
            None => match self.awaited_instructions() {
                Some(instructions) => Some(
                    LedgerRequestView::Submit { plan: plan_of(instructions, self.payer) },
                ),
                None => None,
            },
        }
    }

    /// The creation after the oracle gave `lamports` for the length it was asked about.
    pub open spec fn after_balance(self, lamports: u64) -> MarketCreation {
        match self.stage {
            Stage::VaultRent => MarketCreation {
                vault_lamports: lamports,
                stage: Stage::BaseVault,
                ..self
            },
            Stage::MarketRent => MarketCreation {
                market_lamports: lamports,
                stage: Stage::RequestQueueRent,
                ..self
            },
            Stage::RequestQueueRent => MarketCreation {
                request_queue_lamports: lamports,
                stage: Stage::EventQueueRent,
                ..self
            },
            Stage::EventQueueRent => MarketCreation {
                event_queue_lamports: lamports,
                stage: Stage::BidsRent,
                ..self
            },
            Stage::BidsRent => MarketCreation {
                bids_lamports: lamports,
                stage: Stage::AsksRent,
                ..self
            },
            Stage::AsksRent => MarketCreation {
                asks_lamports: lamports,
                stage: Stage::Initialize,
                ..self
            },
            _ => self,
        }
    }

    /// The creation after the ledger confirmed the transaction it had submitted.
    pub open spec fn after_confirmation(self) -> MarketCreation {
        match self.stage {
            Stage::BaseVault => MarketCreation { stage: Stage::QuoteVault, ..self },
            Stage::QuoteVault => MarketCreation { stage: Stage::MarketRent, ..self },
            Stage::Initialize => MarketCreation { stage: Stage::Done, ..self },
            _ => self,
        }
    }

    /// The creation after `reply`, or why the reply ends it. A balance counts only for
    /// the length that was asked about, a confirmation only for a submitted
    /// transaction; a rejection is reported with the ledger's reason.
    pub open spec fn spec_advance(self, reply: LedgerReplyView) -> Result<
        MarketCreation,
        ClientErrorView,
    > {
        match reply {
            LedgerReplyView::Rejected { reason } => if self.stage is Done {
                Err(ClientErrorView::UnexpectedReply)
            } else {
                Err(ClientErrorView::SubmissionRejected(reason))
            },
            LedgerReplyView::Balance(quote) => if self.awaited_len() == Some(quote.len) {
                Ok(self.after_balance(quote.lamports))
            } else {
                Err(ClientErrorView::UnexpectedReply)
            },
            LedgerReplyView::Confirmed { signature } => if self.awaited_instructions().is_some() {
                Ok(self.after_confirmation())
            } else {
                Err(ClientErrorView::UnexpectedReply)
            },
        }
    }

    fn dex_account_instruction(&self, account: &Address, lamports: u64, unpadded_len: usize) -> (ix:
        Instruction)
        requires
            unpadded_len <= EVENT_QUEUE_LEN,
        ensures
            ix@ == self.dex_account(*account, lamports, unpadded_len),
    {
        create_account(
            &self.payer,
            account,
            lamports,
            (unpadded_len + ACCOUNT_PADDING_LEN) as u64,
            &self.program_id,
        )
    }

    fn vault_plan(&self, vault: &Address, mint: &Address) -> (plan: TransactionPlan)
        ensures
            plan@ == plan_of(self.vault_instructions(*vault, *mint), self.payer),
    {
        let token_program = token_program_id();
        let mut instructions: Vec<Instruction> = Vec::new();
        instructions.push(
            create_account(
                &self.payer,
                vault,
                self.vault_lamports,
                token_account_size() as u64,
                &token_program,
            ),
        );
        instructions.push(initialize_account(vault, mint, &self.keys.vault_signer));
        assert(instructions.deep_view() =~= self.vault_instructions(*vault, *mint));
        assemble(instructions, self.payer)
    }

    fn market_plan(&self) -> (plan: TransactionPlan)
        ensures
            plan@ == plan_of(self.market_instructions(), self.payer),
    {
        let accounts = MarketAccounts {
            market: self.keys.market,
            request_queue: self.keys.request_queue,
            event_queue: self.keys.event_queue,
            bids: self.keys.bids,
            asks: self.keys.asks,
            coin_vault: self.base_vault,
            pc_vault: self.quote_vault,
            coin_mint: self.base_mint,
            pc_mint: self.quote_mint,
        };
        let mut instructions: Vec<Instruction> = Vec::new();
        instructions.push(
            self.dex_account_instruction(&self.keys.market, self.market_lamports, PLAIN_MARKET_LEN),
        );
        instructions.push(
            self.dex_account_instruction(
                &self.keys.request_queue,
                self.request_queue_lamports,
                REQUEST_QUEUE_LEN,
            ),
        );
        instructions.push(
            self.dex_account_instruction(
                &self.keys.event_queue,
                self.event_queue_lamports,
                EVENT_QUEUE_LEN,
            ),
        );
        instructions.push(
            self.dex_account_instruction(&self.keys.bids, self.bids_lamports, ORDER_BOOK_LEN),
        );
        instructions.push(
            self.dex_account_instruction(&self.keys.asks, self.asks_lamports, ORDER_BOOK_LEN),
        );
        instructions.push(
            initialize_market(
                &self.program_id,
                &accounts,
                self.base_lot_size,
                self.quote_lot_size,
                self.keys.vault_signer_nonce,
                QUOTE_DUST_THRESHOLD,
            ),
        );
        assert(instructions.deep_view() =~= self.market_instructions());
        assemble(instructions, self.payer)
    }

    /// What to ask of the ledger next: a rent quote for the length of the account that
    /// comes next, or the submission of a transaction. `None` once the market exists.
    pub fn request(&self) -> (request: Option<LedgerRequest>)
        ensures
            match request {
                Some(r) => self.spec_request() == Some(r@),
                None => self.spec_request().is_none(),
            },
    {
        match self.stage {
            Stage::VaultRent => Some(LedgerRequest::MinimumBalance { len: token_account_size() }),
            Stage::BaseVault => Some(
                LedgerRequest::Submit { plan: self.vault_plan(&self.base_vault, &self.base_mint) },
            ),
            Stage::QuoteVault => Some(
                LedgerRequest::Submit {
                    plan: self.vault_plan(&self.quote_vault, &self.quote_mint),
                },
            ),
            Stage::MarketRent => Some(
                LedgerRequest::MinimumBalance { len: PLAIN_MARKET_LEN + ACCOUNT_PADDING_LEN },
            ),
            Stage::RequestQueueRent => Some(
                LedgerRequest::MinimumBalance { len: REQUEST_QUEUE_LEN + ACCOUNT_PADDING_LEN },
            ),
            Stage::EventQueueRent => Some(
                LedgerRequest::MinimumBalance { len: EVENT_QUEUE_LEN + ACCOUNT_PADDING_LEN },
            ),
            Stage::BidsRent => Some(
                LedgerRequest::MinimumBalance { len: ORDER_BOOK_LEN + ACCOUNT_PADDING_LEN },
            ),
            Stage::AsksRent => Some(
                LedgerRequest::MinimumBalance { len: ORDER_BOOK_LEN + ACCOUNT_PADDING_LEN },
            ),
            Stage::Initialize => Some(LedgerRequest::Submit { plan: self.market_plan() }),
            Stage::Done => None,
        }
    }

    fn waits_for_len(&self) -> (len: Option<usize>)
        ensures
            len == self.awaited_len(),
    {
        match self.stage {
            Stage::VaultRent => Some(token_account_size()),
            Stage::MarketRent => Some(PLAIN_MARKET_LEN + ACCOUNT_PADDING_LEN),
            Stage::RequestQueueRent => Some(REQUEST_QUEUE_LEN + ACCOUNT_PADDING_LEN),
            Stage::EventQueueRent => Some(EVENT_QUEUE_LEN + ACCOUNT_PADDING_LEN),
            Stage::BidsRent => Some(ORDER_BOOK_LEN + ACCOUNT_PADDING_LEN),
            Stage::AsksRent => Some(ORDER_BOOK_LEN + ACCOUNT_PADDING_LEN),
            _ => None,
        }
    }

    /// Takes the ledger's reply to the pending request and moves on. A rejection, or a
    /// reply that does not answer the request, leaves the creation where it was, so
    /// that the request can be made again.
    pub fn advance(&mut self, reply: LedgerReply) -> (moved: Result<(), ClientError>)
        ensures
            match moved {
                Ok(()) => old(self).spec_advance(reply@) == Ok::<MarketCreation, ClientErrorView>(
                    *final(self),
                ),
                Err(e) => old(self).spec_advance(reply@) == Err::<MarketCreation, ClientErrorView>(
                    e@,
                ) && *final(self) == *old(self),
            },
    {
        match reply {
            LedgerReply::Rejected { reason } => match self.stage {
                Stage::Done => Err(ClientError::UnexpectedReply),
                _ => Err(ClientError::SubmissionRejected(reason)),
            },
            LedgerReply::Balance(quote) => {
                let answers = match self.waits_for_len() {
                    Some(len) => len == quote.len,
                    None => false,
                };
                if !answers {
                    return Err(ClientError::UnexpectedReply);
                }
                match self.stage {
                    Stage::VaultRent => {
                        self.vault_lamports = quote.lamports;
                        self.stage = Stage::BaseVault;
                    },
                    Stage::MarketRent => {
                        self.market_lamports = quote.lamports;
                        self.stage = Stage::RequestQueueRent;
                    },
                    Stage::RequestQueueRent => {
                        self.request_queue_lamports = quote.lamports;
                        self.stage = Stage::EventQueueRent;
                    },
                    Stage::EventQueueRent => {
                        self.event_queue_lamports = quote.lamports;
                        self.stage = Stage::BidsRent;
                    },
                    Stage::BidsRent => {
                        self.bids_lamports = quote.lamports;
                        self.stage = Stage::AsksRent;
                    },
                    Stage::AsksRent => {
                        self.asks_lamports = quote.lamports;
                        self.stage = Stage::Initialize;
                    },
                    _ => {},
                }
                Ok(())
            },
            LedgerReply::Confirmed { signature } => match self.stage {
                Stage::BaseVault => {
                    self.stage = Stage::QuoteVault;
                    Ok(())
                },
                Stage::QuoteVault => {
                    self.stage = Stage::MarketRent;
                    Ok(())
                },
                Stage::Initialize => {
                    self.stage = Stage::Done;
                    Ok(())
                },
                _ => Err(ClientError::UnexpectedReply),
            },
        }
    }

    /// The addresses of the market, once it exists.
    pub fn pubkeys(&self) -> (keys: Option<MarketPubkeys>)
        ensures
            keys.is_some() <==> self.stage is Done,
            keys matches Some(k) ==> {
                &&& k.market == self.keys.market
                &&& k.req_q == self.keys.request_queue
                &&& k.event_q == self.keys.event_queue
                &&& k.bids == self.keys.bids
                &&& k.asks == self.keys.asks
                &&& k.coin_vault == self.base_vault
                &&& k.pc_vault == self.quote_vault
                &&& k.vault_signer_key == self.keys.vault_signer
            },
    {
        match self.stage {
            Stage::Done => Some(
                MarketPubkeys {
                    market: Box::new(self.keys.market),
                    req_q: Box::new(self.keys.request_queue),
                    event_q: Box::new(self.keys.event_queue),
                    bids: Box::new(self.keys.bids),
                    asks: Box::new(self.keys.asks),
                    coin_vault: Box::new(self.base_vault),
                    pc_vault: Box::new(self.quote_vault),
                    vault_signer_key: Box::new(self.keys.vault_signer),
                },
            ),
            _ => None,
        }
    }
}

/// Starts the creation of a market for `base_mint` and `quote_mint` under the exchange
/// program `dex_program_id`, paid by `payer`, on the accounts `fresh`. The vault signer
/// is derived from the market's address with the smallest nonce below
/// `NONCE_SEARCH_BOUND` that derives one; where none does the creation fails with
/// `DerivationExhausted` before anything is asked of the ledger.
pub fn new(
    payer: &Address,
    base_mint: &Address,
    quote_mint: &Address,
    base_lot_size: u64,
    quote_lot_size: u64,
    dex_program_id: &Address,
    fresh: &FreshAccounts,
) -> (started: Result<MarketCreation, ClientError>)
    ensures
        match started {
            Ok(m) => m == spec_new(
                *payer,
                *base_mint,
                *quote_mint,
                base_lot_size,
                quote_lot_size,
                *dex_program_id,
                *fresh,
                m.keys.vault_signer_nonce,
                m.keys.vault_signer,
            ) && is_vault_signer_search(
                fresh.market,
                *dex_program_id,
                0,
                NONCE_SEARCH_BOUND,
                Ok((m.keys.vault_signer_nonce, m.keys.vault_signer)),
            ),
            Err(e) => is_vault_signer_search(
                fresh.market,
                *dex_program_id,
                0,
                NONCE_SEARCH_BOUND,
                Err(e@),
            ),
        },
{
    match find_vault_signer(&fresh.market, dex_program_id, 0, NONCE_SEARCH_BOUND) {
        Ok((vault_signer_nonce, vault_signer)) => Ok(
            MarketCreation {
                payer: *payer,
                base_mint: *base_mint,
                quote_mint: *quote_mint,
                base_lot_size,
                quote_lot_size,
                program_id: *dex_program_id,
                keys: ListingKeys {
                    market: fresh.market,
                    request_queue: fresh.request_queue,
                    event_queue: fresh.event_queue,
                    bids: fresh.bids,
                    asks: fresh.asks,
                    vault_signer,
                    vault_signer_nonce,
                },
                base_vault: fresh.base_vault,
                quote_vault: fresh.quote_vault,
                stage: Stage::VaultRent,
                vault_lamports: 0,
                market_lamports: 0,
                request_queue_lamports: 0,
                event_queue_lamports: 0,
                bids_lamports: 0,
                asks_lamports: 0,
            },
        ),
        Err(e) => Err(e),
    }
}

/// The balances that the rent oracle gives in the course of a market's creation.
pub struct MarketRents {
    pub vault: u64,
    pub market: u64,
    pub request_queue: u64,
    pub event_queue: u64,
    pub bids: u64,
    pub asks: u64,
}

/// The replies of a ledger that gives these balances, each for the length that it was
/// asked about, and confirms every transaction.
pub open spec fn market_replies(rents: MarketRents, signatures: Seq<Seq<char>>) -> Seq<
    LedgerReplyView,
> {
    seq![
        LedgerReplyView::Balance(RentQuote { len: TOKEN_ACCOUNT_LEN, lamports: rents.vault }),
        LedgerReplyView::Confirmed { signature: signatures[0] },
        LedgerReplyView::Confirmed { signature: signatures[1] },
        LedgerReplyView::Balance(
            RentQuote { len: padded(PLAIN_MARKET_LEN), lamports: rents.market },
        ),
        LedgerReplyView::Balance(
            RentQuote { len: padded(REQUEST_QUEUE_LEN), lamports: rents.request_queue },
        ),
        LedgerReplyView::Balance(
            RentQuote { len: padded(EVENT_QUEUE_LEN), lamports: rents.event_queue },
        ),
        LedgerReplyView::Balance(RentQuote { len: padded(ORDER_BOOK_LEN), lamports: rents.bids }),
        LedgerReplyView::Balance(RentQuote { len: padded(ORDER_BOOK_LEN), lamports: rents.asks }),
        LedgerReplyView::Confirmed { signature: signatures[2] },
    ]
}

/// The creation after these replies, one after the other, or the error of the first
/// reply that ends it.
pub open spec fn run(start: MarketCreation, replies: Seq<LedgerReplyView>) -> Result<
    MarketCreation,
    ClientErrorView,
>
    decreases replies.len(),
{
    if replies.len() == 0 {
        Ok(start)
    } else {
        match run(start, replies.drop_last()) {
            Ok(before) => before.spec_advance(replies.last()),
            Err(e) => Err(e),
        }
    }
}

/// The creation with these balances taken and everything confirmed up to `stage`.
pub open spec fn with_rents(
    start: MarketCreation,
    rents: MarketRents,
    stage: Stage,
) -> MarketCreation {
    MarketCreation {
        stage,
        vault_lamports: rents.vault,
        market_lamports: rents.market,
        request_queue_lamports: rents.request_queue,
        event_queue_lamports: rents.event_queue,
        bids_lamports: rents.bids,
        asks_lamports: rents.asks,
        ..start
    }
}

/// A balance is taken only as the answer to the pending request: the creation asks
/// about exactly the length that the account will be created with, takes the oracle's
/// balance for that length, and refuses a balance that was given for another length or
/// that it did not ask for.
pub proof fn lemma_balance_answers_the_request(m: MarketCreation, quote: RentQuote)
    ensures
        match m.awaited_len() {
            Some(len) => m.spec_request() == Some(LedgerRequestView::MinimumBalance { len })
                && m.spec_advance(LedgerReplyView::Balance(quote)) == if quote.len == len {
                Ok::<MarketCreation, ClientErrorView>(m.after_balance(quote.lamports))
            } else {
                Err::<MarketCreation, ClientErrorView>(ClientErrorView::UnexpectedReply)
            },
            None => m.spec_advance(LedgerReplyView::Balance(quote)) == Err::<
                MarketCreation,
                ClientErrorView,
            >(ClientErrorView::UnexpectedReply),
        },
{
}

/// With a ledger that answers every request, a creation goes through two vault
/// transactions and one transaction for the market and ends with the market made:
/// every account is created with the length that its rent was asked for and with the
/// balance that the oracle gave for it.
pub proof fn lemma_market_creation_completes(
    start: MarketCreation,
    rents: MarketRents,
    signatures: Seq<Seq<char>>,
)
    requires
        start.stage is VaultRent,
        signatures.len() == 3,
    ensures
        run(start, market_replies(rents, signatures)) == Ok::<MarketCreation, ClientErrorView>(
            with_rents(start, rents, Stage::Done),
        ),
        run(start, market_replies(rents, signatures).drop_last()) == Ok::<
            MarketCreation,
            ClientErrorView,
        >(with_rents(start, rents, Stage::Initialize)),
        with_rents(start, rents, Stage::Initialize).spec_request() == Some(
            LedgerRequestView::Submit {
                plan: plan_of(
                    with_rents(start, rents, Stage::Initialize).market_instructions(),
                    start.payer,
                ),
            },
        ),
{
    let replies = market_replies(rents, signatures);
    let r1 = replies.take(1);
    let r2 = replies.take(2);
    let r3 = replies.take(3);
    let r4 = replies.take(4);
    let r5 = replies.take(5);
    let r6 = replies.take(6);
    let r7 = replies.take(7);
    let r8 = replies.take(8);
    assert(r1.drop_last() =~= Seq::<LedgerReplyView>::empty());
    assert(r2.drop_last() =~= r1);
    assert(r3.drop_last() =~= r2);
    assert(r4.drop_last() =~= r3);
    assert(r5.drop_last() =~= r4);
    assert(r6.drop_last() =~= r5);
    assert(r7.drop_last() =~= r6);
    assert(r8.drop_last() =~= r7);
    assert(replies.drop_last() =~= r8);
    assert(run(start, r1.drop_last()) == Ok::<MarketCreation, ClientErrorView>(start));
    let s1 = MarketCreation { vault_lamports: rents.vault, stage: Stage::BaseVault, ..start };
    assert(run(start, r1) == Ok::<MarketCreation, ClientErrorView>(s1));
    let s2 = MarketCreation { stage: Stage::QuoteVault, ..s1 };
    assert(run(start, r2) == Ok::<MarketCreation, ClientErrorView>(s2));
    let s3 = MarketCreation { stage: Stage::MarketRent, ..s2 };
    assert(run(start, r3) == Ok::<MarketCreation, ClientErrorView>(s3));
    let s4 = MarketCreation {
        market_lamports: rents.market,
        stage: Stage::RequestQueueRent,
        ..s3
    };
    assert(run(start, r4) == Ok::<MarketCreation, ClientErrorView>(s4));
    let s5 = MarketCreation {
        request_queue_lamports: rents.request_queue,
        stage: Stage::EventQueueRent,
        ..s4
    };
    assert(run(start, r5) == Ok::<MarketCreation, ClientErrorView>(s5));
    let s6 = MarketCreation {
        event_queue_lamports: rents.event_queue,
        stage: Stage::BidsRent,
        ..s5
    };
    assert(run(start, r6) == Ok::<MarketCreation, ClientErrorView>(s6));
    let s7 = MarketCreation { bids_lamports: rents.bids, stage: Stage::AsksRent, ..s6 };
    assert(run(start, r7) == Ok::<MarketCreation, ClientErrorView>(s7));
    let s8 = MarketCreation { asks_lamports: rents.asks, stage: Stage::Initialize, ..s7 };
    assert(run(start, r8) == Ok::<MarketCreation, ClientErrorView>(s8));
    assert(s8 == with_rents(start, rents, Stage::Initialize));
}

/// The vault's transaction obeys the ordering rule: the vault is created before the
/// token program binds it. Its owner is the vault signer.
pub proof fn lemma_vault_plan_is_ordered(m: MarketCreation, vault: Address, mint: Address)
    ensures
        creation_precedes_use(m.vault_instructions(vault, mint)),
        m.vault_instructions(vault, mint)[1].accounts[2].pubkey == m.keys.vault_signer,
{
    let instructions = m.vault_instructions(vault, mint);
    assert(TOKEN_PROGRAM_ID[0] != SYSTEM_PROGRAM_ID[0]);
    assert(instructions[1].program_id.bytes != SYSTEM_PROGRAM_ID);
    assert(instructions[0].program_id.bytes == SYSTEM_PROGRAM_ID);
    assert forall|i: int, j: int, a: Address|
        0 <= i < instructions.len() && 0 <= j < instructions.len() && #[trigger] creates(
            instructions[i],
            a,
        ) && #[trigger] consumes(instructions[j], a) implies i < j by {
        assert(i == 0);
        assert(j == 1);
    }
}

/// The market's transaction obeys the ordering rule: the market, both queues and both
/// books are created before the exchange program initializes the market over them.
pub proof fn lemma_market_plan_is_ordered(m: MarketCreation)
    ensures
        creation_precedes_use(m.market_instructions()),
{
    let instructions = m.market_instructions();
    assert(instructions[5].accounts.len() == 10);
    assert forall|i: int, j: int, a: Address|
        0 <= i < instructions.len() && 0 <= j < instructions.len() && #[trigger] creates(
            instructions[i],
            a,
        ) && #[trigger] consumes(instructions[j], a) implies i < j by {
        assert(i != 5);
        assert(instructions[0].program_id.bytes == SYSTEM_PROGRAM_ID);
        assert(instructions[1].program_id.bytes == SYSTEM_PROGRAM_ID);
        assert(instructions[2].program_id.bytes == SYSTEM_PROGRAM_ID);
        assert(instructions[3].program_id.bytes == SYSTEM_PROGRAM_ID);
        assert(instructions[4].program_id.bytes == SYSTEM_PROGRAM_ID);
        assert(j == 5);
    }
}

/// The market's transaction is signed by the payer and by every account that it
/// creates, and by no one else.
pub proof fn lemma_market_plan_signers(m: MarketCreation)
    ensures
        forall|a: Address| #[trigger]
            required_signers(m.market_instructions(), m.payer).contains(a) <==> (a == m.payer || a
                == m.keys.market || a == m.keys.request_queue || a == m.keys.event_queue || a
                == m.keys.bids || a == m.keys.asks),
{
    let instructions = m.market_instructions();
    lemma_required_signers(instructions, m.payer);
    assert(instructions[0].accounts[1].is_signer);
    assert(instructions[1].accounts[1].is_signer);
    assert(instructions[2].accounts[1].is_signer);
    assert(instructions[3].accounts[1].is_signer);
    assert(instructions[4].accounts[1].is_signer);
    assert forall|a: Address| signs_somewhere(instructions, a) implies (a == m.payer || a
        == m.keys.market || a == m.keys.request_queue || a == m.keys.event_queue || a
        == m.keys.bids || a == m.keys.asks) by {
        let (i, j) = choose|i: int, j: int|
            0 <= i < instructions.len() && 0 <= j < instructions[i].accounts.len()
                && #[trigger] instructions[i].accounts[j].is_signer
                && instructions[i].accounts[j].pubkey == a;
        if i == 5 {
            assert(!instructions[5].accounts[j].is_signer);
        }
    }
}

/// A vault's transaction is signed by the payer and by the vault, and by no one else.
pub proof fn lemma_vault_plan_signers(m: MarketCreation, vault: Address, mint: Address)
    ensures
        forall|a: Address| #[trigger]
            required_signers(m.vault_instructions(vault, mint), m.payer).contains(a) <==> (a
                == m.payer || a == vault),
{
    let instructions = m.vault_instructions(vault, mint);
    lemma_required_signers(instructions, m.payer);
    assert(instructions[0].accounts[1].is_signer);
    assert forall|a: Address| signs_somewhere(instructions, a) implies (a == m.payer || a
        == vault) by {
        let (i, j) = choose|i: int, j: int|
            0 <= i < instructions.len() && 0 <= j < instructions[i].accounts.len()
                && #[trigger] instructions[i].accounts[j].is_signer
                && instructions[i].accounts[j].pubkey == a;
        if i == 1 {
            assert(!instructions[1].accounts[j].is_signer);
        }
    }
}

/// What `info` says where the configuration root is absent.
pub const NO_INFORMATION: &'static str = "There is no information!";

/// The label under which `info` shows the record of this name; `None` for a record that
/// it does not show.
pub open spec fn info_label(file_name: Seq<char>) -> Option<Seq<char>> {
    if file_name == COIN_MINT@ {
        Some("Coint mint: "@)
    } else if file_name == PC_MINT@ {
        Some("Pc mint: "@)
    } else if spec_starts_with(file_name, WALLET@) {
        Some("Wallet: "@)
    } else if file_name == URL@ {
        Some("URL: "@)
    } else if file_name == PROGRAM_ID@ {
        Some("Program ID: "@)
    } else if file_name == MARKET_PUBKEY@ {
        Some("Market pubkey: "@)
    } else if spec_starts_with(file_name, OPEN_ORDER@) {
        Some("Open order pubkey: "@)
    } else {
        None
    }
}

/// The lines for these records: for every record with a label, in their order, the
/// label and the value.
pub open spec fn info_lines(entries: Seq<(Seq<char>, Seq<char>)>) -> Seq<Seq<char>>
    decreases entries.len(),
{
    if entries.len() == 0 {
        Seq::empty()
    } else {
        let before = info_lines(entries.drop_last());
        match info_label(entries.last().0) {
            Some(label) => before.push(label + entries.last().1),
            None => before,
        }
    }
}

/// What `info` reports of the store.
pub open spec fn spec_info(store: StoreView) -> Seq<Seq<char>> {
    if store.dirs.contains(spec_trim(CONFIG_DIR@)) {
        info_lines(spec_list_files(store, spec_trim(CONFIG_DIR@)))
    } else {
        seq![NO_INFORMATION@]
    }
}

proof fn lemma_no_entries(
    order: Seq<(Seq<char>, Seq<char>)>,
    records: Map<(Seq<char>, Seq<char>), Seq<char>>,
    dir: Seq<char>,
)
    requires
        forall|i: int| 0 <= i < order.len() ==> (#[trigger] order[i]).0 != dir,
    ensures
        entries_under(order, records, dir) == Seq::<(Seq<char>, Seq<char>)>::empty(),
    decreases order.len(),
{
    if order.len() > 0 {
        assert(order.last() == order[order.len() - 1]);
        assert forall|i: int| 0 <= i < order.drop_last().len() implies (
        #[trigger] order.drop_last()[i]).0 != dir by {
            assert(order.drop_last()[i] == order[i]);
        }
        lemma_no_entries(order.drop_last(), records, dir);
    }
}

/// The store of a fresh configuration root once the market's address, the network
/// address, the program's address and the wallet's path were written into it, in that
/// order.
pub open spec fn after_init(
    store: StoreView,
    market: Seq<char>,
    url: Seq<char>,
    program_id: Seq<char>,
    wallet: Seq<char>,
) -> StoreView {
    with_config(
        with_config(
            with_config(with_config(store, MARKET_PUBKEY@, market), URL@, url),
            PROGRAM_ID@,
            program_id,
        ),
        WALLET@,
        wallet,
    )
}

/// Once the four records of an initialization were written into a store without a
/// configuration root, the report shows them, each under its label and as it was
/// written, and nothing else.
pub proof fn lemma_info_shows_what_init_saved(
    store: StoreView,
    market: Seq<char>,
    url: Seq<char>,
    program_id: Seq<char>,
    wallet: Seq<char>,
)
    requires
        is_consistent(store),
        !store.dirs.contains(CONFIG_DIR@),
    ensures
        spec_info(after_init(store, market, url, program_id, wallet)) == seq![
            "Market pubkey: "@ + market,
            "URL: "@ + url,
            "Program ID: "@ + program_id,
            "Wallet: "@ + wallet,
        ],
{
    lemma_config_names();
    lemma_trim(CONFIG_DIR@);
    reveal_strlit("configs");
    reveal_strlit("coin_mint.json");
    reveal_strlit("pc_mint.json");
    reveal_strlit("market_pubkey.json");
    reveal_strlit("open_order_pubkey.json");
    reveal_strlit("url.json");
    reveal_strlit("program_id.json");
    reveal_strlit("wallet.json");
    let dir = CONFIG_DIR@;
    let k1 = (dir, MARKET_PUBKEY@);
    let k2 = (dir, URL@);
    let k3 = (dir, PROGRAM_ID@);
    let k4 = (dir, WALLET@);
    let s1 = with_config(store, MARKET_PUBKEY@, market);
    let s2 = with_config(s1, URL@, url);
    let s3 = with_config(s2, PROGRAM_ID@, program_id);
    let s4 = with_config(s3, WALLET@, wallet);
    assert forall|key: (Seq<char>, Seq<char>)| key.0 == dir implies !store.records.contains_key(
        key,
    ) by {
        if store.records.contains_key(key) {
            assert(store.dirs.contains(key.0));
        }
    }
    assert forall|i: int| 0 <= i < store.order.len() implies (#[trigger] store.order[i]).0
        != dir by {
        assert(store.order.contains(store.order[i]));
        assert(store.records.contains_key(store.order[i]));
    }
    let o4 = s4.order;
    assert(s1.order == store.order.push(k1));
    assert(s2.order == s1.order.push(k2));
    assert(s3.order == s2.order.push(k3));
    assert(o4 == s3.order.push(k4));
    let r = s4.records;
    lemma_no_entries(store.order, r, dir);
    assert(s1.order.drop_last() =~= store.order);
    assert(s2.order.drop_last() =~= s1.order);
    assert(s3.order.drop_last() =~= s2.order);
    assert(o4.drop_last() =~= s3.order);
    let e1 = entries_under(s1.order, r, dir);
    let e2 = entries_under(s2.order, r, dir);
    let e3 = entries_under(s3.order, r, dir);
    let e4 = entries_under(o4, r, dir);
    assert(e1 =~= seq![(MARKET_PUBKEY@, market)]);
    assert(e2 =~= seq![(MARKET_PUBKEY@, market), (URL@, url)]);
    assert(e3 =~= seq![(MARKET_PUBKEY@, market), (URL@, url), (PROGRAM_ID@, program_id)]);
    assert(e4 =~= seq![
        (MARKET_PUBKEY@, market),
        (URL@, url),
        (PROGRAM_ID@, program_id),
        (WALLET@, wallet),
    ]);
    assert(WALLET@.subrange(0, WALLET@.len() as int) =~= WALLET@);
    assert(PROGRAM_ID@.subrange(0, WALLET@.len() as int)[0] != WALLET@[0]);
    assert(MARKET_PUBKEY@.subrange(0, WALLET@.len() as int)[0] != WALLET@[0]);
    assert(info_label(MARKET_PUBKEY@) == Some("Market pubkey: "@));
    assert(info_label(URL@) == Some("URL: "@));
    assert(info_label(PROGRAM_ID@) == Some("Program ID: "@));
    assert(info_label(WALLET@) == Some("Wallet: "@));
    assert(e1.drop_last() =~= Seq::<(Seq<char>, Seq<char>)>::empty());
    assert(e2.drop_last() =~= e1);
    assert(e3.drop_last() =~= e2);
    assert(e4.drop_last() =~= e3);
    let l1 = info_lines(e1);
    let l2 = info_lines(e2);
    let l3 = info_lines(e3);
    assert(info_lines(e1.drop_last()) =~= Seq::<Seq<char>>::empty());
    assert(l1 =~= seq!["Market pubkey: "@ + market]);
    assert(l2 =~= seq!["Market pubkey: "@ + market, "URL: "@ + url]);
    assert(l3 =~= seq![
        "Market pubkey: "@ + market,
        "URL: "@ + url,
        "Program ID: "@ + program_id,
    ]);
}

fn label_of(file_name: &str) -> (label: Option<&'static str>)
    ensures
        match label {
            Some(l) => info_label(file_name@) == Some(l@),
            None => info_label(file_name@).is_none(),
        },
{
    if same_text(file_name, COIN_MINT) {
        Some("Coint mint: ")
    } else if same_text(file_name, PC_MINT) {
        Some("Pc mint: ")
    } else if starts_with(file_name, WALLET) {
        Some("Wallet: ")
    } else if same_text(file_name, URL) {
        Some("URL: ")
    } else if same_text(file_name, PROGRAM_ID) {
        Some("Program ID: ")
    } else if same_text(file_name, MARKET_PUBKEY) {
        Some("Market pubkey: ")
    } else if starts_with(file_name, OPEN_ORDER) {
        Some("Open order pubkey: ")
    } else {
        None
    }
}

/// Reports what the configuration root holds: one line for every record that has a
/// label, in the order in which the store holds them, made of the label and the value.
/// Where the configuration root is absent the report is the one line `NO_INFORMATION`.
pub fn info(store: &KeyStore) -> (lines: Vec<String>)
    requires
        store.wf(),
    ensures
        lines.deep_view() == spec_info(store@),
{
    let dir = trim(CONFIG_DIR);
    let mut lines: Vec<String> = Vec::new();
    if !is_initialized(store, dir) {
        lines.push(NO_INFORMATION.to_owned());
        assert(lines.deep_view() =~= seq![NO_INFORMATION@]);
        return lines;
    }
    let entries = list_files(store, dir);
    let ghost all = entries.deep_view();
    let mut i: usize = 0;
    assert(all.take(0) =~= Seq::<(Seq<char>, Seq<char>)>::empty());
    assert(lines.deep_view() =~= Seq::<Seq<char>>::empty());
    while i < entries.len()
        invariant
            i <= entries@.len(),
            all == entries.deep_view(),
            lines.deep_view() == info_lines(all.take(i as int)),
        decreases entries@.len() - i,
    {
        let ghost before = lines.deep_view();
        assert(all.take(i + 1).drop_last() =~= all.take(i as int));
        assert(all[i as int] == (entries@[i as int].0@, entries@[i as int].1@));
        match label_of(entries[i].0.as_str()) {
            Some(label) => {
                let mut line = label.to_owned();
                line.append(entries[i].1.as_str());
                let ghost text = line@;
                lines.push(line);
                assert(lines.deep_view() =~= before.push(text));
            },
            None => {},
        }
        i += 1;
    }
    assert(all.take(i as int) =~= all);
    lines
}

} // verus!
