//! The initial setup: two mints, a funded wallet for each, a market over both, and the
//! records by which later runs find them again.

use crate::address::{
    address_text, token_program_id, Address, SYSTEM_PROGRAM_ID, TOKEN_PROGRAM_ID,
};
use crate::error::{ClientError, ClientErrorView};
use crate::instruction::{
    create_account, initialize_account, initialize_mint, mint_to, spec_create_account,
    spec_initialize_account, spec_initialize_mint, spec_mint_to, Instruction, InstructionView,
};
use crate::ledger::{LedgerReply, LedgerReplyView, LedgerRequest, LedgerRequestView};
use crate::market::{token_account_size, FreshAccounts, MarketCreation, Stage, TOKEN_ACCOUNT_LEN};
use crate::transaction::{
    assemble, creation_precedes_use, lemma_system_instructions_first, plan_of, TransactionPlan,
};
use crate::text::lemma_trim;
use crate::utils::{
    is_stored_text, lemma_config_names, lemma_write_config, spec_read_file, store_error_text,
    with_config, write_file, KeyStore, StoreError, StoreView,
};
use crate::vault::{is_vault_signer_search, NONCE_SEARCH_BOUND};
use crate::{COIN_MINT, COIN_WALLET, CONFIG_DIR, MARKET_PUBKEY, PC_MINT, PC_WALLET};
use vstd::prelude::*;

verus! {

/// The size of a mint.
pub const MINT_LEN: usize = 82;

/// The decimals of the mints that the setup creates.
pub const MINT_DECIMALS: u8 = 3;

/// The amount that the setup mints into each wallet.
pub const MINTED_QUANTITY: u64 = 1_000_000_000_000_000;

/// The base lot size of the market that the setup creates.
pub const COIN_LOT_SIZE: u64 = 1_000_000;

/// The quote lot size of the market that the setup creates.
pub const PC_LOT_SIZE: u64 = 10_000;

/// Reads `LEN` of `spl_token::state::Mint`, which its source sets to 82.
#[verifier::external_body]
pub(crate) fn mint_size() -> (len: usize)
    ensures
        len == MINT_LEN,
{
    <spl_token::state::Mint as solana_program::program_pack::Pack>::LEN
}

/// The transaction that creates a mint: create the account for the token program, then
/// initialize it as a mint with `owner` as its authority.
pub open spec fn mint_instructions(
    payer: Address,
    mint: Address,
    owner: Address,
    decimals: u8,
    lamports: u64,
) -> Seq<InstructionView> {
    seq![
        spec_create_account(
            payer,
            mint,
            lamports,
            MINT_LEN as u64,
            Address { bytes: TOKEN_PROGRAM_ID },
        ),
        spec_initialize_mint(mint, owner, decimals),
    ]
}

/// The transaction that funds a new wallet: create the token account, bind it to the
/// mint with `payer` as its owner, then mint `quantity` into it.
pub open spec fn wallet_instructions(
    payer: Address,
    minting_key: Address,
    mint: Address,
    wallet: Address,
    quantity: u64,
    lamports: u64,
) -> Seq<InstructionView> {
    seq![
        spec_create_account(
            payer,
            wallet,
            lamports,
            TOKEN_ACCOUNT_LEN as u64,
            Address { bytes: TOKEN_PROGRAM_ID },
        ),
        spec_initialize_account(wallet, mint, payer),
        spec_mint_to(mint, wallet, minting_key, quantity),
    ]
}

/// The transactions of a mint and of a wallet obey the ordering rule: the account is
/// created before the token program initializes it or mints into it.
pub proof fn lemma_token_plans_are_ordered(
    payer: Address,
    minting_key: Address,
    mint: Address,
    account: Address,
    decimals: u8,
    quantity: u64,
    lamports: u64,
)
    ensures
        creation_precedes_use(mint_instructions(payer, mint, minting_key, decimals, lamports)),
        creation_precedes_use(
            wallet_instructions(payer, minting_key, mint, account, quantity, lamports),
        ),
{
    let for_mint = mint_instructions(payer, mint, minting_key, decimals, lamports);
    let for_wallet = wallet_instructions(payer, minting_key, mint, account, quantity, lamports);
    assert(TOKEN_PROGRAM_ID[0] != SYSTEM_PROGRAM_ID[0]);
    assert(for_mint[1].program_id.bytes != SYSTEM_PROGRAM_ID);
    assert(for_wallet[1].program_id.bytes != SYSTEM_PROGRAM_ID);
    assert(for_wallet[2].program_id.bytes != SYSTEM_PROGRAM_ID);
    lemma_system_instructions_first(for_mint, 1);
    lemma_system_instructions_first(for_wallet, 1);
}

/// Plans the transaction that creates the mint `mint` with `decimals` decimals and
/// `owner` as its authority, paid by `payer` and funded with `lamports`.
pub fn create_and_init_mint(
    payer: &Address,
    mint: &Address,
    owner: &Address,
    decimals: u8,
    lamports: u64,
) -> (plan: TransactionPlan)
    ensures
        plan@ == plan_of(mint_instructions(*payer, *mint, *owner, decimals, lamports), *payer),
{
    let token_program = token_program_id();
    let mut instructions: Vec<Instruction> = Vec::new();
    instructions.push(create_account(payer, mint, lamports, mint_size() as u64, &token_program));
    instructions.push(initialize_mint(mint, owner, decimals));
    assert(instructions.deep_view() =~= mint_instructions(
        *payer,
        *mint,
        *owner,
        decimals,
        lamports,
    ));
    assemble(instructions, *payer)
}

/// Plans the transaction that creates the token account `wallet` for `mint`, owned by
/// `payer`, and has `minting_key` mint `quantity` into it. The wallet is paid by
/// `payer` and funded with `lamports`.
pub fn mint_to_new_account(
    payer: &Address,
    minting_key: &Address,
    mint: &Address,
    wallet: &Address,
    quantity: u64,
    lamports: u64,
) -> (plan: TransactionPlan)
    ensures
        plan@ == plan_of(
            wallet_instructions(*payer, *minting_key, *mint, *wallet, quantity, lamports),
            *payer,
        ),
{
    let token_program = token_program_id();
    let mut instructions: Vec<Instruction> = Vec::new();
    instructions.push(
        create_account(payer, wallet, lamports, token_account_size() as u64, &token_program),
    );
    instructions.push(initialize_account(wallet, mint, payer));
    instructions.push(mint_to(mint, wallet, minting_key, quantity));
    assert(instructions.deep_view() =~= wallet_instructions(
        *payer,
        *minting_key,
        *mint,
        *wallet,
        quantity,
        lamports,
    ));
    assemble(instructions, *payer)
}

/// The addresses of the accounts that a setup needs, each of a key pair made for it.
#[derive(Clone, Copy, Debug)]
pub struct SetupAccounts {
    pub coin_mint: Address,
    pub pc_mint: Address,
    pub coin_wallet: Address,
    pub pc_wallet: Address,
    pub market: FreshAccounts,
}

/// Where a setup stands: what it waits for next.
#[derive(Clone, Copy, Debug)]
pub enum SetupStage {
    /// The rent of the base mint.
    CoinMintRent,
    /// The confirmation of the base mint's transaction.
    CoinMint,
    /// The rent of the quote mint.
    PcMintRent,
    /// The confirmation of the quote mint's transaction.
    PcMint,
    /// The rent of the base wallet.
    CoinWalletRent,
    /// The confirmation of the base wallet's transaction.
    CoinWallet,
    /// The rent of the quote wallet.
    PcWalletRent,
    /// The confirmation of the quote wallet's transaction.
    PcWallet,
    /// Whatever the creation of the market waits for.
    Market,
    /// Nothing: everything exists.
    Done,
}

/// A setup under way.
#[derive(Clone, Copy, Debug)]
pub struct Setup {
    pub payer: Address,
    pub accounts: SetupAccounts,
    pub stage: SetupStage,
    /// The balance that the oracle gave for the account that comes next.
    pub lamports: u64,
    pub market: MarketCreation,
}

impl Setup {
    /// The account length whose rent the setup itself waits for, where it waits for
    /// one.
    pub open spec fn awaited_len(self) -> Option<usize> {
        match self.stage {
            SetupStage::CoinMintRent => Some(MINT_LEN),
            SetupStage::PcMintRent => Some(MINT_LEN),
            SetupStage::CoinWalletRent => Some(TOKEN_ACCOUNT_LEN),
            SetupStage::PcWalletRent => Some(TOKEN_ACCOUNT_LEN),
            _ => None,
        }
    }

    /// The instructions whose confirmation the setup itself waits for, where it waits
    /// for one.
    pub open spec fn awaited_instructions(self) -> Option<Seq<InstructionView>> {
        match self.stage {
            SetupStage::CoinMint => Some(
                mint_instructions(
                    self.payer,
                    self.accounts.coin_mint,
                    self.payer,
                    MINT_DECIMALS,
                    self.lamports,
                ),
            ),
            SetupStage::PcMint => Some(
                mint_instructions(
                    self.payer,
                    self.accounts.pc_mint,
                    self.payer,
                    MINT_DECIMALS,
                    self.lamports,
                ),
            ),
            SetupStage::CoinWallet => Some(
                wallet_instructions(
                    self.payer,
                    self.payer,
                    self.accounts.coin_mint,
                    self.accounts.coin_wallet,
                    MINTED_QUANTITY,
                    self.lamports,
                ),
            ),
            SetupStage::PcWallet => Some(
                wallet_instructions(
                    self.payer,
                    self.payer,
                    self.accounts.pc_mint,
                    self.accounts.pc_wallet,
                    MINTED_QUANTITY,
                    self.lamports,
                ),
            ),
            _ => None,
        }
    }

    /// What the setup asks of the ledger next; nothing once everything exists.
    pub open spec fn spec_request(self) -> Option<LedgerRequestView> {
        match self.stage {
            SetupStage::Market => self.market.spec_request(),
            SetupStage::Done => None,
            _ => match self.awaited_len() {
                Some(len) => Some(LedgerRequestView::MinimumBalance { len }),
                None => match self.awaited_instructions() {
                    Some(instructions) => Some(
                        LedgerRequestView::Submit { plan: plan_of(instructions, self.payer) },
                    ),
                    None => None,
                },
            },
        }
    }

    /// The stage that follows this one once its reply has come; the market's stages
    /// follow one another inside `Market`.
    pub open spec fn stage_after(self) -> SetupStage {
        match self.stage {
            SetupStage::CoinMintRent => SetupStage::CoinMint,
            SetupStage::CoinMint => SetupStage::PcMintRent,
            SetupStage::PcMintRent => SetupStage::PcMint,
            SetupStage::PcMint => SetupStage::CoinWalletRent,
            SetupStage::CoinWalletRent => SetupStage::CoinWallet,
            SetupStage::CoinWallet => SetupStage::PcWalletRent,
            SetupStage::PcWalletRent => SetupStage::PcWallet,
            SetupStage::PcWallet => SetupStage::Market,
            SetupStage::Market => SetupStage::Market,
            SetupStage::Done => SetupStage::Done,
        }
    }

    /// The setup after `reply`, or why the reply ends it. A balance counts only for the
    /// length that was asked about, a confirmation only for a submitted transaction; a
    /// rejection is reported with the ledger's reason. During the creation of the
    /// market, the market's creation decides.
    pub open spec fn spec_advance(self, reply: LedgerReplyView) -> Result<Setup, ClientErrorView> {
        match self.stage {
            SetupStage::Done => Err(ClientErrorView::UnexpectedReply),
            SetupStage::Market => match self.market.spec_advance(reply) {
                Ok(market) => Ok(
                    Setup {
                        market,
                        stage: if market.stage is Done {
                            SetupStage::Done
                        } else {
                            SetupStage::Market
                        },
                        ..self
                    },
                ),
                Err(e) => Err(e),
            },
            _ => match reply {
                LedgerReplyView::Rejected { reason } => Err(
                    ClientErrorView::SubmissionRejected(reason),
                ),
                LedgerReplyView::Balance(quote) => if self.awaited_len() == Some(quote.len) {
                    Ok(Setup { lamports: quote.lamports, stage: self.stage_after(), ..self })
                } else {
                    Err(ClientErrorView::UnexpectedReply)
                },
                LedgerReplyView::Confirmed { signature } => {
                    if self.awaited_instructions().is_some() {
                        Ok(Setup { stage: self.stage_after(), ..self })
                    } else {
                        Err(ClientErrorView::UnexpectedReply)
                    }
                },
            },
        }
    }

    /// What to ask of the ledger next: a rent quote for the length of the account that
    /// comes next, or the submission of a transaction. `None` once everything exists.
    pub fn request(&self) -> (request: Option<LedgerRequest>)
        ensures
            match request {
                Some(r) => self.spec_request() == Some(r@),
                None => self.spec_request().is_none(),
            },
    {
        match self.stage {
            SetupStage::CoinMintRent => Some(LedgerRequest::MinimumBalance { len: mint_size() }),
            SetupStage::CoinMint => Some(
                LedgerRequest::Submit {
                    plan: create_and_init_mint(
                        &self.payer,
                        &self.accounts.coin_mint,
                        &self.payer,
                        MINT_DECIMALS,
                        self.lamports,
                    ),
                },
            ),
            SetupStage::PcMintRent => Some(LedgerRequest::MinimumBalance { len: mint_size() }),
            SetupStage::PcMint => Some(
                LedgerRequest::Submit {
                    plan: create_and_init_mint(
                        &self.payer,
                        &self.accounts.pc_mint,
                        &self.payer,
                        MINT_DECIMALS,
                        self.lamports,
                    ),
                },
            ),
            SetupStage::CoinWalletRent => Some(
                LedgerRequest::MinimumBalance { len: token_account_size() },
            ),
            SetupStage::CoinWallet => Some(
                LedgerRequest::Submit {
                    plan: mint_to_new_account(
                        &self.payer,
                        &self.payer,
                        &self.accounts.coin_mint,
                        &self.accounts.coin_wallet,
                        MINTED_QUANTITY,
                        self.lamports,
                    ),
                },
            ),
            SetupStage::PcWalletRent => Some(
                LedgerRequest::MinimumBalance { len: token_account_size() },
            ),
            SetupStage::PcWallet => Some(
                LedgerRequest::Submit {
                    plan: mint_to_new_account(
                        &self.payer,
                        &self.payer,
                        &self.accounts.pc_mint,
                        &self.accounts.pc_wallet,
                        MINTED_QUANTITY,
                        self.lamports,
                    ),
                },
            ),
            SetupStage::Market => self.market.request(),
            SetupStage::Done => None,
        }
    }

    fn waits_for_len(&self) -> (len: Option<usize>)
        ensures
            len == self.awaited_len(),
    {
        match self.stage {
            SetupStage::CoinMintRent => Some(mint_size()),
            SetupStage::PcMintRent => Some(mint_size()),
            SetupStage::CoinWalletRent => Some(token_account_size()),
            SetupStage::PcWalletRent => Some(token_account_size()),
            _ => None,
        }
    }

    fn next_stage(&self) -> (stage: SetupStage)
        ensures
            stage == self.stage_after(),
    {
        match self.stage {
            SetupStage::CoinMintRent => SetupStage::CoinMint,
            SetupStage::CoinMint => SetupStage::PcMintRent,
            SetupStage::PcMintRent => SetupStage::PcMint,
            SetupStage::PcMint => SetupStage::CoinWalletRent,
            SetupStage::CoinWalletRent => SetupStage::CoinWallet,
            SetupStage::CoinWallet => SetupStage::PcWalletRent,
            SetupStage::PcWalletRent => SetupStage::PcWallet,
            SetupStage::PcWallet => SetupStage::Market,
            SetupStage::Market => SetupStage::Market,
            SetupStage::Done => SetupStage::Done,
        }
    }

    /// Takes the ledger's reply to the pending request and moves on. A rejection, or a
    /// reply that does not answer the request, leaves the setup where it was, so that
    /// the request can be made again.
    pub fn advance(&mut self, reply: LedgerReply) -> (moved: Result<(), ClientError>)
        ensures
            match moved {
                Ok(()) => old(self).spec_advance(reply@) == Ok::<Setup, ClientErrorView>(
                    *final(self),
                ),
                Err(e) => old(self).spec_advance(reply@) == Err::<Setup, ClientErrorView>(e@)
                    && *final(self) == *old(self),
            },
    {
        match self.stage {
            SetupStage::Done => {
                return Err(ClientError::UnexpectedReply);
            },
            SetupStage::Market => {
                let mut market = self.market;
                match market.advance(reply) {
                    Ok(()) => {
                        self.market = market;
                        match market.stage {
                            Stage::Done => {
                                self.stage = SetupStage::Done;
                            },
                            _ => {},
                        }
                        return Ok(());
                    },
                    Err(e) => {
                        return Err(e);
                    },
                }
            },
            _ => {},
        }
        match reply {
            LedgerReply::Rejected { reason } => Err(ClientError::SubmissionRejected(reason)),
            LedgerReply::Balance(quote) => {
                let answers = match self.waits_for_len() {
                    Some(len) => len == quote.len,
                    None => false,
                };
                if !answers {
                    return Err(ClientError::UnexpectedReply);
                }
                self.lamports = quote.lamports;
                self.stage = self.next_stage();
                Ok(())
            },
            LedgerReply::Confirmed { signature } => {
                match self.stage {
                    SetupStage::CoinMint | SetupStage::PcMint | SetupStage::CoinWallet
                    | SetupStage::PcWallet => {},
                    _ => {
                        return Err(ClientError::UnexpectedReply);
                    },
                }
                self.stage = self.next_stage();
                Ok(())
            },
        }
    }

    /// What the setup has made, once everything exists.
    pub fn outcome(&self) -> (made: Option<SetupOutcome>)
        ensures
            made.is_some() <==> self.stage is Done,
            made matches Some(o) ==> {
                &&& o.coin_mint == self.accounts.coin_mint
                &&& o.pc_mint == self.accounts.pc_mint
                &&& o.coin_wallet == self.accounts.coin_wallet
                &&& o.pc_wallet == self.accounts.pc_wallet
                &&& o.market == self.market.keys.market
            },
    {
        match self.stage {
            SetupStage::Done => Some(
                SetupOutcome {
                    coin_mint: self.accounts.coin_mint,
                    pc_mint: self.accounts.pc_mint,
                    coin_wallet: self.accounts.coin_wallet,
                    pc_wallet: self.accounts.pc_wallet,
                    market: self.market.keys.market,
                },
            ),
            _ => None,
        }
    }
}

/// The addresses that a setup leaves behind.
#[derive(Clone, Copy, Debug)]
pub struct SetupOutcome {
    pub coin_mint: Address,
    pub pc_mint: Address,
    pub coin_wallet: Address,
    pub pc_wallet: Address,
    pub market: Address,
}

/// The state in which a setup starts.
pub open spec fn spec_initialize(
    payer: Address,
    accounts: SetupAccounts,
    market: MarketCreation,
) -> Setup {
    Setup { payer, accounts, stage: SetupStage::CoinMintRent, lamports: 0, market }
}

/// Starts the setup for the exchange program `program_id`, paid by `payer`, on the
/// accounts `accounts`: both mints with `payer` as their authority, a wallet of each
/// mint funded with `MINTED_QUANTITY`, and a market over both mints with the lot sizes
/// `COIN_LOT_SIZE` and `PC_LOT_SIZE`. Where the market's address derives no vault
/// signer the setup fails with `DerivationExhausted` before anything is asked of the
/// ledger.
pub fn initialize(program_id: &Address, payer: &Address, accounts: &SetupAccounts) -> (started:
    Result<Setup, ClientError>)
    ensures
        match started {
            Ok(setup) => setup == spec_initialize(*payer, *accounts, setup.market)
                && setup.market == crate::market::spec_new(
                *payer,
                accounts.coin_mint,
                accounts.pc_mint,
                COIN_LOT_SIZE,
                PC_LOT_SIZE,
                *program_id,
                accounts.market,
                setup.market.keys.vault_signer_nonce,
                setup.market.keys.vault_signer,
            ) && is_vault_signer_search(
                accounts.market.market,
                *program_id,
                0,
                NONCE_SEARCH_BOUND,
                Ok((setup.market.keys.vault_signer_nonce, setup.market.keys.vault_signer)),
            ),
            Err(e) => is_vault_signer_search(
                accounts.market.market,
                *program_id,
                0,
                NONCE_SEARCH_BOUND,
                Err(e@),
            ),
        },
{
    match crate::market::new(
        payer,
        &accounts.coin_mint,
        &accounts.pc_mint,
        COIN_LOT_SIZE,
        PC_LOT_SIZE,
        program_id,
        &accounts.market,
    ) {
        Ok(market) => Ok(
            Setup {
                payer: *payer,
                accounts: *accounts,
                stage: SetupStage::CoinMintRent,
                lamports: 0,
                market,
            },
        ),
        Err(e) => Err(e),
    }
}

/// The store with the setup's five records under the configuration root: both mints,
/// both wallets and the market, each under its name and as the text of its address.
pub open spec fn with_setup(store: StoreView, made: SetupOutcome) -> StoreView {
    with_config(
        with_config(
            with_config(
                with_config(
                    with_config(store, COIN_MINT@, address_text(made.coin_mint@)),
                    PC_MINT@,
                    address_text(made.pc_mint@),
                ),
                COIN_WALLET@,
                address_text(made.coin_wallet@),
            ),
            PC_WALLET@,
            address_text(made.pc_wallet@),
        ),
        MARKET_PUBKEY@,
        address_text(made.market@),
    )
}

/// What saving the setup does to the store, or why the store refuses it: the store
/// refuses every record where the name of the configuration root is taken by something
/// that is no namespace, and none else.
pub open spec fn spec_save_setup(store: StoreView, made: SetupOutcome) -> Result<
    StoreView,
    ClientErrorView,
> {
    if store.files.contains(CONFIG_DIR@) {
        Err(ClientErrorView::StoreWriteConflict(store_error_text(StoreError::NotADirectory)))
    } else {
        Ok(with_setup(store, made))
    }
}

/// What was saved of a setup is read back: each of the five records holds the text of
/// its address.
pub proof fn lemma_saved_setup_is_read(store: StoreView, made: SetupOutcome)
    ensures
        spec_read_file(with_setup(store, made), CONFIG_DIR@, COIN_MINT@) == Ok::<
            Seq<char>,
            StoreError,
        >(address_text(made.coin_mint@)),
        spec_read_file(with_setup(store, made), CONFIG_DIR@, PC_MINT@) == Ok::<
            Seq<char>,
            StoreError,
        >(address_text(made.pc_mint@)),
        spec_read_file(with_setup(store, made), CONFIG_DIR@, COIN_WALLET@) == Ok::<
            Seq<char>,
            StoreError,
        >(address_text(made.coin_wallet@)),
        spec_read_file(with_setup(store, made), CONFIG_DIR@, PC_WALLET@) == Ok::<
            Seq<char>,
            StoreError,
        >(address_text(made.pc_wallet@)),
        spec_read_file(with_setup(store, made), CONFIG_DIR@, MARKET_PUBKEY@) == Ok::<
            Seq<char>,
            StoreError,
        >(address_text(made.market@)),
{
    lemma_config_names();
    lemma_trim(CONFIG_DIR@);
    lemma_trim(COIN_MINT@);
    lemma_trim(PC_MINT@);
    lemma_trim(COIN_WALLET@);
    lemma_trim(PC_WALLET@);
    lemma_trim(MARKET_PUBKEY@);
}

fn save_address(store: &mut KeyStore, name: &str, address: &Address) -> (saved: Result<
    (),
    StoreError,
>)
    requires
        old(store).wf(),
        is_stored_text(name@),
    ensures
        final(store).wf(),
        match saved {
            Ok(()) => !old(store)@.files.contains(CONFIG_DIR@) && final(store)@ == with_config(
                old(store)@,
                name@,
                address_text(address@),
            ),
            Err(e) => old(store)@.files.contains(CONFIG_DIR@) && e == StoreError::NotADirectory
                && final(store)@ == old(store)@,
        },
{
    let text = address.to_text();
    proof {
        lemma_write_config(store@, name@, text@);
    }
    write_file(store, CONFIG_DIR, name, text.as_str())
}

fn first_refusal(first: Result<(), StoreError>, then: Result<(), StoreError>) -> (both: Result<
    (),
    StoreError,
>)
    ensures
        both == match first {
            Ok(()) => then,
            Err(e) => Err::<(), StoreError>(e),
        },
{
    match first {
        Ok(()) => then,
        Err(e) => Err(e),
    }
}

/// Saves what the setup made in the configuration root: both mints, both wallets and
/// the market, each under its name and as the text of its address. Every record is
/// attempted, whatever became of the ones before it. The store takes all five unless
/// the root's name is taken by something that is no namespace; it then takes none, and
/// the save reports `StoreWriteConflict` with the store's first refusal as the cause.
pub fn save_setup(store: &mut KeyStore, made: &SetupOutcome) -> (saved: Result<(), ClientError>)
    requires
        old(store).wf(),
    ensures
        final(store).wf(),
        match saved {
            Ok(()) => spec_save_setup(old(store)@, *made) == Ok::<StoreView, ClientErrorView>(
                final(store)@,
            ),
            Err(e) => spec_save_setup(old(store)@, *made) == Err::<StoreView, ClientErrorView>(
                e@,
            ) && final(store)@ == old(store)@,
        },
{
    proof {
        lemma_config_names();
    }
    let coin_mint = save_address(store, COIN_MINT, &made.coin_mint);
    let pc_mint = save_address(store, PC_MINT, &made.pc_mint);
    let coin_wallet = save_address(store, COIN_WALLET, &made.coin_wallet);
    let pc_wallet = save_address(store, PC_WALLET, &made.pc_wallet);
    let market = save_address(store, MARKET_PUBKEY, &made.market);
    let all = first_refusal(
        coin_mint,
        first_refusal(pc_mint, first_refusal(coin_wallet, first_refusal(pc_wallet, market))),
    );
    match all {
        Ok(()) => Ok(()),
        Err(e) => Err(ClientError::StoreWriteConflict(e.message())),
    }
}

} // verus!
