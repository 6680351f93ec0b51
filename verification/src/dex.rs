//! Accounts of the exchange program: how they are sized and created, what the account
//! of a market holds, and where the open-orders account of an owner is kept.

use crate::address::{address_text, text_address, Address};
use crate::error::{ClientError, ClientErrorView};
use crate::instruction::{
    create_account, init_open_orders_instruction, spec_create_account, spec_init_open_orders,
    Instruction, InstructionView,
};
use crate::ledger::{FundedAccount, RentQuote};
use crate::text::lemma_trim;
use crate::transaction::{
    assemble, creation_precedes_use, lemma_system_instructions_first, plan_of, TransactionPlan,
};
use crate::utils::{
    is_stored_text, lemma_config_names, lemma_write_config, read_file, spec_read_file, with_config,
    write_file, KeyStore, StoreError, StoreView,
};
use crate::vault::{gen_vault_signer_key, vault_signer_key};
use crate::{MarketPubkeys, MarketPubkeysView, CONFIG_DIR, OPEN_ORDER};
use safe_transmute::transmute_one_pedantic;
use serum_dex::state::{Market, MarketState, MarketStateV2};
use vstd::bytes::{
    lemma_auto_spec_u64_to_from_le_bytes, spec_u64_from_le_bytes, spec_u64_to_le_bytes,
    u64_from_le_bytes, u64_to_le_bytes,
};
use vstd::prelude::*;
use vstd::slice::slice_subrange;
use vstd::string::StringExecFns;

verus! {

/// The bytes that the exchange program reserves around the content of every account it
/// owns: five at the head and seven at the tail.
pub const ACCOUNT_PADDING_LEN: usize = 12;

/// The size of an open-orders account's content.
pub const OPEN_ORDERS_LEN: usize = 3216;

/// Calls `size_of` on `serum_dex::state::OpenOrders`, a packed record of 3216 bytes.
#[verifier::external_body]
pub(crate) fn open_orders_size() -> (len: usize)
    ensures
        len == OPEN_ORDERS_LEN,
{
    std::mem::size_of::<serum_dex::state::OpenOrders>()
}

/// The length to create an account with, and to ask the rent oracle about, when the
/// exchange program expects `unpadded_len` bytes of content; `None` where that length
/// is more than the machine can count.
pub fn padded_len(unpadded_len: usize) -> (len: Option<usize>)
    ensures
        match len {
            Some(n) => n == unpadded_len + ACCOUNT_PADDING_LEN,
            None => unpadded_len + ACCOUNT_PADDING_LEN > usize::MAX,
        },
{
    unpadded_len.checked_add(ACCOUNT_PADDING_LEN)
}

/// What `create_dex_account` returns.
pub open spec fn spec_create_dex_account(
    program_id: Address,
    payer: Address,
    new_account: Address,
    unpadded_len: usize,
    rent: RentQuote,
) -> Result<InstructionView, ClientErrorView> {
    if rent.len == unpadded_len + ACCOUNT_PADDING_LEN {
        Ok(
            spec_create_account(
                payer,
                new_account,
                rent.lamports,
                (unpadded_len + ACCOUNT_PADDING_LEN) as u64,
                program_id,
            ),
        )
    } else {
        Err(ClientErrorView::UnexpectedReply)
    }
}

/// The instruction that creates `new_account` for the exchange program, funded by
/// `payer`. The account is created with `unpadded_len` bytes and the padding, and with
/// the balance that the rent oracle gave for exactly that length: a quote for any other
/// length is refused with `UnexpectedReply`. The instruction is inert until a signed
/// transaction carries it.
pub fn create_dex_account(
    program_id: &Address,
    payer: &Address,
    new_account: &Address,
    unpadded_len: usize,
    rent: &RentQuote,
) -> (created: Result<Instruction, ClientError>)
    ensures
        match created {
            Ok(ix) => spec_create_dex_account(
                *program_id,
                *payer,
                *new_account,
                unpadded_len,
                *rent,
            ) == Ok::<InstructionView, ClientErrorView>(ix@),
            Err(e) => spec_create_dex_account(
                *program_id,
                *payer,
                *new_account,
                unpadded_len,
                *rent,
            ) == Err::<InstructionView, ClientErrorView>(e@),
        },
{
    match padded_len(unpadded_len) {
        Some(len) if rent.len == len => Ok(
            create_account(payer, new_account, rent.lamports, len as u64, program_id),
        ),
        _ => Err(ClientError::UnexpectedReply),
    }
}

/// The five bytes at the head of every account of the exchange program: `serum`.
pub const ACCOUNT_HEAD_PADDING: [u8; 5] = [115, 101, 114, 117, 109];

/// The seven bytes at the tail of every account of the exchange program: `padding`.
pub const ACCOUNT_TAIL_PADDING: [u8; 7] = [112, 97, 100, 100, 105, 110, 103];

/// The size of a plain market's record.
pub const PLAIN_MARKET_LEN: usize = 376;

/// The size of a permissioned market's record.
pub const PERMISSIONED_MARKET_LEN: usize = 1464;

/// The account flag of an account that the exchange program has initialized.
pub const INITIALIZED_FLAG: u64 = 1;

/// The account flag of a market.
pub const MARKET_FLAG: u64 = 2;

/// The account flag of a book of bids.
pub const BIDS_FLAG: u64 = 32;

/// The account flag of a book of asks.
pub const ASKS_FLAG: u64 = 64;

/// The account flag of a market that is disabled.
pub const DISABLED_FLAG: u64 = 128;

/// The account flag that marks a market's record as permissioned.
pub const PERMISSIONED_FLAG: u64 = 512;

/// The account flag of a permissioned market whose events only its crank authority
/// consumes.
pub const CRANK_AUTHORITY_REQUIRED_FLAG: u64 = 1024;

/// The bits of the eleven account flags that the exchange program defines.
pub const ACCOUNT_FLAGS_MASK: u64 = 0x7ff;

/// Reads `serum_dex::state::ACCOUNT_HEAD_PADDING`, which its source sets to `serum`.
#[verifier::external_body]
pub(crate) fn account_head_padding() -> (head: [u8; 5])
    ensures
        head == ACCOUNT_HEAD_PADDING,
{
    *serum_dex::state::ACCOUNT_HEAD_PADDING
}

/// Reads `serum_dex::state::ACCOUNT_TAIL_PADDING`, which its source sets to `padding`.
#[verifier::external_body]
pub(crate) fn account_tail_padding() -> (tail: [u8; 7])
    ensures
        tail == ACCOUNT_TAIL_PADDING,
{
    *serum_dex::state::ACCOUNT_TAIL_PADDING
}

/// Whether `data` is long enough for both paddings and carries them.
pub open spec fn has_padding(data: Seq<u8>) -> bool {
    &&& data.len() >= ACCOUNT_PADDING_LEN
    &&& data.subrange(0, 5) == ACCOUNT_HEAD_PADDING@
    &&& data.subrange(data.len() - 7, data.len() as int) == ACCOUNT_TAIL_PADDING@
}

/// What lies between the paddings.
pub open spec fn unpadded(data: Seq<u8>) -> Seq<u8> {
    data.subrange(5, data.len() - 7)
}

/// The word that starts at byte `8 * i`, read in little-endian order.
pub open spec fn word_at(bytes: Seq<u8>, i: int) -> u64 {
    spec_u64_from_le_bytes(bytes.subrange(8 * i, 8 * i + 8))
}

/// The bytes as little-endian words of eight bytes each.
pub open spec fn words_of(bytes: Seq<u8>) -> Seq<u64> {
    Seq::new((bytes.len() / 8) as nat, |i: int| word_at(bytes, i))
}

/// What `remove_dex_account_padding` returns where it succeeds.
pub open spec fn spec_remove_dex_account_padding(data: Seq<u8>) -> Option<Seq<u64>> {
    if has_padding(data) && unpadded(data).len() >= 8 && unpadded(data).len() % 8 == 0 {
        Some(words_of(unpadded(data)))
    } else {
        None
    }
}

fn has_head_padding(data: &[u8]) -> (found: bool)
    requires
        data@.len() >= 5,
    ensures
        found == (data@.subrange(0, 5) == ACCOUNT_HEAD_PADDING@),
{
    let head = account_head_padding();
    let mut i: usize = 0;
    while i < 5
        invariant
            i <= 5,
            data@.len() >= 5,
            head == ACCOUNT_HEAD_PADDING,
            forall|k: int| 0 <= k < i ==> data@[k] == head@[k],
        decreases 5 - i,
    {
        if data[i] != head[i] {
            assert(data@.subrange(0, 5)[i as int] != head@[i as int]);
            return false;
        }
        i += 1;
    }
    assert(data@.subrange(0, 5) =~= head@);
    true
}

fn has_tail_padding(data: &[u8]) -> (found: bool)
    requires
        data@.len() >= 7,
    ensures
        found == (data@.subrange(data@.len() - 7, data@.len() as int) == ACCOUNT_TAIL_PADDING@),
{
    let tail = account_tail_padding();
    let start = data.len() - 7;
    let mut i: usize = 0;
    while i < 7
        invariant
            i <= 7,
            data@.len() >= 7,
            data@.len() <= usize::MAX,
            start == data@.len() - 7,
            tail == ACCOUNT_TAIL_PADDING,
            forall|k: int| 0 <= k < i ==> data@[start + k] == tail@[k],
        decreases 7 - i,
    {
        if data[start + i] != tail[i] {
            let ghost found = data@.subrange(data@.len() - 7, data@.len() as int);
            assert(found[i as int] != tail@[i as int]);
            return false;
        }
        i += 1;
    }
    assert(data@.subrange(data@.len() - 7, data@.len() as int) =~= tail@);
    true
}

/// The content of an account of the exchange program: what lies between the head and
/// the tail padding. The account is malformed where it is too short for both paddings
/// or where either padding is not the expected one.
pub fn account_content<'a>(data: &'a [u8]) -> (content: Result<&'a [u8], ClientError>)
    ensures
        match content {
            Ok(c) => has_padding(data@) && c@ == unpadded(data@),
            Err(e) => e@ == ClientErrorView::MalformedAccount && !has_padding(data@),
        },
{
    if data.len() < ACCOUNT_PADDING_LEN {
        return Err(ClientError::MalformedAccount);
    }
    if !has_head_padding(data) {
        return Err(ClientError::MalformedAccount);
    }
    if !has_tail_padding(data) {
        return Err(ClientError::MalformedAccount);
    }
    Ok(slice_subrange(data, 5, data.len() - 7))
}

/// Strips the head and tail padding from the bytes of an account of the exchange
/// program and reads what is left as little-endian words. The account is malformed
/// where it is too short for both paddings, where either padding is not the expected
/// one, or where what is left is not a whole number of words, at least one.
pub fn remove_dex_account_padding(data: &[u8]) -> (words: Result<Vec<u64>, ClientError>)
    ensures
        match words {
            Ok(w) => spec_remove_dex_account_padding(data@) == Some(w@),
            Err(e) => e@ == ClientErrorView::MalformedAccount && spec_remove_dex_account_padding(
                data@,
            ).is_none(),
        },
{
    let content = match account_content(data) {
        Ok(content) => content,
        Err(e) => {
            return Err(e);
        },
    };
    if content.len() < 8 || content.len() % 8 != 0 {
        return Err(ClientError::MalformedAccount);
    }
    let count = content.len() / 8;
    let mut words: Vec<u64> = Vec::new();
    let mut i: usize = 0;
    while i < count
        invariant
            i <= count,
            count == content@.len() / 8,
            content@.len() % 8 == 0,
            content@.len() <= usize::MAX,
            words@.len() == i,
            forall|k: int| 0 <= k < i ==> words@[k] == word_at(content@, k),
        decreases count - i,
    {
        let piece = slice_subrange(content, 8 * i, 8 * i + 8);
        words.push(u64_from_le_bytes(piece));
        i += 1;
    }
    assert(words@ =~= words_of(content@));
    Ok(words)
}

/// What `Market::account_flags` reads from the bytes of an account: the word behind
/// the head padding, where the account is long enough for it and the word sets none
/// but the eleven flags that the exchange program defines.
pub open spec fn spec_account_flags(data: Seq<u8>) -> Option<u64> {
    if data.len() >= 13 && spec_u64_from_le_bytes(data.subrange(5, 13)) <= ACCOUNT_FLAGS_MASK {
        Some(spec_u64_from_le_bytes(data.subrange(5, 13)))
    } else {
        None
    }
}

/// The flags that a plain market's record may carry: initialized and market, and
/// disabled too where a disabled market is allowed.
pub open spec fn plain_market_flags(flags: u64, allow_disabled: bool) -> bool {
    ||| flags == INITIALIZED_FLAG + MARKET_FLAG
    ||| allow_disabled && flags == INITIALIZED_FLAG + MARKET_FLAG + DISABLED_FLAG
}

/// The flags that a permissioned market's record may carry: initialized, market and
/// permissioned, with or without crank authority required, and disabled too where a
/// disabled market is allowed.
pub open spec fn permissioned_market_flags(flags: u64, allow_disabled: bool) -> bool {
    ||| flags == INITIALIZED_FLAG + MARKET_FLAG + PERMISSIONED_FLAG
    ||| flags == INITIALIZED_FLAG + MARKET_FLAG + PERMISSIONED_FLAG
        + CRANK_AUTHORITY_REQUIRED_FLAG
    ||| allow_disabled && flags == INITIALIZED_FLAG + MARKET_FLAG + PERMISSIONED_FLAG
        + DISABLED_FLAG
    ||| allow_disabled && flags == INITIALIZED_FLAG + MARKET_FLAG + PERMISSIONED_FLAG
        + CRANK_AUTHORITY_REQUIRED_FLAG + DISABLED_FLAG
}

/// Calls `Market::account_flags`. Its source refuses an account of fewer than 13 bytes
/// and a flags word with a bit that is no flag, and else returns the word.
#[verifier::external_body]
pub(crate) fn market_account_flags(account_data: &[u8]) -> (flags: Option<u64>)
    ensures
        flags == spec_account_flags(account_data@),
{
    Market::account_flags(account_data).ok().map(|flags| flags.bits())
}

/// Reads the bytes as a `MarketState` with `transmute_one_pedantic`, which takes exactly
/// 376 bytes, and calls `check_flags` on it. Its source accepts the flag words of
/// `plain_market_flags` and no other.
#[verifier::external_body]
pub(crate) fn plain_market_accepted(record: &[u8], allow_disabled: bool) -> (accepted: bool)
    ensures
        accepted == (record@.len() == PLAIN_MARKET_LEN && plain_market_flags(
            spec_u64_from_le_bytes(record@.subrange(0, 8)),
            allow_disabled,
        )),
{
    match transmute_one_pedantic::<MarketState>(record) {
        Ok(state) => state.check_flags(allow_disabled).is_ok(),
        Err(_) => false,
    }
}

/// Reads the bytes as a `MarketStateV2` with `transmute_one_pedantic`, which takes
/// exactly 1464 bytes, and calls `check_flags` on it. Its source accepts the flag words
/// of `permissioned_market_flags` and no other.
#[verifier::external_body]
pub(crate) fn permissioned_market_accepted(record: &[u8], allow_disabled: bool) -> (accepted:
    bool)
    ensures
        accepted == (record@.len() == PERMISSIONED_MARKET_LEN && permissioned_market_flags(
            spec_u64_from_le_bytes(record@.subrange(0, 8)),
            allow_disabled,
        )),
{
    match transmute_one_pedantic::<MarketStateV2>(record) {
        Ok(state) => state.check_flags(allow_disabled).is_ok(),
        Err(_) => false,
    }
}

/// Whether the record between the paddings has the layout that its flags select, and
/// flags that the exchange program accepts for that layout.
pub open spec fn record_accepted(flags: u64, record: Seq<u8>, allow_disabled: bool) -> bool {
    if flags & PERMISSIONED_FLAG != 0 {
        record.len() == PERMISSIONED_MARKET_LEN && permissioned_market_flags(
            spec_u64_from_le_bytes(record.subrange(0, 8)),
            allow_disabled,
        )
    } else {
        record.len() == PLAIN_MARKET_LEN && plain_market_flags(
            spec_u64_from_le_bytes(record.subrange(0, 8)),
            allow_disabled,
        )
    }
}

/// The address held in the four words from `at` on.
pub open spec fn address_at(words: Seq<u64>, at: int) -> Seq<u8> {
    spec_u64_to_le_bytes(words[at]) + spec_u64_to_le_bytes(words[at + 1]) + spec_u64_to_le_bytes(
        words[at + 2],
    ) + spec_u64_to_le_bytes(words[at + 3])
}

/// The word of a market's record that holds the market's own address.
pub const OWN_ADDRESS_WORD: usize = 1;

/// The word that holds the nonce of the vault signer.
pub const VAULT_SIGNER_NONCE_WORD: usize = 5;

/// The word at which the base vault's address starts.
pub const COIN_VAULT_WORD: usize = 14;

/// The word at which the quote vault's address starts.
pub const PC_VAULT_WORD: usize = 20;

/// The word at which the request queue's address starts.
pub const REQ_Q_WORD: usize = 27;

/// The word at which the event queue's address starts.
pub const EVENT_Q_WORD: usize = 31;

/// The word at which the address of the bids book starts.
pub const BIDS_WORD: usize = 35;

/// The word at which the address of the asks book starts.
pub const ASKS_WORD: usize = 39;

/// The addresses that the words of a market's record hold, with the vault signer that
/// the record's nonce derives, where the record names `market` as its own address.
pub open spec fn keys_in_record(
    words: Seq<u64>,
    market: Address,
    vault_signer: Seq<u8>,
) -> MarketPubkeysView {
    MarketPubkeysView {
        market: market@,
        req_q: address_at(words, REQ_Q_WORD as int),
        event_q: address_at(words, EVENT_Q_WORD as int),
        bids: address_at(words, BIDS_WORD as int),
        asks: address_at(words, ASKS_WORD as int),
        coin_vault: address_at(words, COIN_VAULT_WORD as int),
        pc_vault: address_at(words, PC_VAULT_WORD as int),
        vault_signer_key: vault_signer,
    }
}

/// What the market state reader finds in the bytes of the account at `market`; `None`
/// where the account is malformed. The account has to carry both paddings around a
/// whole number of words, flags that the exchange program defines, the layout and the
/// flags of a plain or of a permissioned market, a nonce that derives a vault signer
/// for `market` under `program_id`, and `market` as its own address.
pub open spec fn spec_read_market(
    program_id: Address,
    market: Address,
    data: Seq<u8>,
    allow_disabled: bool,
) -> Option<MarketPubkeysView> {
    match (spec_remove_dex_account_padding(data), spec_account_flags(data)) {
        (Some(words), Some(flags)) => {
            if !record_accepted(flags, unpadded(data), allow_disabled) {
                None
            } else {
                match vault_signer_key(
                    words[VAULT_SIGNER_NONCE_WORD as int],
                    market,
                    program_id,
                ) {
                    Some(vault_signer) => if address_at(words, OWN_ADDRESS_WORD as int)
                        == market@ {
                        Some(keys_in_record(words, market, vault_signer))
                    } else {
                        None
                    },
                    None => None,
                }
            }
        },
        _ => None,
    }
}

fn address_in_words(words: &Vec<u64>, at: usize) -> (address: Address)
    requires
        at + 4 <= words@.len(),
    ensures
        address@ == address_at(words@, at as int),
{
    let total = words.len();
    let mut bytes: Vec<u8> = Vec::new();
    let mut i: usize = 0;
    while i < 4
        invariant
            i <= 4,
            at + 4 <= words@.len(),
            words@.len() == total,
            bytes@.len() == 8 * i,
            i >= 1 ==> bytes@.subrange(0, 8) == spec_u64_to_le_bytes(words@[at as int]),
            i >= 2 ==> bytes@.subrange(8, 16) == spec_u64_to_le_bytes(words@[at + 1]),
            i >= 3 ==> bytes@.subrange(16, 24) == spec_u64_to_le_bytes(words@[at + 2]),
            i >= 4 ==> bytes@.subrange(24, 32) == spec_u64_to_le_bytes(words@[at + 3]),
        decreases 4 - i,
    {
        let ghost before = bytes@;
        let mut word = u64_to_le_bytes(words[at + i]);
        let ghost piece = word@;
        bytes.append(&mut word);
        assert(bytes@.subrange(8 * i as int, 8 * i + 8) =~= piece);
        assert(i >= 1 ==> bytes@.subrange(0, 8) =~= before.subrange(0, 8));
        assert(i >= 2 ==> bytes@.subrange(8, 16) =~= before.subrange(8, 16));
        assert(i >= 3 ==> bytes@.subrange(16, 24) =~= before.subrange(16, 24));
        i += 1;
    }
    let mut address = Address { bytes: [0u8; 32] };
    let mut k: usize = 0;
    while k < 32
        invariant
            k <= 32,
            bytes@.len() == 32,
            forall|j: int| 0 <= j < k ==> address.bytes[j] == bytes@[j],
        decreases 32 - k,
    {
        address.bytes[k] = bytes[k];
        k += 1;
    }
    assert(address@ =~= bytes@);
    assert(bytes@ =~= bytes@.subrange(0, 8) + bytes@.subrange(8, 16) + bytes@.subrange(16, 24)
        + bytes@.subrange(24, 32));
    address
}

/// What `get_keys_for_market` finds: what the market state reader finds where it takes
/// a disabled market too.
pub open spec fn spec_get_keys_for_market(
    program_id: Address,
    market: Address,
    data: Seq<u8>,
) -> Option<MarketPubkeysView> {
    spec_read_market(program_id, market, data, true)
}

/// Resolves the addresses of the market at `market` from the bytes of its account, as
/// the ledger holds them; a disabled market is resolved too. The reader strips both
/// paddings, picks the plain or the permissioned layout by the account's flags, has the
/// exchange program's own code check the flags, derives the vault signer from the nonce
/// in the record, and insists that the record names `market` as its own address.
/// Whatever fails, the account is reported as malformed and no address is returned.
pub fn get_keys_for_market(program_id: &Address, market: &Address, account_data: &[u8]) -> (keys:
    Result<MarketPubkeys, ClientError>)
    ensures
        match keys {
            Ok(k) => spec_get_keys_for_market(*program_id, *market, account_data@) == Some(k@),
            Err(e) => e@ == ClientErrorView::MalformedAccount && spec_get_keys_for_market(
                *program_id,
                *market,
                account_data@,
            ).is_none(),
        },
{
    read_market(program_id, market, account_data, true)
}

/// The market state reader: resolves the addresses of the market at `market` from the
/// bytes of its account, as `get_keys_for_market` does, and takes a disabled market
/// only where `allow_disabled` says so.
pub fn read_market(
    program_id: &Address,
    market: &Address,
    account_data: &[u8],
    allow_disabled: bool,
) -> (keys: Result<MarketPubkeys, ClientError>)
    ensures
        match keys {
            Ok(k) => spec_read_market(*program_id, *market, account_data@, allow_disabled) == Some(
                k@,
            ),
            Err(e) => e@ == ClientErrorView::MalformedAccount && spec_read_market(
                *program_id,
                *market,
                account_data@,
                allow_disabled,
            ).is_none(),
        },
{
    let words = match remove_dex_account_padding(account_data) {
        Ok(words) => words,
        Err(e) => {
            return Err(e);
        },
    };
    let flags = match market_account_flags(account_data) {
        Some(flags) => flags,
        None => {
            return Err(ClientError::MalformedAccount);
        },
    };
    let record = slice_subrange(account_data, 5, account_data.len() - 7);
    let accepted = if flags & PERMISSIONED_FLAG != 0 {
        permissioned_market_accepted(record, allow_disabled)
    } else {
        plain_market_accepted(record, allow_disabled)
    };
    if !accepted {
        return Err(ClientError::MalformedAccount);
    }
    assert(words@.len() >= 47);
    let vault_signer = match gen_vault_signer_key(
        words[VAULT_SIGNER_NONCE_WORD],
        market,
        program_id,
    ) {
        Some(key) => key,
        None => {
            return Err(ClientError::MalformedAccount);
        },
    };
    let own_address = address_in_words(&words, OWN_ADDRESS_WORD);
    if !own_address.same(market) {
        assert(own_address@ != market@) by {
            if own_address@ == market@ {
                crate::address::lemma_address_ext(own_address, *market);
            }
        }
        return Err(ClientError::MalformedAccount);
    }
    Ok(
        MarketPubkeys {
            market: Box::new(*market),
            req_q: Box::new(address_in_words(&words, REQ_Q_WORD)),
            event_q: Box::new(address_in_words(&words, EVENT_Q_WORD)),
            bids: Box::new(address_in_words(&words, BIDS_WORD)),
            asks: Box::new(address_in_words(&words, ASKS_WORD)),
            coin_vault: Box::new(address_in_words(&words, COIN_VAULT_WORD)),
            pc_vault: Box::new(address_in_words(&words, PC_VAULT_WORD)),
            vault_signer_key: Box::new(vault_signer),
        },
    )
}

/// What the record of a plain market holds besides the addresses of its accounts.
#[derive(Clone, Copy, Debug)]
pub struct MarketTerms {
    pub vault_signer_nonce: u64,
    pub coin_mint: Address,
    pub pc_mint: Address,
    pub coin_lot_size: u64,
    pub pc_lot_size: u64,
    pub pc_dust_threshold: u64,
}

/// The flags of a plain market that is initialized and not disabled.
pub const PLAIN_MARKET_FLAGS: u64 = INITIALIZED_FLAG + MARKET_FLAG;

/// The record of a plain market as the exchange program lays it out when it
/// initializes the market: the flags, the market's own address, the nonce, both mints,
/// each vault with its two accumulators, the dust threshold, both queues, both books,
/// both lot sizes, the fee rate and the accrued rebates. Every number is a
/// little-endian word; accumulators, fee rate and rebates are zero.
pub open spec fn market_record(keys: MarketPubkeysView, terms: MarketTerms) -> Seq<u8> {
    spec_u64_to_le_bytes(PLAIN_MARKET_FLAGS) + keys.market + spec_u64_to_le_bytes(
        terms.vault_signer_nonce,
    ) + terms.coin_mint@ + terms.pc_mint@ + keys.coin_vault + spec_u64_to_le_bytes(0)
        + spec_u64_to_le_bytes(0) + keys.pc_vault + spec_u64_to_le_bytes(0) + spec_u64_to_le_bytes(
        0,
    ) + spec_u64_to_le_bytes(terms.pc_dust_threshold) + keys.req_q + keys.event_q + keys.bids
        + keys.asks + spec_u64_to_le_bytes(terms.coin_lot_size) + spec_u64_to_le_bytes(
        terms.pc_lot_size,
    ) + spec_u64_to_le_bytes(0) + spec_u64_to_le_bytes(0)
}

/// The bytes of the account of a plain market: the record between both paddings.
pub open spec fn spec_encode_market_account(keys: MarketPubkeysView, terms: MarketTerms) -> Seq<
    u8,
> {
    ACCOUNT_HEAD_PADDING@ + market_record(keys, terms) + ACCOUNT_TAIL_PADDING@
}

/// Whether every address of the set has its 32 bytes.
pub open spec fn is_address_set(keys: MarketPubkeysView) -> bool {
    &&& keys.market.len() == 32
    &&& keys.req_q.len() == 32
    &&& keys.event_q.len() == 32
    &&& keys.bids.len() == 32
    &&& keys.asks.len() == 32
    &&& keys.coin_vault.len() == 32
    &&& keys.pc_vault.len() == 32
    &&& keys.vault_signer_key.len() == 32
}

fn put_address(data: &mut Vec<u8>, address: &Address)
    ensures
        final(data)@ == old(data)@ + address@,
{
    let mut bytes = address.to_vec();
    data.append(&mut bytes);
}

fn put_word(data: &mut Vec<u8>, word: u64)
    ensures
        final(data)@ == old(data)@ + spec_u64_to_le_bytes(word),
{
    let mut bytes = u64_to_le_bytes(word);
    data.append(&mut bytes);
}

/// Writes the bytes of the account of a plain market that holds these addresses and
/// terms, as the exchange program leaves it when it has initialized the market.
pub fn encode_market_account(keys: &MarketPubkeys, terms: &MarketTerms) -> (data: Vec<u8>)
    ensures
        data@ == spec_encode_market_account(keys@, *terms),
{
    let head = account_head_padding();
    let tail = account_tail_padding();
    let mut data: Vec<u8> = Vec::new();
    let mut i: usize = 0;
    while i < 5
        invariant
            i <= 5,
            head == ACCOUNT_HEAD_PADDING,
            data@ == ACCOUNT_HEAD_PADDING@.subrange(0, i as int),
        decreases 5 - i,
    {
        data.push(head[i]);
        i += 1;
        assert(data@ =~= ACCOUNT_HEAD_PADDING@.subrange(0, i as int));
    }
    assert(data@ =~= ACCOUNT_HEAD_PADDING@);
    put_word(&mut data, PLAIN_MARKET_FLAGS);
    put_address(&mut data, &keys.market);
    put_word(&mut data, terms.vault_signer_nonce);
    put_address(&mut data, &terms.coin_mint);
    put_address(&mut data, &terms.pc_mint);
    put_address(&mut data, &keys.coin_vault);
    put_word(&mut data, 0);
    put_word(&mut data, 0);
    put_address(&mut data, &keys.pc_vault);
    put_word(&mut data, 0);
    put_word(&mut data, 0);
    put_word(&mut data, terms.pc_dust_threshold);
    put_address(&mut data, &keys.req_q);
    put_address(&mut data, &keys.event_q);
    put_address(&mut data, &keys.bids);
    put_address(&mut data, &keys.asks);
    put_word(&mut data, terms.coin_lot_size);
    put_word(&mut data, terms.pc_lot_size);
    put_word(&mut data, 0);
    put_word(&mut data, 0);
    assert(data@ =~= ACCOUNT_HEAD_PADDING@ + market_record(keys@, *terms));
    let ghost body = data@;
    let mut k: usize = 0;
    while k < 7
        invariant
            k <= 7,
            tail == ACCOUNT_TAIL_PADDING,
            data@ == body + ACCOUNT_TAIL_PADDING@.subrange(0, k as int),
        decreases 7 - k,
    {
        data.push(tail[k]);
        k += 1;
        assert(data@ =~= body + ACCOUNT_TAIL_PADDING@.subrange(0, k as int));
    }
    assert(ACCOUNT_TAIL_PADDING@.subrange(0, 7) =~= ACCOUNT_TAIL_PADDING@);
    data
}

/// The address that starts at the word `at` of the bytes is the 32 bytes from byte
/// `8 * at` on.
pub proof fn lemma_address_at(bytes: Seq<u8>, at: int)
    requires
        0 <= at,
        8 * at + 32 <= bytes.len(),
    ensures
        address_at(words_of(bytes), at) == bytes.subrange(8 * at, 8 * at + 32),
{
    lemma_auto_spec_u64_to_from_le_bytes();
    let words = words_of(bytes);
    assert forall|k: int| 0 <= k < 4 implies spec_u64_to_le_bytes(#[trigger] words[at + k])
        == bytes.subrange(8 * (at + k), 8 * (at + k) + 8) by {
        let piece = bytes.subrange(8 * (at + k), 8 * (at + k) + 8);
        assert(piece.len() == 8);
        assert(words[at + k] == spec_u64_from_le_bytes(piece));
    }
    assert(words[at] == words[at + 0]);
    assert(address_at(words, at) =~= bytes.subrange(8 * at, 8 * at + 32));
}

/// Round trip: the market state reader finds in the encoded account of a plain market
/// exactly the addresses that were encoded, where the vault signer among them is the
/// one that the encoded nonce derives for the market.
pub proof fn lemma_market_round_trip(
    program_id: Address,
    market: Address,
    keys: MarketPubkeysView,
    terms: MarketTerms,
)
    requires
        is_address_set(keys),
        keys.market == market@,
        vault_signer_key(terms.vault_signer_nonce, market, program_id) == Some(
            keys.vault_signer_key,
        ),
    ensures
        spec_get_keys_for_market(program_id, market, spec_encode_market_account(keys, terms))
            == Some(keys),
{
    lemma_auto_spec_u64_to_from_le_bytes();
    let record = market_record(keys, terms);
    let data = spec_encode_market_account(keys, terms);
    assert(record.len() == 376);
    assert(data.len() == 388);
    assert(data.subrange(0, 5) =~= ACCOUNT_HEAD_PADDING@);
    assert(data.subrange(data.len() - 7, data.len() as int) =~= ACCOUNT_TAIL_PADDING@);
    assert(unpadded(data) =~= record);
    let words = words_of(record);
    assert(words.len() == 47);
    assert(spec_remove_dex_account_padding(data) == Some(words));
    let flag_bytes = spec_u64_to_le_bytes(PLAIN_MARKET_FLAGS);
    assert(record.subrange(0, 8) =~= flag_bytes);
    assert(data.subrange(5, 13) =~= flag_bytes);
    assert(spec_u64_from_le_bytes(flag_bytes) == PLAIN_MARKET_FLAGS);
    assert(spec_account_flags(data) == Some(PLAIN_MARKET_FLAGS));
    assert(3u64 & 512u64 == 0) by (bit_vector);
    assert(record_accepted(PLAIN_MARKET_FLAGS, record, true));
    let nonce_bytes = spec_u64_to_le_bytes(terms.vault_signer_nonce);
    assert(record.subrange(40, 48) =~= nonce_bytes);
    assert(words[5] == word_at(record, 5));
    assert(words[5] == terms.vault_signer_nonce);
    lemma_address_at(record, OWN_ADDRESS_WORD as int);
    lemma_address_at(record, REQ_Q_WORD as int);
    lemma_address_at(record, EVENT_Q_WORD as int);
    lemma_address_at(record, BIDS_WORD as int);
    lemma_address_at(record, ASKS_WORD as int);
    lemma_address_at(record, COIN_VAULT_WORD as int);
    lemma_address_at(record, PC_VAULT_WORD as int);
    assert(record.subrange(8, 40) =~= keys.market);
    assert(record.subrange(216, 248) =~= keys.req_q);
    assert(record.subrange(248, 280) =~= keys.event_q);
    assert(record.subrange(280, 312) =~= keys.bids);
    assert(record.subrange(312, 344) =~= keys.asks);
    assert(record.subrange(112, 144) =~= keys.coin_vault);
    assert(record.subrange(160, 192) =~= keys.pc_vault);
}

/// An account whose tail padding is not the expected one yields no address at all.
pub proof fn lemma_corrupted_padding_is_malformed(
    program_id: Address,
    market: Address,
    data: Seq<u8>,
)
    requires
        !has_padding(data),
    ensures
        spec_get_keys_for_market(program_id, market, data).is_none(),
{
}

/// The instructions that open an open-orders account for `owner` on the market, and
/// the account that they open. Where no account is known the instruction that creates
/// the `fresh` account for the exchange program comes first; the rent has to be the
/// oracle's answer for the length of an open-orders account.
pub open spec fn spec_init_open_orders_plan(
    program_id: Address,
    owner: Address,
    market: Address,
    orders: Option<Address>,
    fresh: Option<FundedAccount>,
) -> Result<(Seq<InstructionView>, Address), ClientErrorView> {
    match orders {
        Some(known) => Ok((seq![spec_init_open_orders(program_id, known, owner, market)], known)),
        None => match fresh {
            Some(account) => match spec_create_dex_account(
                program_id,
                owner,
                account.address,
                OPEN_ORDERS_LEN,
                account.rent,
            ) {
                Ok(created) => Ok(
                    (
                        seq![
                            created,
                            spec_init_open_orders(program_id, account.address, owner, market),
                        ],
                        account.address,
                    ),
                ),
                Err(e) => Err(e),
            },
            None => Err(ClientErrorView::UnexpectedReply),
        },
    }
}

/// Whatever `init_open_orders` plans obeys the ordering rule: where the open-orders
/// account is created in the transaction, it is created before it is opened.
pub proof fn lemma_open_orders_plan_is_ordered(
    program_id: Address,
    owner: Address,
    market: Address,
    orders: Option<Address>,
    fresh: Option<FundedAccount>,
)
    requires
        spec_init_open_orders_plan(program_id, owner, market, orders, fresh) is Ok,
    ensures
        creation_precedes_use(
            spec_init_open_orders_plan(program_id, owner, market, orders, fresh)->Ok_0.0,
        ),
{
    let instructions = spec_init_open_orders_plan(program_id, owner, market, orders, fresh)->Ok_0.0;
    match orders {
        Some(known) => {
            assert(instructions[0].accounts.len() == 4);
            lemma_system_instructions_first(instructions, 0);
        },
        None => {
            assert(instructions[1].accounts.len() == 4);
            lemma_system_instructions_first(instructions, 1);
        },
    }
}

/// Plans the transaction that opens an open-orders account for `owner` on the market
/// `state`, paid by the owner. Where `orders` holds an account, that account is
/// opened. Where it holds none, the `fresh` account is created in the same
/// transaction, before it is opened, and `orders` holds it afterwards; the plan is
/// refused with `UnexpectedReply` where no fresh account is given or its rent was
/// quoted for another length, and `orders` stays empty.
pub fn init_open_orders(
    program_id: &Address,
    owner: &Address,
    state: &MarketPubkeys,
    orders: &mut Option<Address>,
    fresh: Option<FundedAccount>,
) -> (planned: Result<TransactionPlan, ClientError>)
    ensures
        match planned {
            Ok(plan) => final(orders).is_some() && spec_init_open_orders_plan(
                *program_id,
                *owner,
                *state.market,
                *old(orders),
                fresh,
            ) == Ok::<(Seq<InstructionView>, Address), ClientErrorView>(
                (plan@.instructions, final(orders).unwrap()),
            ) && plan@ == plan_of(plan@.instructions, *owner),
            Err(e) => *final(orders) == *old(orders) && spec_init_open_orders_plan(
                *program_id,
                *owner,
                *state.market,
                *old(orders),
                fresh,
            ) == Err::<(Seq<InstructionView>, Address), ClientErrorView>(e@),
        },
{
    let mut instructions: Vec<Instruction> = Vec::new();
    let orders_pubkey = match *orders {
        Some(known) => known,
        None => {
            let account = match fresh {
                Some(account) => account,
                None => {
                    return Err(ClientError::UnexpectedReply);
                },
            };
            match create_dex_account(
                program_id,
                owner,
                &account.address,
                open_orders_size(),
                &account.rent,
            ) {
                Ok(created) => {
                    instructions.push(created);
                },
                Err(e) => {
                    return Err(e);
                },
            }
            account.address
        },
    };
    instructions.push(
        init_open_orders_instruction(program_id, &orders_pubkey, owner, &state.market),
    );
    *orders = Some(orders_pubkey);
    proof {
        let expected = spec_init_open_orders_plan(
            *program_id,
            *owner,
            *state.market,
            *old(orders),
            fresh,
        );
        assert(expected is Ok);
        assert(instructions.deep_view() =~= expected->Ok_0.0);
    }
    Ok(assemble(instructions, *owner))
}

/// The name of the record that holds the open-orders account of `owner`: the owner's
/// address as text, an underscore and `OPEN_ORDER`, so that several owners can share
/// one configuration root.
pub open spec fn open_order_record(owner: Address) -> Seq<char> {
    address_text(owner@) + "_"@ + OPEN_ORDER@
}

/// The open-orders account that the store holds for `owner`: none where the record is
/// absent, and `ConfigMissing` where the record does not hold an address.
pub open spec fn spec_get_open_order_pubkey(store: StoreView, owner: Address) -> Result<
    Option<Seq<u8>>,
    ClientErrorView,
> {
    match spec_read_file(store, CONFIG_DIR@, open_order_record(owner)) {
        Ok(text) => match text_address(text) {
            Some(orders) => Ok(Some(orders)),
            None => Err(ClientErrorView::ConfigMissing),
        },
        Err(_) => Ok(None),
    }
}

/// Whether `found` is what a lookup of the owner's open-orders account in this store
/// has to return.
pub open spec fn is_open_order_lookup(
    store: StoreView,
    owner: Address,
    found: Result<Option<Address>, ClientErrorView>,
) -> bool {
    spec_get_open_order_pubkey(store, owner) == match found {
        Ok(Some(orders)) => Ok::<Option<Seq<u8>>, ClientErrorView>(Some(orders@)),
        Ok(None) => Ok::<Option<Seq<u8>>, ClientErrorView>(None),
        Err(e) => Err::<Option<Seq<u8>>, ClientErrorView>(e),
    }
}

/// The name of the record that holds the open-orders account of `owner`: a text that
/// the store keeps as it is.
pub fn open_order_record_name(owner: &Address) -> (name: String)
    ensures
        name@ == open_order_record(*owner),
        is_stored_text(name@),
{
    let mut name = owner.to_text();
    let ghost text = name@;
    name.append("_");
    name.append(OPEN_ORDER);
    proof {
        reveal_strlit("_");
        reveal_strlit("open_order_pubkey.json");
        assert(name@[0] == text[0]);
        assert(name@[name@.len() - 1] == OPEN_ORDER@[OPEN_ORDER@.len() - 1]);
    }
    name
}

/// Looks up the open-orders account of `owner` in the store. Where the store holds the
/// record, the account is the address in it and nothing has to be done on the ledger;
/// a record that holds no address is reported as `ConfigMissing`. Where the store holds
/// no record there is no account yet: it has to be opened, with `init_open_orders`,
/// and saved, with `save_open_order_pubkey`. The store is only read.
pub fn get_open_order_pubkey(store: &KeyStore, owner: &Address) -> (found: Result<
    Option<Address>,
    ClientError,
>)
    requires
        store.wf(),
    ensures
        match found {
            Ok(orders) => is_open_order_lookup(store@, *owner, Ok(orders)),
            Err(e) => is_open_order_lookup(store@, *owner, Err(e@)),
        },
{
    let name = open_order_record_name(owner);
    match read_file(store, CONFIG_DIR, name.as_str()) {
        Ok(text) => match Address::from_text(text.as_str()) {
            Some(orders) => Ok(Some(orders)),
            None => Err(ClientError::ConfigMissing),
        },
        Err(_) => Ok(None),
    }
}

/// Saves `orders` as the open-orders account of `owner`, under the owner's record in
/// the configuration root, so that a lookup for that owner finds it from then on. The
/// store refuses the record only where the root's name is taken by something that is no
/// namespace, and is then left as it was.
pub fn save_open_order_pubkey(store: &mut KeyStore, owner: &Address, orders: &Address) -> (saved:
    Result<(), StoreError>)
    requires
        old(store).wf(),
    ensures
        final(store).wf(),
        match saved {
            Ok(()) => !old(store)@.files.contains(CONFIG_DIR@) && final(store)@ == with_config(
                old(store)@,
                open_order_record(*owner),
                address_text(orders@),
            ) && is_open_order_lookup(final(store)@, *owner, Ok(Some(*orders))),
            Err(e) => old(store)@.files.contains(CONFIG_DIR@) && e == StoreError::NotADirectory
                && final(store)@ == old(store)@,
        },
{
    let name = open_order_record_name(owner);
    let text = orders.to_text();
    proof {
        lemma_write_config(store@, name@, text@);
        lemma_config_names();
        lemma_trim(CONFIG_DIR@);
        lemma_trim(name@);
    }
    write_file(store, CONFIG_DIR, name.as_str(), text.as_str())
}

} // verus!
