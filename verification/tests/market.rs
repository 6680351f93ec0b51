use serum_rust_cli::address::{Address, SYSTEM_PROGRAM_ID, TOKEN_PROGRAM_ID};
use serum_rust_cli::error::ClientError;
use serum_rust_cli::ledger::{
    submission_outcome, LedgerReply, LedgerRequest, RentQuote,
};
use serum_rust_cli::market::{new, FreshAccounts, MarketCreation, Stage};
use serum_rust_cli::transaction::{assemble, holds, TransactionPlan};
use serum_rust_cli::vault::{find_vault_signer, gen_vault_signer_key, NONCE_SEARCH_BOUND};
use solana_program::pubkey::Pubkey;
use solana_sdk::signature::Keypair;
use solana_sdk::signer::Signer;
use solana_sdk::transaction::Transaction;

fn address_of(keypair: &Keypair) -> Address {
    Address::new(keypair.pubkey().to_bytes())
}

fn outside(plan: &TransactionPlan) -> Vec<solana_program::instruction::Instruction> {
    plan.instructions
        .iter()
        .map(|ix| solana_program::instruction::Instruction {
            program_id: Pubkey::new_from_array(ix.program_id.bytes),
            accounts: ix
                .accounts
                .iter()
                .map(|m| solana_program::instruction::AccountMeta {
                    pubkey: Pubkey::new_from_array(m.pubkey.bytes),
                    is_signer: m.is_signer,
                    is_writable: m.is_writable,
                })
                .collect(),
            data: ix.data.clone(),
        })
        .collect()
}

/// Signs the plan with the key pairs that it names and checks that the ledger's own
/// code takes them for the full set of signers.
fn sign(plan: &TransactionPlan, keypairs: &[&Keypair]) -> Transaction {
    let signers: Vec<&Keypair> = plan
        .signers
        .iter()
        .map(|a| {
            *keypairs
                .iter()
                .find(|k| k.pubkey().to_bytes() == a.bytes)
                .expect("a signer without a key pair")
        })
        .collect();
    let payer = Pubkey::new_from_array(plan.payer.bytes);
    let tx =
        Transaction::new_signed_with_payer(&outside(plan), Some(&payer), &signers, solana_sdk::hash::Hash::default());
    assert!(tx.is_signed());
    assert!(tx.verify().is_ok());
    assert_eq!(tx.message.header.num_required_signatures as usize, plan.signers.len());
    assert_eq!(tx.message.account_keys[0], payer);
    for key in &tx.message.account_keys[..plan.signers.len()] {
        assert!(plan.signers.iter().any(|a| a.bytes == key.to_bytes()));
    }
    tx
}

struct Keys {
    payer: Keypair,
    market: Keypair,
    request_queue: Keypair,
    event_queue: Keypair,
    bids: Keypair,
    asks: Keypair,
    base_vault: Keypair,
    quote_vault: Keypair,
}

fn keys() -> Keys {
    Keys {
        payer: Keypair::new(),
        market: Keypair::new(),
        request_queue: Keypair::new(),
        event_queue: Keypair::new(),
        bids: Keypair::new(),
        asks: Keypair::new(),
        base_vault: Keypair::new(),
        quote_vault: Keypair::new(),
    }
}

fn fresh(k: &Keys) -> FreshAccounts {
    FreshAccounts {
        market: address_of(&k.market),
        request_queue: address_of(&k.request_queue),
        event_queue: address_of(&k.event_queue),
        bids: address_of(&k.bids),
        asks: address_of(&k.asks),
        base_vault: address_of(&k.base_vault),
        quote_vault: address_of(&k.quote_vault),
    }
}

fn start(k: &Keys) -> MarketCreation {
    let program = Address::new([42u8; 32]);
    let base_mint = Address::new([50u8; 32]);
    let quote_mint = Address::new([51u8; 32]);
    new(&address_of(&k.payer), &base_mint, &quote_mint, 1_000_000, 10_000, &program, &fresh(k))
        .unwrap()
}

/// The rent that the test ledger gives: a function of the length alone.
fn rent(len: usize) -> u64 {
    890_880 + 6_960 * len as u64
}

#[test]
fn market_creation_runs_to_the_end() {
    let k = keys();
    let all = [
        &k.payer, &k.market, &k.request_queue, &k.event_queue, &k.bids, &k.asks,
        &k.base_vault, &k.quote_vault,
    ];
    let mut creation = start(&k);
    let mut asked = Vec::new();
    let mut submitted = Vec::new();
    while let Some(request) = creation.request() {
        assert!(creation.pubkeys().is_none());
        let reply = match request {
            LedgerRequest::MinimumBalance { len } => {
                asked.push(len);
                LedgerReply::Balance(RentQuote { len, lamports: rent(len) })
            }
            LedgerRequest::Submit { plan } => {
                sign(&plan, &all);
                submitted.push(plan);
                LedgerReply::Confirmed { signature: String::from("signature") }
            }
        };
        creation.advance(reply).unwrap();
    }
    assert_eq!(asked, vec![165, 388, 652, 1_048_588, 65_548, 65_548]);
    assert_eq!(submitted.len(), 3);

    let payer = address_of(&k.payer).bytes;
    let signer = creation.keys.vault_signer.bytes;
    for (plan, vault, mint) in [
        (&submitted[0], address_of(&k.base_vault).bytes, [50u8; 32]),
        (&submitted[1], address_of(&k.quote_vault).bytes, [51u8; 32]),
    ] {
        assert_eq!(plan.instructions.len(), 2);
        assert_eq!(plan.instructions[0].program_id.bytes, SYSTEM_PROGRAM_ID);
        assert_eq!(plan.instructions[0].accounts[1].pubkey.bytes, vault);
        assert_eq!(&plan.instructions[0].data[4..12], &rent(165).to_le_bytes());
        assert_eq!(&plan.instructions[0].data[12..20], &165u64.to_le_bytes());
        assert_eq!(&plan.instructions[0].data[20..], &TOKEN_PROGRAM_ID);
        assert_eq!(plan.instructions[1].program_id.bytes, TOKEN_PROGRAM_ID);
        assert_eq!(plan.instructions[1].accounts[0].pubkey.bytes, vault);
        assert_eq!(plan.instructions[1].accounts[1].pubkey.bytes, mint);
        assert_eq!(plan.instructions[1].accounts[2].pubkey.bytes, signer);
        assert!(signer != payer);
        let signers: Vec<[u8; 32]> = plan.signers.iter().map(|a| a.bytes).collect();
        assert_eq!(signers, vec![payer, vault]);
    }

    let last = &submitted[2];
    assert_eq!(last.instructions.len(), 6);
    let created = [
        (address_of(&k.market).bytes, 388u64),
        (address_of(&k.request_queue).bytes, 652),
        (address_of(&k.event_queue).bytes, 1_048_588),
        (address_of(&k.bids).bytes, 65_548),
        (address_of(&k.asks).bytes, 65_548),
    ];
    for (i, (account, len)) in created.iter().enumerate() {
        let ix = &last.instructions[i];
        assert_eq!(ix.program_id.bytes, SYSTEM_PROGRAM_ID);
        assert_eq!(ix.accounts[0].pubkey.bytes, payer);
        assert_eq!(ix.accounts[1].pubkey.bytes, *account);
        assert_eq!(&ix.data[4..12], &rent(*len as usize).to_le_bytes());
        assert_eq!(&ix.data[12..20], &len.to_le_bytes());
        assert_eq!(&ix.data[20..], &[42u8; 32]);
    }
    let init = &last.instructions[5];
    assert_eq!(init.program_id.bytes, [42u8; 32]);
    assert_eq!(init.accounts.len(), 10);
    assert_eq!(init.accounts[5].pubkey.bytes, address_of(&k.base_vault).bytes);
    assert_eq!(init.accounts[6].pubkey.bytes, address_of(&k.quote_vault).bytes);
    assert_eq!(&init.data[23..31], &creation.keys.vault_signer_nonce.to_le_bytes());
    assert_eq!(&init.data[31..39], &100u64.to_le_bytes());
    let signers: Vec<[u8; 32]> = last.signers.iter().map(|a| a.bytes).collect();
    assert_eq!(
        signers,
        vec![payer, created[0].0, created[1].0, created[2].0, created[3].0, created[4].0]
    );

    assert!(matches!(creation.stage, Stage::Done));
    let made = creation.pubkeys().unwrap();
    assert_eq!(made.market.bytes, address_of(&k.market).bytes);
    assert_eq!(made.req_q.bytes, address_of(&k.request_queue).bytes);
    assert_eq!(made.event_q.bytes, address_of(&k.event_queue).bytes);
    assert_eq!(made.bids.bytes, address_of(&k.bids).bytes);
    assert_eq!(made.asks.bytes, address_of(&k.asks).bytes);
    assert_eq!(made.coin_vault.bytes, address_of(&k.base_vault).bytes);
    assert_eq!(made.pc_vault.bytes, address_of(&k.quote_vault).bytes);
    assert_eq!(made.vault_signer_key.bytes, signer);
    assert!(matches!(
        creation.advance(LedgerReply::Confirmed { signature: String::new() }),
        Err(ClientError::UnexpectedReply)
    ));
}

#[test]
fn market_creation_uses_the_first_valid_nonce() {
    let k = keys();
    let creation = start(&k);
    let market = address_of(&k.market);
    let program = Address::new([42u8; 32]);
    let nonce = creation.keys.vault_signer_nonce;
    assert!(nonce < NONCE_SEARCH_BOUND);
    let expected = Pubkey::create_program_address(
        &[&market.bytes, &nonce.to_le_bytes()],
        &Pubkey::new_from_array(program.bytes),
    )
    .unwrap();
    assert_eq!(creation.keys.vault_signer.bytes, expected.to_bytes());
    assert_eq!(
        expected,
        serum_dex::state::gen_vault_signer_key(
            nonce,
            &Pubkey::new_from_array(market.bytes),
            &Pubkey::new_from_array(program.bytes)
        )
        .unwrap()
    );
    for earlier in 0..nonce {
        assert!(gen_vault_signer_key(earlier, &market, &program).is_none());
    }
}

#[test]
fn the_address_deriver_is_a_function_of_its_inputs() {
    let market = Address::new([9u8; 32]);
    let program = Address::new([3u8; 32]);
    let first = find_vault_signer(&market, &program, 0, 100).unwrap();
    let second = find_vault_signer(&market, &program, 0, 100).unwrap();
    assert_eq!(first.0, second.0);
    assert_eq!(first.1.bytes, second.1.bytes);
    let later = find_vault_signer(&market, &program, first.0 + 1, 200).unwrap();
    assert!(later.0 > first.0);
}

#[test]
fn the_address_deriver_gives_up_at_the_bound() {
    let market = Address::new([9u8; 32]);
    let program = Address::new([3u8; 32]);
    assert!(matches!(
        find_vault_signer(&market, &program, 0, 0),
        Err(ClientError::DerivationExhausted)
    ));
    assert!(matches!(
        find_vault_signer(&market, &program, 7, 7),
        Err(ClientError::DerivationExhausted)
    ));
    let (nonce, _) = find_vault_signer(&market, &program, 0, 100).unwrap();
    assert!(matches!(
        find_vault_signer(&market, &program, 0, nonce),
        Err(ClientError::DerivationExhausted)
    ));
    assert!(find_vault_signer(&market, &program, 0, nonce + 1).is_ok());
}

#[test]
fn a_rejection_leaves_the_creation_where_it_was() {
    let k = keys();
    let mut creation = start(&k);
    let rejected = creation.advance(LedgerReply::Rejected { reason: String::from("node is behind") });
    match rejected {
        Err(ClientError::SubmissionRejected(reason)) => assert_eq!(reason, "node is behind"),
        _ => panic!("a rejection is reported"),
    }
    assert!(matches!(creation.stage, Stage::VaultRent));
    creation.advance(LedgerReply::Balance(RentQuote { len: 165, lamports: 5 })).unwrap();
    assert!(matches!(creation.stage, Stage::BaseVault));
    assert_eq!(creation.vault_lamports, 5);
    let rejected = creation.advance(LedgerReply::Rejected { reason: String::from("insufficient funds") });
    assert!(matches!(rejected, Err(ClientError::SubmissionRejected(_))));
    assert!(matches!(creation.stage, Stage::BaseVault));
    assert!(matches!(creation.request(), Some(LedgerRequest::Submit { .. })));
}

#[test]
fn a_balance_counts_only_for_the_length_asked_about() {
    let k = keys();
    let mut creation = start(&k);
    let wrong = creation.advance(LedgerReply::Balance(RentQuote { len: 388, lamports: 1 }));
    assert!(matches!(wrong, Err(ClientError::UnexpectedReply)));
    assert!(matches!(creation.stage, Stage::VaultRent));
    let early = creation.advance(LedgerReply::Confirmed { signature: String::new() });
    assert!(matches!(early, Err(ClientError::UnexpectedReply)));
    creation.advance(LedgerReply::Balance(RentQuote { len: 165, lamports: 1 })).unwrap();
    let late = creation.advance(LedgerReply::Balance(RentQuote { len: 165, lamports: 9 }));
    assert!(matches!(late, Err(ClientError::UnexpectedReply)));
    assert_eq!(creation.vault_lamports, 1);
    creation.advance(LedgerReply::Confirmed { signature: String::new() }).unwrap();
    creation.advance(LedgerReply::Confirmed { signature: String::new() }).unwrap();
    assert!(matches!(creation.stage, Stage::MarketRent));
    let cached = creation.advance(LedgerReply::Balance(RentQuote { len: 165, lamports: 1 }));
    assert!(matches!(cached, Err(ClientError::UnexpectedReply)));
    creation.advance(LedgerReply::Balance(RentQuote { len: 388, lamports: 2 })).unwrap();
    assert_eq!(creation.market_lamports, 2);
}

#[test]
fn submission_outcome_reads_the_reply() {
    let confirmed = submission_outcome(LedgerReply::Confirmed { signature: String::from("5VERv8") });
    assert_eq!(confirmed.unwrap(), "5VERv8");
    match submission_outcome(LedgerReply::Rejected { reason: String::from("stale block reference") }) {
        Err(ClientError::SubmissionRejected(reason)) => assert_eq!(reason, "stale block reference"),
        _ => panic!("a rejection is reported with its reason"),
    }
    let balance = submission_outcome(LedgerReply::Balance(RentQuote { len: 1, lamports: 1 }));
    assert!(matches!(balance, Err(ClientError::UnexpectedReply)));
}

#[test]
fn signers_are_deduplicated_and_start_with_the_payer() {
    let payer = Address::new([1u8; 32]);
    let a = Address::new([2u8; 32]);
    let b = Address::new([3u8; 32]);
    let owner = Address::new([4u8; 32]);
    let instructions = vec![
        serum_rust_cli::instruction::create_account(&payer, &a, 1, 10, &owner),
        serum_rust_cli::instruction::create_account(&payer, &b, 1, 10, &owner),
        serum_rust_cli::instruction::create_account(&a, &b, 1, 10, &owner),
        serum_rust_cli::instruction::initialize_account(&a, &b, &owner),
    ];
    let plan = assemble(instructions, payer);
    let signers: Vec<[u8; 32]> = plan.signers.iter().map(|x| x.bytes).collect();
    assert_eq!(signers, vec![payer.bytes, a.bytes, b.bytes]);
    assert_eq!(plan.instructions.len(), 4);
    assert!(holds(&plan.signers, &a));
    assert!(!holds(&plan.signers, &owner));
    let empty = assemble(Vec::new(), payer);
    assert_eq!(empty.signers.len(), 1);
    assert_eq!(empty.signers[0].bytes, payer.bytes);
}

#[test]
fn addresses_compare_by_their_bytes() {
    let a = Address::new([7u8; 32]);
    let mut other = [7u8; 32];
    assert!(a.same(&Address::new(other)));
    other[31] = 8;
    assert!(!a.same(&Address::new(other)));
    assert_eq!(a.to_vec(), vec![7u8; 32]);
}
