use serum_rust_cli::address::{Address, RENT_SYSVAR_ID, SYSTEM_PROGRAM_ID, TOKEN_PROGRAM_ID};
use serum_rust_cli::vault::{find_vault_signer, gen_vault_signer_key, gen_vault_signer_seeds};
use solana_program::pubkey::Pubkey;

#[test]
fn program_ids_are_those_of_the_programs() {
    assert_eq!(TOKEN_PROGRAM_ID, spl_token::id().to_bytes());
    assert_eq!(RENT_SYSVAR_ID, solana_program::sysvar::rent::id().to_bytes());
    assert_eq!(SYSTEM_PROGRAM_ID, solana_program::system_program::id().to_bytes());
}

#[test]
fn address_text_is_base58() {
    let token = Address::new(TOKEN_PROGRAM_ID);
    assert_eq!(token.to_text(), "TokenkegQfeZyiNwAJbNbGKPFXCWuBvf9Ss623VQ5DA");
    let back = Address::from_text("SysvarRent111111111111111111111111111111111").unwrap();
    assert_eq!(back.bytes, RENT_SYSVAR_ID);
    assert!(Address::from_text("not an address").is_none());
}

#[test]
fn address_text_is_never_empty_and_has_no_whitespace() {
    let mut samples = vec![[0u8; 32], [255u8; 32], [1u8; 32], TOKEN_PROGRAM_ID, RENT_SYSVAR_ID];
    for seed in 0..64u8 {
        let mut bytes = [0u8; 32];
        for (i, b) in bytes.iter_mut().enumerate() {
            *b = seed.wrapping_mul(37).wrapping_add((i as u8).wrapping_mul(seed));
        }
        samples.push(bytes);
    }
    for bytes in samples {
        let text = Address::new(bytes).to_text();
        assert!(!text.is_empty());
        assert!(text.chars().all(|c| c.is_ascii_alphanumeric()));
        assert_eq!(text.trim(), text);
        assert_eq!(Address::from_text(&text).unwrap().bytes, bytes);
    }
    assert_eq!(Address::new([0u8; 32]).to_text(), "11111111111111111111111111111111");
}

#[test]
fn vault_signer_seeds_are_market_then_nonce() {
    let market = Address::new([7u8; 32]);
    let seeds = gen_vault_signer_seeds(0x0102030405060708, &market);
    assert_eq!(seeds, vec![vec![7u8; 32], vec![8, 7, 6, 5, 4, 3, 2, 1]]);
}

#[test]
fn vault_signer_is_the_program_address() {
    let market = Address::new([9u8; 32]);
    let program = Address::new([3u8; 32]);
    let (nonce, key) = find_vault_signer(&market, &program, 0, 100).unwrap();
    let expected = Pubkey::create_program_address(
        &[&market.bytes, &nonce.to_le_bytes()],
        &Pubkey::new_from_array(program.bytes),
    )
    .unwrap();
    assert_eq!(key.bytes, expected.to_bytes());
    for earlier in 0..nonce {
        assert!(gen_vault_signer_key(earlier, &market, &program).is_none());
    }
    assert!(key.bytes != market.bytes);
}
