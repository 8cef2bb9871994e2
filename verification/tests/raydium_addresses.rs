use anchor_lang::prelude::Pubkey as SolanaPubkey;
use uncx_lp_locker::pubkey::Pubkey;
use uncx_lp_locker::raydium_port::state::raydium_amm_id;
use uncx_lp_locker::raydium_port::{
    amm_associated_seed, get_associated_address_and_bump_seed, get_raydium_amm_info_key, get_raydium_amm_lp_mint_key,
    lp_mint_associated_seed, try_get_associated_address_and_bump_seed, try_get_raydium_amm_info_key,
    try_get_raydium_amm_lp_mint_key,
};

fn expected(market: [u8; 32], seed: &[u8]) -> (Pubkey, u8) {
    let program = SolanaPubkey::new_from_array(raydium_amm_id().to_bytes());
    let (address, bump) = SolanaPubkey::find_program_address(&[program.as_ref(), &market, seed], &program);
    (Pubkey::new_from_array(address.to_bytes()), bump)
}

#[test]
fn seeds_are_the_raydium_suffixes() {
    assert_eq!(amm_associated_seed(), b"amm_associated_seed".to_vec());
    assert_eq!(lp_mint_associated_seed(), b"lp_mint_associated_seed".to_vec());
}

#[test]
fn pool_address_of_a_market() {
    let market = [7u8; 32];
    let key = get_raydium_amm_info_key(&Pubkey::new_from_array(market));
    assert_eq!(key, expected(market, b"amm_associated_seed").0);
    assert_ne!(key, Pubkey::new_from_array(market));
    assert_eq!(try_get_raydium_amm_info_key(&Pubkey::new_from_array(market)), Some(key));
}

#[test]
fn lp_mint_address_of_a_market() {
    let market = [9u8; 32];
    let key = get_raydium_amm_lp_mint_key(&Pubkey::new_from_array(market));
    assert_eq!(key, expected(market, b"lp_mint_associated_seed").0);
    assert_eq!(try_get_raydium_amm_lp_mint_key(&Pubkey::new_from_array(market)), Some(key));
}

#[test]
fn associated_address_with_bump() {
    let id = raydium_amm_id();
    let market = Pubkey::new_from_array([3u8; 32]);
    let found = get_associated_address_and_bump_seed(&id, &market, b"amm_associated_seed", &id);
    assert_eq!(found, expected([3u8; 32], b"amm_associated_seed"));
    assert_eq!(try_get_associated_address_and_bump_seed(&id, &market, b"amm_associated_seed", &id), Some(found));
}
