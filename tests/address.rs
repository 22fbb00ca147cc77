use optifi_client::address::{
    associated_token_address, derive_address, derive_sub_account, seeds_of, sub_account_address, Address, DeriveError, SubAccount,
};
use solana_program::pubkey::Pubkey;

fn addr(seed: u8) -> Address {
    let mut bytes = [0u8; 32];
    for (i, b) in bytes.iter_mut().enumerate() {
        *b = seed.wrapping_mul(31).wrapping_add(i as u8);
    }
    Address { bytes }
}

fn pk(a: &Address) -> Pubkey {
    Pubkey::new_from_array(a.bytes)
}

fn program() -> Address {
    Address { bytes: optifi_cpi::ID.to_bytes() }
}

#[test]
fn derivation_is_deterministic() {
    let seeds = seeds_of(&SubAccount::UserAccount { exchange: addr(1), owner: addr(2) });
    let first = derive_address(&seeds, &program());
    let second = derive_address(&seeds, &program());
    assert_eq!(first, second);
    let (address, _) = first.unwrap();
    assert_ne!(address, program());
}

#[test]
fn different_owner_gives_different_address() {
    let seeds = seeds_of(&SubAccount::VenueMarketAuthority { exchange: addr(1) });
    let a = derive_address(&seeds, &program()).unwrap();
    let b = derive_address(&seeds, &addr(9)).unwrap();
    assert_ne!(a.0, b.0);
}

#[test]
fn too_many_or_too_long_seeds_fail() {
    let many: Vec<Vec<u8>> = (0..16u8).map(|i| vec![i]).collect();
    assert_eq!(derive_address(&many, &program()), Err(DeriveError::NoViableAddress));
    let long = vec![vec![7u8; 33]];
    assert_eq!(derive_address(&long, &program()), Err(DeriveError::NoViableAddress));
}

#[test]
fn sub_accounts_match_exchange_interface() {
    let exchange = addr(3);
    let owner = addr(4);
    let user_account = addr(5);
    let market = addr(6);
    let id = optifi_cpi::ID;
    let ours = |account: SubAccount| derive_sub_account(&account, &program()).unwrap();
    let theirs = |(a, b): (Pubkey, u8)| (Address { bytes: a.to_bytes() }, b);

    assert_eq!(
        ours(SubAccount::UserAccount { exchange, owner }),
        theirs(optifi_cpi::utils::get_user_account_pda(&pk(&exchange), &pk(&owner), &id))
    );
    assert_eq!(
        ours(SubAccount::Liquidation { exchange, user_account }),
        theirs(optifi_cpi::utils::get_user_liquidation_account_pda(&pk(&exchange), &pk(&user_account), &id))
    );
    assert_eq!(
        ours(SubAccount::Fee { exchange, user_account }),
        theirs(optifi_cpi::utils::get_user_fee_account_pda(&pk(&exchange), &pk(&user_account), &id))
    );
    assert_eq!(
        ours(SubAccount::OpenOrders { exchange, user_account, venue_market: market }),
        theirs(optifi_cpi::utils::get_serum_open_orders_account(&pk(&exchange), &pk(&user_account), &pk(&market), &id))
    );
    assert_eq!(
        ours(SubAccount::MarginStress { exchange, asset: 1 }),
        theirs(optifi_cpi::utils::get_margin_stress_account(&pk(&exchange), 1, &id))
    );
    assert_eq!(
        ours(SubAccount::VenueMarketAuthority { exchange }),
        theirs(optifi_cpi::utils::get_serum_market_auth_pda(&pk(&exchange), &id))
    );
    assert_eq!(
        ours(SubAccount::MarketMintAuthority { exchange }),
        theirs(optifi_cpi::utils::get_optifi_market_mint_auth_pda(&pk(&exchange), &id))
    );
    assert_eq!(
        ours(SubAccount::CentralPoolAuthority { exchange }),
        theirs(optifi_cpi::utils::get_central_usdc_pool_auth_pda(&pk(&exchange), &id))
    );
}

#[test]
fn associated_token_account_matches_token_interface() {
    let wallet = addr(7);
    let mint = addr(8);
    let token = Address { bytes: spl_token::ID.to_bytes() };
    let ata_program = Address { bytes: anchor_spl::associated_token::ID.to_bytes() };
    let ours = associated_token_address(&wallet, &mint, &token, &ata_program).unwrap();
    let ix = optifi_cpi::utils::create_associated_token_account(&pk(&wallet), &pk(&wallet), &pk(&mint));
    assert_eq!(ours.bytes, ix.accounts[1].pubkey.to_bytes());
}

#[test]
fn sub_account_address_drops_bump() {
    let account = SubAccount::Fee { exchange: addr(1), user_account: addr(2) };
    let (full, _) = derive_sub_account(&account, &program()).unwrap();
    assert_eq!(sub_account_address(&account, &program()), Ok(full));
}
