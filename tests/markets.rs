use optifi_client::address::{derive_sub_account, Address, SubAccount};
use optifi_client::market::{
    market_of_listing, select_markets, Asset, ExchangeState, InstrumentEntry, InstrumentType, ListingError,
    MarketKeyData, MarketListing, MarketRecord, OptifiClient, Programs, UserState, VenueMarketKeys,
};

fn addr(seed: u8) -> Address {
    Address { bytes: [seed; 32] }
}

fn record(seed: u8, instrument: u8) -> MarketRecord {
    MarketRecord {
        address: addr(seed),
        serum_market: addr(seed + 100),
        instrument: addr(instrument),
        instrument_long_spl_token: addr(seed + 50),
        instrument_short_spl_token: addr(seed + 51),
    }
}

fn entry(instrument: u8, asset: Asset, strike: u32, instrument_type: InstrumentType) -> InstrumentEntry {
    InstrumentEntry { instrument: addr(instrument), asset, expiry_date: 99, strike, instrument_type }
}

fn key(seed: u8, is_stopped: bool) -> MarketKeyData {
    MarketKeyData { optifi_market_pubkey: addr(seed), expiry_date: 99, is_stopped }
}

fn exchange(markets: Vec<MarketKeyData>) -> ExchangeState {
    ExchangeState {
        usdc_fee_pool: addr(200),
        oracles: vec![],
        markets,
        instruments: vec![
            entry(30, Asset::Bitcoin, 20_000, InstrumentType::Put),
            entry(31, Asset::Bitcoin, 20_000, InstrumentType::Call),
            entry(32, Asset::Ethereum, 1_500, InstrumentType::Call),
        ],
    }
}

#[test]
fn stopped_markets_are_left_out() {
    let ex = exchange(vec![key(1, false), key(2, true), key(3, false)]);
    let records = vec![record(3, 32), record(1, 31), record(2, 30)];
    let listings = select_markets(&ex, &records).unwrap();
    assert_eq!(listings.len(), 2);
    assert_eq!(
        listings[0],
        MarketListing {
            optifi_market: addr(1),
            venue_market: addr(101),
            instrument: addr(31),
            instrument_long_spl_token: addr(51),
            instrument_short_spl_token: addr(52),
            asset: Asset::Bitcoin,
            expiry_date: 99,
            strike: 20_000,
            instrument_type: InstrumentType::Call,
        }
    );
    assert_eq!(listings[1].asset, Asset::Ethereum);
    assert_eq!(listings[1].venue_market, addr(103));
}

#[test]
fn listing_needs_records_and_instruments() {
    let ex = exchange(vec![key(1, false)]);
    assert_eq!(select_markets(&ex, &vec![]), Err(ListingError::MarketRecordMissing));
    assert_eq!(select_markets(&ex, &vec![record(1, 77)]), Err(ListingError::InstrumentMissing));
    // A stopped market needs neither.
    let stopped = exchange(vec![key(1, true)]);
    assert_eq!(select_markets(&stopped, &vec![]), Ok(vec![]));
}

#[test]
fn market_carries_its_venue_keys() {
    let ex = exchange(vec![key(1, false)]);
    let listing = select_markets(&ex, &vec![record(1, 30)]).unwrap()[0];
    let keys = VenueMarketKeys {
        market: addr(101),
        req_q: addr(110),
        event_q: addr(111),
        bids: addr(112),
        asks: addr(113),
        coin_vault: addr(114),
        pc_vault: addr(115),
        vault_signer_key: addr(116),
    };
    let m = market_of_listing(&listing, &keys);
    assert_eq!(m.market_pubkeys, keys);
    assert_eq!(m.instrument_type, InstrumentType::Put);
    assert_eq!(m.optifi_market, addr(1));
}

fn programs() -> Programs {
    Programs {
        exchange: Address { bytes: optifi_cpi::ID.to_bytes() },
        venue: addr(9),
        token: addr(10),
        associated_token: addr(11),
        rent_sysvar: addr(12),
    }
}

#[test]
fn session_trades_from_own_or_delegated_account() {
    let own = OptifiClient::new(programs(), addr(1), addr(2), None, 6, 4).unwrap();
    let expected = derive_sub_account(&SubAccount::UserAccount { exchange: addr(1), owner: addr(2) }, &programs().exchange).unwrap().0;
    assert_eq!(own.user_account, expected);
    assert!(own.account.optifi_exchange.is_none());
    let delegated = OptifiClient::new(programs(), addr(1), addr(2), Some(addr(42)), 6, 4).unwrap();
    assert_eq!(delegated.user_account, addr(42));
}

#[test]
fn user_account_setup_names_derived_accounts() {
    let c = OptifiClient::new(programs(), addr(1), addr(2), None, 6, 4).unwrap();
    let setup = c.user_account_setup().unwrap();
    let program = programs().exchange;
    assert_eq!(
        (setup.user_account, setup.user_account_bump),
        derive_sub_account(&SubAccount::UserAccount { exchange: addr(1), owner: addr(2) }, &program).unwrap()
    );
    assert_eq!(
        (setup.liquidation_account, setup.liquidation_account_bump),
        derive_sub_account(&SubAccount::Liquidation { exchange: addr(1), user_account: setup.user_account }, &program).unwrap()
    );
    assert_eq!(
        setup.fee_account,
        derive_sub_account(&SubAccount::Fee { exchange: addr(1), user_account: setup.user_account }, &program).unwrap().0
    );
}

#[test]
fn get_user_account_returns_loaded_state() {
    let mut c = OptifiClient::new(programs(), addr(1), addr(2), None, 6, 4).unwrap();
    c.account.user_account = Some(UserState { user_margin_account_usdc: addr(5) });
    assert_eq!(c.get_user_account(), UserState { user_margin_account_usdc: addr(5) });
}
