use optifi_client::book::{OptifiOrder, OrderSide};
use optifi_client::market::{Asset, InstrumentType, Market, OptifiAccount, OptifiClient, Programs, VenueMarketKeys};
use optifi_client::address::Address;
use optifi_client::scaling::Amount;
use optifi_client::session::{
    on_load_failure, subscription_step, CancelAll, LoadDecision, LoadFailure, SubscriptionAction, SubscriptionEvent,
    SubscriptionState, RETRY_DELAY_SECS,
};

fn order(id: u64) -> OptifiOrder {
    OptifiOrder {
        side: if id % 2 == 0 { OrderSide::Bid } else { OrderSide::Ask },
        price: Amount { value: 100 + id as u128, decimals: 4 },
        size: Amount { value: 1, decimals: 2 },
        client_order_id: id,
    }
}

#[test]
fn cancel_all_stops_at_second_failure() {
    let mut batch = CancelAll::new(vec![order(1), order(2), order(3)]);
    assert_eq!(batch.next_cancel(), Some(order(1)));
    batch.record(true);
    assert_eq!(batch.next_cancel(), Some(order(2)));
    batch.record(false);
    assert_eq!(batch.next_cancel(), None);
    assert_eq!(batch.cancelled_orders(), vec![order(1)]);
    assert_eq!(batch.still_open(), vec![order(2), order(3)]);
    assert_eq!(batch.failed_order(), Some(order(2)));
}

#[test]
fn cancel_all_without_failure_cancels_everything() {
    let mut batch = CancelAll::new(vec![order(1), order(2)]);
    while batch.next_cancel().is_some() {
        batch.record(true);
    }
    assert_eq!(batch.cancelled_orders(), vec![order(1), order(2)]);
    assert!(batch.still_open().is_empty());
    assert_eq!(batch.failed_order(), None);
}

#[test]
fn cancel_all_of_nothing_submits_nothing() {
    let batch = CancelAll::new(vec![]);
    assert_eq!(batch.next_cancel(), None);
}

#[test]
fn only_transient_failures_are_retried() {
    assert_eq!(on_load_failure(LoadFailure::Transient), LoadDecision::RetryAfter(RETRY_DELAY_SECS));
    assert_eq!(RETRY_DELAY_SECS, 10);
    assert_eq!(on_load_failure(LoadFailure::NotFound), LoadDecision::GiveUp);
    assert_eq!(on_load_failure(LoadFailure::Malformed), LoadDecision::GiveUp);
}

#[test]
fn subscription_reconnects_at_once() {
    assert_eq!(subscription_step(SubscriptionState::Disconnected, SubscriptionEvent::Opened), (SubscriptionState::Subscribed, SubscriptionAction::Wait));
    assert_eq!(subscription_step(SubscriptionState::Subscribed, SubscriptionEvent::Notified), (SubscriptionState::Subscribed, SubscriptionAction::Decode));
    assert_eq!(subscription_step(SubscriptionState::Subscribed, SubscriptionEvent::StreamError), (SubscriptionState::Disconnected, SubscriptionAction::Subscribe));
    assert_eq!(subscription_step(SubscriptionState::Disconnected, SubscriptionEvent::OpenFailed), (SubscriptionState::Disconnected, SubscriptionAction::Subscribe));
}

fn market(asset: Asset, seed: u8) -> Market {
    let a = Address { bytes: [seed; 32] };
    Market {
        optifi_market: a,
        venue_market: a,
        instrument: a,
        instrument_long_spl_token: a,
        instrument_short_spl_token: a,
        asset,
        expiry_date: 0,
        strike: 100,
        instrument_type: InstrumentType::Put,
        market_pubkeys: VenueMarketKeys {
            market: a,
            req_q: a,
            event_q: a,
            bids: a,
            asks: a,
            coin_vault: a,
            pc_vault: a,
            vault_signer_key: a,
        },
    }
}

#[test]
fn get_markets_filters_by_asset() {
    let zero = Address { bytes: [0; 32] };
    let c = OptifiClient {
        programs: Programs { exchange: zero, venue: zero, token: zero, associated_token: zero, rent_sysvar: zero },
        optifi_exchange: zero,
        user: zero,
        user_account: zero,
        collateral_decimals: 6,
        taker_fee_bps: 4,
        account: OptifiAccount {
            optifi_exchange: None,
            user_account: None,
            markets: vec![market(Asset::Bitcoin, 1), market(Asset::Ethereum, 2), market(Asset::Bitcoin, 3)],
        },
    };
    assert_eq!(c.get_markets(Some(Asset::Bitcoin)), vec![market(Asset::Bitcoin, 1), market(Asset::Bitcoin, 3)]);
    assert_eq!(c.get_markets(Some(Asset::Solana)), vec![]);
    assert_eq!(c.get_markets(None).len(), 3);
}

#[test]
fn asset_decimals_match_exchange_interface() {
    for (ours, theirs) in [
        (Asset::Bitcoin, optifi_cpi::financial::Asset::Bitcoin),
        (Asset::Ethereum, optifi_cpi::financial::Asset::Ethereum),
        (Asset::Usdc, optifi_cpi::financial::Asset::USDC),
        (Asset::Solana, optifi_cpi::financial::Asset::Solana),
    ] {
        assert_eq!(ours.get_decimal(), theirs.get_decimal());
        assert_eq!(ours.code(), theirs as u8);
    }
}
