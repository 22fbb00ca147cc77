use optifi_client::address::{derive_sub_account, Address, SubAccount};
use optifi_client::book::OrderSide;
use optifi_client::compose::{
    ComposeError, ExchangeInstruction, MarketAddresses, MarginAccounts, OrderSettlementAccounts, SequenceContext,
    COMPUTE_UNITS, CONSUME_EVENTS_LIMIT,
};
use optifi_client::market::{
    Asset, ExchangeState, InstrumentType, Market, OptifiAccount, OptifiClient, OracleFeed, OrderType, Programs,
    UserState, VenueMarketKeys,
};
use optifi_client::scaling::Amount;

fn addr(seed: u8) -> Address {
    let mut bytes = [0u8; 32];
    for (i, b) in bytes.iter_mut().enumerate() {
        *b = seed.wrapping_mul(17).wrapping_add(i as u8);
    }
    Address { bytes }
}

fn client() -> OptifiClient {
    OptifiClient {
        programs: Programs {
            exchange: Address { bytes: optifi_cpi::ID.to_bytes() },
            venue: addr(100),
            token: Address { bytes: spl_token::ID.to_bytes() },
            associated_token: Address { bytes: anchor_spl::associated_token::ID.to_bytes() },
            rent_sysvar: addr(101),
        },
        optifi_exchange: addr(1),
        user: addr(2),
        user_account: addr(3),
        collateral_decimals: 6,
        taker_fee_bps: 4,
        account: OptifiAccount {
            optifi_exchange: Some(ExchangeState {
                usdc_fee_pool: addr(4),
                oracles: vec![
                    OracleFeed { asset: Asset::Bitcoin, spot_oracle: Some(addr(5)) },
                    OracleFeed { asset: Asset::Usdc, spot_oracle: Some(addr(6)) },
                    OracleFeed { asset: Asset::Ethereum, spot_oracle: None },
                ],
                markets: vec![],
                instruments: vec![],
            }),
            user_account: Some(UserState { user_margin_account_usdc: addr(7) }),
            markets: vec![],
        },
    }
}

fn market(asset: Asset) -> Market {
    Market {
        optifi_market: addr(20),
        venue_market: addr(21),
        instrument: addr(22),
        instrument_long_spl_token: addr(23),
        instrument_short_spl_token: addr(24),
        asset,
        expiry_date: 1_700_000_000,
        strike: 30_000,
        instrument_type: InstrumentType::Call,
        market_pubkeys: VenueMarketKeys {
            market: addr(21),
            req_q: addr(25),
            event_q: addr(26),
            bids: addr(27),
            asks: addr(28),
            coin_vault: addr(29),
            pc_vault: addr(30),
            vault_signer_key: addr(31),
        },
    }
}

fn kinds(steps: &[ExchangeInstruction]) -> Vec<&'static str> {
    steps
        .iter()
        .map(|s| match s {
            ExchangeInstruction::RequestUnits { .. } => "units",
            ExchangeInstruction::MarginStressCalculate(_) => "stress",
            ExchangeInstruction::PlaceOrder(..) => "place",
            ExchangeInstruction::CancelOrderByClientOrderId(..) => "cancel",
            ExchangeInstruction::ConsumeEventQueue(..) => "consume",
            ExchangeInstruction::SettleOrderFunds(_) => "settle",
            ExchangeInstruction::UserMarginCalculate(_) => "margin",
        })
        .collect()
}

#[test]
fn place_is_six_bracketed_steps() {
    let c = client();
    let m = market(Asset::Bitcoin);
    for side in [OrderSide::Bid, OrderSide::Ask] {
        for (price, size) in [(Amount { value: 20, decimals: 0 }, Amount { value: 1, decimals: 0 }), (Amount { value: 1_555, decimals: 2 }, Amount { value: 25, decimals: 1 })] {
            let steps = c.place_order(&m, side, price, size, OrderType::Limit).unwrap();
            assert_eq!(kinds(&steps), vec!["units", "stress", "place", "consume", "settle", "margin"]);
            assert_eq!(steps[0], ExchangeInstruction::RequestUnits { units: COMPUTE_UNITS, additional_fee: 0 });
        }
    }
}

#[test]
fn place_scales_price_and_size() {
    let c = client();
    let m = market(Asset::Bitcoin);
    // 20 collateral per unit at four places, 1.5 units at two places.
    let steps = c
        .place_order(&m, OrderSide::Bid, Amount { value: 20, decimals: 0 }, Amount { value: 15, decimals: 1 }, OrderType::PostOnly)
        .unwrap();
    match steps[2] {
        ExchangeInstruction::PlaceOrder(accounts, args) => {
            assert_eq!(args.side, OrderSide::Bid);
            assert_eq!(args.limit, 200_000);
            assert_eq!(args.max_coin_qty, 150);
            assert_eq!(args.max_pc_qty, 30_012_000);
            assert_eq!(args.order_type, 2);
            assert_eq!(accounts.user_margin_account, addr(7));
            assert_eq!(accounts.usdc_fee_pool, addr(4));
            assert_eq!(accounts.asks, addr(28));
            assert_eq!(accounts.request_queue, addr(25));
            let stress = derive_sub_account(
                &SubAccount::MarginStress { exchange: addr(1), asset: 0 },
                &Address { bytes: optifi_cpi::ID.to_bytes() },
            )
            .unwrap()
            .0;
            assert_eq!(accounts.margin_stress_account, stress);
            let open_orders = derive_sub_account(
                &SubAccount::OpenOrders { exchange: addr(1), user_account: addr(3), venue_market: addr(21) },
                &Address { bytes: optifi_cpi::ID.to_bytes() },
            )
            .unwrap()
            .0;
            assert_eq!(accounts.open_orders, open_orders);
        }
        _ => panic!("the third step places the order"),
    }
    match steps[1] {
        ExchangeInstruction::MarginStressCalculate(accounts) => {
            assert_eq!(accounts.asset_feed, addr(5));
            assert_eq!(accounts.usdc_feed, addr(6));
        }
        _ => panic!("the second step recomputes margin stress"),
    }
    match steps[3] {
        ExchangeInstruction::ConsumeEventQueue(accounts, limit) => {
            assert_eq!(limit, Some(CONSUME_EVENTS_LIMIT));
            assert_eq!(accounts.event_queue, addr(26));
        }
        _ => panic!("the fourth step consumes events"),
    }
}

#[test]
fn cancel_is_six_bracketed_steps() {
    let c = client();
    let steps = c.cancel_order(&market(Asset::Bitcoin), OrderSide::Ask, 77).unwrap();
    assert_eq!(kinds(&steps), vec!["units", "stress", "cancel", "consume", "settle", "margin"]);
    match steps[2] {
        ExchangeInstruction::CancelOrderByClientOrderId(_, side, id) => {
            assert_eq!(side, OrderSide::Ask);
            assert_eq!(id, 77);
        }
        _ => panic!("the third step cancels"),
    }
}

#[test]
fn settle_omits_the_action() {
    let c = client();
    let steps = c.settle_order(&market(Asset::Bitcoin)).unwrap();
    assert_eq!(kinds(&steps), vec!["stress", "consume", "settle", "margin"]);
}

#[test]
fn composing_needs_loaded_state() {
    let m = market(Asset::Bitcoin);
    let mut c = client();
    c.account.user_account = None;
    assert_eq!(c.settle_order(&m), Err(ComposeError::UserAccountNotLoaded));
    c.account.optifi_exchange = None;
    assert_eq!(c.cancel_order(&m, OrderSide::Bid, 1), Err(ComposeError::ExchangeNotLoaded));
}

#[test]
fn composing_needs_oracles() {
    let c = client();
    // Ethereum has an oracle entry without a spot feed; Solana has none.
    assert_eq!(c.settle_order(&market(Asset::Ethereum)), Err(ComposeError::MissingOracle));
    assert_eq!(c.settle_order(&market(Asset::Solana)), Err(ComposeError::MissingOracle));
}

#[test]
fn place_rejects_bad_amounts_and_decimals() {
    let mut c = client();
    let m = market(Asset::Bitcoin);
    let huge = Amount { value: u64::MAX as u128, decimals: 0 };
    let one = Amount { value: 1, decimals: 0 };
    assert_eq!(c.place_order(&m, OrderSide::Bid, huge, one, OrderType::Limit), Err(ComposeError::AmountOutOfRange));
    c.collateral_decimals = 1;
    assert_eq!(c.place_order(&m, OrderSide::Bid, one, one, OrderType::Limit), Err(ComposeError::InvalidDecimals));
}

fn context() -> SequenceContext {
    SequenceContext {
        usdc_fee_pool: addr(40),
        user_margin_account: addr(41),
        feeds: (addr(42), addr(43)),
        addresses: MarketAddresses {
            open_orders: addr(50),
            fee_account: addr(51),
            margin_stress_account: addr(52),
            serum_market_authority: addr(53),
            mint_authority: addr(54),
            central_usdc_pool_auth: addr(55),
            long_token_vault: addr(56),
            short_token_vault: addr(57),
        },
    }
}

#[test]
fn settle_in_context_names_its_accounts() {
    let c = client();
    let m = market(Asset::Ethereum);
    let steps = c.compose_settle(&m, &context());
    assert_eq!(steps.len(), 4);
    assert_eq!(
        steps[2],
        ExchangeInstruction::SettleOrderFunds(OrderSettlementAccounts {
            optifi_exchange: addr(1),
            user_account: addr(3),
            optifi_market: addr(20),
            serum_market: addr(21),
            user_serum_open_orders: addr(50),
            coin_vault: addr(29),
            pc_vault: addr(30),
            instrument_long_spl_token_mint: addr(23),
            instrument_short_spl_token_mint: addr(24),
            user_instrument_long_token_vault: addr(56),
            user_instrument_short_token_vault: addr(57),
            user_margin_account: addr(41),
            vault_signer: addr(31),
            token_program: Address { bytes: spl_token::ID.to_bytes() },
            serum_dex_program_id: addr(100),
            fee_account: addr(51),
        })
    );
    assert_eq!(
        steps[3],
        ExchangeInstruction::UserMarginCalculate(MarginAccounts {
            optifi_exchange: addr(1),
            margin_stress_account: addr(52),
            user_account: addr(3),
        })
    );
}

#[test]
fn place_in_context_uses_given_accounts() {
    let c = client();
    let m = market(Asset::Ethereum);
    // Ethereum instruments carry one decimal: 0.5 units at 1200.25.
    let steps = c
        .compose_place(&m, &context(), OrderSide::Ask, Amount { value: 120_025, decimals: 2 }, Amount { value: 5, decimals: 1 }, OrderType::ImmediateOrCancel)
        .unwrap();
    match steps[2] {
        ExchangeInstruction::PlaceOrder(accounts, args) => {
            assert_eq!(args.limit, 120_025_000);
            assert_eq!(args.max_coin_qty, 5);
            assert_eq!(args.max_pc_qty, 600_365_050);
            assert_eq!(args.order_type, 1);
            assert_eq!(accounts.fee_account, addr(51));
            assert_eq!(accounts.instrument_token_mint_authority_pda, addr(54));
            assert_eq!(accounts.user_instrument_long_token_vault, addr(56));
        }
        _ => panic!("the third step places the order"),
    }
}
