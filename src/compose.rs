//! The ordered instruction sequences that trading actions submit.
//!
//! Risk is recomputed before an order-affecting instruction and again after
//! the venue's events are consumed and the funds settled, so every action is
//! bracketed:
//! `[compute budget] -> margin stress -> action -> consume events -> settle -> user margin`.

use vstd::prelude::*;
use crate::address::{
    Address, DeriveError, SubAccount, address_of, associated_token_address, associated_token_seeds,
    sub_account_address, sub_account_seeds,
};
use crate::book::OrderSide;
use crate::market::{
    Asset, Market, OptifiClient, OracleFeed, OrderType, Programs, asset_code, asset_decimals, find_oracle,
    oracle_for, order_type_code,
};
use crate::scaling::{Amount, Decimals, encode_price, encode_size, max_cost, max_quote_cost, to_fixed};

verus! {

/// Compute units requested ahead of an order-affecting sequence.
pub const COMPUTE_UNITS: u32 = 1_400_000;

/// Most venue events consumed by one sequence.
pub const CONSUME_EVENTS_LIMIT: u16 = 5;

/// Accounts of a margin-stress recomputation for one asset.
#[derive(Clone, Copy, Debug, PartialEq, Eq)]
pub struct MarginStressAccounts {
    pub optifi_exchange: Address,
    pub margin_stress_account: Address,
    pub asset_feed: Address,
    pub usdc_feed: Address,
}

/// Accounts of a new order.
#[derive(Clone, Copy, Debug, PartialEq, Eq)]
pub struct PlaceOrderAccounts {
    pub optifi_exchange: Address,
    pub margin_stress_account: Address,
    pub user: Address,
    pub user_account: Address,
    pub user_margin_account: Address,
    pub user_instrument_long_token_vault: Address,
    pub user_instrument_short_token_vault: Address,
    pub optifi_market: Address,
    pub serum_market: Address,
    pub open_orders: Address,
    pub request_queue: Address,
    pub event_queue: Address,
    pub bids: Address,
    pub asks: Address,
    pub coin_mint: Address,
    pub coin_vault: Address,
    pub pc_vault: Address,
    pub instrument_token_mint_authority_pda: Address,
    pub usdc_fee_pool: Address,
    pub instrument_short_spl_token_mint: Address,
    pub serum_dex_program_id: Address,
    pub token_program: Address,
    pub rent: Address,
    pub fee_account: Address,
}

/// Arguments of a new order, in the venue's fixed-point integers.
#[derive(Clone, Copy, Debug, PartialEq, Eq)]
pub struct PlaceOrderArgs {
    pub side: OrderSide,
    pub limit: u64,
    pub max_coin_qty: u64,
    pub max_pc_qty: u64,
    pub order_type: u8,
}

/// Accounts of a cancellation.
#[derive(Clone, Copy, Debug, PartialEq, Eq)]
pub struct CancelOrderAccounts {
    pub optifi_exchange: Address,
    pub margin_stress_account: Address,
    pub user: Address,
    pub user_account: Address,
    pub user_margin_account: Address,
    pub serum_market: Address,
    pub open_orders: Address,
    pub event_queue: Address,
    pub bids: Address,
    pub asks: Address,
    pub usdc_fee_pool: Address,
    pub central_usdc_pool_auth: Address,
    pub serum_dex_program_id: Address,
    pub token_program: Address,
    pub fee_account: Address,
}

/// Accounts of an event consumption.
#[derive(Clone, Copy, Debug, PartialEq, Eq)]
pub struct ConsumeEventQueueAccounts {
    pub optifi_exchange: Address,
    pub serum_market: Address,
    pub event_queue: Address,
    pub user_serum_open_orders: Address,
    pub consume_events_authority: Address,
    pub serum_dex_program_id: Address,
}

/// Accounts of a settlement of unsettled funds.
#[derive(Clone, Copy, Debug, PartialEq, Eq)]
pub struct OrderSettlementAccounts {
    pub optifi_exchange: Address,
    pub user_account: Address,
    pub optifi_market: Address,
    pub serum_market: Address,
    pub user_serum_open_orders: Address,
    pub coin_vault: Address,
    pub pc_vault: Address,
    pub instrument_long_spl_token_mint: Address,
    pub instrument_short_spl_token_mint: Address,
    pub user_instrument_long_token_vault: Address,
    pub user_instrument_short_token_vault: Address,
    pub user_margin_account: Address,
    pub vault_signer: Address,
    pub token_program: Address,
    pub serum_dex_program_id: Address,
    pub fee_account: Address,
}

/// Accounts of a user margin recomputation.
#[derive(Clone, Copy, Debug, PartialEq, Eq)]
pub struct MarginAccounts {
    pub optifi_exchange: Address,
    pub margin_stress_account: Address,
    pub user_account: Address,
}

/// One instruction of a composed sequence.
#[derive(Clone, Copy, Debug, PartialEq, Eq)]
pub enum ExchangeInstruction {
    RequestUnits { units: u32, additional_fee: u32 },
    MarginStressCalculate(MarginStressAccounts),
    PlaceOrder(PlaceOrderAccounts, PlaceOrderArgs),
    CancelOrderByClientOrderId(CancelOrderAccounts, OrderSide, u64),
    ConsumeEventQueue(ConsumeEventQueueAccounts, Option<u16>),
    SettleOrderFunds(OrderSettlementAccounts),
    UserMarginCalculate(MarginAccounts),
}

/// Why no sequence could be composed.
#[derive(Clone, Copy, Debug, PartialEq, Eq)]
pub enum ComposeError {
    /// The exchange record has not been loaded into the session.
    ExchangeNotLoaded,
    /// The trader's user account has not been loaded into the session.
    UserAccountNotLoaded,
    /// The exchange has no spot oracle for the market's asset or for the
    /// collateral.
    MissingOracle,
    /// A sub-account address could not be derived.
    Derive(DeriveError),
    /// The asset is more precise than the collateral.
    InvalidDecimals,
    /// A price, size or cost does not fit the venue's integers.
    AmountOutOfRange,
}

/// The sub-accounts and token vaults that one market's sequences name.
#[derive(Clone, Copy, Debug, PartialEq, Eq)]
pub struct MarketAddresses {
    pub open_orders: Address,
    pub fee_account: Address,
    pub margin_stress_account: Address,
    pub serum_market_authority: Address,
    pub mint_authority: Address,
    pub central_usdc_pool_auth: Address,
    pub long_token_vault: Address,
    pub short_token_vault: Address,
}

/// The sub-accounts and vaults of `market` for a trader's user account, if
/// all of them can be derived.
pub open spec fn market_addresses(programs: Programs, exchange: Address, user_account: Address, market: Market) -> Option<MarketAddresses> {
    let program = programs.exchange;
    let open_orders = address_of(
        sub_account_seeds(SubAccount::OpenOrders { exchange, user_account, venue_market: market.venue_market }),
        program,
    );
    let fee = address_of(sub_account_seeds(SubAccount::Fee { exchange, user_account }), program);
    let stress = address_of(
        sub_account_seeds(SubAccount::MarginStress { exchange, asset: asset_code(market.asset) }),
        program,
    );
    let venue_auth = address_of(sub_account_seeds(SubAccount::VenueMarketAuthority { exchange }), program);
    let mint_auth = address_of(sub_account_seeds(SubAccount::MarketMintAuthority { exchange }), program);
    let pool_auth = address_of(sub_account_seeds(SubAccount::CentralPoolAuthority { exchange }), program);
    let long_vault = address_of(
        associated_token_seeds(user_account, programs.token, market.instrument_long_spl_token),
        programs.associated_token,
    );
    let short_vault = address_of(
        associated_token_seeds(user_account, programs.token, market.instrument_short_spl_token),
        programs.associated_token,
    );
    if open_orders is Some && fee is Some && stress is Some && venue_auth is Some && mint_auth is Some
        && pool_auth is Some && long_vault is Some && short_vault is Some {
        Some(
            MarketAddresses {
                open_orders: open_orders->0,
                fee_account: fee->0,
                margin_stress_account: stress->0,
                serum_market_authority: venue_auth->0,
                mint_authority: mint_auth->0,
                central_usdc_pool_auth: pool_auth->0,
                long_token_vault: long_vault->0,
                short_token_vault: short_vault->0,
            },
        )
    } else {
        None
    }
}

/// Derives the sub-accounts and vaults of `market` for the session's user
/// account.
pub fn derive_market_addresses(client: &OptifiClient, market: &Market) -> (r: Result<MarketAddresses, DeriveError>)
    ensures
        match r {
            Ok(a) => market_addresses(client.programs, client.optifi_exchange, client.user_account, *market) == Some(a),
            Err(_) => market_addresses(client.programs, client.optifi_exchange, client.user_account, *market).is_none(),
        },
{
    let program = &client.programs.exchange;
    let exchange = client.optifi_exchange;
    let user_account = client.user_account;
    let open_orders = sub_account_address(
        &SubAccount::OpenOrders { exchange, user_account, venue_market: market.venue_market },
        program,
    )?;
    let fee_account = sub_account_address(&SubAccount::Fee { exchange, user_account }, program)?;
    let margin_stress_account = sub_account_address(
        &SubAccount::MarginStress { exchange, asset: market.asset.code() },
        program,
    )?;
    let serum_market_authority = sub_account_address(&SubAccount::VenueMarketAuthority { exchange }, program)?;
    let mint_authority = sub_account_address(&SubAccount::MarketMintAuthority { exchange }, program)?;
    let central_usdc_pool_auth = sub_account_address(&SubAccount::CentralPoolAuthority { exchange }, program)?;
    let long_token_vault = associated_token_address(
        &user_account,
        &market.instrument_long_spl_token,
        &client.programs.token,
        &client.programs.associated_token,
    )?;
    let short_token_vault = associated_token_address(
        &user_account,
        &market.instrument_short_spl_token,
        &client.programs.token,
        &client.programs.associated_token,
    )?;
    Ok(
        MarketAddresses {
            open_orders,
            fee_account,
            margin_stress_account,
            serum_market_authority,
            mint_authority,
            central_usdc_pool_auth,
            long_token_vault,
            short_token_vault,
        },
    )
}

/// The spot oracles of an asset and of the collateral, if both are registered.
pub open spec fn feeds_for(oracles: Seq<OracleFeed>, asset: Asset) -> Option<(Address, Address)> {
    match (oracle_for(oracles, asset), oracle_for(oracles, Asset::Usdc)) {
        (Some(a), Some(u)) => match (a.spot_oracle, u.spot_oracle) {
            (Some(af), Some(uf)) => Some((af, uf)),
            _ => None,
        },
        _ => None,
    }
}

fn find_feeds(oracles: &Vec<OracleFeed>, asset: Asset) -> (r: Option<(Address, Address)>)
    ensures
        r == feeds_for(oracles@, asset),
{
    match (find_oracle(oracles, asset), find_oracle(oracles, Asset::Usdc)) {
        (Some(a), Some(u)) => match (a.spot_oracle, u.spot_oracle) {
            (Some(af), Some(uf)) => Some((af, uf)),
            _ => None,
        },
        _ => None,
    }
}

/// Recomputes the margin stress of the market's asset.
pub open spec fn margin_stress_step(c: OptifiClient, a: MarketAddresses, feeds: (Address, Address)) -> ExchangeInstruction {
    ExchangeInstruction::MarginStressCalculate(
        MarginStressAccounts {
            optifi_exchange: c.optifi_exchange,
            margin_stress_account: a.margin_stress_account,
            asset_feed: feeds.0,
            usdc_feed: feeds.1,
        },
    )
}

/// Consumes the venue's events for the trader's open orders.
pub open spec fn consume_events_step(c: OptifiClient, m: Market, a: MarketAddresses) -> ExchangeInstruction {
    ExchangeInstruction::ConsumeEventQueue(
        ConsumeEventQueueAccounts {
            optifi_exchange: c.optifi_exchange,
            serum_market: m.venue_market,
            event_queue: m.market_pubkeys.event_q,
            user_serum_open_orders: a.open_orders,
            consume_events_authority: a.serum_market_authority,
            serum_dex_program_id: c.programs.venue,
        },
        Some(CONSUME_EVENTS_LIMIT),
    )
}

/// Settles the trader's unsettled funds on the market.
pub open spec fn settle_step(c: OptifiClient, m: Market, a: MarketAddresses, user_margin: Address) -> ExchangeInstruction {
    ExchangeInstruction::SettleOrderFunds(
        OrderSettlementAccounts {
            optifi_exchange: c.optifi_exchange,
            user_account: c.user_account,
            optifi_market: m.optifi_market,
            serum_market: m.venue_market,
            user_serum_open_orders: a.open_orders,
            coin_vault: m.market_pubkeys.coin_vault,
            pc_vault: m.market_pubkeys.pc_vault,
            instrument_long_spl_token_mint: m.instrument_long_spl_token,
            instrument_short_spl_token_mint: m.instrument_short_spl_token,
            user_instrument_long_token_vault: a.long_token_vault,
            user_instrument_short_token_vault: a.short_token_vault,
            user_margin_account: user_margin,
            vault_signer: m.market_pubkeys.vault_signer_key,
            token_program: c.programs.token,
            serum_dex_program_id: c.programs.venue,
            fee_account: a.fee_account,
        },
    )
}

/// Recomputes the trader's margin.
pub open spec fn user_margin_step(c: OptifiClient, a: MarketAddresses) -> ExchangeInstruction {
    ExchangeInstruction::UserMarginCalculate(
        MarginAccounts {
            optifi_exchange: c.optifi_exchange,
            margin_stress_account: a.margin_stress_account,
            user_account: c.user_account,
        },
    )
}

/// Places an order.
pub open spec fn place_step(
    c: OptifiClient,
    m: Market,
    a: MarketAddresses,
    fee_pool: Address,
    user_margin: Address,
    args: PlaceOrderArgs,
) -> ExchangeInstruction {
    ExchangeInstruction::PlaceOrder(
        PlaceOrderAccounts {
            optifi_exchange: c.optifi_exchange,
            margin_stress_account: a.margin_stress_account,
            user: c.user,
            user_account: c.user_account,
            user_margin_account: user_margin,
            user_instrument_long_token_vault: a.long_token_vault,
            user_instrument_short_token_vault: a.short_token_vault,
            optifi_market: m.optifi_market,
            serum_market: m.venue_market,
            open_orders: a.open_orders,
            request_queue: m.market_pubkeys.req_q,
            event_queue: m.market_pubkeys.event_q,
            bids: m.market_pubkeys.bids,
            asks: m.market_pubkeys.asks,
            coin_mint: m.instrument_long_spl_token,
            coin_vault: m.market_pubkeys.coin_vault,
            pc_vault: m.market_pubkeys.pc_vault,
            instrument_token_mint_authority_pda: a.mint_authority,
            usdc_fee_pool: fee_pool,
            instrument_short_spl_token_mint: m.instrument_short_spl_token,
            serum_dex_program_id: c.programs.venue,
            token_program: c.programs.token,
            rent: c.programs.rent_sysvar,
            fee_account: a.fee_account,
        },
        args,
    )
}

/// Cancels the order a client id names on one side.
pub open spec fn cancel_step(
    c: OptifiClient,
    m: Market,
    a: MarketAddresses,
    fee_pool: Address,
    user_margin: Address,
    side: OrderSide,
    client_order_id: u64,
) -> ExchangeInstruction {
    ExchangeInstruction::CancelOrderByClientOrderId(
        CancelOrderAccounts {
            optifi_exchange: c.optifi_exchange,
            margin_stress_account: a.margin_stress_account,
            user: c.user,
            user_account: c.user_account,
            user_margin_account: user_margin,
            serum_market: m.venue_market,
            open_orders: a.open_orders,
            event_queue: m.market_pubkeys.event_q,
            bids: m.market_pubkeys.bids,
            asks: m.market_pubkeys.asks,
            usdc_fee_pool: fee_pool,
            central_usdc_pool_auth: a.central_usdc_pool_auth,
            serum_dex_program_id: c.programs.venue,
            token_program: c.programs.token,
            fee_account: a.fee_account,
        },
        side,
        client_order_id,
    )
}

/// The decimals of a market under the session's collateral.
pub open spec fn market_decimals(c: OptifiClient, m: Market) -> Decimals {
    Decimals { asset: asset_decimals(m.asset), collateral: c.collateral_decimals }
}

/// The venue integers of an order of `size` at `price`: both truncated to
/// the venue's fixed point, and the cost bound raised by the taker fee.
pub open spec fn place_args(c: OptifiClient, m: Market, side: OrderSide, price: Amount, size: Amount, order_type: OrderType) -> Option<PlaceOrderArgs> {
    let d = market_decimals(c, m);
    let limit = to_fixed(price, d.price_places());
    let qty = to_fixed(size, d.size_places());
    if limit <= u64::MAX && qty <= u64::MAX && max_cost(limit as u64, qty as u64, c.taker_fee_bps) <= u64::MAX {
        Some(
            PlaceOrderArgs {
                side,
                limit: limit as u64,
                max_coin_qty: qty as u64,
                max_pc_qty: max_cost(limit as u64, qty as u64, c.taker_fee_bps) as u64,
                order_type: order_type_code(order_type),
            },
        )
    } else {
        None
    }
}

/// What the session's cached state gives every sequence on a market.
#[derive(Clone, Copy, Debug, PartialEq, Eq)]
pub struct SequenceContext {
    pub usdc_fee_pool: Address,
    pub user_margin_account: Address,
    /// Spot oracles of the market's asset and of the collateral.
    pub feeds: (Address, Address),
    pub addresses: MarketAddresses,
}

/// The context of sequences on `m`: the fee pool, the trader's margin
/// account, the oracle feeds and the market's sub-accounts.
pub open spec fn sequence_context(c: OptifiClient, m: Market) -> Result<SequenceContext, ComposeError> {
    match (c.account.optifi_exchange, c.account.user_account) {
        (None, _) => Err(ComposeError::ExchangeNotLoaded),
        (Some(_), None) => Err(ComposeError::UserAccountNotLoaded),
        (Some(ex), Some(user)) => match feeds_for(ex.oracles@, m.asset) {
            None => Err(ComposeError::MissingOracle),
            Some(feeds) => match market_addresses(c.programs, c.optifi_exchange, c.user_account, m) {
                None => Err(ComposeError::Derive(DeriveError::NoViableAddress)),
                Some(a) => Ok(
                    SequenceContext {
                        usdc_fee_pool: ex.usdc_fee_pool,
                        user_margin_account: user.user_margin_account_usdc,
                        feeds,
                        addresses: a,
                    },
                ),
            },
        },
    }
}

/// Gathers the context of sequences on `m` from the session.
pub fn load_context(c: &OptifiClient, m: &Market) -> (r: Result<SequenceContext, ComposeError>)
    ensures
        r == sequence_context(*c, *m),
{
    let ex = match &c.account.optifi_exchange {
        None => return Err(ComposeError::ExchangeNotLoaded),
        Some(ex) => ex,
    };
    let user = match &c.account.user_account {
        None => return Err(ComposeError::UserAccountNotLoaded),
        Some(user) => user,
    };
    let feeds = match find_feeds(&ex.oracles, m.asset) {
        None => return Err(ComposeError::MissingOracle),
        Some(feeds) => feeds,
    };
    let a = match derive_market_addresses(c, m) {
        Err(e) => return Err(ComposeError::Derive(e)),
        Ok(a) => a,
    };
    Ok(
        SequenceContext {
            usdc_fee_pool: ex.usdc_fee_pool,
            user_margin_account: user.user_margin_account_usdc,
            feeds,
            addresses: a,
        },
    )
}

/// The bracketed sequence of an order with venue integers `args`.
pub open spec fn place_sequence(c: OptifiClient, m: Market, x: SequenceContext, args: PlaceOrderArgs) -> Seq<ExchangeInstruction> {
    let a = x.addresses;
    seq![
        ExchangeInstruction::RequestUnits { units: COMPUTE_UNITS, additional_fee: 0 },
        margin_stress_step(c, a, x.feeds),
        place_step(c, m, a, x.usdc_fee_pool, x.user_margin_account, args),
        consume_events_step(c, m, a),
        settle_step(c, m, a, x.user_margin_account),
        user_margin_step(c, a),
    ]
}

/// What placing an order of `size` at `price` composes in context `x`.
pub open spec fn place_outcome(
    c: OptifiClient,
    m: Market,
    x: SequenceContext,
    side: OrderSide,
    price: Amount,
    size: Amount,
    order_type: OrderType,
) -> Result<Seq<ExchangeInstruction>, ComposeError> {
    if !market_decimals(c, m).valid() {
        Err(ComposeError::InvalidDecimals)
    } else {
        match place_args(c, m, side, price, size, order_type) {
            None => Err(ComposeError::AmountOutOfRange),
            Some(args) => Ok(place_sequence(c, m, x, args)),
        }
    }
}

/// The bracketed sequence of a cancellation.
pub open spec fn cancel_sequence(c: OptifiClient, m: Market, x: SequenceContext, side: OrderSide, client_order_id: u64) -> Seq<ExchangeInstruction> {
    let a = x.addresses;
    seq![
        ExchangeInstruction::RequestUnits { units: COMPUTE_UNITS, additional_fee: 0 },
        margin_stress_step(c, a, x.feeds),
        cancel_step(c, m, a, x.usdc_fee_pool, x.user_margin_account, side, client_order_id),
        consume_events_step(c, m, a),
        settle_step(c, m, a, x.user_margin_account),
        user_margin_step(c, a),
    ]
}

/// The sequence of a settlement: the bracket with no action.
pub open spec fn settle_sequence(c: OptifiClient, m: Market, x: SequenceContext) -> Seq<ExchangeInstruction> {
    let a = x.addresses;
    seq![
        margin_stress_step(c, a, x.feeds),
        consume_events_step(c, m, a),
        settle_step(c, m, a, x.user_margin_account),
        user_margin_step(c, a),
    ]
}

/// The sequence that places an order.
pub open spec fn place_plan(c: OptifiClient, m: Market, side: OrderSide, price: Amount, size: Amount, order_type: OrderType) -> Result<Seq<ExchangeInstruction>, ComposeError> {
    match sequence_context(c, m) {
        Err(e) => Err(e),
        Ok(x) => place_outcome(c, m, x, side, price, size, order_type),
    }
}

/// The sequence that cancels the order a client id names on one side.
pub open spec fn cancel_plan(c: OptifiClient, m: Market, side: OrderSide, client_order_id: u64) -> Result<Seq<ExchangeInstruction>, ComposeError> {
    match sequence_context(c, m) {
        Err(e) => Err(e),
        Ok(x) => Ok(cancel_sequence(c, m, x, side, client_order_id)),
    }
}

/// The sequence that sweeps unsettled funds without a new order.
pub open spec fn settle_plan(c: OptifiClient, m: Market) -> Result<Seq<ExchangeInstruction>, ComposeError> {
    match sequence_context(c, m) {
        Err(e) => Err(e),
        Ok(x) => Ok(settle_sequence(c, m, x)),
    }
}

fn margin_stress_instruction(c: &OptifiClient, a: &MarketAddresses, feeds: (Address, Address)) -> (r: ExchangeInstruction)
    ensures
        r == margin_stress_step(*c, *a, feeds),
{
    ExchangeInstruction::MarginStressCalculate(
        MarginStressAccounts {
            optifi_exchange: c.optifi_exchange,
            margin_stress_account: a.margin_stress_account,
            asset_feed: feeds.0,
            usdc_feed: feeds.1,
        },
    )
}

fn consume_events_instruction(c: &OptifiClient, m: &Market, a: &MarketAddresses) -> (r: ExchangeInstruction)
    ensures
        r == consume_events_step(*c, *m, *a),
{
    ExchangeInstruction::ConsumeEventQueue(
        ConsumeEventQueueAccounts {
            optifi_exchange: c.optifi_exchange,
            serum_market: m.venue_market,
            event_queue: m.market_pubkeys.event_q,
            user_serum_open_orders: a.open_orders,
            consume_events_authority: a.serum_market_authority,
            serum_dex_program_id: c.programs.venue,
        },
        Some(CONSUME_EVENTS_LIMIT),
    )
}

fn settle_instruction(c: &OptifiClient, m: &Market, a: &MarketAddresses, user_margin: Address) -> (r: ExchangeInstruction)
    ensures
        r == settle_step(*c, *m, *a, user_margin),
{
    ExchangeInstruction::SettleOrderFunds(
        OrderSettlementAccounts {
            optifi_exchange: c.optifi_exchange,
            user_account: c.user_account,
            optifi_market: m.optifi_market,
            serum_market: m.venue_market,
            user_serum_open_orders: a.open_orders,
            coin_vault: m.market_pubkeys.coin_vault,
            pc_vault: m.market_pubkeys.pc_vault,
            instrument_long_spl_token_mint: m.instrument_long_spl_token,
            instrument_short_spl_token_mint: m.instrument_short_spl_token,
            user_instrument_long_token_vault: a.long_token_vault,
            user_instrument_short_token_vault: a.short_token_vault,
            user_margin_account: user_margin,
            vault_signer: m.market_pubkeys.vault_signer_key,
            token_program: c.programs.token,
            serum_dex_program_id: c.programs.venue,
            fee_account: a.fee_account,
        },
    )
}

fn user_margin_instruction(c: &OptifiClient, a: &MarketAddresses) -> (r: ExchangeInstruction)
    ensures
        r == user_margin_step(*c, *a),
{
    ExchangeInstruction::UserMarginCalculate(
        MarginAccounts {
            optifi_exchange: c.optifi_exchange,
            margin_stress_account: a.margin_stress_account,
            user_account: c.user_account,
        },
    )
}

impl OptifiClient {
    /// Composes, in context `x`, the bracketed sequence that places an order
    /// of `size` at `price`, both in human units.
    pub fn compose_place(
        &self,
        market: &Market,
        x: &SequenceContext,
        side: OrderSide,
        price: Amount,
        size: Amount,
        order_type: OrderType,
    ) -> (r: Result<Vec<ExchangeInstruction>, ComposeError>)
        ensures
            match r {
                Ok(steps) => place_outcome(*self, *market, *x, side, price, size, order_type) == Ok::<Seq<ExchangeInstruction>, ComposeError>(steps@),
                Err(e) => place_outcome(*self, *market, *x, side, price, size, order_type) == Err::<Seq<ExchangeInstruction>, ComposeError>(e),
            },
    {
        let a = x.addresses;
        let asset_decimals = market.asset.get_decimal();
        if asset_decimals > self.collateral_decimals {
            return Err(ComposeError::InvalidDecimals);
        }
        let d = Decimals { asset: asset_decimals, collateral: self.collateral_decimals };
        let limit = match encode_price(price, d) {
            None => return Err(ComposeError::AmountOutOfRange),
            Some(limit) => limit,
        };
        let max_coin_qty = match encode_size(size, d) {
            None => return Err(ComposeError::AmountOutOfRange),
            Some(qty) => qty,
        };
        let max_pc_qty = match max_quote_cost(limit, max_coin_qty, self.taker_fee_bps) {
            None => return Err(ComposeError::AmountOutOfRange),
            Some(cost) => cost,
        };
        let args = PlaceOrderArgs { side, limit, max_coin_qty, max_pc_qty, order_type: order_type.code() };
        let place = ExchangeInstruction::PlaceOrder(
            PlaceOrderAccounts {
                optifi_exchange: self.optifi_exchange,
                margin_stress_account: a.margin_stress_account,
                user: self.user,
                user_account: self.user_account,
                user_margin_account: x.user_margin_account,
                user_instrument_long_token_vault: a.long_token_vault,
                user_instrument_short_token_vault: a.short_token_vault,
                optifi_market: market.optifi_market,
                serum_market: market.venue_market,
                open_orders: a.open_orders,
                request_queue: market.market_pubkeys.req_q,
                event_queue: market.market_pubkeys.event_q,
                bids: market.market_pubkeys.bids,
                asks: market.market_pubkeys.asks,
                coin_mint: market.instrument_long_spl_token,
                coin_vault: market.market_pubkeys.coin_vault,
                pc_vault: market.market_pubkeys.pc_vault,
                instrument_token_mint_authority_pda: a.mint_authority,
                usdc_fee_pool: x.usdc_fee_pool,
                instrument_short_spl_token_mint: market.instrument_short_spl_token,
                serum_dex_program_id: self.programs.venue,
                token_program: self.programs.token,
                rent: self.programs.rent_sysvar,
                fee_account: a.fee_account,
            },
            args,
        );
        let steps = vec![
            ExchangeInstruction::RequestUnits { units: COMPUTE_UNITS, additional_fee: 0 },
            margin_stress_instruction(self, &a, x.feeds),
            place,
            consume_events_instruction(self, market, &a),
            settle_instruction(self, market, &a, x.user_margin_account),
            user_margin_instruction(self, &a),
        ];
        assert(steps@ =~= place_sequence(*self, *market, *x, args));
        Ok(steps)
    }

    /// Composes, in context `x`, the bracketed sequence that cancels the order
    /// that `client_order_id` names on `side`.
    pub fn compose_cancel(&self, market: &Market, x: &SequenceContext, side: OrderSide, client_order_id: u64) -> (r: Vec<ExchangeInstruction>)
        ensures
            r@ == cancel_sequence(*self, *market, *x, side, client_order_id),
    {
        let a = x.addresses;
        let cancel = ExchangeInstruction::CancelOrderByClientOrderId(
            CancelOrderAccounts {
                optifi_exchange: self.optifi_exchange,
                margin_stress_account: a.margin_stress_account,
                user: self.user,
                user_account: self.user_account,
                user_margin_account: x.user_margin_account,
                serum_market: market.venue_market,
                open_orders: a.open_orders,
                event_queue: market.market_pubkeys.event_q,
                bids: market.market_pubkeys.bids,
                asks: market.market_pubkeys.asks,
                usdc_fee_pool: x.usdc_fee_pool,
                central_usdc_pool_auth: a.central_usdc_pool_auth,
                serum_dex_program_id: self.programs.venue,
                token_program: self.programs.token,
                fee_account: a.fee_account,
            },
            side,
            client_order_id,
        );
        let steps = vec![
            ExchangeInstruction::RequestUnits { units: COMPUTE_UNITS, additional_fee: 0 },
            margin_stress_instruction(self, &a, x.feeds),
            cancel,
            consume_events_instruction(self, market, &a),
            settle_instruction(self, market, &a, x.user_margin_account),
            user_margin_instruction(self, &a),
        ];
        assert(steps@ =~= cancel_sequence(*self, *market, *x, side, client_order_id));
        steps
    }

    /// Composes, in context `x`, the settlement sequence: the bracket with no
    /// action.
    pub fn compose_settle(&self, market: &Market, x: &SequenceContext) -> (r: Vec<ExchangeInstruction>)
        ensures
            r@ == settle_sequence(*self, *market, *x),
    {
        let a = x.addresses;
        let steps = vec![
            margin_stress_instruction(self, &a, x.feeds),
            consume_events_instruction(self, market, &a),
            settle_instruction(self, market, &a, x.user_margin_account),
            user_margin_instruction(self, &a),
        ];
        assert(steps@ =~= settle_sequence(*self, *market, *x));
        steps
    }

    /// Composes the bracketed sequence that places an order of `size` at
    /// `price`, both in human units, from the session's cached state.
    pub fn place_order(
        &self,
        market: &Market,
        side: OrderSide,
        price: Amount,
        size: Amount,
        order_type: OrderType,
    ) -> (r: Result<Vec<ExchangeInstruction>, ComposeError>)
        ensures
            match r {
                Ok(steps) => place_plan(*self, *market, side, price, size, order_type) == Ok::<Seq<ExchangeInstruction>, ComposeError>(steps@),
                Err(e) => place_plan(*self, *market, side, price, size, order_type) == Err::<Seq<ExchangeInstruction>, ComposeError>(e),
            },
    {
        let x = load_context(self, market)?;
        self.compose_place(market, &x, side, price, size, order_type)
    }

    /// Composes the bracketed sequence that cancels the order that
    /// `client_order_id` names on `side`, from the session's cached state.
    pub fn cancel_order(&self, market: &Market, side: OrderSide, client_order_id: u64) -> (r: Result<Vec<ExchangeInstruction>, ComposeError>)
        ensures
            match r {
                Ok(steps) => cancel_plan(*self, *market, side, client_order_id) == Ok::<Seq<ExchangeInstruction>, ComposeError>(steps@),
                Err(e) => cancel_plan(*self, *market, side, client_order_id) == Err::<Seq<ExchangeInstruction>, ComposeError>(e),
            },
    {
        let x = load_context(self, market)?;
        Ok(self.compose_cancel(market, &x, side, client_order_id))
    }

    /// Composes the sequence that sweeps unsettled funds on `market` with no
    /// new order, from the session's cached state.
    pub fn settle_order(&self, market: &Market) -> (r: Result<Vec<ExchangeInstruction>, ComposeError>)
        ensures
            match r {
                Ok(steps) => settle_plan(*self, *market) == Ok::<Seq<ExchangeInstruction>, ComposeError>(steps@),
                Err(e) => settle_plan(*self, *market) == Err::<Seq<ExchangeInstruction>, ComposeError>(e),
            },
    {
        let x = load_context(self, market)?;
        Ok(self.compose_settle(market, &x))
    }
}

/// The sequence that places an order has six steps in the bracketed order:
/// compute budget, margin stress, the order, event consumption, settlement,
/// user margin; both risk recomputations name the market asset's
/// margin-stress account.
pub proof fn lemma_place_is_bracketed(
    c: OptifiClient,
    m: Market,
    side: OrderSide,
    price: Amount,
    size: Amount,
    order_type: OrderType,
)
    requires
        place_plan(c, m, side, price, size, order_type) is Ok,
    ensures
        ({
            let steps = place_plan(c, m, side, price, size, order_type)->Ok_0;
            &&& steps.len() == 6
            &&& steps[0] == ExchangeInstruction::RequestUnits { units: COMPUTE_UNITS, additional_fee: 0 }
            &&& steps[1] is MarginStressCalculate
            &&& steps[2] is PlaceOrder
            &&& steps[3] is ConsumeEventQueue
            &&& steps[4] is SettleOrderFunds
            &&& steps[5] is UserMarginCalculate
            &&& steps[1]->MarginStressCalculate_0.margin_stress_account
                == steps[5]->UserMarginCalculate_0.margin_stress_account
        }),
{
}

/// Only the order step of a placement depends on the side, price, size and
/// order type: two placements on the same market agree on every other step.
pub proof fn lemma_place_bracket_independent_of_order(
    c: OptifiClient,
    m: Market,
    side1: OrderSide,
    price1: Amount,
    size1: Amount,
    order_type1: OrderType,
    side2: OrderSide,
    price2: Amount,
    size2: Amount,
    order_type2: OrderType,
)
    requires
        place_plan(c, m, side1, price1, size1, order_type1) is Ok,
        place_plan(c, m, side2, price2, size2, order_type2) is Ok,
    ensures
        ({
            let steps1 = place_plan(c, m, side1, price1, size1, order_type1)->Ok_0;
            let steps2 = place_plan(c, m, side2, price2, size2, order_type2)->Ok_0;
            &&& steps1.len() == steps2.len()
            &&& forall|i: int| 0 <= i < steps1.len() && i != 2 ==> steps1[i] == steps2[i]
        }),
{
}

} // verus!
