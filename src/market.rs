//! What a session knows of the exchange, the trader and the markets.

use vstd::prelude::*;
use crate::address::{Address, same_address};

verus! {

/// An underlying asset of the exchange.
#[derive(Clone, Copy, Debug, PartialEq, Eq)]
pub enum Asset {
    Bitcoin,
    Ethereum,
    Usdc,
    Solana,
}

/// The byte an asset is known by on chain.
pub open spec fn asset_code(asset: Asset) -> u8 {
    match asset {
        Asset::Bitcoin => 0,
        Asset::Ethereum => 1,
        Asset::Usdc => 2,
        Asset::Solana => 3,
    }
}

/// Decimal places of an asset's instrument quantities.
pub open spec fn asset_decimals(asset: Asset) -> u32 {
    match asset {
        Asset::Bitcoin => 2,
        Asset::Ethereum => 1,
        Asset::Solana => 1,
        Asset::Usdc => 0,
    }
}

impl Asset {
    pub fn code(&self) -> (r: u8)
        ensures
            r == asset_code(*self),
    {
        match self {
            Asset::Bitcoin => 0,
            Asset::Ethereum => 1,
            Asset::Usdc => 2,
            Asset::Solana => 3,
        }
    }

    pub fn get_decimal(&self) -> (r: u32)
        ensures
            r == asset_decimals(*self),
    {
        match self {
            Asset::Bitcoin => 2,
            Asset::Ethereum => 1,
            Asset::Solana => 1,
            Asset::Usdc => 0,
        }
    }
}

/// Whether an option pays on the way up or on the way down.
#[derive(Clone, Copy, Debug, PartialEq, Eq)]
pub enum InstrumentType {
    Put,
    Call,
}

/// How the venue treats an order that would cross the book.
#[derive(Clone, Copy, Debug, PartialEq, Eq)]
pub enum OrderType {
    Limit,
    ImmediateOrCancel,
    PostOnly,
}

/// The byte an order type is sent as.
pub open spec fn order_type_code(t: OrderType) -> u8 {
    match t {
        OrderType::Limit => 0,
        OrderType::ImmediateOrCancel => 1,
        OrderType::PostOnly => 2,
    }
}

impl OrderType {
    pub fn code(&self) -> (r: u8)
        ensures
            r == order_type_code(*self),
    {
        match self {
            OrderType::Limit => 0,
            OrderType::ImmediateOrCancel => 1,
            OrderType::PostOnly => 2,
        }
    }
}

/// The programs and system accounts every instruction names.
#[derive(Clone, Copy, Debug, PartialEq, Eq)]
pub struct Programs {
    /// The exchange program.
    pub exchange: Address,
    /// The order-matching venue program.
    pub venue: Address,
    pub token: Address,
    pub associated_token: Address,
    pub rent_sysvar: Address,
}

/// The accounts of one venue market, derived once when the market is loaded.
#[derive(Clone, Copy, Debug, PartialEq, Eq)]
pub struct VenueMarketKeys {
    pub market: Address,
    pub req_q: Address,
    pub event_q: Address,
    pub bids: Address,
    pub asks: Address,
    pub coin_vault: Address,
    pub pc_vault: Address,
    pub vault_signer_key: Address,
}

/// One tradable instrument: its exchange market, the venue market behind it
/// and the tokens it mints.
#[derive(Clone, Copy, Debug, PartialEq, Eq)]
pub struct Market {
    pub optifi_market: Address,
    pub venue_market: Address,
    pub instrument: Address,
    pub instrument_long_spl_token: Address,
    pub instrument_short_spl_token: Address,
    pub asset: Asset,
    pub expiry_date: u64,
    pub strike: u32,
    pub instrument_type: InstrumentType,
    pub market_pubkeys: VenueMarketKeys,
}

/// The price oracle registered for one asset.
#[derive(Clone, Copy, Debug, PartialEq, Eq)]
pub struct OracleFeed {
    pub asset: Asset,
    pub spot_oracle: Option<Address>,
}

/// A market registered on the exchange.
#[derive(Clone, Copy, Debug, PartialEq, Eq)]
pub struct MarketKeyData {
    pub optifi_market_pubkey: Address,
    pub expiry_date: u64,
    /// A stopped market is left out of the session.
    pub is_stopped: bool,
}

/// One listed instrument, in the exchange's own listing order.
#[derive(Clone, Copy, Debug, PartialEq, Eq)]
pub struct InstrumentEntry {
    pub instrument: Address,
    pub asset: Asset,
    pub expiry_date: u64,
    pub strike: u32,
    pub instrument_type: InstrumentType,
}

/// The parts of the exchange's global record that the client reads.
#[derive(Clone, Debug)]
pub struct ExchangeState {
    pub usdc_fee_pool: Address,
    pub oracles: Vec<OracleFeed>,
    pub markets: Vec<MarketKeyData>,
    pub instruments: Vec<InstrumentEntry>,
}

/// An exchange market's own record, as loaded from its account.
#[derive(Clone, Copy, Debug, PartialEq, Eq)]
pub struct MarketRecord {
    pub address: Address,
    pub serum_market: Address,
    pub instrument: Address,
    pub instrument_long_spl_token: Address,
    pub instrument_short_spl_token: Address,
}

/// The parts of a trader's user account that the client reads.
#[derive(Clone, Copy, Debug, PartialEq, Eq)]
pub struct UserState {
    pub user_margin_account_usdc: Address,
}

/// State cached by a session: loaded once, refreshed on demand.
#[derive(Clone, Debug)]
pub struct OptifiAccount {
    pub optifi_exchange: Option<ExchangeState>,
    pub user_account: Option<UserState>,
    pub markets: Vec<Market>,
}

/// A trading session: who trades, on which exchange, and what has been
/// loaded so far.
#[derive(Clone, Debug)]
pub struct OptifiClient {
    pub programs: Programs,
    pub optifi_exchange: Address,
    /// The signing wallet.
    pub user: Address,
    /// The user account traded from: the wallet's own, or the one that
    /// delegated to it.
    pub user_account: Address,
    /// Decimal places of the collateral token.
    pub collateral_decimals: u32,
    /// The venue's taker fee, in basis points.
    pub taker_fee_bps: u16,
    pub account: OptifiAccount,
}

/// The oracle registered first for `asset`.
pub open spec fn oracle_for(oracles: Seq<OracleFeed>, asset: Asset) -> Option<OracleFeed>
    decreases oracles.len(),
{
    if oracles.len() == 0 {
        None
    } else {
        match oracle_for(oracles.drop_last(), asset) {
            Some(found) => Some(found),
            None => if oracles.last().asset == asset {
                Some(oracles.last())
            } else {
                None
            },
        }
    }
}

/// Finds the oracle registered first for `asset`.
pub fn find_oracle(oracles: &Vec<OracleFeed>, asset: Asset) -> (r: Option<OracleFeed>)
    ensures
        r == oracle_for(oracles@, asset),
{
    let mut found: Option<OracleFeed> = None;
    let n = oracles.len();
    let mut i: usize = 0;
    assert(oracles@.subrange(0, 0) =~= Seq::<OracleFeed>::empty());
    while i < n
        invariant
            n == oracles@.len(),
            i <= n,
            found == oracle_for(oracles@.subrange(0, i as int), asset),
        decreases n - i,
    {
        assert(oracles@.subrange(0, i as int + 1).drop_last() =~= oracles@.subrange(0, i as int));
        if found.is_none() && oracles[i].asset.code() == asset.code() {
            found = Some(oracles[i]);
        }
        i = i + 1;
    }
    assert(oracles@.subrange(0, n as int) =~= oracles@);
    found
}

/// The record loaded first for the market at `address`.
pub open spec fn record_for(records: Seq<MarketRecord>, address: Address) -> Option<MarketRecord>
    decreases records.len(),
{
    if records.len() == 0 {
        None
    } else {
        match record_for(records.drop_last(), address) {
            Some(found) => Some(found),
            None => if records.last().address == address {
                Some(records.last())
            } else {
                None
            },
        }
    }
}

/// The first listing of `instrument`.
pub open spec fn instrument_for(entries: Seq<InstrumentEntry>, instrument: Address) -> Option<InstrumentEntry>
    decreases entries.len(),
{
    if entries.len() == 0 {
        None
    } else {
        match instrument_for(entries.drop_last(), instrument) {
            Some(found) => Some(found),
            None => if entries.last().instrument == instrument {
                Some(entries.last())
            } else {
                None
            },
        }
    }
}

fn find_record(records: &Vec<MarketRecord>, address: &Address) -> (r: Option<MarketRecord>)
    ensures
        r == record_for(records@, *address),
{
    let mut found: Option<MarketRecord> = None;
    let n = records.len();
    let mut i: usize = 0;
    assert(records@.subrange(0, 0) =~= Seq::<MarketRecord>::empty());
    while i < n
        invariant
            n == records@.len(),
            i <= n,
            found == record_for(records@.subrange(0, i as int), *address),
        decreases n - i,
    {
        assert(records@.subrange(0, i as int + 1).drop_last() =~= records@.subrange(0, i as int));
        if found.is_none() && same_address(&records[i].address, address) {
            found = Some(records[i]);
        }
        i = i + 1;
    }
    assert(records@.subrange(0, n as int) =~= records@);
    found
}

fn find_instrument(entries: &Vec<InstrumentEntry>, instrument: &Address) -> (r: Option<InstrumentEntry>)
    ensures
        r == instrument_for(entries@, *instrument),
{
    let mut found: Option<InstrumentEntry> = None;
    let n = entries.len();
    let mut i: usize = 0;
    assert(entries@.subrange(0, 0) =~= Seq::<InstrumentEntry>::empty());
    while i < n
        invariant
            n == entries@.len(),
            i <= n,
            found == instrument_for(entries@.subrange(0, i as int), *instrument),
        decreases n - i,
    {
        assert(entries@.subrange(0, i as int + 1).drop_last() =~= entries@.subrange(0, i as int));
        if found.is_none() && same_address(&entries[i].instrument, instrument) {
            found = Some(entries[i]);
        }
        i = i + 1;
    }
    assert(entries@.subrange(0, n as int) =~= entries@);
    found
}

/// A live market of the exchange with what its record and its instrument
/// say of it; the venue's accounts are looked up from `venue_market`.
#[derive(Clone, Copy, Debug, PartialEq, Eq)]
pub struct MarketListing {
    pub optifi_market: Address,
    pub venue_market: Address,
    pub instrument: Address,
    pub instrument_long_spl_token: Address,
    pub instrument_short_spl_token: Address,
    pub asset: Asset,
    pub expiry_date: u64,
    pub strike: u32,
    pub instrument_type: InstrumentType,
}

/// Why the exchange's markets could not be listed.
#[derive(Clone, Copy, Debug, PartialEq, Eq)]
pub enum ListingError {
    /// A live market has no loaded record.
    MarketRecordMissing,
    /// A live market's instrument is not listed on the exchange.
    InstrumentMissing,
}

pub open spec fn listing_of(record: MarketRecord, entry: InstrumentEntry) -> MarketListing {
    MarketListing {
        optifi_market: record.address,
        venue_market: record.serum_market,
        instrument: record.instrument,
        instrument_long_spl_token: record.instrument_long_spl_token,
        instrument_short_spl_token: record.instrument_short_spl_token,
        asset: entry.asset,
        expiry_date: entry.expiry_date,
        strike: entry.strike,
        instrument_type: entry.instrument_type,
    }
}

/// The live markets among `keys`, in the exchange's order, each joined with
/// its record and its instrument; stopped markets are left out.
pub open spec fn listings_of(keys: Seq<MarketKeyData>, records: Seq<MarketRecord>, entries: Seq<InstrumentEntry>) -> Result<Seq<MarketListing>, ListingError>
    decreases keys.len(),
{
    if keys.len() == 0 {
        Ok(seq![])
    } else {
        match listings_of(keys.drop_last(), records, entries) {
            Err(e) => Err(e),
            Ok(before) => {
                let key = keys.last();
                if key.is_stopped {
                    Ok(before)
                } else {
                    match record_for(records, key.optifi_market_pubkey) {
                        None => Err(ListingError::MarketRecordMissing),
                        Some(record) => match instrument_for(entries, record.instrument) {
                            None => Err(ListingError::InstrumentMissing),
                            Some(entry) => Ok(before.push(listing_of(record, entry))),
                        },
                    }
                }
            },
        }
    }
}

proof fn lemma_listing_error_persists(keys: Seq<MarketKeyData>, records: Seq<MarketRecord>, entries: Seq<InstrumentEntry>, i: int)
    requires
        0 <= i <= keys.len(),
        listings_of(keys.subrange(0, i), records, entries) is Err,
    ensures
        listings_of(keys, records, entries) == listings_of(keys.subrange(0, i), records, entries),
    decreases keys.len() - i,
{
    if i < keys.len() {
        assert(keys.subrange(0, i + 1).drop_last() =~= keys.subrange(0, i));
        lemma_listing_error_persists(keys, records, entries, i + 1);
    } else {
        assert(keys.subrange(0, i) =~= keys);
    }
}

/// Lists the exchange's live markets from its registry, the loaded market
/// records and its instrument listing.
pub fn select_markets(exchange: &ExchangeState, records: &Vec<MarketRecord>) -> (r: Result<Vec<MarketListing>, ListingError>)
    ensures
        match r {
            Ok(listings) => listings_of(exchange.markets@, records@, exchange.instruments@) == Ok::<Seq<MarketListing>, ListingError>(listings@),
            Err(e) => listings_of(exchange.markets@, records@, exchange.instruments@) == Err::<Seq<MarketListing>, ListingError>(e),
        },
{
    let keys = &exchange.markets;
    let mut out: Vec<MarketListing> = Vec::new();
    let n = keys.len();
    let mut i: usize = 0;
    assert(keys@.subrange(0, 0) =~= Seq::<MarketKeyData>::empty());
    while i < n
        invariant
            n == keys@.len(),
            keys@ == exchange.markets@,
            i <= n,
            listings_of(keys@.subrange(0, i as int), records@, exchange.instruments@) == Ok::<Seq<MarketListing>, ListingError>(out@),
        decreases n - i,
    {
        let ghost next = keys@.subrange(0, i as int + 1);
        assert(next.drop_last() =~= keys@.subrange(0, i as int));
        let key = keys[i];
        assert(next.last() == key);
        if !key.is_stopped {
            match find_record(records, &key.optifi_market_pubkey) {
                None => {
                    proof {
                        assert(listings_of(next, records@, exchange.instruments@) == Err::<Seq<MarketListing>, ListingError>(
                            ListingError::MarketRecordMissing,
                        ));
                        lemma_listing_error_persists(keys@, records@, exchange.instruments@, i + 1);
                    }
                    return Err(ListingError::MarketRecordMissing);
                },
                Some(record) => match find_instrument(&exchange.instruments, &record.instrument) {
                    None => {
                        proof {
                            assert(listings_of(next, records@, exchange.instruments@) == Err::<Seq<MarketListing>, ListingError>(
                                ListingError::InstrumentMissing,
                            ));
                            lemma_listing_error_persists(keys@, records@, exchange.instruments@, i + 1);
                        }
                        return Err(ListingError::InstrumentMissing);
                    },
                    Some(entry) => {
                        out.push(
                            MarketListing {
                                optifi_market: record.address,
                                venue_market: record.serum_market,
                                instrument: record.instrument,
                                instrument_long_spl_token: record.instrument_long_spl_token,
                                instrument_short_spl_token: record.instrument_short_spl_token,
                                asset: entry.asset,
                                expiry_date: entry.expiry_date,
                                strike: entry.strike,
                                instrument_type: entry.instrument_type,
                            },
                        );
                    },
                },
            }
        }
        i = i + 1;
    }
    assert(keys@.subrange(0, n as int) =~= keys@);
    Ok(out)
}

/// The session's market for a listing and the venue accounts found for it.
pub fn market_of_listing(listing: &MarketListing, keys: &VenueMarketKeys) -> (r: Market)
    ensures
        r == (Market {
            optifi_market: listing.optifi_market,
            venue_market: listing.venue_market,
            instrument: listing.instrument,
            instrument_long_spl_token: listing.instrument_long_spl_token,
            instrument_short_spl_token: listing.instrument_short_spl_token,
            asset: listing.asset,
            expiry_date: listing.expiry_date,
            strike: listing.strike,
            instrument_type: listing.instrument_type,
            market_pubkeys: *keys,
        }),
{
    Market {
        optifi_market: listing.optifi_market,
        venue_market: listing.venue_market,
        instrument: listing.instrument,
        instrument_long_spl_token: listing.instrument_long_spl_token,
        instrument_short_spl_token: listing.instrument_short_spl_token,
        asset: listing.asset,
        expiry_date: listing.expiry_date,
        strike: listing.strike,
        instrument_type: listing.instrument_type,
        market_pubkeys: *keys,
    }
}

} // verus!
