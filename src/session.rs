//! The session: how it is opened, which accounts opening a user account and
//! joining a market name, which markets it offers, and the decisions of its
//! long-running work (cancelling a batch of orders one transaction at a
//! time, retrying loads, keeping an account subscription alive), where the
//! caller performs each action and reports back.

use vstd::prelude::*;
use crate::book::OptifiOrder;
use crate::address::{Address, DeriveError, SubAccount, derived, derive_sub_account, sub_account_seeds};
use crate::market::{Asset, Market, OptifiAccount, OptifiClient, Programs, UserState};

verus! {

/// Progress of cancelling a trader's open orders, one transaction per order.
///
/// The batch is not atomic: the first failed submission ends it, leaving
/// the orders before it cancelled and that order and all after it open.
#[derive(Clone, Debug)]
pub struct CancelAll {
    pub orders: Vec<OptifiOrder>,
    /// How many orders, from the front, were cancelled.
    pub cancelled: usize,
    /// Whether a submission failed; the failed order is the first not
    /// cancelled.
    pub stopped: bool,
}

impl CancelAll {
    pub open spec fn wf(&self) -> bool {
        &&& self.cancelled <= self.orders@.len()
        &&& self.stopped ==> self.cancelled < self.orders@.len()
    }

    /// The order whose cancellation is to be submitted next.
    pub open spec fn pending(&self) -> Option<OptifiOrder> {
        if !self.stopped && self.cancelled < self.orders@.len() {
            Some(self.orders@[self.cancelled as int])
        } else {
            None
        }
    }

    /// Starts cancelling `orders` in their order.
    pub fn new(orders: Vec<OptifiOrder>) -> (r: CancelAll)
        ensures
            r.wf(),
            r.orders@ == orders@,
            r.cancelled == 0,
            !r.stopped,
    {
        CancelAll { orders, cancelled: 0, stopped: false }
    }

    /// The order to cancel next, or `None` once every order is cancelled or
    /// a submission has failed.
    pub fn next_cancel(&self) -> (r: Option<OptifiOrder>)
        requires
            self.wf(),
        ensures
            r == self.pending(),
    {
        if !self.stopped && self.cancelled < self.orders.len() {
            Some(self.orders[self.cancelled])
        } else {
            None
        }
    }

    /// Records whether the cancellation of the pending order was accepted.
    pub fn record(&mut self, accepted: bool)
        requires
            old(self).wf(),
            old(self).pending() is Some,
        ensures
            final(self).wf(),
            final(self).orders@ == old(self).orders@,
            accepted ==> final(self).cancelled == old(self).cancelled + 1 && !final(self).stopped,
            !accepted ==> final(self).cancelled == old(self).cancelled && final(self).stopped,
    {
        let n = self.orders.len();
        assert(self.cancelled < n);
        if accepted {
            self.cancelled = self.cancelled + 1;
        } else {
            self.stopped = true;
        }
    }

    /// The order whose cancellation failed, if one did.
    pub fn failed_order(&self) -> (r: Option<OptifiOrder>)
        requires
            self.wf(),
        ensures
            r == (if self.stopped {
                Some(self.orders@[self.cancelled as int])
            } else {
                None::<OptifiOrder>
            }),
    {
        if self.stopped {
            Some(self.orders[self.cancelled])
        } else {
            None
        }
    }

    /// The orders cancelled so far.
    pub fn cancelled_orders(&self) -> (r: Vec<OptifiOrder>)
        requires
            self.wf(),
        ensures
            r@ == self.orders@.subrange(0, self.cancelled as int),
    {
        let mut r: Vec<OptifiOrder> = Vec::new();
        let mut i: usize = 0;
        while i < self.cancelled
            invariant
                self.wf(),
                i <= self.cancelled,
                r@ == self.orders@.subrange(0, i as int),
            decreases self.cancelled - i,
        {
            r.push(self.orders[i]);
            assert(r@ =~= self.orders@.subrange(0, i as int + 1));
            i = i + 1;
        }
        r
    }

    /// The orders still open: all those not cancelled, the failed one first.
    pub fn still_open(&self) -> (r: Vec<OptifiOrder>)
        requires
            self.wf(),
        ensures
            r@ == self.orders@.subrange(self.cancelled as int, self.orders@.len() as int),
    {
        let mut r: Vec<OptifiOrder> = Vec::new();
        let n = self.orders.len();
        let mut i: usize = self.cancelled;
        while i < n
            invariant
                self.wf(),
                n == self.orders@.len(),
                self.cancelled <= i <= n,
                r@ == self.orders@.subrange(self.cancelled as int, i as int),
            decreases n - i,
        {
            r.push(self.orders[i]);
            assert(r@ =~= self.orders@.subrange(self.cancelled as int, i as int + 1));
            i = i + 1;
        }
        r
    }
}

/// Once a submission fails the batch submits nothing more, and what it
/// reports splits the orders exactly: those before the failed one are
/// cancelled, the failed one and those after it are open.
pub proof fn lemma_cancel_all_stops_at_failure(before: CancelAll, after: CancelAll)
    requires
        before.wf(),
        before.pending() is Some,
        after.wf(),
        after.orders@ == before.orders@,
        after.cancelled == before.cancelled,
        after.stopped,
    ensures
        after.pending() is None,
        after.orders@[after.cancelled as int] == before.pending()->0,
        after.orders@ == after.orders@.subrange(0, after.cancelled as int) + after.orders@.subrange(
            after.cancelled as int,
            after.orders@.len() as int,
        ),
{
    assert(after.orders@ =~= after.orders@.subrange(0, after.cancelled as int) + after.orders@.subrange(
        after.cancelled as int,
        after.orders@.len() as int,
    ));
}

/// How a single-account load failed.
#[derive(Clone, Copy, Debug, PartialEq, Eq)]
pub enum LoadFailure {
    /// The network or the ledger's interface failed for now.
    Transient,
    /// The account does not exist.
    NotFound,
    /// The account's bytes do not have the expected layout.
    Malformed,
}

/// What to do after a failed single-account load.
#[derive(Clone, Copy, Debug, PartialEq, Eq)]
pub enum LoadDecision {
    /// Try again after this many seconds.
    RetryAfter(u64),
    /// Stop and report the failure: retrying cannot help.
    GiveUp,
}

/// Seconds between attempts at a load that failed for now.
pub const RETRY_DELAY_SECS: u64 = 10;

/// A transient failure of a bootstrap load is retried after a fixed delay;
/// a missing or malformed account is final.
pub fn on_load_failure(failure: LoadFailure) -> (r: LoadDecision)
    ensures
        failure == LoadFailure::Transient ==> r == LoadDecision::RetryAfter(RETRY_DELAY_SECS),
        failure != LoadFailure::Transient ==> r == LoadDecision::GiveUp,
{
    match failure {
        LoadFailure::Transient => LoadDecision::RetryAfter(RETRY_DELAY_SECS),
        LoadFailure::NotFound => LoadDecision::GiveUp,
        LoadFailure::Malformed => LoadDecision::GiveUp,
    }
}

/// Connection state of an account subscription.
#[derive(Clone, Copy, Debug, PartialEq, Eq)]
pub enum SubscriptionState {
    Disconnected,
    Subscribed,
}

/// What happened to a subscription.
#[derive(Clone, Copy, Debug, PartialEq, Eq)]
pub enum SubscriptionEvent {
    /// A subscription request was accepted.
    Opened,
    /// A subscription request failed.
    OpenFailed,
    /// The account changed; its new bytes arrived.
    Notified,
    /// The stream ended or failed.
    StreamError,
}

/// What the subscription loop does next.
#[derive(Clone, Copy, Debug, PartialEq, Eq)]
pub enum SubscriptionAction {
    /// Request a subscription, at once and without backoff.
    Subscribe,
    /// Decode the new bytes afresh and hand the result on.
    Decode,
    /// Wait for the next notification.
    Wait,
}

/// The next state and action of a subscription loop. A disconnected loop
/// subscribes again at once; a subscribed one decodes each notification and
/// falls back to disconnected when the stream fails. The loop never ends on
/// its own.
pub fn subscription_step(state: SubscriptionState, event: SubscriptionEvent) -> (r: (SubscriptionState, SubscriptionAction))
    ensures
        state == SubscriptionState::Disconnected && event == SubscriptionEvent::Opened ==> r == (
        SubscriptionState::Subscribed, SubscriptionAction::Wait),
        state == SubscriptionState::Disconnected && event != SubscriptionEvent::Opened ==> r == (
        SubscriptionState::Disconnected, SubscriptionAction::Subscribe),
        state == SubscriptionState::Subscribed && event == SubscriptionEvent::Notified ==> r == (
        SubscriptionState::Subscribed, SubscriptionAction::Decode),
        state == SubscriptionState::Subscribed && event == SubscriptionEvent::StreamError ==> r == (
        SubscriptionState::Disconnected, SubscriptionAction::Subscribe),
        state == SubscriptionState::Subscribed && (event == SubscriptionEvent::Opened || event
            == SubscriptionEvent::OpenFailed) ==> r == (SubscriptionState::Subscribed, SubscriptionAction::Wait),
{
    match (state, event) {
        (SubscriptionState::Disconnected, SubscriptionEvent::Opened) => (
            SubscriptionState::Subscribed,
            SubscriptionAction::Wait,
        ),
        (SubscriptionState::Disconnected, _) => (SubscriptionState::Disconnected, SubscriptionAction::Subscribe),
        (SubscriptionState::Subscribed, SubscriptionEvent::Notified) => (
            SubscriptionState::Subscribed,
            SubscriptionAction::Decode,
        ),
        (SubscriptionState::Subscribed, SubscriptionEvent::StreamError) => (
            SubscriptionState::Disconnected,
            SubscriptionAction::Subscribe,
        ),
        (SubscriptionState::Subscribed, _) => (SubscriptionState::Subscribed, SubscriptionAction::Wait),
    }
}

/// The markets of `asset` among `markets`, in order; all of them when no
/// asset is given.
pub open spec fn markets_of(markets: Seq<Market>, asset: Option<Asset>) -> Seq<Market>
    decreases markets.len(),
{
    if markets.len() == 0 {
        seq![]
    } else {
        let before = markets_of(markets.drop_last(), asset);
        match asset {
            Some(a) => if markets.last().asset == a {
                before.push(markets.last())
            } else {
                before
            },
            None => before.push(markets.last()),
        }
    }
}

impl OptifiClient {
    /// The loaded markets of `asset`, or all loaded markets.
    pub fn get_markets(&self, asset: Option<Asset>) -> (r: Vec<Market>)
        ensures
            r@ == markets_of(self.account.markets@, asset),
    {
        let markets = &self.account.markets;
        let mut r: Vec<Market> = Vec::new();
        let n = markets.len();
        let mut i: usize = 0;
        assert(markets@.subrange(0, 0) =~= Seq::<Market>::empty());
        while i < n
            invariant
                n == markets@.len(),
                i <= n,
                r@ == markets_of(markets@.subrange(0, i as int), asset),
            decreases n - i,
        {
            let ghost prefix = markets@.subrange(0, i as int + 1);
            assert(prefix.drop_last() =~= markets@.subrange(0, i as int));
            let m = markets[i];
            match asset {
                Some(a) => {
                    if m.asset.code() == a.code() {
                        r.push(m);
                    }
                },
                None => {
                    r.push(m);
                },
            }
            i = i + 1;
        }
        assert(markets@.subrange(0, n as int) =~= markets@);
        r
    }
}

/// The user account a session trades from: the delegating account when one
/// is given, else the wallet's own user account on the exchange.
pub open spec fn session_user_account(programs: Programs, exchange: Address, user: Address, delegator: Option<Address>) -> Result<Address, DeriveError> {
    match delegator {
        Some(d) => Ok(d),
        None => match derived(sub_account_seeds(SubAccount::UserAccount { exchange, owner: user }), programs.exchange) {
            Ok((a, _)) => Ok(a),
            Err(e) => Err(e),
        },
    }
}

/// Addresses and bump seeds that opening a user account names.
#[derive(Clone, Copy, Debug, PartialEq, Eq)]
pub struct UserAccountSetup {
    pub user_account: Address,
    pub user_account_bump: u8,
    pub liquidation_account: Address,
    pub liquidation_account_bump: u8,
    pub fee_account: Address,
}

/// Addresses that joining a market names.
#[derive(Clone, Copy, Debug, PartialEq, Eq)]
pub struct MarketJoinSetup {
    pub serum_open_orders: Address,
    pub bump: u8,
    pub serum_market_authority: Address,
}

/// The accounts opening the wallet's user account names.
pub open spec fn user_account_setup_of(programs: Programs, exchange: Address, user: Address) -> Result<UserAccountSetup, DeriveError> {
    let program = programs.exchange;
    match derived(sub_account_seeds(SubAccount::UserAccount { exchange, owner: user }), program) {
        Err(e) => Err(e),
        Ok((user_account, user_account_bump)) => match derived(
            sub_account_seeds(SubAccount::Liquidation { exchange, user_account }),
            program,
        ) {
            Err(e) => Err(e),
            Ok((liquidation_account, liquidation_account_bump)) => match derived(
                sub_account_seeds(SubAccount::Fee { exchange, user_account }),
                program,
            ) {
                Err(e) => Err(e),
                Ok((fee_account, _)) => Ok(
                    UserAccountSetup {
                        user_account,
                        user_account_bump,
                        liquidation_account,
                        liquidation_account_bump,
                        fee_account,
                    },
                ),
            },
        },
    }
}

/// The accounts joining `market` names.
pub open spec fn market_join_setup_of(programs: Programs, exchange: Address, user_account: Address, market: Market) -> Result<MarketJoinSetup, DeriveError> {
    let program = programs.exchange;
    match derived(
        sub_account_seeds(SubAccount::OpenOrders { exchange, user_account, venue_market: market.venue_market }),
        program,
    ) {
        Err(e) => Err(e),
        Ok((serum_open_orders, bump)) => match derived(sub_account_seeds(SubAccount::VenueMarketAuthority { exchange }), program) {
            Err(e) => Err(e),
            Ok((serum_market_authority, _)) => Ok(MarketJoinSetup { serum_open_orders, bump, serum_market_authority }),
        },
    }
}

impl OptifiClient {
    /// A session for the wallet `user`, trading from `delegator`'s user
    /// account when one is given. Nothing is loaded yet.
    pub fn new(
        programs: Programs,
        optifi_exchange: Address,
        user: Address,
        delegator: Option<Address>,
        collateral_decimals: u32,
        taker_fee_bps: u16,
    ) -> (r: Result<OptifiClient, DeriveError>)
        ensures
            match r {
                Ok(c) => {
                    &&& session_user_account(programs, optifi_exchange, user, delegator) == Ok::<Address, DeriveError>(c.user_account)
                    &&& c.programs == programs
                    &&& c.optifi_exchange == optifi_exchange
                    &&& c.user == user
                    &&& c.collateral_decimals == collateral_decimals
                    &&& c.taker_fee_bps == taker_fee_bps
                    &&& c.account.optifi_exchange is None
                    &&& c.account.user_account is None
                    &&& c.account.markets@.len() == 0
                },
                Err(e) => session_user_account(programs, optifi_exchange, user, delegator) == Err::<Address, DeriveError>(e),
            },
    {
        let user_account = match delegator {
            Some(d) => d,
            None => {
                let (a, _) = derive_sub_account(
                    &SubAccount::UserAccount { exchange: optifi_exchange, owner: user },
                    &programs.exchange,
                )?;
                a
            },
        };
        Ok(
            OptifiClient {
                programs,
                optifi_exchange,
                user,
                user_account,
                collateral_decimals,
                taker_fee_bps,
                account: OptifiAccount { optifi_exchange: None, user_account: None, markets: Vec::new() },
            },
        )
    }

    /// The loaded user account.
    pub fn get_user_account(&self) -> (r: UserState)
        requires
            self.account.user_account is Some,
        ensures
            r == self.account.user_account->0,
    {
        match self.account.user_account {
            Some(u) => u,
            None => UserState { user_margin_account_usdc: self.user_account },
        }
    }

    /// The wallet's own user account, liquidation record and fee record,
    /// with the bump seeds the exchange checks when it opens them.
    pub fn user_account_setup(&self) -> (r: Result<UserAccountSetup, DeriveError>)
        ensures
            r == user_account_setup_of(self.programs, self.optifi_exchange, self.user),
    {
        let exchange = self.optifi_exchange;
        let program = &self.programs.exchange;
        let (user_account, user_account_bump) = derive_sub_account(
            &SubAccount::UserAccount { exchange, owner: self.user },
            program,
        )?;
        let (liquidation_account, liquidation_account_bump) = derive_sub_account(
            &SubAccount::Liquidation { exchange, user_account },
            program,
        )?;
        let (fee_account, _) = derive_sub_account(&SubAccount::Fee { exchange, user_account }, program)?;
        Ok(UserAccountSetup { user_account, user_account_bump, liquidation_account, liquidation_account_bump, fee_account })
    }

    /// The session's open-orders account on `market`, with its bump seed, and
    /// the venue-market authority.
    pub fn market_join_setup(&self, market: &Market) -> (r: Result<MarketJoinSetup, DeriveError>)
        ensures
            r == market_join_setup_of(self.programs, self.optifi_exchange, self.user_account, *market),
    {
        let exchange = self.optifi_exchange;
        let program = &self.programs.exchange;
        let (serum_open_orders, bump) = derive_sub_account(
            &SubAccount::OpenOrders { exchange, user_account: self.user_account, venue_market: market.venue_market },
            program,
        )?;
        let (serum_market_authority, _) = derive_sub_account(&SubAccount::VenueMarketAuthority { exchange }, program)?;
        Ok(MarketJoinSetup { serum_open_orders, bump, serum_market_authority })
    }
}

} // verus!
