//! The client: its channels, who it acts for, and its subscriptions.

use std::time::Instant;

use vstd::prelude::*;
use vstd::string::*;

use crate::auth::{Address, Authenticated, Credentials, Unauthenticated};
use crate::config::WebSocketConfig;
use crate::connection::{ConnectionManager, ConnectionState, LinkView};
use crate::error::{ClientError, WsError};
use crate::streams::{
    MarketSubscription, MidpointSubscription, OrderSubscription, OrderbookSubscription,
    PriceSubscription, TradeSubscription, UserSubscription,
};
use crate::subscription::{
    law_subscription_count, link_with_assets, link_with_markets, market_id, user_id, ChannelType,
    SubscriptionInfoView, SubscriptionManager, SubscriptionsView,
};
use crate::text::{
    ends_with, has_suffix, prefix, texts, trim_end_slashes, without_trailing_slashes,
};

verus! {

/// `text` without the suffix that it has.
pub open spec fn stripped(text: Seq<char>, suffix: Seq<char>) -> Seq<char> {
    text.take(text.len() - suffix.len())
}

/// The base endpoint that an endpoint stands for: without slashes at the end,
/// and without a channel path.
pub open spec fn normalized_endpoint(endpoint: Seq<char>) -> Seq<char> {
    let base = without_trailing_slashes(endpoint);
    if has_suffix(base, "/ws/market"@) {
        stripped(base, "/ws/market"@)
    } else if has_suffix(base, "/ws/user"@) {
        stripped(base, "/ws/user"@)
    } else if has_suffix(base, "/ws"@) {
        stripped(base, "/ws"@)
    } else {
        base
    }
}

/// The last segment of a channel's path.
pub open spec fn channel_segment(channel: ChannelType) -> Seq<char> {
    match channel {
        ChannelType::Market => "market"@,
        ChannelType::User => "user"@,
    }
}

/// The endpoint of a channel below a base endpoint.
pub open spec fn endpoint_of(base: Seq<char>, channel: ChannelType) -> Seq<char> {
    without_trailing_slashes(base) + "/ws/"@ + channel_segment(channel)
}

/// The base endpoint that an endpoint stands for.
pub fn normalize_base_endpoint(endpoint: &str) -> (r: String)
    ensures
        r@ == normalized_endpoint(endpoint@),
{
    let trimmed = trim_end_slashes(endpoint);
    proof {
        reveal_strlit("/ws/market");
        reveal_strlit("/ws/user");
        reveal_strlit("/ws");
    }
    let len: usize = trimmed.as_str().unicode_len();
    if ends_with(trimmed.as_str(), "/ws/market") {
        prefix(trimmed.as_str(), len - 10)
    } else if ends_with(trimmed.as_str(), "/ws/user") {
        prefix(trimmed.as_str(), len - 8)
    } else if ends_with(trimmed.as_str(), "/ws") {
        prefix(trimmed.as_str(), len - 3)
    } else {
        trimmed
    }
}

/// The endpoint of a channel below a base endpoint.
pub fn channel_endpoint(base: &str, channel: ChannelType) -> (r: String)
    ensures
        r@ == endpoint_of(base@, channel),
{
    let mut out = trim_end_slashes(base);
    out.append("/ws/");
    match channel {
        ChannelType::Market => out.append("market"),
        ChannelType::User => out.append("user"),
    }
    out
}

/// Handles for a specific WebSocket channel.
pub struct ChannelHandles {
    /// Where the channel connects to
    pub endpoint: String,
    /// Manages the WebSocket connection.
    pub connection: ConnectionManager,
    /// Manages active subscriptions on this channel.
    pub subscriptions: SubscriptionManager,
}

/// What [`ChannelHandles`] hold.
#[verifier::ext_equal]
pub struct ChannelView {
    pub endpoint: Seq<char>,
    pub link: LinkView,
    pub subscriptions: SubscriptionsView,
}

impl View for ChannelHandles {
    type V = ChannelView;

    open spec fn view(&self) -> ChannelView {
        ChannelView {
            endpoint: self.endpoint@,
            link: self.connection@,
            subscriptions: self.subscriptions@,
        }
    }
}

impl ChannelView {
    /// A channel on which nothing has happened.
    pub open spec fn fresh(endpoint: Seq<char>, config: WebSocketConfig) -> ChannelView {
        ChannelView {
            endpoint,
            link: LinkView::fresh(config.reconnect),
            subscriptions: SubscriptionsView::fresh(),
        }
    }

    /// Whether a market data subscription is refused: it would ask the server
    /// for something over a connection that has been given up.
    pub open spec fn refuses_assets(self, asset_ids: Seq<Seq<char>>) -> bool {
        self.subscriptions.asks_for_assets(asset_ids) && self.link.phase is Stopped
    }

    /// Whether a user subscription is refused: it would ask the server for
    /// something over a connection that has been given up.
    pub open spec fn refuses_markets(self, markets: Seq<Seq<char>>) -> bool {
        self.subscriptions.asks_for_markets(markets) && self.link.phase is Stopped
    }

    /// The channel after a market data subscription.
    pub open spec fn after_market(
        self,
        asset_ids: Seq<Seq<char>>,
        created_at: Instant,
    ) -> ChannelView {
        let asked = self.subscriptions.with_assets(asset_ids);
        if self.refuses_assets(asset_ids) {
            ChannelView { subscriptions: asked, ..self }
        } else {
            ChannelView {
                link: link_with_assets(self.link, self.subscriptions, asset_ids),
                subscriptions: asked.registered(
                    market_id(asset_ids),
                    SubscriptionInfoView { channel: ChannelType::Market, asset_ids, created_at },
                ),
                ..self
            }
        }
    }

    /// The channel after a user subscription.
    pub open spec fn after_user(
        self,
        markets: Seq<Seq<char>>,
        credentials: Credentials,
        created_at: Instant,
    ) -> ChannelView {
        let asked = self.subscriptions.with_markets(markets);
        if self.refuses_markets(markets) {
            ChannelView { subscriptions: asked, ..self }
        } else {
            ChannelView {
                link: link_with_markets(self.link, self.subscriptions, markets, credentials@),
                subscriptions: asked.registered(
                    user_id(markets),
                    SubscriptionInfoView {
                        channel: ChannelType::User,
                        asset_ids: markets,
                        created_at,
                    },
                ),
                ..self
            }
        }
    }
}

impl ChannelHandles {
    /// A channel on which nothing has happened, with its connection to be started.
    pub fn connect(endpoint: String, config: &WebSocketConfig) -> (r: Self)
        ensures
            r@ == ChannelView::fresh(endpoint@, *config),
    {
        ChannelHandles {
            endpoint,
            connection: ConnectionManager::new(config),
            subscriptions: SubscriptionManager::new(),
        }
    }
}

/// WebSocket client for real-time market data and user updates.
///
/// A `WebSocketClient<Unauthenticated>` can only access public market data; a
/// `WebSocketClient<Authenticated>` can access both public and user-specific
/// data.
pub struct WebSocketClient<S> {
    /// Current state of the client (authenticated or unauthenticated)
    state: S,
    /// Configuration for the WebSocket connections
    config: WebSocketConfig,
    /// Base endpoint without channel suffix (e.g. `wss://...`)
    base_endpoint: String,
    /// Resources of the market data channel
    market: Option<ChannelHandles>,
    /// Resources of the user channel
    user: Option<ChannelHandles>,
}

/// What a [`WebSocketClient`] holds.
#[verifier::ext_equal]
pub struct ClientView<S> {
    pub state: S,
    pub config: WebSocketConfig,
    pub base_endpoint: Seq<char>,
    pub market: Option<ChannelView>,
    pub user: Option<ChannelView>,
}

/// What the handles of a channel that may be absent hold.
pub open spec fn channel_view(channel: Option<ChannelHandles>) -> Option<ChannelView> {
    match channel {
        Some(handles) => Some(handles@),
        None => None,
    }
}

impl<S> View for WebSocketClient<S> {
    type V = ClientView<S>;

    closed spec fn view(&self) -> ClientView<S> {
        ClientView {
            state: self.state,
            config: self.config,
            base_endpoint: self.base_endpoint@,
            market: channel_view(self.market),
            user: channel_view(self.user),
        }
    }
}

impl<S> ClientView<S> {
    /// What the client holds on a channel.
    pub open spec fn channel(self, kind: ChannelType) -> Option<ChannelView> {
        match kind {
            ChannelType::Market => self.market,
            ChannelType::User => self.user,
        }
    }

    /// The client with `channel` as what it holds on a channel.
    pub open spec fn with_channel(self, kind: ChannelType, channel: ChannelView) -> ClientView<S> {
        match kind {
            ChannelType::Market => ClientView { market: Some(channel), ..self },
            ChannelType::User => ClientView { user: Some(channel), ..self },
        }
    }

    /// The client after a market data subscription.
    pub open spec fn after_market(
        self,
        asset_ids: Seq<Seq<char>>,
        created_at: Instant,
    ) -> ClientView<S> {
        match self.market {
            Some(channel) => ClientView {
                market: Some(channel.after_market(asset_ids, created_at)),
                ..self
            },
            None => self,
        }
    }

    /// The error that a market data subscription ends with: the client has no
    /// market data channel, or the channel refuses.
    pub open spec fn is_market_error(
        self,
        asset_ids: Seq<Seq<char>>,
        error: ClientError,
    ) -> bool {
        match self.market {
            Some(channel) => channel.refuses_assets(asset_ids) && error == ClientError::WebSocket(
                WsError::ConnectionClosed,
            ),
            None => error matches ClientError::Validation(reason) && reason@
                == "Market channel unavailable; recreate client"@,
        }
    }

    /// Whether a market data subscription comes about.
    pub open spec fn takes_assets(self, asset_ids: Seq<Seq<char>>) -> bool {
        self.market is Some && !self.market->0.refuses_assets(asset_ids)
    }

    /// How many subscriptions a channel has.
    pub open spec fn count(self, kind: ChannelType) -> nat {
        match self.channel(kind) {
            Some(channel) => channel.subscriptions.active.dom().len(),
            None => 0,
        }
    }
}

impl ClientView<Unauthenticated> {
    /// A client on which nothing has happened.
    pub open spec fn fresh(endpoint: Seq<char>, config: WebSocketConfig) -> ClientView<
        Unauthenticated,
    > {
        let base_endpoint = normalized_endpoint(endpoint);
        ClientView {
            state: Unauthenticated,
            config,
            base_endpoint,
            market: Some(
                ChannelView::fresh(endpoint_of(base_endpoint, ChannelType::Market), config),
            ),
            user: None,
        }
    }

    /// The client once it acts for a user: with a user channel, and with the
    /// rest as it was.
    pub open spec fn authenticated(self, state: Authenticated) -> ClientView<Authenticated> {
        ClientView {
            state,
            config: self.config,
            base_endpoint: self.base_endpoint,
            market: self.market,
            user: match self.user {
                Some(channel) => Some(channel),
                None => Some(
                    ChannelView::fresh(
                        endpoint_of(self.base_endpoint, ChannelType::User),
                        self.config,
                    ),
                ),
            },
        }
    }
}

impl ClientView<Authenticated> {
    /// The client once it acts for nobody: without a user channel, and with the
    /// rest as it was.
    pub open spec fn deauthenticated(self) -> ClientView<Unauthenticated> {
        ClientView {
            state: Unauthenticated,
            config: self.config,
            base_endpoint: self.base_endpoint,
            market: self.market,
            user: None,
        }
    }

    /// The client after a user subscription.
    pub open spec fn after_user(self, markets: Seq<Seq<char>>, created_at: Instant) -> ClientView<
        Authenticated,
    > {
        match self.user {
            Some(channel) => ClientView {
                user: Some(channel.after_user(markets, self.state.credentials, created_at)),
                ..self
            },
            None => self,
        }
    }

    /// The error that a user subscription ends with: the client has no user
    /// channel, or the channel refuses.
    pub open spec fn is_user_error(self, markets: Seq<Seq<char>>, error: ClientError) -> bool {
        match self.user {
            Some(channel) => channel.refuses_markets(markets) && error == ClientError::WebSocket(
                WsError::ConnectionClosed,
            ),
            None => error matches ClientError::Validation(reason) && reason@
                == "User channel unavailable; authenticate first"@,
        }
    }

    /// Whether a user subscription comes about.
    pub open spec fn takes_markets(self, markets: Seq<Seq<char>>) -> bool {
        self.user is Some && !self.user->0.refuses_markets(markets)
    }
}

impl Default for WebSocketClient<Unauthenticated> {
    fn default() -> (r: Self)
        ensures
            r@ == ClientView::fresh(
                "wss://ws-subscriptions-clob.polymarket.com"@,
                WebSocketConfig::standard(),
            ),
    {
        WebSocketClient::new(
            "wss://ws-subscriptions-clob.polymarket.com",
            WebSocketConfig::default(),
        )
    }
}

impl WebSocketClient<Unauthenticated> {
    /// Create a new unauthenticated WebSocket client.
    ///
    /// The `endpoint` should be the base WebSocket URL (e.g. `wss://...polymarket.com`);
    /// channel paths (`/ws/market` or `/ws/user`) are appended automatically.
    pub fn new(endpoint: &str, config: WebSocketConfig) -> (r: Self)
        ensures
            r@ == ClientView::fresh(endpoint@, config),
    {
        let base_endpoint = normalize_base_endpoint(endpoint);
        let market = ChannelHandles::connect(
            channel_endpoint(base_endpoint.as_str(), ChannelType::Market),
            &config,
        );
        WebSocketClient {
            state: Unauthenticated,
            config,
            base_endpoint,
            market: Some(market),
            user: None,
        }
    }

    /// Authenticate this client and elevate to authenticated state.
    pub fn authenticate(self, credentials: Credentials, address: Address) -> (r: WebSocketClient<
        Authenticated,
    >)
        ensures
            r@ == self@.authenticated(Authenticated { address, credentials }),
    {
        let WebSocketClient { state: _, config, base_endpoint, market, user } = self;
        let user = match user {
            Some(handles) => Some(handles),
            None => Some(
                ChannelHandles::connect(
                    channel_endpoint(base_endpoint.as_str(), ChannelType::User),
                    &config,
                ),
            ),
        };
        WebSocketClient {
            state: Authenticated { address, credentials },
            config,
            base_endpoint,
            market,
            user,
        }
    }
}

impl<S> WebSocketClient<S> {
    /// Subscribe to market data of every kind for specific assets.
    pub fn subscribe_market(
        &mut self,
        asset_ids: Vec<String>,
        created_at: Instant,
    ) -> (r: Result<MarketSubscription, ClientError>)
        ensures
            final(self)@ == old(self)@.after_market(texts(asset_ids@), created_at),
            match r {
                Ok(subscription) => old(self)@.takes_assets(texts(asset_ids@)) && subscription@
                    == texts(asset_ids@),
                Err(error) => old(self)@.is_market_error(texts(asset_ids@), error),
            },
    {
        match &mut self.market {
            Some(handles) => match handles.subscriptions.subscribe_market(
                &mut handles.connection,
                asset_ids,
                created_at,
            ) {
                Ok(subscription) => Ok(subscription),
                Err(error) => Err(ClientError::WebSocket(error)),
            },
            None => Err(
                ClientError::Validation("Market channel unavailable; recreate client".to_owned()),
            ),
        }
    }

    /// Subscribe to orderbook updates for specific assets.
    pub fn subscribe_orderbook(
        &mut self,
        asset_ids: Vec<String>,
        created_at: Instant,
    ) -> (r: Result<OrderbookSubscription, ClientError>)
        ensures
            final(self)@ == old(self)@.after_market(texts(asset_ids@), created_at),
            match r {
                Ok(subscription) => old(self)@.takes_assets(texts(asset_ids@)) && subscription@
                    == texts(asset_ids@),
                Err(error) => old(self)@.is_market_error(texts(asset_ids@), error),
            },
    {
        match self.subscribe_market(asset_ids, created_at) {
            Ok(subscription) => Ok(OrderbookSubscription::new(subscription)),
            Err(error) => Err(error),
        }
    }

    /// Subscribe to price changes for specific assets.
    pub fn subscribe_prices(
        &mut self,
        asset_ids: Vec<String>,
        created_at: Instant,
    ) -> (r: Result<PriceSubscription, ClientError>)
        ensures
            final(self)@ == old(self)@.after_market(texts(asset_ids@), created_at),
            match r {
                Ok(subscription) => old(self)@.takes_assets(texts(asset_ids@)) && subscription@
                    == texts(asset_ids@),
                Err(error) => old(self)@.is_market_error(texts(asset_ids@), error),
            },
    {
        match self.subscribe_market(asset_ids, created_at) {
            Ok(subscription) => Ok(PriceSubscription::new(subscription)),
            Err(error) => Err(error),
        }
    }

    /// Subscribe to midpoint updates (calculated from best bid/ask).
    pub fn subscribe_midpoints(
        &mut self,
        asset_ids: Vec<String>,
        created_at: Instant,
    ) -> (r: Result<MidpointSubscription, ClientError>)
        ensures
            final(self)@ == old(self)@.after_market(texts(asset_ids@), created_at),
            match r {
                Ok(subscription) => old(self)@.takes_assets(texts(asset_ids@)) && subscription@
                    == texts(asset_ids@),
                Err(error) => old(self)@.is_market_error(texts(asset_ids@), error),
            },
    {
        match self.subscribe_orderbook(asset_ids, created_at) {
            Ok(subscription) => Ok(MidpointSubscription::new(subscription)),
            Err(error) => Err(error),
        }
    }

    /// Get the current connection state: that of the market data channel.
    pub fn connection_state(&self) -> (r: ConnectionState)
        ensures
            r == match self@.market {
                Some(channel) => channel.link.state(),
                None => ConnectionState::Disconnected,
            },
    {
        match &self.market {
            Some(handles) => handles.connection.state(),
            None => ConnectionState::Disconnected,
        }
    }

    /// The handles of a channel.
    pub fn channel(&self, kind: ChannelType) -> (r: Option<&ChannelHandles>)
        ensures
            match r {
                Some(handles) => self@.channel(kind) == Some(handles@),
                None => self@.channel(kind) is None,
            },
    {
        match kind {
            ChannelType::Market => self.market.as_ref(),
            ChannelType::User => self.user.as_ref(),
        }
    }

    /// The handles of a channel, to change what it holds.
    pub fn channel_mut(&mut self, kind: ChannelType) -> (r: Option<&mut ChannelHandles>)
        ensures
            match r {
                Some(handles) => old(self)@.channel(kind) == Some((*handles)@) && final(self)@
                    == old(self)@.with_channel(kind, (*final(handles))@),
                None => old(self)@.channel(kind) is None && final(self)@ == old(self)@,
            },
    {
        match kind {
            ChannelType::Market => match &mut self.market {
                Some(handles) => Some(handles),
                None => None,
            },
            ChannelType::User => match &mut self.user {
                Some(handles) => Some(handles),
                None => None,
            },
        }
    }

    /// How many subscriptions a channel has.
    fn count(&self, kind: ChannelType) -> (r: usize)
        ensures
            r == self@.count(kind),
    {
        match self.channel(kind) {
            Some(handles) => handles.subscriptions.subscription_count(),
            None => 0,
        }
    }

    /// Get the number of active subscriptions, over all channels.
    pub fn subscription_count(&self) -> (r: usize)
        requires
            self@.count(ChannelType::Market) + self@.count(ChannelType::User) <= usize::MAX,
        ensures
            r == self@.count(ChannelType::Market) + self@.count(ChannelType::User),
    {
        self.count(ChannelType::Market) + self.count(ChannelType::User)
    }

    /// Get the number of active subscriptions, over all channels; `None` where
    /// it does not fit its type.
    pub fn checked_subscription_count(&self) -> (r: Option<usize>)
        ensures
            match r {
                Some(count) => count == self@.count(ChannelType::Market) + self@.count(
                    ChannelType::User,
                ),
                None => self@.count(ChannelType::Market) + self@.count(ChannelType::User)
                    > usize::MAX,
            },
    {
        if self.count(ChannelType::Market) <= usize::MAX - self.count(ChannelType::User) {
            Some(self.subscription_count())
        } else {
            None
        }
    }
}

impl WebSocketClient<Authenticated> {
    /// Subscribe to raw user channel events (orders and trades).
    pub fn subscribe_user_events(
        &mut self,
        markets: Vec<String>,
        created_at: Instant,
    ) -> (r: Result<UserSubscription, ClientError>)
        ensures
            final(self)@ == old(self)@.after_user(texts(markets@), created_at),
            match r {
                Ok(_) => old(self)@.takes_markets(texts(markets@)),
                Err(error) => old(self)@.is_user_error(texts(markets@), error),
            },
    {
        let auth = self.state.credentials.clone();
        match &mut self.user {
            Some(handles) => match handles.subscriptions.subscribe_user(
                &mut handles.connection,
                markets,
                auth,
                created_at,
            ) {
                Ok(subscription) => Ok(subscription),
                Err(error) => Err(ClientError::WebSocket(error)),
            },
            None => Err(
                ClientError::Validation("User channel unavailable; authenticate first".to_owned()),
            ),
        }
    }

    /// Subscribe to user's order updates.
    pub fn subscribe_orders(
        &mut self,
        markets: Vec<String>,
        created_at: Instant,
    ) -> (r: Result<OrderSubscription, ClientError>)
        ensures
            final(self)@ == old(self)@.after_user(texts(markets@), created_at),
            match r {
                Ok(_) => old(self)@.takes_markets(texts(markets@)),
                Err(error) => old(self)@.is_user_error(texts(markets@), error),
            },
    {
        match self.subscribe_user_events(markets, created_at) {
            Ok(subscription) => Ok(OrderSubscription::new(subscription)),
            Err(error) => Err(error),
        }
    }

    /// Subscribe to user's trade executions.
    pub fn subscribe_trades(
        &mut self,
        markets: Vec<String>,
        created_at: Instant,
    ) -> (r: Result<TradeSubscription, ClientError>)
        ensures
            final(self)@ == old(self)@.after_user(texts(markets@), created_at),
            match r {
                Ok(_) => old(self)@.takes_markets(texts(markets@)),
                Err(error) => old(self)@.is_user_error(texts(markets@), error),
            },
    {
        match self.subscribe_user_events(markets, created_at) {
            Ok(subscription) => Ok(TradeSubscription::new(subscription)),
            Err(error) => Err(error),
        }
    }

    /// Deauthenticate and return to unauthenticated state.
    pub fn deauthenticate(self) -> (r: WebSocketClient<Unauthenticated>)
        ensures
            r@ == self@.deauthenticated(),
    {
        let WebSocketClient { state: _, config, base_endpoint, market, user: _ } = self;
        WebSocketClient { state: Unauthenticated, config, base_endpoint, market, user: None }
    }

    /// Who the client acts for.
    pub fn state(&self) -> (r: &Authenticated)
        ensures
            *r == self@.state,
    {
        &self.state
    }
}

/// A text that does not end with a slash keeps its end.
proof fn lemma_no_trailing_slash(text: Seq<char>)
    requires
        text.len() > 0,
        text.last() != '/',
    ensures
        without_trailing_slashes(text) == text,
{
}

/// The base endpoint is found again in the endpoint of each of its channels.
pub proof fn law_channel_endpoint_has_its_base(base: Seq<char>, channel: ChannelType)
    ensures
        normalized_endpoint(endpoint_of(base, channel)) == without_trailing_slashes(base),
{
    let trimmed = without_trailing_slashes(base);
    let endpoint = endpoint_of(base, channel);
    reveal_strlit("/ws/");
    reveal_strlit("market");
    reveal_strlit("user");
    reveal_strlit("/ws/market");
    reveal_strlit("/ws/user");
    reveal_strlit("/ws");
    lemma_no_trailing_slash(endpoint);
    match channel {
        ChannelType::Market => {
            assert(endpoint.skip(endpoint.len() - 10) =~= "/ws/market"@);
        },
        ChannelType::User => {
            assert(endpoint.last() == 'r');
            assert("/ws/market"@.last() == 't');
            assert(endpoint.skip(endpoint.len() - 10).last() == 'r' || endpoint.len() < 10);
            assert(endpoint.skip(endpoint.len() - 8) =~= "/ws/user"@);
        },
    }
    assert(normalized_endpoint(endpoint) =~= trimmed);
}

/// Each form in which a base endpoint may be given stands for it: as it is,
/// with `/ws`, or with the path of a channel; slashes at the end do not count.
/// The base endpoint itself must not end with one of these paths.
pub proof fn law_endpoint_forms(base: Seq<char>, channel: ChannelType)
    requires
        without_trailing_slashes(base) == base,
        !has_suffix(base, "/ws"@),
        !has_suffix(base, "/ws/market"@),
        !has_suffix(base, "/ws/user"@),
    ensures
        normalized_endpoint(base) == base,
        normalized_endpoint(base + "/ws"@) == base,
        normalized_endpoint(endpoint_of(base, channel)) == base,
{
    law_channel_endpoint_has_its_base(base, channel);
    let endpoint = base + "/ws"@;
    reveal_strlit("/ws/market");
    reveal_strlit("/ws/user");
    reveal_strlit("/ws");
    lemma_no_trailing_slash(endpoint);
    assert(endpoint.last() == 's');
    assert("/ws/market"@.last() == 't');
    assert("/ws/user"@.last() == 'r');
    assert(endpoint.skip(endpoint.len() - 10).last() == 's' || endpoint.len() < 10);
    assert(endpoint.skip(endpoint.len() - 8).last() == 's' || endpoint.len() < 8);
    assert(endpoint.skip(endpoint.len() - 3) =~= "/ws"@);
    assert(normalized_endpoint(endpoint) =~= base);
}

/// A slash at the end of an endpoint changes nothing.
pub proof fn law_trailing_slash_changes_nothing(endpoint: Seq<char>, channel: ChannelType)
    ensures
        normalized_endpoint(endpoint.push('/')) == normalized_endpoint(endpoint),
        endpoint_of(endpoint.push('/'), channel) == endpoint_of(endpoint, channel),
{
    assert(endpoint.push('/').drop_last() =~= endpoint);
}

/// The two channels of a client are told apart by their endpoints.
pub proof fn law_channels_have_their_own_endpoints(base: Seq<char>)
    ensures
        endpoint_of(base, ChannelType::Market) != endpoint_of(base, ChannelType::User),
{
    reveal_strlit("market");
    reveal_strlit("user");
    assert(endpoint_of(base, ChannelType::Market).last() == 't');
    assert(endpoint_of(base, ChannelType::User).last() == 'r');
}

/// To authenticate a client and to deauthenticate it again leaves it as it was,
/// its market data subscriptions included.
pub proof fn law_deauthenticating_undoes_authenticating(
    client: ClientView<Unauthenticated>,
    state: Authenticated,
)
    requires
        client.user is None,
    ensures
        client.authenticated(state).deauthenticated() == client,
{
}

/// No client that acts for nobody has a user channel: a new one has none, and
/// neither market data subscriptions nor deauthenticating bring one about.
pub proof fn law_user_channel_only_when_authenticated(
    endpoint: Seq<char>,
    config: WebSocketConfig,
    client: ClientView<Unauthenticated>,
    user: ClientView<Authenticated>,
    asset_ids: Seq<Seq<char>>,
    created_at: Instant,
)
    requires
        client.user is None,
    ensures
        ClientView::fresh(endpoint, config).user is None,
        client.after_market(asset_ids, created_at).user is None,
        user.deauthenticated().user is None,
{
}

/// A subscription touches its own channel only.
pub proof fn law_channels_are_independent(
    client: ClientView<Authenticated>,
    ids: Seq<Seq<char>>,
    created_at: Instant,
)
    ensures
        client.after_market(ids, created_at).user == client.user,
        client.after_user(ids, created_at).market == client.market,
        client.after_market(ids, created_at).state == client.state,
        client.after_user(ids, created_at).state == client.state,
{
}

/// A market data subscription that comes about is counted, once for each list
/// of assets; one that is refused is not.
pub proof fn law_subscriptions_are_counted<S>(
    client: ClientView<S>,
    asset_ids: Seq<Seq<char>>,
    created_at: Instant,
)
    requires
        client.market is Some,
        client.market->0.subscriptions.active.dom().finite(),
    ensures
        client.after_market(asset_ids, created_at).count(ChannelType::User) == client.count(
            ChannelType::User,
        ),
        client.after_market(asset_ids, created_at).count(ChannelType::Market) == client.count(
            ChannelType::Market,
        ) + if client.takes_assets(asset_ids)
            && !client.market->0.subscriptions.active.dom().contains(market_id(asset_ids)) {
            1int
        } else {
            0int
        },
{
    law_subscription_count(
        client.market->0.subscriptions.with_assets(asset_ids),
        market_id(asset_ids),
        SubscriptionInfoView { channel: ChannelType::Market, asset_ids, created_at },
    );
}

} // verus!
