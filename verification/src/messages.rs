//! What the server and the client say to each other.

use vstd::prelude::*;
use vstd::string::*;

use crate::auth::{Credentials, CredentialsView};
use crate::decimal::{decimal_opt, Decimal};
use crate::json::{quoted, write_string};
use crate::text::{text_opt, texts};

verus! {

/// Authentication payload for user channel subscriptions.
pub type AuthPayload = Credentials;

/// Side of an order or a trade.
#[derive(Debug, Clone, Copy, PartialEq, Eq, Structural)]
pub enum Side {
    /// Buying
    Buy,
    /// Selling
    Sell,
}

/// Part that a user had in a trade.
#[derive(Debug, Clone, Copy, PartialEq, Eq, Structural)]
pub enum TraderSide {
    /// The user's order took liquidity
    Taker,
    /// The user's order provided liquidity
    Maker,
}

/// Top-level WebSocket message wrapper.
#[derive(Debug, Clone)]
pub enum WsMessage {
    /// User trade execution (authenticated channel)
    Trade(TradeMessage),
    /// User order update (authenticated channel)
    Order(OrderMessage),
    /// Price change notification
    PriceChange(PriceChange),
    /// Tick size change notification
    TickSizeChange(TickSizeChange),
    /// Last trade price update
    LastTradePrice(LastTradePrice),
    /// Full or incremental orderbook update
    Book(BookUpdate),
}

/// What a [`WsMessage`] says.
#[verifier::ext_equal]
pub enum WsMessageView {
    Trade(TradeView),
    Order(OrderView),
    PriceChange(PriceChangeView),
    TickSizeChange(TickSizeView),
    LastTradePrice(LastTradeView),
    Book(BookView),
}

impl View for WsMessage {
    type V = WsMessageView;

    open spec fn view(&self) -> WsMessageView {
        match *self {
            WsMessage::Trade(m) => WsMessageView::Trade(m@),
            WsMessage::Order(m) => WsMessageView::Order(m@),
            WsMessage::PriceChange(m) => WsMessageView::PriceChange(m@),
            WsMessage::TickSizeChange(m) => WsMessageView::TickSizeChange(m@),
            WsMessage::LastTradePrice(m) => WsMessageView::LastTradePrice(m@),
            WsMessage::Book(m) => WsMessageView::Book(m@),
        }
    }
}

impl WsMessageView {
    /// Whether the message is about a user's own orders and trades.
    pub open spec fn is_user(self) -> bool {
        self is Trade || self is Order
    }

    /// The asset that a market data message is about; `None` for a message
    /// about a user's own orders and trades.
    pub open spec fn market_asset(self) -> Option<Seq<char>> {
        match self {
            WsMessageView::Trade(_) => None,
            WsMessageView::Order(_) => None,
            WsMessageView::PriceChange(m) => Some(m.asset_id),
            WsMessageView::TickSizeChange(m) => Some(m.asset_id),
            WsMessageView::LastTradePrice(m) => Some(m.asset_id),
            WsMessageView::Book(m) => Some(m.asset_id),
        }
    }
}

impl WsMessage {
    /// Check if the message is a user-specific message.
    pub fn is_user(&self) -> (r: bool)
        ensures
            r == self@.is_user(),
    {
        match self {
            WsMessage::Trade(_) => true,
            WsMessage::Order(_) => true,
            _ => false,
        }
    }

    /// Check if the message is a market data message.
    pub fn is_market(&self) -> (r: bool)
        ensures
            r == !self@.is_user(),
            r == (self@.market_asset() is Some),
    {
        !self.is_user()
    }

    /// The asset that a market data message is about.
    pub fn market_asset(&self) -> (r: Option<&String>)
        ensures
            match r {
                Some(asset_id) => self@.market_asset() == Some(asset_id@),
                None => self@.market_asset() is None,
            },
    {
        match self {
            WsMessage::Trade(_) => None,
            WsMessage::Order(_) => None,
            WsMessage::PriceChange(m) => Some(&m.asset_id),
            WsMessage::TickSizeChange(m) => Some(&m.asset_id),
            WsMessage::LastTradePrice(m) => Some(&m.asset_id),
            WsMessage::Book(m) => Some(&m.asset_id),
        }
    }
}

/// What each of a sequence of messages says.
pub open spec fn message_views(messages: Seq<WsMessage>) -> Seq<WsMessageView> {
    messages.map_values(|message: WsMessage| message@)
}

/// Orderbook update message (full snapshot or delta).
#[derive(Debug, Clone)]
pub struct BookUpdate {
    /// Asset/token identifier
    pub asset_id: String,
    /// Market identifier
    pub market: String,
    /// Unix timestamp in milliseconds
    pub timestamp: i64,
    /// Current bid levels (price descending)
    pub bids: Vec<OrderBookLevel>,
    /// Current ask levels (price ascending)
    pub asks: Vec<OrderBookLevel>,
    /// Hash for orderbook validation
    pub hash: Option<String>,
}

/// What a [`BookUpdate`] says.
#[verifier::ext_equal]
pub struct BookView {
    pub asset_id: Seq<char>,
    pub market: Seq<char>,
    pub timestamp: i64,
    pub bids: Seq<LevelView>,
    pub asks: Seq<LevelView>,
    pub hash: Option<Seq<char>>,
}

impl View for BookUpdate {
    type V = BookView;

    open spec fn view(&self) -> BookView {
        BookView {
            asset_id: self.asset_id@,
            market: self.market@,
            timestamp: self.timestamp,
            bids: level_views(self.bids@),
            asks: level_views(self.asks@),
            hash: text_opt(self.hash),
        }
    }
}

/// Individual price level in an orderbook.
#[derive(Debug, Clone)]
pub struct OrderBookLevel {
    /// Price at this level
    pub price: Decimal,
    /// Total size available at this price
    pub size: Decimal,
}

/// What an [`OrderBookLevel`] says: price and size, each as a mantissa and a
/// scale.
pub struct LevelView {
    pub price: (int, nat),
    pub size: (int, nat),
}

impl View for OrderBookLevel {
    type V = LevelView;

    open spec fn view(&self) -> LevelView {
        LevelView { price: self.price@, size: self.size@ }
    }
}

/// What each of a sequence of levels says.
pub open spec fn level_views(levels: Seq<OrderBookLevel>) -> Seq<LevelView> {
    levels.map_values(|level: OrderBookLevel| level@)
}

/// Price change event triggered by new orders or cancellations.
#[derive(Debug, Clone)]
pub struct PriceChange {
    /// Asset/token identifier
    pub asset_id: String,
    /// Market identifier
    pub market: String,
    /// New price
    pub price: Decimal,
    /// Total size affected by this price change (if provided)
    pub size: Option<Decimal>,
    /// Side of the price change (BUY or SELL)
    pub side: Side,
    /// Unix timestamp in milliseconds
    pub timestamp: i64,
    /// Hash for validation (if present)
    pub hash: Option<String>,
    /// Best bid price after this change
    pub best_bid: Option<Decimal>,
    /// Best ask price after this change
    pub best_ask: Option<Decimal>,
}

/// What a [`PriceChange`] says.
#[verifier::ext_equal]
pub struct PriceChangeView {
    pub asset_id: Seq<char>,
    pub market: Seq<char>,
    pub price: (int, nat),
    pub size: Option<(int, nat)>,
    pub side: Side,
    pub timestamp: i64,
    pub hash: Option<Seq<char>>,
    pub best_bid: Option<(int, nat)>,
    pub best_ask: Option<(int, nat)>,
}

impl View for PriceChange {
    type V = PriceChangeView;

    open spec fn view(&self) -> PriceChangeView {
        PriceChangeView {
            asset_id: self.asset_id@,
            market: self.market@,
            price: self.price@,
            size: decimal_opt(self.size),
            side: self.side,
            timestamp: self.timestamp,
            hash: text_opt(self.hash),
            best_bid: decimal_opt(self.best_bid),
            best_ask: decimal_opt(self.best_ask),
        }
    }
}

/// Raw batch payload sent for price change events.
#[derive(Debug, Clone)]
pub struct PriceChangeBatch {
    /// Market identifier shared across batch entries
    pub market: String,
    /// Unix timestamp in milliseconds
    pub timestamp: i64,
    /// Individual price change entries
    pub price_changes: Vec<PriceChangeBatchEntry>,
}

/// What a [`PriceChangeBatch`] says.
#[verifier::ext_equal]
pub struct BatchView {
    pub market: Seq<char>,
    pub timestamp: i64,
    pub price_changes: Seq<BatchEntryView>,
}

impl View for PriceChangeBatch {
    type V = BatchView;

    open spec fn view(&self) -> BatchView {
        BatchView {
            market: self.market@,
            timestamp: self.timestamp,
            price_changes: entry_views(self.price_changes@),
        }
    }
}

/// Individual entry inside a price change batch.
#[derive(Debug, Clone)]
pub struct PriceChangeBatchEntry {
    /// Asset/token identifier
    pub asset_id: String,
    /// New price
    pub price: Decimal,
    /// Total size affected at this price level
    pub size: Option<Decimal>,
    /// Side of the book that changed (BUY or SELL)
    pub side: Side,
    /// Hash for this entry (if present)
    pub hash: Option<String>,
    /// Best bid price after the change
    pub best_bid: Option<Decimal>,
    /// Best ask price after the change
    pub best_ask: Option<Decimal>,
}

/// What a [`PriceChangeBatchEntry`] says.
#[verifier::ext_equal]
pub struct BatchEntryView {
    pub asset_id: Seq<char>,
    pub price: (int, nat),
    pub size: Option<(int, nat)>,
    pub side: Side,
    pub hash: Option<Seq<char>>,
    pub best_bid: Option<(int, nat)>,
    pub best_ask: Option<(int, nat)>,
}

impl View for PriceChangeBatchEntry {
    type V = BatchEntryView;

    open spec fn view(&self) -> BatchEntryView {
        BatchEntryView {
            asset_id: self.asset_id@,
            price: self.price@,
            size: decimal_opt(self.size),
            side: self.side,
            hash: text_opt(self.hash),
            best_bid: decimal_opt(self.best_bid),
            best_ask: decimal_opt(self.best_ask),
        }
    }
}

/// What each of a sequence of batch entries says.
pub open spec fn entry_views(entries: Seq<PriceChangeBatchEntry>) -> Seq<BatchEntryView> {
    entries.map_values(|entry: PriceChangeBatchEntry| entry@)
}

/// The price change that an entry of a batch stands for: the entry's own
/// fields, with the market and the timestamp of the batch.
pub open spec fn entry_change(batch: BatchView, entry: BatchEntryView) -> PriceChangeView {
    PriceChangeView {
        asset_id: entry.asset_id,
        market: batch.market,
        price: entry.price,
        size: entry.size,
        side: entry.side,
        timestamp: batch.timestamp,
        hash: entry.hash,
        best_bid: entry.best_bid,
        best_ask: entry.best_ask,
    }
}

/// The price changes of a batch, one for each entry, in the order of the entries.
pub open spec fn batch_changes(batch: BatchView) -> Seq<PriceChangeView> {
    batch.price_changes.map_values(|entry: BatchEntryView| entry_change(batch, entry))
}

/// What each of a sequence of price changes says.
pub open spec fn change_views(changes: Seq<PriceChange>) -> Seq<PriceChangeView> {
    changes.map_values(|change: PriceChange| change@)
}

impl PriceChangeBatch {
    /// The price changes of the batch.
    pub fn into_price_changes(self) -> (r: Vec<PriceChange>)
        ensures
            change_views(r@) == batch_changes(self@),
    {
        let PriceChangeBatch { market, timestamp, price_changes } = self;
        let ghost batch = self@;
        let ghost entries = price_changes@;
        let mut changes: Vec<PriceChange> = Vec::new();
        for entry in it: price_changes
            invariant
                it.seq() == entries,
                batch.market == market@,
                batch.timestamp == timestamp,
                batch.price_changes == entry_views(entries),
                changes.len() == it.index(),
                change_views(changes@) == batch_changes(batch).take(it.index() as int),
        {
            let ghost done = changes@;
            let ghost n: int = done.len() as int;
            assert(entry == entries[n]);
            let change = PriceChange {
                asset_id: entry.asset_id,
                market: market.clone(),
                price: entry.price,
                size: entry.size,
                side: entry.side,
                timestamp,
                hash: entry.hash,
                best_bid: entry.best_bid,
                best_ask: entry.best_ask,
            };
            assert(change@ == batch_changes(batch)[n]);
            changes.push(change);
            assert(change_views(changes@) =~= change_views(done).push(change@));
            assert(batch_changes(batch).take(n + 1) =~= batch_changes(batch).take(n).push(change@));
        }
        assert(batch_changes(batch).take(changes.len() as int) =~= batch_changes(batch));
        changes
    }
}

/// Tick size change event (triggered when price crosses thresholds).
#[derive(Debug, Clone)]
pub struct TickSizeChange {
    /// Asset/token identifier
    pub asset_id: String,
    /// Market identifier
    pub market: String,
    /// Previous tick size
    pub old_tick_size: Decimal,
    /// New tick size
    pub new_tick_size: Decimal,
    /// Unix timestamp in milliseconds
    pub timestamp: i64,
}

/// What a [`TickSizeChange`] says.
#[verifier::ext_equal]
pub struct TickSizeView {
    pub asset_id: Seq<char>,
    pub market: Seq<char>,
    pub old_tick_size: (int, nat),
    pub new_tick_size: (int, nat),
    pub timestamp: i64,
}

impl View for TickSizeChange {
    type V = TickSizeView;

    open spec fn view(&self) -> TickSizeView {
        TickSizeView {
            asset_id: self.asset_id@,
            market: self.market@,
            old_tick_size: self.old_tick_size@,
            new_tick_size: self.new_tick_size@,
            timestamp: self.timestamp,
        }
    }
}

/// Last trade price update.
#[derive(Debug, Clone)]
pub struct LastTradePrice {
    /// Asset/token identifier
    pub asset_id: String,
    /// Market identifier
    pub market: String,
    /// Last trade price
    pub price: Decimal,
    /// Side of the last trade
    pub side: Option<Side>,
    /// Unix timestamp in milliseconds
    pub timestamp: i64,
}

/// What a [`LastTradePrice`] says.
#[verifier::ext_equal]
pub struct LastTradeView {
    pub asset_id: Seq<char>,
    pub market: Seq<char>,
    pub price: (int, nat),
    pub side: Option<Side>,
    pub timestamp: i64,
}

impl View for LastTradePrice {
    type V = LastTradeView;

    open spec fn view(&self) -> LastTradeView {
        LastTradeView {
            asset_id: self.asset_id@,
            market: self.market@,
            price: self.price@,
            side: self.side,
            timestamp: self.timestamp,
        }
    }
}

/// Maker order details within a trade message.
#[derive(Debug, Clone)]
pub struct MakerOrder {
    /// Asset/token identifier of the maker order
    pub asset_id: String,
    /// Amount of maker order matched in trade
    pub matched_amount: String,
    /// Maker order ID
    pub order_id: String,
    /// Outcome (Yes/No)
    pub outcome: String,
    /// Owner (API key) of maker order
    pub owner: String,
    /// Price of maker order
    pub price: String,
}

/// What a [`MakerOrder`] says.
#[verifier::ext_equal]
pub struct MakerView {
    pub asset_id: Seq<char>,
    pub matched_amount: Seq<char>,
    pub order_id: Seq<char>,
    pub outcome: Seq<char>,
    pub owner: Seq<char>,
    pub price: Seq<char>,
}

impl View for MakerOrder {
    type V = MakerView;

    open spec fn view(&self) -> MakerView {
        MakerView {
            asset_id: self.asset_id@,
            matched_amount: self.matched_amount@,
            order_id: self.order_id@,
            outcome: self.outcome@,
            owner: self.owner@,
            price: self.price@,
        }
    }
}

/// What each of a sequence of maker orders says.
pub open spec fn maker_views(orders: Seq<MakerOrder>) -> Seq<MakerView> {
    orders.map_values(|order: MakerOrder| order@)
}

/// User trade execution message (authenticated channel only).
#[derive(Debug, Clone)]
pub struct TradeMessage {
    /// Trade identifier
    pub id: String,
    /// Market identifier (condition ID)
    pub market: String,
    /// Asset/token identifier
    pub asset_id: String,
    /// Side of the trade (BUY or SELL)
    pub side: Side,
    /// Size of the trade
    pub size: String,
    /// Execution price
    pub price: String,
    /// Trade status (MATCHED, MINED, CONFIRMED, etc.)
    pub status: String,
    /// Event type (always "trade")
    pub event_type: Option<String>,
    /// Message type (always "TRADE")
    pub msg_type: Option<String>,
    /// Timestamp of last trade modification
    pub last_update: Option<String>,
    /// Time trade was matched
    pub matchtime: Option<String>,
    /// Unix timestamp of event
    pub timestamp: Option<String>,
    /// Outcome (Yes/No)
    pub outcome: Option<String>,
    /// API key of event owner
    pub owner: Option<String>,
    /// API key of trade owner
    pub trade_owner: Option<String>,
    /// ID of taker order
    pub taker_order_id: Option<String>,
    /// Array of maker order details
    pub maker_orders: Vec<MakerOrder>,
    /// Fee rate in basis points (string in API response)
    pub fee_rate_bps: Option<String>,
    /// Transaction hash
    pub transaction_hash: Option<String>,
    /// Whether user was maker or taker
    pub trader_side: Option<TraderSide>,
}

/// What a [`TradeMessage`] says.
#[verifier::ext_equal]
pub struct TradeView {
    pub id: Seq<char>,
    pub market: Seq<char>,
    pub asset_id: Seq<char>,
    pub side: Side,
    pub size: Seq<char>,
    pub price: Seq<char>,
    pub status: Seq<char>,
    pub event_type: Option<Seq<char>>,
    pub msg_type: Option<Seq<char>>,
    pub last_update: Option<Seq<char>>,
    pub matchtime: Option<Seq<char>>,
    pub timestamp: Option<Seq<char>>,
    pub outcome: Option<Seq<char>>,
    pub owner: Option<Seq<char>>,
    pub trade_owner: Option<Seq<char>>,
    pub taker_order_id: Option<Seq<char>>,
    pub maker_orders: Seq<MakerView>,
    pub fee_rate_bps: Option<Seq<char>>,
    pub transaction_hash: Option<Seq<char>>,
    pub trader_side: Option<TraderSide>,
}

impl View for TradeMessage {
    type V = TradeView;

    open spec fn view(&self) -> TradeView {
        TradeView {
            id: self.id@,
            market: self.market@,
            asset_id: self.asset_id@,
            side: self.side,
            size: self.size@,
            price: self.price@,
            status: self.status@,
            event_type: text_opt(self.event_type),
            msg_type: text_opt(self.msg_type),
            last_update: text_opt(self.last_update),
            matchtime: text_opt(self.matchtime),
            timestamp: text_opt(self.timestamp),
            outcome: text_opt(self.outcome),
            owner: text_opt(self.owner),
            trade_owner: text_opt(self.trade_owner),
            taker_order_id: text_opt(self.taker_order_id),
            maker_orders: maker_views(self.maker_orders@),
            fee_rate_bps: text_opt(self.fee_rate_bps),
            transaction_hash: text_opt(self.transaction_hash),
            trader_side: self.trader_side,
        }
    }
}

/// User order update message (authenticated channel only).
#[derive(Debug, Clone)]
pub struct OrderMessage {
    /// Order identifier
    pub id: String,
    /// Market identifier (condition ID)
    pub market: String,
    /// Asset/token identifier
    pub asset_id: String,
    /// Side of the order (BUY or SELL)
    pub side: Side,
    /// Order price
    pub price: String,
    /// Event type (always "order")
    pub event_type: Option<String>,
    /// Message type (PLACEMENT, UPDATE, or CANCELLATION)
    pub msg_type: Option<String>,
    /// Outcome (Yes/No)
    pub outcome: Option<String>,
    /// Owner (API key)
    pub owner: Option<String>,
    /// Order owner (API key of order originator)
    pub order_owner: Option<String>,
    /// Original order size
    pub original_size: Option<String>,
    /// Amount matched so far
    pub size_matched: Option<String>,
    /// Unix timestamp of event
    pub timestamp: Option<String>,
    /// Associated trade IDs
    pub associate_trades: Option<Vec<String>>,
}

/// What an [`OrderMessage`] says.
#[verifier::ext_equal]
pub struct OrderView {
    pub id: Seq<char>,
    pub market: Seq<char>,
    pub asset_id: Seq<char>,
    pub side: Side,
    pub price: Seq<char>,
    pub event_type: Option<Seq<char>>,
    pub msg_type: Option<Seq<char>>,
    pub outcome: Option<Seq<char>>,
    pub owner: Option<Seq<char>>,
    pub order_owner: Option<Seq<char>>,
    pub original_size: Option<Seq<char>>,
    pub size_matched: Option<Seq<char>>,
    pub timestamp: Option<Seq<char>>,
    pub associate_trades: Option<Seq<Seq<char>>>,
}

/// The character sequences of a list of strings that may be absent.
pub open spec fn texts_opt(items: Option<Vec<String>>) -> Option<Seq<Seq<char>>> {
    match items {
        Some(list) => Some(texts(list@)),
        None => None,
    }
}

impl View for OrderMessage {
    type V = OrderView;

    open spec fn view(&self) -> OrderView {
        OrderView {
            id: self.id@,
            market: self.market@,
            asset_id: self.asset_id@,
            side: self.side,
            price: self.price@,
            event_type: text_opt(self.event_type),
            msg_type: text_opt(self.msg_type),
            outcome: text_opt(self.outcome),
            owner: text_opt(self.owner),
            order_owner: text_opt(self.order_owner),
            original_size: text_opt(self.original_size),
            size_matched: text_opt(self.size_matched),
            timestamp: text_opt(self.timestamp),
            associate_trades: texts_opt(self.associate_trades),
        }
    }
}

/// Order status for WebSocket order messages.
#[derive(Debug, Clone, Copy, PartialEq, Eq, Structural)]
pub enum OrderStatus {
    /// Order is open and active
    Open,
    /// Order has been matched with a counterparty
    Matched,
    /// Order has been partially filled
    PartiallyFilled,
    /// Order has been cancelled
    Cancelled,
    /// Order has been placed (initial status)
    Placement,
    /// Order update (partial match)
    Update,
    /// Order cancellation in progress
    Cancellation,
}

/// Calculated midpoint update (derived from orderbook).
#[derive(Debug, Clone)]
pub struct MidpointUpdate {
    /// Asset/token identifier
    pub asset_id: String,
    /// Market identifier
    pub market: String,
    /// Calculated midpoint price
    pub midpoint: Decimal,
    /// Unix timestamp in milliseconds
    pub timestamp: i64,
}

/// What a [`MidpointUpdate`] says.
#[verifier::ext_equal]
pub struct MidpointView {
    pub asset_id: Seq<char>,
    pub market: Seq<char>,
    pub midpoint: (int, nat),
    pub timestamp: i64,
}

impl View for MidpointUpdate {
    type V = MidpointView;

    open spec fn view(&self) -> MidpointView {
        MidpointView {
            asset_id: self.asset_id@,
            market: self.market@,
            midpoint: self.midpoint@,
            timestamp: self.timestamp,
        }
    }
}

/// Subscription request message sent to the WebSocket server.
#[derive(Debug, Clone)]
pub struct SubscriptionRequest {
    /// Subscription type ("market" or "user")
    pub kind: String,
    /// List of market IDs
    pub markets: Vec<String>,
    /// List of asset IDs
    pub assets_ids: Vec<String>,
    /// Request initial state dump
    pub initial_dump: Option<bool>,
    /// Authentication credentials
    pub auth: Option<AuthPayload>,
}

/// What a [`SubscriptionRequest`] says.
#[verifier::ext_equal]
pub struct RequestView {
    pub kind: Seq<char>,
    pub markets: Seq<Seq<char>>,
    pub assets_ids: Seq<Seq<char>>,
    pub initial_dump: Option<bool>,
    pub auth: Option<CredentialsView>,
}

impl View for SubscriptionRequest {
    type V = RequestView;

    open spec fn view(&self) -> RequestView {
        RequestView {
            kind: self.kind@,
            markets: texts(self.markets@),
            assets_ids: texts(self.assets_ids@),
            initial_dump: self.initial_dump,
            auth: match self.auth {
                Some(auth) => Some(auth@),
                None => None,
            },
        }
    }
}

/// The request for market data about `assets_ids`.
pub open spec fn market_request(assets_ids: Seq<Seq<char>>) -> RequestView {
    RequestView {
        kind: "market"@,
        markets: Seq::empty(),
        assets_ids,
        initial_dump: Some(true),
        auth: None,
    }
}

/// The request for the events of a user in `markets`.
pub open spec fn user_request(markets: Seq<Seq<char>>, auth: CredentialsView) -> RequestView {
    RequestView {
        kind: "user"@,
        markets,
        assets_ids: Seq::empty(),
        initial_dump: Some(true),
        auth: Some(auth),
    }
}

/// JSON strings, one after the other, with commas between neighbours.
pub open spec fn json_strings(items: Seq<Seq<char>>) -> Seq<char>
    decreases items.len(),
{
    if items.len() == 0 {
        Seq::empty()
    } else if items.len() == 1 {
        quoted(items[0])
    } else {
        json_strings(items.drop_last()) + ","@ + quoted(items.last())
    }
}

/// Credentials as a JSON object.
pub open spec fn credentials_json(auth: CredentialsView) -> Seq<char> {
    "{\"apiKey\":"@ + quoted(auth.key) + ",\"secret\":"@ + quoted(auth.secret) + ",\"passphrase\":"@
        + quoted(auth.passphrase) + "}"@
}

/// A request as the JSON object that is sent: its members in the order of the
/// fields, those that are absent left out.
pub open spec fn request_json(request: RequestView) -> Seq<char> {
    let dump = match request.initial_dump {
        Some(true) => ",\"initial_dump\":true"@,
        Some(false) => ",\"initial_dump\":false"@,
        None => Seq::empty(),
    };
    let auth = match request.auth {
        Some(auth) => ",\"auth\":"@ + credentials_json(auth),
        None => Seq::empty(),
    };
    "{\"type\":"@ + quoted(request.kind) + ",\"markets\":["@ + json_strings(request.markets)
        + "],\"assets_ids\":["@ + json_strings(request.assets_ids) + "]"@ + dump + auth + "}"@
}

/// Appends `text` to `out` as a JSON string.
fn append_string(out: &mut String, text: &str)
    ensures
        final(out)@ == old(out)@ + quoted(text@),
{
    let literal = write_string(text);
    match literal {
        Ok(literal) => out.append(literal.as_str()),
        Err(_) => {},
    }
}

/// Appends `items` to `out` as JSON strings with commas between neighbours.
fn append_strings(out: &mut String, items: &Vec<String>)
    ensures
        final(out)@ == old(out)@ + json_strings(texts(items@)),
{
    let ghost start = out@;
    let mut i: usize = 0;
    assert(start + json_strings(texts(items@).take(0)) =~= start);
    while i < items.len()
        invariant
            i <= items.len(),
            out@ == start + json_strings(texts(items@).take(i as int)),
        decreases items.len() - i,
    {
        let ghost before = texts(items@).take(i as int);
        let ghost after = texts(items@).take(i + 1);
        assert(after.drop_last() =~= before);
        assert(after.last() == items@[i as int]@);
        if i > 0 {
            out.append(",");
        }
        append_string(out, items[i].as_str());
        assert(out@ =~= start + json_strings(after));
        i = i + 1;
    }
    assert(texts(items@).take(i as int) =~= texts(items@));
}

impl SubscriptionRequest {
    /// Create a market subscription request.
    pub fn market(assets_ids: Vec<String>) -> (r: Self)
        ensures
            r@ == market_request(texts(assets_ids@)),
    {
        let markets: Vec<String> = Vec::new();
        assert(texts(markets@) =~= Seq::empty());
        SubscriptionRequest {
            kind: "market".to_owned(),
            markets,
            assets_ids,
            initial_dump: Some(true),
            auth: None,
        }
    }

    /// Create a user subscription request.
    pub fn user(markets: Vec<String>, auth: AuthPayload) -> (r: Self)
        ensures
            r@ == user_request(texts(markets@), auth@),
    {
        let assets_ids: Vec<String> = Vec::new();
        assert(texts(assets_ids@) =~= Seq::empty());
        SubscriptionRequest {
            kind: "user".to_owned(),
            markets,
            assets_ids,
            initial_dump: Some(true),
            auth: Some(auth),
        }
    }

    /// The JSON text that is sent for the request.
    pub fn to_json(&self) -> (r: String)
        ensures
            r@ == request_json(self@),
    {
        let mut out = String::new();
        out.append("{\"type\":");
        append_string(&mut out, self.kind.as_str());
        out.append(",\"markets\":[");
        append_strings(&mut out, &self.markets);
        out.append("],\"assets_ids\":[");
        append_strings(&mut out, &self.assets_ids);
        out.append("]");
        match self.initial_dump {
            Some(true) => out.append(",\"initial_dump\":true"),
            Some(false) => out.append(",\"initial_dump\":false"),
            None => {},
        }
        match &self.auth {
            Some(auth) => {
                out.append(",\"auth\":");
                out.append("{\"apiKey\":");
                append_string(&mut out, auth.key.as_str());
                out.append(",\"secret\":");
                append_string(&mut out, auth.secret.as_str());
                out.append(",\"passphrase\":");
                append_string(&mut out, auth.passphrase.as_str());
                out.append("}");
            },
            None => {},
        }
        out.append("}");
        assert(out@ =~= request_json(self@));
        out
    }
}

} // verus!
