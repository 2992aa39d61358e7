//! What the types say is what their fields say.

use vstd::prelude::*;

use crate::auth::Credentials;
use crate::client::ChannelHandles;
use crate::messages::{
    message_views, BookUpdate, LastTradePrice, MakerOrder, MidpointUpdate, OrderBookLevel,
    OrderMessage, PriceChange, PriceChangeBatch, PriceChangeBatchEntry, SubscriptionRequest,
    TickSizeChange, TradeMessage, WsMessage, WsMessageView,
};
use crate::subscription::{info_views, SubscriptionInfo};
use crate::text::{text_opt, texts};

verus! {

/// The view of a price level is its fields, each under its own name.
pub proof fn law_view_of_order_book_level(m: OrderBookLevel)
    ensures
        m@.price == m.price@,
        m@.size == m.size@,
{
}

/// The view of an orderbook update is its fields, each under its own name.
pub proof fn law_view_of_book_update(m: BookUpdate)
    ensures
        m@.asset_id == m.asset_id@,
        m@.market == m.market@,
        m@.timestamp == m.timestamp,
        m@.bids.len() == m.bids@.len(),
        forall|i: int| 0 <= i < m.bids@.len() ==> m@.bids[i] == (#[trigger] m.bids@[i])@,
        m@.asks.len() == m.asks@.len(),
        forall|i: int| 0 <= i < m.asks@.len() ==> m@.asks[i] == (#[trigger] m.asks@[i])@,
        m@.hash == match m.hash {
            Some(x) => Some(x@),
            None => None,
        },
{
}

/// The view of a price change is its fields, each under its own name.
pub proof fn law_view_of_price_change(m: PriceChange)
    ensures
        m@.asset_id == m.asset_id@,
        m@.market == m.market@,
        m@.price == m.price@,
        m@.size == match m.size {
            Some(x) => Some(x@),
            None => None,
        },
        m@.side == m.side,
        m@.timestamp == m.timestamp,
        m@.hash == match m.hash {
            Some(x) => Some(x@),
            None => None,
        },
        m@.best_bid == match m.best_bid {
            Some(x) => Some(x@),
            None => None,
        },
        m@.best_ask == match m.best_ask {
            Some(x) => Some(x@),
            None => None,
        },
{
}

/// The view of an entry of a batch is its fields, each under its own name.
pub proof fn law_view_of_price_change_batch_entry(m: PriceChangeBatchEntry)
    ensures
        m@.asset_id == m.asset_id@,
        m@.price == m.price@,
        m@.size == match m.size {
            Some(x) => Some(x@),
            None => None,
        },
        m@.side == m.side,
        m@.hash == match m.hash {
            Some(x) => Some(x@),
            None => None,
        },
        m@.best_bid == match m.best_bid {
            Some(x) => Some(x@),
            None => None,
        },
        m@.best_ask == match m.best_ask {
            Some(x) => Some(x@),
            None => None,
        },
{
}

/// The view of a batch of price changes is its fields, each under its own name.
pub proof fn law_view_of_price_change_batch(m: PriceChangeBatch)
    ensures
        m@.market == m.market@,
        m@.timestamp == m.timestamp,
        m@.price_changes.len() == m.price_changes@.len(),
        forall|i: int| 0 <= i < m.price_changes@.len()
            ==> m@.price_changes[i] == (#[trigger] m.price_changes@[i])@,
{
}

/// The view of a tick size change is its fields, each under its own name.
pub proof fn law_view_of_tick_size_change(m: TickSizeChange)
    ensures
        m@.asset_id == m.asset_id@,
        m@.market == m.market@,
        m@.old_tick_size == m.old_tick_size@,
        m@.new_tick_size == m.new_tick_size@,
        m@.timestamp == m.timestamp,
{
}

/// The view of a last trade price is its fields, each under its own name.
pub proof fn law_view_of_last_trade_price(m: LastTradePrice)
    ensures
        m@.asset_id == m.asset_id@,
        m@.market == m.market@,
        m@.price == m.price@,
        m@.side == m.side,
        m@.timestamp == m.timestamp,
{
}

/// The view of a maker order is its fields, each under its own name.
pub proof fn law_view_of_maker_order(m: MakerOrder)
    ensures
        m@.asset_id == m.asset_id@,
        m@.matched_amount == m.matched_amount@,
        m@.order_id == m.order_id@,
        m@.outcome == m.outcome@,
        m@.owner == m.owner@,
        m@.price == m.price@,
{
}

/// The view of a trade is its fields, each under its own name.
pub proof fn law_view_of_trade_message(m: TradeMessage)
    ensures
        m@.id == m.id@,
        m@.market == m.market@,
        m@.asset_id == m.asset_id@,
        m@.side == m.side,
        m@.size == m.size@,
        m@.price == m.price@,
        m@.status == m.status@,
        m@.event_type == match m.event_type {
            Some(x) => Some(x@),
            None => None,
        },
        m@.msg_type == match m.msg_type {
            Some(x) => Some(x@),
            None => None,
        },
        m@.last_update == match m.last_update {
            Some(x) => Some(x@),
            None => None,
        },
        m@.matchtime == match m.matchtime {
            Some(x) => Some(x@),
            None => None,
        },
        m@.timestamp == match m.timestamp {
            Some(x) => Some(x@),
            None => None,
        },
        m@.outcome == match m.outcome {
            Some(x) => Some(x@),
            None => None,
        },
        m@.owner == match m.owner {
            Some(x) => Some(x@),
            None => None,
        },
        m@.trade_owner == match m.trade_owner {
            Some(x) => Some(x@),
            None => None,
        },
        m@.taker_order_id == match m.taker_order_id {
            Some(x) => Some(x@),
            None => None,
        },
        m@.maker_orders.len() == m.maker_orders@.len(),
        forall|i: int| 0 <= i < m.maker_orders@.len()
            ==> m@.maker_orders[i] == (#[trigger] m.maker_orders@[i])@,
        m@.fee_rate_bps == match m.fee_rate_bps {
            Some(x) => Some(x@),
            None => None,
        },
        m@.transaction_hash == match m.transaction_hash {
            Some(x) => Some(x@),
            None => None,
        },
        m@.trader_side == m.trader_side,
{
}

/// The view of an order update is its fields, each under its own name.
pub proof fn law_view_of_order_message(m: OrderMessage)
    ensures
        m@.id == m.id@,
        m@.market == m.market@,
        m@.asset_id == m.asset_id@,
        m@.side == m.side,
        m@.price == m.price@,
        m@.event_type == match m.event_type {
            Some(x) => Some(x@),
            None => None,
        },
        m@.msg_type == match m.msg_type {
            Some(x) => Some(x@),
            None => None,
        },
        m@.outcome == match m.outcome {
            Some(x) => Some(x@),
            None => None,
        },
        m@.owner == match m.owner {
            Some(x) => Some(x@),
            None => None,
        },
        m@.order_owner == match m.order_owner {
            Some(x) => Some(x@),
            None => None,
        },
        m@.original_size == match m.original_size {
            Some(x) => Some(x@),
            None => None,
        },
        m@.size_matched == match m.size_matched {
            Some(x) => Some(x@),
            None => None,
        },
        m@.timestamp == match m.timestamp {
            Some(x) => Some(x@),
            None => None,
        },
        match m.associate_trades {
            Some(list) => {
                &&& m@.associate_trades is Some
                &&& m@.associate_trades->0.len() == list@.len()
                &&& forall|i: int|
                    0 <= i < list@.len() ==> m@.associate_trades->0[i] == (#[trigger] list@[i])@
            },
            None => m@.associate_trades is None,
        },
{
}

/// The view of a midpoint is its fields, each under its own name.
pub proof fn law_view_of_midpoint_update(m: MidpointUpdate)
    ensures
        m@.asset_id == m.asset_id@,
        m@.market == m.market@,
        m@.midpoint == m.midpoint@,
        m@.timestamp == m.timestamp,
{
}
/// The view of a message is the view of what it wraps, in the variant of the
/// same name.
pub proof fn law_view_of_message(message: WsMessage)
    ensures
        match message {
            WsMessage::Trade(m) => message@ == WsMessageView::Trade(m@),
            WsMessage::Order(m) => message@ == WsMessageView::Order(m@),
            WsMessage::PriceChange(m) => message@ == WsMessageView::PriceChange(m@),
            WsMessage::TickSizeChange(m) => message@ == WsMessageView::TickSizeChange(m@),
            WsMessage::LastTradePrice(m) => message@ == WsMessageView::LastTradePrice(m@),
            WsMessage::Book(m) => message@ == WsMessageView::Book(m@),
        },
{
}

/// Lists are viewed item by item.
pub proof fn law_views_of_lists(
    messages: Seq<WsMessage>,
    items: Seq<String>,
    infos: Seq<SubscriptionInfo>,
    i: int,
)
    ensures
        message_views(messages).len() == messages.len(),
        0 <= i < messages.len() ==> message_views(messages)[i] == messages[i]@,
        texts(items).len() == items.len(),
        0 <= i < items.len() ==> texts(items)[i] == items[i]@,
        info_views(infos).len() == infos.len(),
        0 <= i < infos.len() ==> info_views(infos)[i] == infos[i]@,
{
}

/// A text that may be absent is viewed where it is there.
pub proof fn law_view_of_a_text_that_may_be_absent(item: Option<String>)
    ensures
        item is Some ==> text_opt(item) == Some(item->0@),
        item is None ==> text_opt(item) is None,
{
}

/// The view of credentials is their three parts.
pub proof fn law_view_of_credentials(credentials: Credentials)
    ensures
        credentials@.key == credentials.key@,
        credentials@.secret == credentials.secret@,
        credentials@.passphrase == credentials.passphrase@,
{
}

/// The view of a request is its fields.
pub proof fn law_view_of_request(request: SubscriptionRequest)
    ensures
        request@.kind == request.kind@,
        request@.markets == texts(request.markets@),
        request@.assets_ids == texts(request.assets_ids@),
        request@.initial_dump == request.initial_dump,
        request.auth is Some ==> request@.auth == Some(request.auth->0@),
        request.auth is None ==> request@.auth is None,
{
}

/// The view of information about a subscription is its fields.
pub proof fn law_view_of_subscription_info(info: SubscriptionInfo)
    ensures
        info@.channel == info.channel,
        info@.asset_ids == texts(info.asset_ids@),
        info@.created_at == info.created_at,
{
}

/// The view of a channel's handles is its fields.
pub proof fn law_view_of_channel(handles: ChannelHandles)
    ensures
        handles@.endpoint == handles.endpoint@,
        handles@.link == handles.connection@,
        handles@.subscriptions == handles.subscriptions@,
{
}

} // verus!
