//! What subscribers get.

use vstd::prelude::*;

use crate::decimal::{decimal_quotient, decimal_sum};
use crate::error::WsError;
use crate::messages::{
    BookUpdate, BookView, MidpointUpdate, OrderMessage, PriceChange, TradeMessage, WsMessage,
    WsMessageView,
};
use crate::streams::{
    answer_overflows, best_prices, book_in, is_about, is_filtered, is_midpoint_answer,
    is_midpoint_step, is_selected, midpoint_overflows, order_in, picked, price_in, trade_in,
    Received, StreamStep,
};

verus! {

/// Orders and trades are about a user, and everything else is market data.
pub proof fn law_user_messages(message: WsMessageView)
    ensures
        message.is_user() <==> message is Trade || message is Order,
        message.is_user() <==> message.market_asset() is None,
{
}

/// A message is about a list of assets exactly where it is market data and the
/// list has the asset of that very message.
pub proof fn law_assets_of_messages(message: WsMessageView, asset_ids: Seq<Seq<char>>)
    ensures
        match message {
            WsMessageView::Book(m) => is_about(message, asset_ids)
                == asset_ids.contains(m.asset_id),
            WsMessageView::PriceChange(m) => is_about(message, asset_ids) == asset_ids.contains(
                m.asset_id,
            ),
            WsMessageView::LastTradePrice(m) => is_about(message, asset_ids) == asset_ids.contains(
                m.asset_id,
            ),
            WsMessageView::TickSizeChange(m) => is_about(message, asset_ids) == asset_ids.contains(
                m.asset_id,
            ),
            WsMessageView::Trade(_) => !is_about(message, asset_ids),
            WsMessageView::Order(_) => !is_about(message, asset_ids),
        },
        match message {
            WsMessageView::Book(m) => message.market_asset() == Some(m.asset_id),
            WsMessageView::PriceChange(m) => message.market_asset() == Some(m.asset_id),
            WsMessageView::LastTradePrice(m) => message.market_asset() == Some(m.asset_id),
            WsMessageView::TickSizeChange(m) => message.market_asset() == Some(m.asset_id),
            WsMessageView::Trade(_) => message.market_asset() is None,
            WsMessageView::Order(_) => message.market_asset() is None,
        },
{
}

/// A subscription to market data hands on every orderbook update, price change,
/// last trade price and tick size change of its assets as it is, and nothing of
/// other assets or about users.
pub proof fn law_market_subscription(
    message: WsMessage,
    asset_ids: Seq<Seq<char>>,
    step: StreamStep<WsMessage>,
)
    requires
        is_filtered(
            Received::Message(message),
            |m: WsMessageView| is_about(m, asset_ids),
            step,
        ),
    ensures
        match message {
            WsMessage::Book(m) => if asset_ids.contains(m.asset_id@) {
                step == StreamStep::Yield(Ok::<WsMessage, WsError>(message))
            } else {
                step is Skip
            },
            WsMessage::PriceChange(m) => if asset_ids.contains(m.asset_id@) {
                step == StreamStep::Yield(Ok::<WsMessage, WsError>(message))
            } else {
                step is Skip
            },
            WsMessage::LastTradePrice(m) => if asset_ids.contains(m.asset_id@) {
                step == StreamStep::Yield(Ok::<WsMessage, WsError>(message))
            } else {
                step is Skip
            },
            WsMessage::TickSizeChange(m) => if asset_ids.contains(m.asset_id@) {
                step == StreamStep::Yield(Ok::<WsMessage, WsError>(message))
            } else {
                step is Skip
            },
            WsMessage::Trade(_) => step is Skip,
            WsMessage::Order(_) => step is Skip,
        },
{
}

/// A user subscription hands on every order and every trade as it is, and
/// nothing else.
pub proof fn law_user_subscription(message: WsMessage, step: StreamStep<WsMessage>)
    requires
        is_filtered(Received::Message(message), |m: WsMessageView| m.is_user(), step),
    ensures
        message is Trade || message is Order ==> step == StreamStep::Yield(
            Ok::<WsMessage, WsError>(message),
        ),
        !(message is Trade || message is Order) ==> step is Skip,
{
}

/// Whatever a subscription lets through, it hands on every failure with its
/// text and every lag with its count, and ends when nothing more is received.
pub proof fn law_failures_reach_every_subscriber<T>(
    text: String,
    count: u64,
    wanted: spec_fn(WsMessageView) -> bool,
    pick: spec_fn(WsMessage) -> Option<T>,
    asset_ids: Seq<Seq<char>>,
    all: StreamStep<WsMessage>,
    some: StreamStep<T>,
    middle: StreamStep<MidpointUpdate>,
)
    ensures
        is_filtered(Received::Failure(text), wanted, all) <==> all == StreamStep::Yield(
            Err::<WsMessage, WsError>(WsError::InvalidMessage(text)),
        ),
        is_filtered(Received::Lagged(count), wanted, all) <==> all == StreamStep::Yield(
            Err::<WsMessage, WsError>(WsError::Lagged { count }),
        ),
        is_filtered(Received::Closed, wanted, all) <==> all is End,
        is_selected(Received::Failure(text), pick, some) <==> some == StreamStep::Yield(
            Err::<T, WsError>(WsError::InvalidMessage(text)),
        ),
        is_selected(Received::Lagged(count), pick, some) <==> some == StreamStep::Yield(
            Err::<T, WsError>(WsError::Lagged { count }),
        ),
        is_selected(Received::Closed, pick, some) <==> some is End,
        is_midpoint_answer(Received::Failure(text), asset_ids, middle) <==> middle
            == StreamStep::Yield(
            Err::<MidpointUpdate, WsError>(WsError::InvalidMessage(text)),
        ),
        is_midpoint_answer(Received::Lagged(count), asset_ids, middle) <==> middle
            == StreamStep::Yield(Err::<MidpointUpdate, WsError>(WsError::Lagged { count })),
        is_midpoint_answer(Received::Closed, asset_ids, middle) <==> middle is End,
{
}

/// A subscription to orderbook updates hands on every orderbook update of its
/// assets as it is, and no other message.
pub proof fn law_orderbook_subscription(
    message: WsMessage,
    asset_ids: Seq<Seq<char>>,
    step: StreamStep<BookUpdate>,
)
    requires
        is_selected(
            Received::Message(message),
            |m: WsMessage|
                if is_about(m@, asset_ids) {
                    book_in(m)
                } else {
                    None
                },
            step,
        ),
    ensures
        match message {
            WsMessage::Book(book) => if asset_ids.contains(book.asset_id@) {
                step == StreamStep::Yield(Ok::<BookUpdate, WsError>(book))
            } else {
                step is Skip
            },
            _ => step is Skip,
        },
{
}

/// A subscription to price changes hands on every price change of its assets as
/// it is, whatever its side, price and size, and no other message.
pub proof fn law_price_subscription(
    message: WsMessage,
    asset_ids: Seq<Seq<char>>,
    step: StreamStep<PriceChange>,
)
    requires
        is_selected(
            Received::Message(message),
            |m: WsMessage|
                if is_about(m@, asset_ids) {
                    price_in(m)
                } else {
                    None
                },
            step,
        ),
    ensures
        match message {
            WsMessage::PriceChange(price) => if asset_ids.contains(price.asset_id@) {
                step == StreamStep::Yield(Ok::<PriceChange, WsError>(price))
            } else {
                step is Skip
            },
            _ => step is Skip,
        },
{
}

/// A subscription to order updates hands on every order update as it is, and no
/// other message.
pub proof fn law_order_subscription(message: WsMessage, step: StreamStep<OrderMessage>)
    requires
        is_selected(Received::Message(message), |m: WsMessage| order_in(m), step),
    ensures
        match message {
            WsMessage::Order(order) => step == StreamStep::Yield(
                Ok::<OrderMessage, WsError>(order),
            ),
            _ => step is Skip,
        },
{
}

/// A subscription to trades hands on every trade as it is, and no other
/// message.
pub proof fn law_trade_subscription(message: WsMessage, step: StreamStep<TradeMessage>)
    requires
        is_selected(Received::Message(message), |m: WsMessage| trade_in(m), step),
    ensures
        match message {
            WsMessage::Trade(trade) => step == StreamStep::Yield(
                Ok::<TradeMessage, WsError>(trade),
            ),
            _ => step is Skip,
        },
{
}

/// A subscription to midpoints answers every orderbook update of its assets
/// that has bids and asks with half the sum of the first bid's and the first
/// ask's price, and nothing else. It fails to where that sum or its half is no
/// decimal.
pub proof fn law_midpoint_subscription(
    message: WsMessage,
    asset_ids: Seq<Seq<char>>,
    step: StreamStep<MidpointUpdate>,
)
    ensures
        answer_overflows(Received::Message(message), asset_ids) <==> {
            &&& message is Book
            &&& asset_ids.contains(message->Book_0.asset_id@)
            &&& message->Book_0.bids@.len() > 0
            &&& message->Book_0.asks@.len() > 0
            &&& {
                let sum = decimal_sum(
                    message->Book_0.bids@[0].price@,
                    message->Book_0.asks@[0].price@,
                );
                sum is None || decimal_quotient(sum->0, (2int, 0nat)) is None
            }
        },
        is_midpoint_answer(Received::Message(message), asset_ids, step) ==> match message {
            WsMessage::Book(book) => if asset_ids.contains(book.asset_id@) && book.bids@.len() > 0
                && book.asks@.len() > 0 {
                let bid = book.bids@[0].price@;
                let ask = book.asks@[0].price@;
                &&& step matches StreamStep::Yield(Ok(update))
                &&& update.asset_id@ == book.asset_id@
                &&& update.market@ == book.market@
                &&& update.timestamp == book.timestamp
                &&& decimal_sum(bid, ask) is Some
                &&& decimal_quotient(decimal_sum(bid, ask)->0, (2int, 0nat)) == Some(
                    update.midpoint@,
                )
            } else {
                step is Skip
            },
            _ => step is Skip,
        },
{
}

/// What is picked from a message: its contents, where it is of the kind that is
/// asked for, whatever those contents are.
pub proof fn law_contents_of_messages(message: WsMessage)
    ensures
        match message {
            WsMessage::Book(book) => book_in(message) == Some(book),
            _ => book_in(message) is None,
        },
        match message {
            WsMessage::PriceChange(price) => price_in(message) == Some(price),
            _ => price_in(message) is None,
        },
        match message {
            WsMessage::Order(order) => order_in(message) == Some(order),
            _ => order_in(message) is None,
        },
        match message {
            WsMessage::Trade(trade) => trade_in(message) == Some(trade),
            _ => trade_in(message) is None,
        },
{
}

/// Picking drops what holds nothing of the kind, turns what does into its
/// contents, and keeps errors, gaps and the end.
pub proof fn law_picking<A, B>(item: A, error: WsError, pick: spec_fn(A) -> Option<B>)
    ensures
        pick(item) is None ==> picked(StreamStep::Yield(Ok(item)), pick) is Skip,
        pick(item) matches Some(out) ==> picked(StreamStep::Yield(Ok(item)), pick)
            == StreamStep::Yield(Ok::<B, WsError>(out)),
        picked(StreamStep::Yield(Err::<A, WsError>(error)), pick) == StreamStep::Yield(
            Err::<B, WsError>(error),
        ),
        picked(StreamStep::<A>::Skip, pick) is Skip,
        picked(StreamStep::<A>::End, pick) is End,
{
}

/// Orderbooks with bids and asks are turned into half the sum of the first
/// bid's and the first ask's price, others are dropped, and errors, gaps and
/// the end are kept.
pub proof fn law_midpoint_steps(
    book: BookUpdate,
    error: WsError,
    out: StreamStep<MidpointUpdate>,
)
    ensures
        is_midpoint_step(StreamStep::Yield(Ok(book)), out) ==> if book.bids@.len() > 0
            && book.asks@.len() > 0 {
            let sum = decimal_sum(book.bids@[0].price@, book.asks@[0].price@);
            &&& out matches StreamStep::Yield(Ok(update))
            &&& update.asset_id@ == book.asset_id@
            &&& update.market@ == book.market@
            &&& update.timestamp == book.timestamp
            &&& sum is Some
            &&& decimal_quotient(sum->0, (2int, 0nat)) == Some(update.midpoint@)
        } else {
            out is Skip
        },
        midpoint_overflows(StreamStep::Yield(Ok(book))) <==> {
            &&& book.bids@.len() > 0
            &&& book.asks@.len() > 0
            &&& {
                let sum = decimal_sum(book.bids@[0].price@, book.asks@[0].price@);
                sum is None || decimal_quotient(sum->0, (2int, 0nat)) is None
            }
        },
        is_midpoint_step(StreamStep::Yield(Err(error)), out) ==> out == StreamStep::Yield(
            Err::<MidpointUpdate, WsError>(error),
        ),
        is_midpoint_step(StreamStep::Skip, out) ==> out is Skip,
        is_midpoint_step(StreamStep::End, out) ==> out is End,
        !midpoint_overflows(StreamStep::Yield(Err(error))),
        !midpoint_overflows(StreamStep::Skip),
        !midpoint_overflows(StreamStep::End),
{
}

/// The best prices of an orderbook are those of its first bid and its first
/// ask.
pub proof fn law_best_prices(book: BookView)
    ensures
        best_prices(book) is Some <==> book.bids.len() > 0 && book.asks.len() > 0,
        best_prices(book) matches Some((bid, ask)) ==> bid == book.bids[0].price && ask
            == book.asks[0].price,
{
}

} // verus!
