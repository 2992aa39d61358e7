//! What a subscriber gets of what is received.
//!
//! A subscription is fed with everything that the connection receives, one
//! [`Received`] after the other, and answers each with a [`StreamStep`].

use vstd::prelude::*;

use crate::decimal::{
    averages_exactly, checked_midpoint, lies_between, midpoint, midpoint_value, sum_fits, units,
};
use crate::error::WsError;
use crate::messages::{
    BookUpdate, BookView, MidpointUpdate, MidpointView, OrderMessage, PriceChange, TradeMessage,
    WsMessage, WsMessageView,
};
use crate::text::{contains_text, texts};

verus! {

/// What a subscription is fed with.
#[derive(Debug)]
pub enum Received {
    /// A message
    Message(WsMessage),
    /// An error in place of a message; with its text
    Failure(String),
    /// The subscription was too slow, and missed so many messages
    Lagged(u64),
    /// Nothing more will be received
    Closed,
}

/// What a subscription answers.
#[derive(Debug)]
pub enum StreamStep<T> {
    /// Hand this to the subscriber
    Yield(Result<T, WsError>),
    /// Hand nothing to the subscriber
    Skip,
    /// The subscription has come to its end
    End,
}

/// What a subscription answers that lets the messages through that `wanted`
/// accepts: those messages as they are, errors always, and its end.
pub open spec fn is_filtered(
    received: Received,
    wanted: spec_fn(WsMessageView) -> bool,
    step: StreamStep<WsMessage>,
) -> bool {
    match received {
        Received::Message(message) => if wanted(message@) {
            step == StreamStep::Yield(Ok::<WsMessage, WsError>(message))
        } else {
            step is Skip
        },
        Received::Failure(text) => step == StreamStep::Yield(
            Err::<WsMessage, WsError>(WsError::InvalidMessage(text)),
        ),
        Received::Lagged(count) => step == StreamStep::Yield(
            Err::<WsMessage, WsError>(WsError::Lagged { count }),
        ),
        Received::Closed => step is End,
    }
}

/// Whether a message is market data about one of the assets.
pub open spec fn is_about(message: WsMessageView, asset_ids: Seq<Seq<char>>) -> bool {
    match message.market_asset() {
        Some(asset_id) => asset_ids.contains(asset_id),
        None => false,
    }
}

/// A subscription to market data about some assets.
#[derive(Debug)]
pub struct MarketSubscription {
    asset_ids: Vec<String>,
}

impl View for MarketSubscription {
    type V = Seq<Seq<char>>;

    closed spec fn view(&self) -> Seq<Seq<char>> {
        texts(self.asset_ids@)
    }
}

impl MarketSubscription {
    /// A subscription to market data about `asset_ids`.
    pub fn new(asset_ids: Vec<String>) -> (r: Self)
        ensures
            r@ == texts(asset_ids@),
    {
        MarketSubscription { asset_ids }
    }

    /// What the subscriber gets: market data about the assets.
    pub fn step(&self, received: Received) -> (r: StreamStep<WsMessage>)
        ensures
            is_filtered(received, |message: WsMessageView| is_about(message, self@), r),
    {
        match received {
            Received::Message(message) => {
                let wanted = match message.market_asset() {
                    Some(asset_id) => contains_text(&self.asset_ids, asset_id.as_str()),
                    None => false,
                };
                if wanted {
                    StreamStep::Yield(Ok(message))
                } else {
                    StreamStep::Skip
                }
            },
            Received::Failure(text) => StreamStep::Yield(Err(WsError::InvalidMessage(text))),
            Received::Lagged(count) => StreamStep::Yield(Err(WsError::Lagged { count })),
            Received::Closed => StreamStep::End,
        }
    }
}

/// A subscription to a user's own orders and trades.
#[derive(Debug)]
pub struct UserSubscription;

impl UserSubscription {
    /// What the subscriber gets: the messages of the user channel.
    pub fn step(&self, received: Received) -> (r: StreamStep<WsMessage>)
        ensures
            is_filtered(received, |message: WsMessageView| message.is_user(), r),
    {
        match received {
            Received::Message(message) => if message.is_user() {
                StreamStep::Yield(Ok(message))
            } else {
                StreamStep::Skip
            },
            Received::Failure(text) => StreamStep::Yield(Err(WsError::InvalidMessage(text))),
            Received::Lagged(count) => StreamStep::Yield(Err(WsError::Lagged { count })),
            Received::Closed => StreamStep::End,
        }
    }
}

/// What is left of a step when only the messages that `pick` turns into
/// something are kept. Errors and the end are kept always.
pub open spec fn picked<A, B>(step: StreamStep<A>, pick: spec_fn(A) -> Option<B>) -> StreamStep<B> {
    match step {
        StreamStep::Yield(Ok(item)) => match pick(item) {
            Some(out) => StreamStep::Yield(Ok(out)),
            None => StreamStep::Skip,
        },
        StreamStep::Yield(Err(error)) => StreamStep::Yield(Err(error)),
        StreamStep::Skip => StreamStep::Skip,
        StreamStep::End => StreamStep::End,
    }
}

/// The orderbook update in a message.
pub open spec fn book_in(message: WsMessage) -> Option<BookUpdate> {
    match message {
        WsMessage::Book(book) => Some(book),
        _ => None,
    }
}

/// The price change in a message.
pub open spec fn price_in(message: WsMessage) -> Option<PriceChange> {
    match message {
        WsMessage::PriceChange(price) => Some(price),
        _ => None,
    }
}

/// The order update in a message.
pub open spec fn order_in(message: WsMessage) -> Option<OrderMessage> {
    match message {
        WsMessage::Order(order) => Some(order),
        _ => None,
    }
}

/// The trade in a message.
pub open spec fn trade_in(message: WsMessage) -> Option<TradeMessage> {
    match message {
        WsMessage::Trade(trade) => Some(trade),
        _ => None,
    }
}

/// Keeps the orderbook updates.
pub fn only_books(step: StreamStep<WsMessage>) -> (r: StreamStep<BookUpdate>)
    ensures
        r == picked(step, |message: WsMessage| book_in(message)),
{
    match step {
        StreamStep::Yield(Ok(WsMessage::Book(book))) => StreamStep::Yield(Ok(book)),
        StreamStep::Yield(Ok(_)) => StreamStep::Skip,
        StreamStep::Yield(Err(error)) => StreamStep::Yield(Err(error)),
        StreamStep::Skip => StreamStep::Skip,
        StreamStep::End => StreamStep::End,
    }
}

/// Keeps the price changes.
pub fn only_prices(step: StreamStep<WsMessage>) -> (r: StreamStep<PriceChange>)
    ensures
        r == picked(step, |message: WsMessage| price_in(message)),
{
    match step {
        StreamStep::Yield(Ok(WsMessage::PriceChange(price))) => StreamStep::Yield(Ok(price)),
        StreamStep::Yield(Ok(_)) => StreamStep::Skip,
        StreamStep::Yield(Err(error)) => StreamStep::Yield(Err(error)),
        StreamStep::Skip => StreamStep::Skip,
        StreamStep::End => StreamStep::End,
    }
}

/// Keeps the order updates.
pub fn only_orders(step: StreamStep<WsMessage>) -> (r: StreamStep<OrderMessage>)
    ensures
        r == picked(step, |message: WsMessage| order_in(message)),
{
    match step {
        StreamStep::Yield(Ok(WsMessage::Order(order))) => StreamStep::Yield(Ok(order)),
        StreamStep::Yield(Ok(_)) => StreamStep::Skip,
        StreamStep::Yield(Err(error)) => StreamStep::Yield(Err(error)),
        StreamStep::Skip => StreamStep::Skip,
        StreamStep::End => StreamStep::End,
    }
}

/// Keeps the trades.
pub fn only_trades(step: StreamStep<WsMessage>) -> (r: StreamStep<TradeMessage>)
    ensures
        r == picked(step, |message: WsMessage| trade_in(message)),
{
    match step {
        StreamStep::Yield(Ok(WsMessage::Trade(trade))) => StreamStep::Yield(Ok(trade)),
        StreamStep::Yield(Ok(_)) => StreamStep::Skip,
        StreamStep::Yield(Err(error)) => StreamStep::Yield(Err(error)),
        StreamStep::Skip => StreamStep::Skip,
        StreamStep::End => StreamStep::End,
    }
}

/// The best bid and the best ask of an orderbook, the first ones of each side;
/// `None` where a side is empty.
pub open spec fn best_prices(book: BookView) -> Option<((int, nat), (int, nat))> {
    if book.bids.len() > 0 && book.asks.len() > 0 {
        Some((book.bids[0].price, book.asks[0].price))
    } else {
        None
    }
}

/// Whether `update` is the midpoint of an orderbook with these best prices: half
/// of their sum, which is the exact mean wherever no rounding is needed, and
/// lies between the two wherever their sum needs none; with the orderbook's
/// asset, market and timestamp.
pub open spec fn is_midpoint_of(
    book: BookView,
    bid: (int, nat),
    ask: (int, nat),
    update: MidpointView,
) -> bool {
    &&& midpoint_value(bid, ask) == Some(update.midpoint)
    &&& averages_exactly(bid, ask) ==> 2 * units(update.midpoint) == units(bid) + units(ask)
    &&& sum_fits(bid, ask) ==> lies_between(bid, update.midpoint, ask)
    &&& update.asset_id == book.asset_id
    &&& update.market == book.market
    &&& update.timestamp == book.timestamp
}

/// Whether a step has an orderbook with a midpoint that no decimal holds.
pub open spec fn midpoint_overflows(step: StreamStep<BookUpdate>) -> bool {
    match step {
        StreamStep::Yield(Ok(book)) => match best_prices(book@) {
            Some((bid, ask)) => midpoint_value(bid, ask) is None,
            None => false,
        },
        _ => false,
    }
}

/// Whether `out` is what becomes of a step when orderbooks are turned into
/// midpoints. Orderbooks that lack a side are dropped; errors and the end are
/// kept.
pub open spec fn is_midpoint_step(
    step: StreamStep<BookUpdate>,
    out: StreamStep<MidpointUpdate>,
) -> bool {
    match step {
        StreamStep::Yield(Ok(book)) => match best_prices(book@) {
            Some((bid, ask)) => match out {
                StreamStep::Yield(Ok(update)) => is_midpoint_of(book@, bid, ask, update@),
                _ => false,
            },
            None => out is Skip,
        },
        StreamStep::Yield(Err(error)) => out == StreamStep::Yield(
            Err::<MidpointUpdate, WsError>(error),
        ),
        StreamStep::Skip => out is Skip,
        StreamStep::End => out is End,
    }
}

/// Turns orderbooks into midpoints.
pub fn only_midpoints(step: StreamStep<BookUpdate>) -> (r: StreamStep<MidpointUpdate>)
    requires
        !midpoint_overflows(step),
    ensures
        is_midpoint_step(step, r),
{
    match step {
        StreamStep::Yield(Ok(book)) => {
            if book.bids.len() == 0 || book.asks.len() == 0 {
                return StreamStep::Skip;
            }
            let bid = book.bids[0].price;
            let ask = book.asks[0].price;
            assert(best_prices(book@) == Some((bid@, ask@)));
            let update = MidpointUpdate {
                asset_id: book.asset_id,
                market: book.market,
                midpoint: midpoint(bid, ask),
                timestamp: book.timestamp,
            };
            StreamStep::Yield(Ok(update))
        },
        StreamStep::Yield(Err(error)) => StreamStep::Yield(Err(error)),
        StreamStep::Skip => StreamStep::Skip,
        StreamStep::End => StreamStep::End,
    }
}

/// What a subscription answers that lets through what `pick` finds in a
/// message: that, errors always, and its end.
pub open spec fn is_selected<T>(
    received: Received,
    pick: spec_fn(WsMessage) -> Option<T>,
    step: StreamStep<T>,
) -> bool {
    match received {
        Received::Message(message) => match pick(message) {
            Some(item) => step == StreamStep::Yield(Ok::<T, WsError>(item)),
            None => step is Skip,
        },
        Received::Failure(text) => step == StreamStep::Yield(
            Err::<T, WsError>(WsError::InvalidMessage(text)),
        ),
        Received::Lagged(count) => step == StreamStep::Yield(
            Err::<T, WsError>(WsError::Lagged { count }),
        ),
        Received::Closed => step is End,
    }
}

/// A subscription to orderbook updates for some assets.
#[derive(Debug)]
pub struct OrderbookSubscription {
    market: MarketSubscription,
}

impl View for OrderbookSubscription {
    type V = Seq<Seq<char>>;

    closed spec fn view(&self) -> Seq<Seq<char>> {
        self.market@
    }
}

impl OrderbookSubscription {
    /// The orderbook updates of a subscription to market data.
    pub fn new(market: MarketSubscription) -> (r: Self)
        ensures
            r@ == market@,
    {
        OrderbookSubscription { market }
    }

    /// What the subscriber gets: orderbook updates for the assets.
    pub fn step(&self, received: Received) -> (r: StreamStep<BookUpdate>)
        ensures
            is_selected(
                received,
                |message: WsMessage|
                    if is_about(message@, self@) {
                        book_in(message)
                    } else {
                        None
                    },
                r,
            ),
    {
        only_books(self.market.step(received))
    }
}

/// A subscription to price changes for some assets.
#[derive(Debug)]
pub struct PriceSubscription {
    market: MarketSubscription,
}

impl View for PriceSubscription {
    type V = Seq<Seq<char>>;

    closed spec fn view(&self) -> Seq<Seq<char>> {
        self.market@
    }
}

impl PriceSubscription {
    /// The price changes of a subscription to market data.
    pub fn new(market: MarketSubscription) -> (r: Self)
        ensures
            r@ == market@,
    {
        PriceSubscription { market }
    }

    /// What the subscriber gets: price changes for the assets.
    pub fn step(&self, received: Received) -> (r: StreamStep<PriceChange>)
        ensures
            is_selected(
                received,
                |message: WsMessage|
                    if is_about(message@, self@) {
                        price_in(message)
                    } else {
                        None
                    },
                r,
            ),
    {
        only_prices(self.market.step(received))
    }
}

/// A subscription to a user's order updates.
#[derive(Debug)]
pub struct OrderSubscription {
    /// The user subscription that it picks from
    pub user: UserSubscription,
}

impl OrderSubscription {
    /// The order updates of a user subscription.
    pub fn new(user: UserSubscription) -> (r: Self)
        ensures
            r.user == user,
    {
        OrderSubscription { user }
    }

    /// What the subscriber gets: the order updates.
    pub fn step(&self, received: Received) -> (r: StreamStep<OrderMessage>)
        ensures
            is_selected(received, |message: WsMessage| order_in(message), r),
    {
        only_orders(self.user.step(received))
    }
}

/// A subscription to a user's trades.
#[derive(Debug)]
pub struct TradeSubscription {
    /// The user subscription that it picks from
    pub user: UserSubscription,
}

impl TradeSubscription {
    /// The trades of a user subscription.
    pub fn new(user: UserSubscription) -> (r: Self)
        ensures
            r.user == user,
    {
        TradeSubscription { user }
    }

    /// What the subscriber gets: the trades.
    pub fn step(&self, received: Received) -> (r: StreamStep<TradeMessage>)
        ensures
            is_selected(received, |message: WsMessage| trade_in(message), r),
    {
        only_trades(self.user.step(received))
    }
}

/// A subscription to midpoints for some assets.
#[derive(Debug)]
pub struct MidpointSubscription {
    books: OrderbookSubscription,
}

impl View for MidpointSubscription {
    type V = Seq<Seq<char>>;

    closed spec fn view(&self) -> Seq<Seq<char>> {
        self.books@
    }
}

/// The best bid and the best ask of an orderbook that a subscription for
/// `asset_ids` receives; `None` where what is received is no such orderbook.
pub open spec fn best_prices_in(received: Received, asset_ids: Seq<Seq<char>>) -> Option<
    ((int, nat), (int, nat)),
> {
    match received {
        Received::Message(WsMessage::Book(book)) => if asset_ids.contains(book.asset_id@) {
            best_prices(book@)
        } else {
            None
        },
        _ => None,
    }
}

/// What a subscription to midpoints answers.
pub open spec fn is_midpoint_answer(
    received: Received,
    asset_ids: Seq<Seq<char>>,
    step: StreamStep<MidpointUpdate>,
) -> bool {
    match received {
        Received::Message(message) => match best_prices_in(received, asset_ids) {
            Some((bid, ask)) => match (message, step) {
                (
                    WsMessage::Book(book),
                    StreamStep::Yield(Ok(update)),
                ) => is_midpoint_of(book@, bid, ask, update@),
                _ => false,
            },
            None => step is Skip,
        },
        Received::Failure(text) => step == StreamStep::Yield(
            Err::<MidpointUpdate, WsError>(WsError::InvalidMessage(text)),
        ),
        Received::Lagged(count) => step == StreamStep::Yield(
            Err::<MidpointUpdate, WsError>(WsError::Lagged { count }),
        ),
        Received::Closed => step is End,
    }
}

/// Whether what is received is an orderbook with a midpoint that no decimal
/// holds.
pub open spec fn answer_overflows(received: Received, asset_ids: Seq<Seq<char>>) -> bool {
    match best_prices_in(received, asset_ids) {
        Some((bid, ask)) => midpoint_value(bid, ask) is None,
        None => false,
    }
}

impl MidpointSubscription {
    /// The midpoints of a subscription to orderbook updates.
    pub fn new(books: OrderbookSubscription) -> (r: Self)
        ensures
            r@ == books@,
    {
        MidpointSubscription { books }
    }

    /// What the subscriber gets: the midpoints of the orderbooks that have one.
    pub fn step(&self, received: Received) -> (r: StreamStep<MidpointUpdate>)
        requires
            !answer_overflows(received, self@),
        ensures
            is_midpoint_answer(received, self@, r),
    {
        only_midpoints(self.books.step(received))
    }

    /// What the subscriber gets; `None` where no decimal holds the midpoint,
    /// which does not happen where the sum of the best prices fits.
    pub fn checked_step(&self, received: Received) -> (r: Option<StreamStep<MidpointUpdate>>)
        ensures
            best_prices_in(received, self@) matches Some((bid, ask)) ==> sum_fits(bid, ask)
                ==> r is Some,
            match r {
                Some(step) => !answer_overflows(received, self@) && is_midpoint_answer(
                    received,
                    self@,
                    step,
                ),
                None => answer_overflows(received, self@),
            },
    {
        if let Received::Message(WsMessage::Book(book)) = &received {
            if contains_text(&self.books.market.asset_ids, book.asset_id.as_str())
                && book.bids.len() > 0 && book.asks.len() > 0 {
                let bid = book.bids[0].price;
                let ask = book.asks[0].price;
                assert(best_prices(book@) == Some((bid@, ask@)));
                if checked_midpoint(bid, ask).is_none() {
                    return None;
                }
            }
        }
        Some(self.step(received))
    }
}

/// Whether an orderbook has its bids by descending price and its asks by
/// ascending price.
pub open spec fn is_sorted_book(book: BookView) -> bool {
    &&& forall|i: int, j: int|
        0 <= i <= j < book.bids.len() ==> units(#[trigger] book.bids[i].price) >= units(
            #[trigger] book.bids[j].price,
        )
    &&& forall|i: int, j: int|
        0 <= i <= j < book.asks.len() ==> units(#[trigger] book.asks[i].price) <= units(
            #[trigger] book.asks[j].price,
        )
}

/// A subscription to midpoints answers every sorted orderbook of its assets that
/// has both sides with one midpoint, between the highest bid and the lowest ask;
/// it is their mean wherever no rounding is needed. Where the sum of the two
/// does not fit in a decimal, the midpoint may lie outside of them.
pub proof fn law_midpoint_lies_between_the_best_prices(
    book: BookUpdate,
    asset_ids: Seq<Seq<char>>,
    step: StreamStep<MidpointUpdate>,
    i: int,
    j: int,
)
    requires
        is_midpoint_answer(Received::Message(WsMessage::Book(book)), asset_ids, step),
        asset_ids.contains(book.asset_id@),
        is_sorted_book(book@),
        0 <= i < book@.bids.len(),
        0 <= j < book@.asks.len(),
        sum_fits(book@.bids[0].price, book@.asks[0].price),
    ensures
        ({
            let bid = book@.bids[0].price;
            let ask = book@.asks[0].price;
            &&& units(book@.bids[i].price) <= units(bid)
            &&& units(ask) <= units(book@.asks[j].price)
            &&& step matches StreamStep::Yield(Ok(update)) && {
                &&& units(bid) <= units(ask) ==> units(bid) <= units(update@.midpoint) <= units(ask)
                &&& averages_exactly(bid, ask) ==> 2 * units(update@.midpoint) == units(bid)
                    + units(ask)
                &&& update@.asset_id == book@.asset_id
                &&& update@.market == book@.market
                &&& update@.timestamp == book@.timestamp
            }
        }),
{
}

/// A message goes to market data subscribers or to user subscribers, never to
/// both.
pub proof fn law_channels_are_separate(message: WsMessageView, asset_ids: Seq<Seq<char>>)
    ensures
        !(is_about(message, asset_ids) && message.is_user()),
{
}

/// Market data goes to every subscription that has its asset, and only to
/// those: of two subscriptions without a common asset, at most one gets it.
pub proof fn law_market_data_goes_by_asset(
    message: WsMessageView,
    a: Seq<Seq<char>>,
    b: Seq<Seq<char>>,
)
    requires
        forall|id: Seq<char>| !(a.contains(id) && b.contains(id)),
    ensures
        !(is_about(message, a) && is_about(message, b)),
        !message.is_user() ==> (is_about(message, a) <==> a.contains(message.market_asset()->0)),
{
}

/// What a subscription to one kind of message lets through is what is picked
/// from what a subscription to all of them lets through.
pub proof fn law_selecting_is_picking<T>(
    received: Received,
    wanted: spec_fn(WsMessageView) -> bool,
    pick: spec_fn(WsMessage) -> Option<T>,
    all: StreamStep<WsMessage>,
)
    requires
        is_filtered(received, wanted, all),
    ensures
        is_selected(
            received,
            |message: WsMessage|
                if wanted(message@) {
                    pick(message)
                } else {
                    None
                },
            picked(all, pick),
        ),
{
}

} // verus!
