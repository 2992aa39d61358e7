//! Which kinds of messages anybody is waiting for.

use vstd::prelude::*;

verus! {

/// The kinds of messages that the server marks with an event type.
#[derive(Debug, Clone, Copy, PartialEq, Eq, Structural)]
pub enum MessageKind {
    /// Orderbook update
    Book,
    /// Price change, or a batch of them
    PriceChange,
    /// Tick size change
    TickSize,
    /// Last trade price
    LastTradePrice,
    /// User trade
    Trade,
    /// User order
    Order,
}

/// A set of message kinds.
#[derive(Debug, Clone, Copy, PartialEq, Eq, Structural)]
pub struct MessageInterest {
    /// Orderbook updates
    pub book: bool,
    /// Price changes
    pub price_change: bool,
    /// Tick size changes
    pub tick_size: bool,
    /// Last trade prices
    pub last_trade_price: bool,
    /// User trades
    pub trade: bool,
    /// User orders
    pub order: bool,
}

impl MessageInterest {
    /// Whether `kind` is in the set.
    pub open spec fn has(self, kind: MessageKind) -> bool {
        match kind {
            MessageKind::Book => self.book,
            MessageKind::PriceChange => self.price_change,
            MessageKind::TickSize => self.tick_size,
            MessageKind::LastTradePrice => self.last_trade_price,
            MessageKind::Trade => self.trade,
            MessageKind::Order => self.order,
        }
    }

    /// The kinds that are in either set.
    pub open spec fn with(self, other: MessageInterest) -> MessageInterest {
        MessageInterest {
            book: self.book || other.book,
            price_change: self.price_change || other.price_change,
            tick_size: self.tick_size || other.tick_size,
            last_trade_price: self.last_trade_price || other.last_trade_price,
            trade: self.trade || other.trade,
            order: self.order || other.order,
        }
    }

    /// No kind at all.
    pub open spec fn empty() -> MessageInterest {
        MessageInterest {
            book: false,
            price_change: false,
            tick_size: false,
            last_trade_price: false,
            trade: false,
            order: false,
        }
    }

    /// The kinds of the market channel.
    pub open spec fn market_kinds() -> MessageInterest {
        MessageInterest {
            book: true,
            price_change: true,
            tick_size: true,
            last_trade_price: true,
            trade: false,
            order: false,
        }
    }

    /// The kinds of the user channel.
    pub open spec fn user_kinds() -> MessageInterest {
        MessageInterest {
            book: false,
            price_change: false,
            tick_size: false,
            last_trade_price: false,
            trade: true,
            order: true,
        }
    }

    /// No kind at all.
    pub fn none() -> (r: Self)
        ensures
            r == MessageInterest::empty(),
            forall|kind: MessageKind| !#[trigger] r.has(kind),
    {
        MessageInterest {
            book: false,
            price_change: false,
            tick_size: false,
            last_trade_price: false,
            trade: false,
            order: false,
        }
    }

    /// Every kind.
    pub fn all() -> (r: Self)
        ensures
            forall|kind: MessageKind| #[trigger] r.has(kind),
    {
        MessageInterest {
            book: true,
            price_change: true,
            tick_size: true,
            last_trade_price: true,
            trade: true,
            order: true,
        }
    }

    /// The kinds of the market channel.
    pub fn market() -> (r: Self)
        ensures
            r == MessageInterest::market_kinds(),
            forall|kind: MessageKind|
                #[trigger] r.has(kind) == !(kind is Trade || kind is Order),
    {
        MessageInterest {
            book: true,
            price_change: true,
            tick_size: true,
            last_trade_price: true,
            trade: false,
            order: false,
        }
    }

    /// The kinds of the user channel.
    pub fn user() -> (r: Self)
        ensures
            r == MessageInterest::user_kinds(),
            forall|kind: MessageKind| #[trigger] r.has(kind) == (kind is Trade || kind is Order),
    {
        MessageInterest {
            book: false,
            price_change: false,
            tick_size: false,
            last_trade_price: false,
            trade: true,
            order: true,
        }
    }

    /// Whether `kind` is in the set.
    pub fn wants(&self, kind: MessageKind) -> (r: bool)
        ensures
            r == self.has(kind),
    {
        match kind {
            MessageKind::Book => self.book,
            MessageKind::PriceChange => self.price_change,
            MessageKind::TickSize => self.tick_size,
            MessageKind::LastTradePrice => self.last_trade_price,
            MessageKind::Trade => self.trade,
            MessageKind::Order => self.order,
        }
    }

    /// Whether every kind of `other` is in the set.
    pub fn contains(&self, other: MessageInterest) -> (r: bool)
        ensures
            r == (forall|kind: MessageKind| #[trigger] other.has(kind) ==> self.has(kind)),
    {
        let r = (!other.book || self.book) && (!other.price_change || self.price_change) && (
        !other.tick_size || self.tick_size) && (!other.last_trade_price || self.last_trade_price)
            && (!other.trade || self.trade) && (!other.order || self.order);
        proof {
            if !r {
                assert(other.has(MessageKind::Book) && !self.has(MessageKind::Book) || other.has(
                    MessageKind::PriceChange,
                ) && !self.has(MessageKind::PriceChange) || other.has(MessageKind::TickSize)
                    && !self.has(MessageKind::TickSize) || other.has(MessageKind::LastTradePrice)
                    && !self.has(MessageKind::LastTradePrice) || other.has(MessageKind::Trade)
                    && !self.has(MessageKind::Trade) || other.has(MessageKind::Order) && !self.has(
                    MessageKind::Order,
                ));
            }
        }
        r
    }

    /// The kinds that are in either set.
    pub fn union(&self, other: MessageInterest) -> (r: Self)
        ensures
            r == self.with(other),
            forall|kind: MessageKind|
                #[trigger] r.has(kind) == (self.has(kind) || other.has(kind)),
    {
        MessageInterest {
            book: self.book || other.book,
            price_change: self.price_change || other.price_change,
            tick_size: self.tick_size || other.tick_size,
            last_trade_price: self.last_trade_price || other.last_trade_price,
            trade: self.trade || other.trade,
            order: self.order || other.order,
        }
    }
}

/// Collects the message kinds that subscriptions have asked for.
#[derive(Debug)]
pub struct InterestTracker {
    interest: MessageInterest,
}

impl InterestTracker {
    /// The kinds collected so far.
    pub closed spec fn interest(self) -> MessageInterest {
        self.interest
    }

    /// A tracker that has collected nothing.
    pub fn new() -> (r: Self)
        ensures
            r.interest() == MessageInterest::empty(),
    {
        InterestTracker { interest: MessageInterest::none() }
    }

    /// Adds the kinds of `interest`; none is ever taken away.
    pub fn add(&mut self, interest: MessageInterest)
        ensures
            final(self).interest() == old(self).interest().with(interest),
    {
        self.interest = self.interest.union(interest);
    }

    /// The kinds collected so far.
    pub fn get(&self) -> (r: MessageInterest)
        ensures
            r == self.interest(),
    {
        self.interest
    }
}

/// Interest only grows: a kind that was of interest stays so, and so does every
/// kind that is added.
pub proof fn law_interest_only_grows(a: MessageInterest, b: MessageInterest, kind: MessageKind)
    ensures
        a.with(b).has(kind) <==> a.has(kind) || b.has(kind),
{
}

} // verus!
