//! From texts to messages.

use vstd::prelude::*;

use crate::decode::FromJson;
use crate::error::ParseError;
use crate::fault::FaultView;
use crate::interest::{MessageInterest, MessageKind};
use crate::json::{json_text, Json};
use crate::messages::{
    BatchView, BookUpdate, LastTradePrice, OrderMessage, PriceChange, PriceChangeBatch,
    TickSizeChange, TradeMessage, WsMessage, WsMessageView,
};
use crate::parse::{
    carried, failing_value, is_schema_error, kind_named, kind_of, message_kind, text_messages,
    value_fault, value_messages, values_messages,
};
use crate::text::trimmed;

verus! {

/// The six event types, and the kind that each stands for. No other text stands
/// for a kind.
pub proof fn law_event_types(event_type: Seq<char>)
    ensures
        kind_named(event_type) == Some(MessageKind::Book) <==> event_type == "book"@,
        kind_named(event_type) == Some(MessageKind::PriceChange) <==> event_type == "price_change"@,
        kind_named(event_type) == Some(MessageKind::TickSize)
            <==> event_type == "tick_size_change"@,
        kind_named(event_type) == Some(MessageKind::LastTradePrice) <==> event_type
            == "last_trade_price"@,
        kind_named(event_type) == Some(MessageKind::Trade) <==> event_type == "trade"@,
        kind_named(event_type) == Some(MessageKind::Order) <==> event_type == "order"@,
{
    reveal_strlit("book");
    reveal_strlit("price_change");
    reveal_strlit("tick_size_change");
    reveal_strlit("last_trade_price");
    reveal_strlit("trade");
    reveal_strlit("order");
    assert("book"@.len() == 4);
    assert("price_change"@.len() == 12);
    assert("tick_size_change"@.len() == 16);
    assert("last_trade_price"@.len() == 16);
    assert("trade"@.len() == 5);
    assert("order"@.len() == 5);
    assert("tick_size_change"@[0] == 't');
    assert("last_trade_price"@[0] == 'l');
    assert("trade"@[0] == 't');
    assert("order"@[0] == 'o');
}

/// Only an object with a string under `event_type` names a kind, and it is the
/// kind that the string stands for.
pub proof fn law_kind_of_a_value(tree: Json, members: Map<Seq<char>, Json>, event_type: Seq<char>)
    ensures
        members.get("event_type"@) == Some(Json::String(event_type)) ==> kind_of(
            Json::Object(members),
        ) == kind_named(event_type),
        kind_of(tree) is Some ==> {
            &&& tree is Object
            &&& tree->Object_0.get("event_type"@) is Some
            &&& tree->Object_0.get("event_type"@)->0 is String
        },
{
}

/// The kind of each message is that of its variant.
pub proof fn law_kind_of_a_message(message: WsMessageView)
    ensures
        message_kind(message) == MessageKind::Trade <==> message is Trade,
        message_kind(message) == MessageKind::Order <==> message is Order,
        message_kind(message) == MessageKind::PriceChange <==> message is PriceChange,
        message_kind(message) == MessageKind::TickSize <==> message is TickSizeChange,
        message_kind(message) == MessageKind::LastTradePrice <==> message is LastTradePrice,
        message_kind(message) == MessageKind::Book <==> message is Book,
{
}

/// An object that says it is an orderbook update, a tick size change, a last
/// trade price, a trade or an order gives that one message, if that is of
/// interest; it fails if it does not have the shape.
pub proof fn law_single_messages(members: Map<Seq<char>, Json>, interest: MessageInterest)
    ensures
        ({
            let tree = Json::Object(members);
            let event_type = members.get("event_type"@);
            &&& event_type == Some(Json::String("book"@)) && interest.book ==> value_messages(
                tree,
                interest,
            ) == match BookUpdate::decoded(tree) {
                Some(m) => Some(seq![WsMessageView::Book(m)]),
                None => None,
            }
            &&& event_type == Some(Json::String("tick_size_change"@)) && interest.tick_size
                ==> value_messages(tree, interest) == match TickSizeChange::decoded(tree) {
                Some(m) => Some(seq![WsMessageView::TickSizeChange(m)]),
                None => None,
            }
            &&& event_type == Some(Json::String("last_trade_price"@)) && interest.last_trade_price
                ==> value_messages(tree, interest) == match LastTradePrice::decoded(tree) {
                Some(m) => Some(seq![WsMessageView::LastTradePrice(m)]),
                None => None,
            }
            &&& event_type == Some(Json::String("trade"@)) && interest.trade ==> value_messages(
                tree,
                interest,
            ) == match TradeMessage::decoded(tree) {
                Some(m) => Some(seq![WsMessageView::Trade(m)]),
                None => None,
            }
            &&& event_type == Some(Json::String("order"@)) && interest.order ==> value_messages(
                tree,
                interest,
            ) == match OrderMessage::decoded(tree) {
                Some(m) => Some(seq![WsMessageView::Order(m)]),
                None => None,
            }
            &&& event_type == Some(Json::String("price_change"@)) && interest.price_change
                && !members.dom().contains("price_changes"@) ==> value_messages(tree, interest)
                == match PriceChange::decoded(tree) {
                Some(m) => Some(seq![WsMessageView::PriceChange(m)]),
                None => None,
            }
        }),
{
    law_event_types("book"@);
    law_event_types("price_change"@);
    law_event_types("tick_size_change"@);
    law_event_types("last_trade_price"@);
    law_event_types("trade"@);
    law_event_types("order"@);
}

/// An object that says it is of one of the six kinds, which is not of interest,
/// gives nothing and does not fail.
pub proof fn law_uninteresting_events(members: Map<Seq<char>, Json>, interest: MessageInterest)
    requires
        ({
            let event_type = members.get("event_type"@);
            ||| event_type == Some(Json::String("book"@)) && !interest.book
            ||| event_type == Some(Json::String("price_change"@)) && !interest.price_change
            ||| event_type == Some(Json::String("tick_size_change"@)) && !interest.tick_size
            ||| event_type == Some(Json::String("last_trade_price"@))
                && !interest.last_trade_price
            ||| event_type == Some(Json::String("trade"@)) && !interest.trade
            ||| event_type == Some(Json::String("order"@)) && !interest.order
        }),
    ensures
        value_messages(Json::Object(members), interest) == Some(Seq::<WsMessageView>::empty()),
{
    law_event_types("book"@);
    law_event_types("price_change"@);
    law_event_types("tick_size_change"@);
    law_event_types("last_trade_price"@);
    law_event_types("trade"@);
    law_event_types("order"@);
}

/// An object that says it is a price change and has the member `price_changes`
/// is a batch: it gives one price change for each entry, in order, with the
/// fields of the entry and the market and the timestamp of the batch.
pub proof fn law_batches(
    members: Map<Seq<char>, Json>,
    batch: BatchView,
    interest: MessageInterest,
    i: int,
)
    requires
        members.get("event_type"@) == Some(Json::String("price_change"@)),
        members.dom().contains("price_changes"@),
        interest.price_change,
    ensures
        PriceChangeBatch::decoded(Json::Object(members)) is None <==> value_messages(
            Json::Object(members),
            interest,
        ) is None,
        PriceChangeBatch::decoded(Json::Object(members)) == Some(batch) ==> {
            let messages = value_messages(Json::Object(members), interest)->0;
            &&& messages.len() == batch.price_changes.len()
            &&& 0 <= i < messages.len() ==> {
                &&& messages[i] is PriceChange
                &&& messages[i]->PriceChange_0.asset_id == batch.price_changes[i].asset_id
                &&& messages[i]->PriceChange_0.market == batch.market
                &&& messages[i]->PriceChange_0.price == batch.price_changes[i].price
                &&& messages[i]->PriceChange_0.size == batch.price_changes[i].size
                &&& messages[i]->PriceChange_0.side == batch.price_changes[i].side
                &&& messages[i]->PriceChange_0.timestamp == batch.timestamp
                &&& messages[i]->PriceChange_0.hash == batch.price_changes[i].hash
                &&& messages[i]->PriceChange_0.best_bid == batch.price_changes[i].best_bid
                &&& messages[i]->PriceChange_0.best_ask == batch.price_changes[i].best_ask
            }
        },
{
    law_event_types("price_change"@);
}

/// A value that names no kind is the first of the messages, in the order trade,
/// order, price change, tick size change, last trade price and orderbook
/// update, whose shape it has; it gives that message if it is of interest, and
/// nothing if it is not. It fails if it has the shape of none.
pub proof fn law_values_without_a_kind(tree: Json, interest: MessageInterest)
    requires
        kind_of(tree) is None,
    ensures
        ({
            let trade = TradeMessage::decoded(tree);
            let order = OrderMessage::decoded(tree);
            let price = PriceChange::decoded(tree);
            let tick = TickSizeChange::decoded(tree);
            let last = LastTradePrice::decoded(tree);
            let book = BookUpdate::decoded(tree);
            let messages = value_messages(tree, interest);
            &&& trade is Some ==> messages == Some(
                if interest.trade {
                    seq![WsMessageView::Trade(trade->0)]
                } else {
                    Seq::empty()
                },
            )
            &&& trade is None && order is Some ==> messages == Some(
                if interest.order {
                    seq![WsMessageView::Order(order->0)]
                } else {
                    Seq::empty()
                },
            )
            &&& trade is None && order is None && price is Some ==> messages == Some(
                if interest.price_change {
                    seq![WsMessageView::PriceChange(price->0)]
                } else {
                    Seq::empty()
                },
            )
            &&& trade is None && order is None && price is None
                && tick is Some ==> messages == Some(
                if interest.tick_size {
                    seq![WsMessageView::TickSizeChange(tick->0)]
                } else {
                    Seq::empty()
                },
            )
            &&& trade is None && order is None && price is None && tick is None && last is Some
                ==> messages == Some(
                if interest.last_trade_price {
                    seq![WsMessageView::LastTradePrice(last->0)]
                } else {
                    Seq::empty()
                },
            )
            &&& trade is None && order is None && price is None && tick is None && last is None
                && book is Some ==> messages == Some(
                if interest.book {
                    seq![WsMessageView::Book(book->0)]
                } else {
                    Seq::empty()
                },
            )
            &&& trade is None && order is None && price is None && tick is None && last is None
                && book is None ==> messages is None
        }),
{
}

/// The first of the shapes that a value has, whatever it says it is.
pub proof fn law_shapes(tree: Json)
    ensures
        TradeMessage::decoded(tree) is Some ==> WsMessage::decoded(tree) == Some(
            WsMessageView::Trade(TradeMessage::decoded(tree)->0),
        ),
        TradeMessage::decoded(tree) is None && OrderMessage::decoded(tree) is Some
            ==> WsMessage::decoded(tree) == Some(
            WsMessageView::Order(OrderMessage::decoded(tree)->0),
        ),
        TradeMessage::decoded(tree) is None && OrderMessage::decoded(tree) is None
            && PriceChange::decoded(tree) is Some ==> WsMessage::decoded(tree) == Some(
            WsMessageView::PriceChange(PriceChange::decoded(tree)->0),
        ),
        TradeMessage::decoded(tree) is None && OrderMessage::decoded(tree) is None
            && PriceChange::decoded(tree) is None && TickSizeChange::decoded(tree) is Some
            ==> WsMessage::decoded(tree) == Some(
            WsMessageView::TickSizeChange(TickSizeChange::decoded(tree)->0),
        ),
        TradeMessage::decoded(tree) is None && OrderMessage::decoded(tree) is None
            && PriceChange::decoded(tree) is None && TickSizeChange::decoded(tree) is None
            && LastTradePrice::decoded(tree) is Some ==> WsMessage::decoded(tree) == Some(
            WsMessageView::LastTradePrice(LastTradePrice::decoded(tree)->0),
        ),
        TradeMessage::decoded(tree) is None && OrderMessage::decoded(tree) is None
            && PriceChange::decoded(tree) is None && TickSizeChange::decoded(tree) is None
            && LastTradePrice::decoded(tree) is None ==> WsMessage::decoded(tree)
            == match BookUpdate::decoded(tree) {
            Some(book) => Some(WsMessageView::Book(book)),
            None => None,
        },
{
}

/// No values give no messages, and one value gives its own.
pub proof fn law_few_values(tree: Json, interest: MessageInterest)
    ensures
        values_messages(Seq::<Json>::empty(), interest) == Some(Seq::<WsMessageView>::empty()),
        values_messages(seq![tree], interest) == value_messages(tree, interest),
{
    reveal_with_fuel(values_messages, 2);
    assert(seq![tree].drop_last() =~= Seq::<Json>::empty());
    if let Some(messages) = value_messages(tree, interest) {
        assert(Seq::<WsMessageView>::empty() + messages =~= messages);
    }
}

/// The messages of several values are those of the first and then those of the
/// others; all fail where one fails.
pub proof fn law_more_values(first: Json, rest: Seq<Json>, interest: MessageInterest)
    ensures
        values_messages(seq![first] + rest, interest) is None <==> value_messages(
            first,
            interest,
        ) is None || values_messages(rest, interest) is None,
        values_messages(seq![first] + rest, interest) is Some ==> values_messages(
            seq![first] + rest,
            interest,
        )->0 == value_messages(first, interest)->0 + values_messages(rest, interest)->0,
{
    law_few_values(first, interest);
    crate::parse::law_values_concatenate(seq![first], rest, interest);
}

/// A text of white space has no messages, and one that is not JSON fails. A
/// text that opens an array has the messages of its items, and any other text
/// those of the value that it writes. White space around a text does not
/// matter.
pub proof fn law_texts(text: Seq<char>, items: Seq<Json>, tree: Json, interest: MessageInterest)
    ensures
        trimmed(text).len() == 0 ==> text_messages(text, interest) == Some(
            Seq::<WsMessageView>::empty(),
        ),
        trimmed(text).len() > 0 && json_text(trimmed(text)) is None ==> text_messages(
            text,
            interest,
        ) is None,
        trimmed(text).len() > 0 && trimmed(text)[0] == '[' && json_text(trimmed(text)) == Some(
            Json::Array(items),
        ) ==> text_messages(text, interest) == values_messages(items, interest),
        trimmed(text).len() > 0 && trimmed(text)[0] != '[' && json_text(trimmed(text)) == Some(tree)
            ==> text_messages(text, interest) == value_messages(tree, interest),
{
    law_few_values(tree, interest);
}

/// The values that a text carries: the items of the array that it opens, or the
/// one value that it writes.
pub proof fn law_carried_values(body: Seq<char>, items: Seq<Json>, tree: Json)
    ensures
        body[0] == '[' ==> carried(body, Json::Array(items)) == items,
        body[0] != '[' ==> carried(body, tree) == seq![tree],
{
}

/// The value that is told of is the first that fails.
pub proof fn law_first_failing_value(trees: Seq<Json>, interest: MessageInterest) -> (i: int)
    requires
        values_messages(trees, interest) is None,
    ensures
        0 <= i < trees.len(),
        failing_value(trees, interest) == trees[i],
        value_messages(trees[i], interest) is None,
        forall|k: int| 0 <= k < i ==> value_messages(#[trigger] trees[k], interest) is Some,
    decreases trees.len(),
{
    let rest = trees.drop_last();
    if values_messages(rest, interest) is None {
        let i = law_first_failing_value(rest, interest);
        assert(trees[i] == rest[i]);
        assert forall|k: int| 0 <= k < i implies value_messages(
            #[trigger] trees[k],
            interest,
        ) is Some by {
            assert(rest[k] == trees[k]);
        }
        i
    } else {
        lemma_all_succeed(rest, interest);
        assert forall|k: int| 0 <= k < rest.len() implies value_messages(
            #[trigger] trees[k],
            interest,
        ) is Some by {
            assert(rest[k] == trees[k]);
        }
        trees.len() - 1
    }
}

/// Where values do not fail together, none of them fails.
proof fn lemma_all_succeed(trees: Seq<Json>, interest: MessageInterest)
    requires
        values_messages(trees, interest) is Some,
    ensures
        forall|k: int| 0 <= k < trees.len()
            ==> value_messages(#[trigger] trees[k], interest) is Some,
    decreases trees.len(),
{
    if trees.len() > 0 {
        let rest = trees.drop_last();
        lemma_all_succeed(rest, interest);
        assert forall|k: int| 0 <= k < trees.len() implies value_messages(
            #[trigger] trees[k],
            interest,
        ) is Some by {
            if k < rest.len() {
                assert(rest[k] == trees[k]);
            }
        }
    }
}

/// What is told of a value that fails is the kind that it names and its fault
/// as a message of that kind; of a value that names none, that it has no shape.
pub proof fn law_account_of_a_failure(
    members: Map<Seq<char>, Json>,
    error: ParseError,
    tree: Json,
)
    ensures
        is_schema_error(error, tree) ==> {
            &&& error is Schema
            &&& error->Schema_kind == kind_of(tree)
            &&& error->Schema_fault@ == value_fault(tree)
        },
        kind_of(tree) is None ==> value_fault(tree) == FaultView::NoVariant,
        ({
            let object = Json::Object(members);
            let event_type = members.get("event_type"@);
            &&& event_type == Some(Json::String("book"@)) ==> value_fault(object)
                == BookUpdate::explained(object)
            &&& event_type == Some(Json::String("tick_size_change"@)) ==> value_fault(object)
                == TickSizeChange::explained(object)
            &&& event_type == Some(Json::String("last_trade_price"@)) ==> value_fault(object)
                == LastTradePrice::explained(object)
            &&& event_type == Some(Json::String("trade"@)) ==> value_fault(object)
                == TradeMessage::explained(object)
            &&& event_type == Some(Json::String("order"@)) ==> value_fault(object)
                == OrderMessage::explained(object)
            &&& event_type == Some(Json::String("price_change"@)) && members.dom().contains(
                "price_changes"@,
            ) ==> value_fault(object) == PriceChangeBatch::explained(object)
            &&& event_type == Some(Json::String("price_change"@)) && !members.dom().contains(
                "price_changes"@,
            ) ==> value_fault(object) == PriceChange::explained(object)
        }),
{
    law_event_types("book"@);
    law_event_types("price_change"@);
    law_event_types("tick_size_change"@);
    law_event_types("last_trade_price"@);
    law_event_types("trade"@);
    law_event_types("order"@);
}

} // verus!
