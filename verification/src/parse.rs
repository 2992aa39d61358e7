//! From the texts that the server sends to messages.

use vstd::prelude::*;
use vstd::string::*;

use crate::decode::{text_of, FromJson};
use crate::error::ParseError;
use crate::fault::{Fault, FaultView};
use crate::interest::{MessageInterest, MessageKind};
use crate::json::{json_text, json_tree, json_trees, member, member_of, read_value, Json};
use crate::messages::{
    batch_changes, change_views, message_views, BatchEntryView, BatchView, BookUpdate,
    LastTradePrice, OrderMessage, PriceChange, PriceChangeBatch, PriceChangeView, TickSizeChange,
    TradeMessage, WsMessage, WsMessageView,
};
use crate::text::{lemma_trimmed_twice, same_text, trim, trimmed};

verus! {

/// The kind of message that an event type stands for.
pub open spec fn kind_named(event_type: Seq<char>) -> Option<MessageKind> {
    if event_type == "book"@ {
        Some(MessageKind::Book)
    } else if event_type == "price_change"@ {
        Some(MessageKind::PriceChange)
    } else if event_type == "tick_size_change"@ {
        Some(MessageKind::TickSize)
    } else if event_type == "last_trade_price"@ {
        Some(MessageKind::LastTradePrice)
    } else if event_type == "trade"@ {
        Some(MessageKind::Trade)
    } else if event_type == "order"@ {
        Some(MessageKind::Order)
    } else {
        None
    }
}

/// The kind of message that a value says it is; `None` where it has no event
/// type, or one that stands for no kind.
pub open spec fn kind_of(tree: Json) -> Option<MessageKind> {
    match text_of(member_of(tree, "event_type"@)) {
        Some(event_type) => kind_named(event_type),
        None => None,
    }
}

/// Price changes as messages.
pub open spec fn change_messages(changes: Seq<PriceChangeView>) -> Seq<WsMessageView> {
    changes.map_values(|change: PriceChangeView| WsMessageView::PriceChange(change))
}

/// The messages of a value that says it is of the kind `kind`. A price change
/// with the member `price_changes` is a batch, and stands for one message per
/// entry. `None` where the value does not have the shape that it should.
pub open spec fn tagged_messages(tree: Json, kind: MessageKind) -> Option<Seq<WsMessageView>> {
    match kind {
        MessageKind::Book => match BookUpdate::decoded(tree) {
            Some(m) => Some(seq![WsMessageView::Book(m)]),
            None => None,
        },
        MessageKind::PriceChange => if member_of(tree, "price_changes"@) is Some {
            match PriceChangeBatch::decoded(tree) {
                Some(batch) => Some(change_messages(batch_changes(batch))),
                None => None,
            }
        } else {
            match PriceChange::decoded(tree) {
                Some(m) => Some(seq![WsMessageView::PriceChange(m)]),
                None => None,
            }
        },
        MessageKind::TickSize => match TickSizeChange::decoded(tree) {
            Some(m) => Some(seq![WsMessageView::TickSizeChange(m)]),
            None => None,
        },
        MessageKind::LastTradePrice => match LastTradePrice::decoded(tree) {
            Some(m) => Some(seq![WsMessageView::LastTradePrice(m)]),
            None => None,
        },
        MessageKind::Trade => match TradeMessage::decoded(tree) {
            Some(m) => Some(seq![WsMessageView::Trade(m)]),
            None => None,
        },
        MessageKind::Order => match OrderMessage::decoded(tree) {
            Some(m) => Some(seq![WsMessageView::Order(m)]),
            None => None,
        },
    }
}

/// The kind that a message is of.
pub open spec fn message_kind(message: WsMessageView) -> MessageKind {
    match message {
        WsMessageView::Trade(_) => MessageKind::Trade,
        WsMessageView::Order(_) => MessageKind::Order,
        WsMessageView::PriceChange(_) => MessageKind::PriceChange,
        WsMessageView::TickSizeChange(_) => MessageKind::TickSize,
        WsMessageView::LastTradePrice(_) => MessageKind::LastTradePrice,
        WsMessageView::Book(_) => MessageKind::Book,
    }
}

/// The messages of a value, as far as they are of interest. A value that names
/// a kind of no interest is skipped, whatever else it holds. One that names no
/// kind is the message whose shape it has.
pub open spec fn value_messages(tree: Json, interest: MessageInterest) -> Option<
    Seq<WsMessageView>,
> {
    match kind_of(tree) {
        Some(kind) => if interest.has(kind) {
            tagged_messages(tree, kind)
        } else {
            Some(Seq::empty())
        },
        None => match WsMessage::decoded(tree) {
            Some(m) => if interest.has(message_kind(m)) {
                Some(seq![m])
            } else {
                Some(Seq::empty())
            },
            None => None,
        },
    }
}

/// The messages of several values, in order; `None` where one of the values is
/// not of the right shape.
pub open spec fn values_messages(trees: Seq<Json>, interest: MessageInterest) -> Option<
    Seq<WsMessageView>,
>
    decreases trees.len(),
{
    if trees.len() == 0 {
        Some(Seq::empty())
    } else {
        match (
            values_messages(trees.drop_last(), interest),
            value_messages(trees.last(), interest),
        ) {
            (Some(before), Some(last)) => Some(before + last),
            _ => None,
        }
    }
}

/// The first value of the wrong shape, where one of the values has it.
pub open spec fn failing_value(trees: Seq<Json>, interest: MessageInterest) -> Json
    decreases trees.len(),
{
    if trees.len() == 0 {
        Json::Null
    } else if values_messages(trees.drop_last(), interest) is None {
        failing_value(trees.drop_last(), interest)
    } else {
        trees.last()
    }
}

/// What is wrong with a value of the wrong shape: the fault that is met first
/// when it is read as what it says it is.
pub open spec fn value_fault(tree: Json) -> FaultView {
    match kind_of(tree) {
        Some(MessageKind::Book) => BookUpdate::explained(tree),
        Some(MessageKind::PriceChange) => if member_of(tree, "price_changes"@) is Some {
            PriceChangeBatch::explained(tree)
        } else {
            PriceChange::explained(tree)
        },
        Some(MessageKind::TickSize) => TickSizeChange::explained(tree),
        Some(MessageKind::LastTradePrice) => LastTradePrice::explained(tree),
        Some(MessageKind::Trade) => TradeMessage::explained(tree),
        Some(MessageKind::Order) => OrderMessage::explained(tree),
        None => WsMessage::explained(tree),
    }
}

/// Whether `error` is the account of a value of the wrong shape: the kind of
/// message that it says it is, and what is wrong with it.
pub open spec fn is_schema_error(error: ParseError, tree: Json) -> bool {
    match error {
        ParseError::Schema { kind, fault } => kind == kind_of(tree) && fault@ == value_fault(tree),
        _ => false,
    }
}

/// The values that a JSON text carries: the items of an array, where the text
/// opens one, and else the value that it writes.
pub open spec fn carried(body: Seq<char>, tree: Json) -> Seq<Json> {
    match tree {
        Json::Array(items) if body[0] == '[' => items,
        _ => seq![tree],
    }
}

/// The messages of a text, blanks around it left aside. A text of blanks has
/// none. `None` where the text is not JSON or one of its values is not of the
/// right shape.
pub open spec fn text_messages(text: Seq<char>, interest: MessageInterest) -> Option<
    Seq<WsMessageView>,
> {
    let body = trimmed(text);
    if body.len() == 0 {
        Some(Seq::empty())
    } else {
        match json_text(body) {
            Some(tree) => values_messages(carried(body, tree), interest),
            None => None,
        }
    }
}

/// Without an event type that stands for a kind, a value is the first of the
/// messages, in the order of the variants, whose shape it has.
impl FromJson for WsMessage {
    open spec fn decoded(tree: Json) -> Option<WsMessageView> {
        if let Some(m) = TradeMessage::decoded(tree) {
            Some(WsMessageView::Trade(m))
        } else if let Some(m) = OrderMessage::decoded(tree) {
            Some(WsMessageView::Order(m))
        } else if let Some(m) = PriceChange::decoded(tree) {
            Some(WsMessageView::PriceChange(m))
        } else if let Some(m) = TickSizeChange::decoded(tree) {
            Some(WsMessageView::TickSizeChange(m))
        } else if let Some(m) = LastTradePrice::decoded(tree) {
            Some(WsMessageView::LastTradePrice(m))
        } else if let Some(m) = BookUpdate::decoded(tree) {
            Some(WsMessageView::Book(m))
        } else {
            None
        }
    }

    fn from_json(value: &serde_json::Value) -> (r: Option<Self>) {
        if let Some(m) = TradeMessage::from_json(value) {
            Some(WsMessage::Trade(m))
        } else if let Some(m) = OrderMessage::from_json(value) {
            Some(WsMessage::Order(m))
        } else if let Some(m) = PriceChange::from_json(value) {
            Some(WsMessage::PriceChange(m))
        } else if let Some(m) = TickSizeChange::from_json(value) {
            Some(WsMessage::TickSizeChange(m))
        } else if let Some(m) = LastTradePrice::from_json(value) {
            Some(WsMessage::LastTradePrice(m))
        } else if let Some(m) = BookUpdate::from_json(value) {
            Some(WsMessage::Book(m))
        } else {
            None
        }
    }

    open spec fn explained(tree: Json) -> FaultView {
        FaultView::NoVariant
    }

    fn explain(value: &serde_json::Value) -> (r: Fault) {
        Fault::NoVariant
    }
}

/// The kind of message that a value says it is.
fn event_kind(value: &serde_json::Value) -> (r: Option<MessageKind>)
    ensures
        r == kind_of(json_tree(*value)),
{
    let event_type = member(value, "event_type")?.as_str()?;
    if same_text(event_type, "book") {
        Some(MessageKind::Book)
    } else if same_text(event_type, "price_change") {
        Some(MessageKind::PriceChange)
    } else if same_text(event_type, "tick_size_change") {
        Some(MessageKind::TickSize)
    } else if same_text(event_type, "last_trade_price") {
        Some(MessageKind::LastTradePrice)
    } else if same_text(event_type, "trade") {
        Some(MessageKind::Trade)
    } else if same_text(event_type, "order") {
        Some(MessageKind::Order)
    } else {
        None
    }
}

/// The kind that a message is of.
fn kind_of_message(message: &WsMessage) -> (r: MessageKind)
    ensures
        r == message_kind(message@),
{
    match message {
        WsMessage::Trade(_) => MessageKind::Trade,
        WsMessage::Order(_) => MessageKind::Order,
        WsMessage::PriceChange(_) => MessageKind::PriceChange,
        WsMessage::TickSizeChange(_) => MessageKind::TickSize,
        WsMessage::LastTradePrice(_) => MessageKind::LastTradePrice,
        WsMessage::Book(_) => MessageKind::Book,
    }
}

/// No messages.
fn none() -> (r: Vec<WsMessage>)
    ensures
        message_views(r@) == Seq::<WsMessageView>::empty(),
{
    let messages: Vec<WsMessage> = Vec::new();
    assert(message_views(messages@) =~= Seq::<WsMessageView>::empty());
    messages
}

/// A message as the only one of a list.
fn only(message: WsMessage) -> (r: Vec<WsMessage>)
    ensures
        message_views(r@) == seq![message@],
{
    let mut messages: Vec<WsMessage> = Vec::new();
    messages.push(message);
    messages
}

/// The price changes of a batch as messages.
fn batch_messages(batch: PriceChangeBatch) -> (r: Vec<WsMessage>)
    ensures
        message_views(r@) == change_messages(batch_changes(batch@)),
{
    let changes = batch.into_price_changes();
    let ghost expected = change_messages(change_views(changes@));
    let ghost all = changes@;
    let mut messages: Vec<WsMessage> = Vec::new();
    for change in it: changes
        invariant
            it.seq() == all,
            expected == change_messages(change_views(all)),
            messages.len() == it.index(),
            forall|k: int|
                0 <= k < messages.len() ==> (#[trigger] messages@[k])@ == expected[k],
    {
        messages.push(WsMessage::PriceChange(change));
    }
    assert(message_views(messages@) =~= expected);
    messages
}

/// Parse a single value into messages.
///
/// Routes by the event type, so that a value of a kind that is of no interest
/// is skipped unread. Without an event type that stands for a kind, the message
/// is read by its shape, and skipped where its kind is of no interest.
pub fn parse_ws_value(value: &serde_json::Value, interest: MessageInterest) -> (r: Result<
    Vec<WsMessage>,
    ParseError,
>)
    ensures
        match r {
            Ok(messages) => value_messages(json_tree(*value), interest) == Some(
                message_views(messages@),
            ),
            Err(error) => is_schema_error(error, json_tree(*value)) && value_messages(
                json_tree(*value),
                interest,
            ) is None,
        },
{
    let kind = match event_kind(value) {
        Some(kind) => kind,
        None => {
            return match WsMessage::from_json(value) {
                Some(message) => if interest.wants(kind_of_message(&message)) {
                    Ok(only(message))
                } else {
                    Ok(none())
                },
                None => Err(
                    ParseError::Schema { kind: None, fault: WsMessage::explain(value) },
                ),
            };
        },
    };
    if !interest.wants(kind) {
        return Ok(none());
    }
    let read = match kind {
        MessageKind::Book => match BookUpdate::from_json(value) {
            Some(m) => Ok(only(WsMessage::Book(m))),
            None => Err(BookUpdate::explain(value)),
        },
        MessageKind::PriceChange => if member(value, "price_changes").is_some() {
            match PriceChangeBatch::from_json(value) {
                Some(batch) => Ok(batch_messages(batch)),
                None => Err(PriceChangeBatch::explain(value)),
            }
        } else {
            match PriceChange::from_json(value) {
                Some(m) => Ok(only(WsMessage::PriceChange(m))),
                None => Err(PriceChange::explain(value)),
            }
        },
        MessageKind::TickSize => match TickSizeChange::from_json(value) {
            Some(m) => Ok(only(WsMessage::TickSizeChange(m))),
            None => Err(TickSizeChange::explain(value)),
        },
        MessageKind::LastTradePrice => match LastTradePrice::from_json(value) {
            Some(m) => Ok(only(WsMessage::LastTradePrice(m))),
            None => Err(LastTradePrice::explain(value)),
        },
        MessageKind::Trade => match TradeMessage::from_json(value) {
            Some(m) => Ok(only(WsMessage::Trade(m))),
            None => Err(TradeMessage::explain(value)),
        },
        MessageKind::Order => match OrderMessage::from_json(value) {
            Some(m) => Ok(only(WsMessage::Order(m))),
            None => Err(OrderMessage::explain(value)),
        },
    };
    match read {
        Ok(messages) => Ok(messages),
        Err(fault) => Err(ParseError::Schema { kind: Some(kind), fault }),
    }
}

/// Where the first values do not all have the right shape, no messages come of
/// the whole.
proof fn lemma_prefix_fails(trees: Seq<Json>, n: int, interest: MessageInterest)
    requires
        0 <= n <= trees.len(),
        values_messages(trees.take(n), interest) is None,
    ensures
        values_messages(trees, interest) is None,
        failing_value(trees, interest) == failing_value(trees.take(n), interest),
    decreases trees.len(),
{
    if n == trees.len() {
        assert(trees.take(n) =~= trees);
    } else {
        assert(trees.drop_last().take(n) =~= trees.take(n));
        lemma_prefix_fails(trees.drop_last(), n, interest);
    }
}

/// Parse several values into messages.
pub fn parse_ws_values(values: &Vec<serde_json::Value>, interest: MessageInterest) -> (r: Result<
    Vec<WsMessage>,
    ParseError,
>)
    ensures
        match r {
            Ok(messages) => values_messages(json_trees(values@), interest) == Some(
                message_views(messages@),
            ),
            Err(error) => is_schema_error(
                error,
                failing_value(json_trees(values@), interest),
            ) && values_messages(json_trees(values@), interest) is None,
        },
{
    let ghost trees = json_trees(values@);
    let mut messages = none();
    let mut i: usize = 0;
    while i < values.len()
        invariant
            i <= values.len(),
            trees == json_trees(values@),
            values_messages(trees.take(i as int), interest) == Some(message_views(messages@)),
        decreases values.len() - i,
    {
        assert(trees.take(i + 1).drop_last() =~= trees.take(i as int));
        assert(trees.take(i + 1).last() == json_tree(values@[i as int]));
        match parse_ws_value(&values[i], interest) {
            Ok(mut more) => {
                let ghost before = messages@;
                let ghost added = more@;
                messages.append(&mut more);
                assert(message_views(messages@) =~= message_views(before) + message_views(added));
            },
            Err(error) => {
                proof {
                    lemma_prefix_fails(trees, i + 1, interest);
                }
                return Err(error);
            },
        }
        i = i + 1;
    }
    assert(trees.take(i as int) =~= trees);
    Ok(messages)
}

/// Parse a raw WebSocket message string into messages.
///
/// Values of a kind that is of no interest are skipped. Where one value is not
/// of the right shape, the whole text gives no messages.
pub fn parse_ws_text(text: &str, interest: MessageInterest) -> (r: Result<
    Vec<WsMessage>,
    ParseError,
>)
    ensures
        match r {
            Ok(messages) => text_messages(text@, interest) == Some(message_views(messages@)),
            Err(ParseError::Syntax(_)) => trimmed(text@).len() > 0 && json_text(
                trimmed(text@),
            ) is None,
            Err(error) => {
                &&& trimmed(text@).len() > 0
                &&& text_messages(text@, interest) is None
                &&& json_text(trimmed(text@)) matches Some(tree) && is_schema_error(
                    error,
                    failing_value(carried(trimmed(text@), tree), interest),
                )
            },
        },
{
    let body = trim(text);
    if body.unicode_len() == 0 {
        return Ok(none());
    }
    let value = match read_value(body) {
        Ok(value) => value,
        Err(error) => {
            return Err(ParseError::Syntax(error));
        },
    };
    if body.get_char(0) == '[' {
        if let Some(items) = value.as_array() {
            return parse_ws_values(items, interest);
        }
    }
    proof {
        let trees = seq![json_tree(value)];
        assert(trees.drop_last() =~= Seq::<Json>::empty());
        let last = value_messages(trees.last(), interest);
        if last is Some {
            assert(Seq::<WsMessageView>::empty() + last->0 =~= last->0);
        }
        reveal_with_fuel(values_messages, 2);
        assert(values_messages(trees, interest) == last);
    }
    parse_ws_value(&value, interest)
}

/// The event type that stands for a kind.
pub open spec fn event_name(kind: MessageKind) -> Seq<char> {
    match kind {
        MessageKind::Book => "book"@,
        MessageKind::PriceChange => "price_change"@,
        MessageKind::TickSize => "tick_size_change"@,
        MessageKind::LastTradePrice => "last_trade_price"@,
        MessageKind::Trade => "trade"@,
        MessageKind::Order => "order"@,
    }
}

/// Each kind has one event type, and each of the six event types one kind.
pub proof fn law_event_names(event_type: Seq<char>, kind: MessageKind)
    ensures
        kind_named(event_type) == Some(kind) <==> event_type == event_name(kind),
{
    reveal_strlit("book");
    reveal_strlit("price_change");
    reveal_strlit("tick_size_change");
    reveal_strlit("last_trade_price");
    reveal_strlit("trade");
    reveal_strlit("order");
    assert("book"@.len() == 4);
    assert("price_change"@.len() == 12);
    assert("tick_size_change"@.len() == 16);
    assert("last_trade_price"@.len() == 16);
    assert("trade"@.len() == 5);
    assert("order"@.len() == 5);
    assert("tick_size_change"@[0] == 't');
    assert("last_trade_price"@[0] == 'l');
    assert("trade"@[0] == 't');
    assert("order"@[0] == 'o');
}

/// A value that says it is of a kind of no interest is skipped: it gives no
/// messages and no error, whatever else it holds.
pub proof fn law_uninteresting_is_skipped(tree: Json, kind: MessageKind, interest: MessageInterest)
    requires
        kind_of(tree) == Some(kind),
        !interest.has(kind),
    ensures
        value_messages(tree, interest) == Some(Seq::<WsMessageView>::empty()),
{
}

/// What does not match the interest is skipped: every message of a value is of
/// a kind that is of interest, whether the value names its kind or not.
pub proof fn law_messages_match_the_interest(tree: Json, interest: MessageInterest, i: int)
    requires
        value_messages(tree, interest) is Some,
        0 <= i < value_messages(tree, interest)->0.len(),
    ensures
        interest.has(message_kind(value_messages(tree, interest)->0[i])),
{
}

/// Whether every message of a list is of a kind that is of interest.
pub open spec fn all_match(messages: Seq<WsMessageView>, interest: MessageInterest) -> bool {
    forall|i: int|
        0 <= i < messages.len() ==> interest.has(message_kind(#[trigger] messages[i]))
}

/// Every message of several values, and so every message of a text, is of a
/// kind that is of interest.
pub proof fn law_all_messages_match_the_interest(trees: Seq<Json>, interest: MessageInterest)
    ensures
        values_messages(trees, interest) matches Some(messages) ==> all_match(messages, interest),
    decreases trees.len(),
{
    if trees.len() > 0 {
        law_all_messages_match_the_interest(trees.drop_last(), interest);
        if let Some(last) = value_messages(trees.last(), interest) {
            assert forall|i: int| 0 <= i < last.len() implies interest.has(
                message_kind(#[trigger] last[i]),
            ) by {
                law_messages_match_the_interest(trees.last(), interest, i);
            }
        }
    }
}

/// The interest only selects: where a value gives messages under one interest,
/// it gives the same under another, if their kind is of interest there too, and
/// none if it is not.
pub proof fn law_interest_only_selects(tree: Json, a: MessageInterest, b: MessageInterest, i: int)
    requires
        value_messages(tree, a) is Some,
        0 <= i < value_messages(tree, a)->0.len(),
    ensures
        value_messages(tree, b) == if b.has(message_kind(value_messages(tree, a)->0[i])) {
            value_messages(tree, a)
        } else {
            Some(Seq::empty())
        },
{
}

/// The messages that are of interest, in order.
pub open spec fn selected(messages: Seq<WsMessageView>, interest: MessageInterest) -> Seq<
    WsMessageView,
>
    decreases messages.len(),
{
    if messages.len() == 0 {
        Seq::empty()
    } else {
        let before = selected(messages.drop_last(), interest);
        if interest.has(message_kind(messages.last())) {
            before.push(messages.last())
        } else {
            before
        }
    }
}

/// Selecting goes list by list.
proof fn lemma_selected_adds_up(
    a: Seq<WsMessageView>,
    b: Seq<WsMessageView>,
    interest: MessageInterest,
)
    ensures
        selected(a + b, interest) == selected(a, interest) + selected(b, interest),
    decreases b.len(),
{
    if b.len() == 0 {
        assert(a + b =~= a);
        assert(selected(a, interest) + Seq::<WsMessageView>::empty() =~= selected(a, interest));
    } else {
        lemma_selected_adds_up(a, b.drop_last(), interest);
        assert((a + b).drop_last() =~= a + b.drop_last());
        assert((a + b).last() == b.last());
        let before = selected(b.drop_last(), interest);
        assert((selected(a, interest) + before).push(b.last()) =~= selected(a, interest)
            + before.push(b.last()));
    }
}

/// Of messages of one kind, all are selected or none is.
proof fn lemma_selected_of_one_kind(
    messages: Seq<WsMessageView>,
    kind: MessageKind,
    interest: MessageInterest,
)
    requires
        forall|i: int| 0 <= i < messages.len() ==> message_kind(#[trigger] messages[i]) == kind,
    ensures
        selected(messages, interest) == if interest.has(kind) {
            messages
        } else {
            Seq::empty()
        },
    decreases messages.len(),
{
    if messages.len() > 0 {
        let rest = messages.drop_last();
        assert forall|i: int| 0 <= i < rest.len() implies message_kind(#[trigger] rest[i])
            == kind by {
            assert(rest[i] == messages[i]);
        }
        lemma_selected_of_one_kind(rest, kind, interest);
        assert(messages.last() == messages[messages.len() - 1]);
        assert(rest.push(messages.last()) =~= messages);
    }
}

/// Under a smaller interest, a value gives those of its messages that are of
/// that interest.
proof fn lemma_smaller_interest_selects(tree: Json, wide: MessageInterest, narrow: MessageInterest)
    requires
        forall|kind: MessageKind| #[trigger] narrow.has(kind) ==> wide.has(kind),
        value_messages(tree, wide) is Some,
    ensures
        value_messages(tree, narrow) == Some(selected(value_messages(tree, wide)->0, narrow)),
{
    let messages = value_messages(tree, wide)->0;
    if messages.len() > 0 {
        let kind = message_kind(messages[0]);
        assert forall|i: int| 0 <= i < messages.len() implies message_kind(#[trigger] messages[i])
            == kind by {
            if kind_of(tree) is Some {
                law_messages_are_of_their_kind(tree, wide, i);
                law_messages_are_of_their_kind(tree, wide, 0);
            }
        }
        lemma_selected_of_one_kind(messages, kind, narrow);
        law_interest_only_selects(tree, wide, narrow, 0);
    } else {
        assert(messages =~= Seq::<WsMessageView>::empty());
        if let Some(kind) = kind_of(tree) {
            assert(narrow.has(kind) ==> wide.has(kind));
        }
    }
}

/// A smaller interest never makes a list of values fail, and gives those of its
/// messages that are of that interest, in order.
pub proof fn law_smaller_interest_selects(
    trees: Seq<Json>,
    wide: MessageInterest,
    narrow: MessageInterest,
)
    requires
        forall|kind: MessageKind| #[trigger] narrow.has(kind) ==> wide.has(kind),
        values_messages(trees, wide) is Some,
    ensures
        values_messages(trees, narrow) == Some(selected(values_messages(trees, wide)->0, narrow)),
    decreases trees.len(),
{
    if trees.len() > 0 {
        law_smaller_interest_selects(trees.drop_last(), wide, narrow);
        lemma_smaller_interest_selects(trees.last(), wide, narrow);
        lemma_selected_adds_up(
            values_messages(trees.drop_last(), wide)->0,
            value_messages(trees.last(), wide)->0,
            narrow,
        );
    }
}

/// A smaller interest never makes a text fail, and gives those of its messages
/// that are of that interest, in order.
pub proof fn law_smaller_interest_selects_in_texts(
    text: Seq<char>,
    wide: MessageInterest,
    narrow: MessageInterest,
)
    requires
        forall|kind: MessageKind| #[trigger] narrow.has(kind) ==> wide.has(kind),
        text_messages(text, wide) is Some,
    ensures
        text_messages(text, narrow) == Some(selected(text_messages(text, wide)->0, narrow)),
{
    let body = trimmed(text);
    if body.len() > 0 {
        law_smaller_interest_selects(carried(body, json_text(body)->0), wide, narrow);
    }
}

/// A value that names a kind gives messages of that kind only.
pub proof fn law_messages_are_of_their_kind(tree: Json, interest: MessageInterest, i: int)
    requires
        kind_of(tree) is Some,
        value_messages(tree, interest) is Some,
        0 <= i < value_messages(tree, interest)->0.len(),
    ensures
        message_kind(value_messages(tree, interest)->0[i]) == kind_of(tree)->0,
        interest.has(kind_of(tree)->0),
{
}

/// A batch of price changes gives one message per entry, in the order of the
/// entries; each has its entry's fields and the batch's market and timestamp.
pub proof fn law_batch_becomes_price_changes(
    tree: Json,
    batch: BatchView,
    interest: MessageInterest,
    i: int,
)
    requires
        kind_of(tree) == Some(MessageKind::PriceChange),
        interest.has(MessageKind::PriceChange),
        member_of(tree, "price_changes"@) is Some,
        PriceChangeBatch::decoded(tree) == Some(batch),
        0 <= i < batch.price_changes.len(),
    ensures
        value_messages(tree, interest) is Some,
        value_messages(tree, interest)->0.len() == batch.price_changes.len(),
        ({
            let entry: BatchEntryView = batch.price_changes[i];
            value_messages(tree, interest)->0[i] == WsMessageView::PriceChange(
                PriceChangeView {
                    asset_id: entry.asset_id,
                    market: batch.market,
                    price: entry.price,
                    size: entry.size,
                    side: entry.side,
                    timestamp: batch.timestamp,
                    hash: entry.hash,
                    best_bid: entry.best_bid,
                    best_ask: entry.best_ask,
                },
            )
        }),
{
}

/// The messages of two lists of values put together are those of the first and
/// then those of the second; where one list fails, so does the whole.
pub proof fn law_values_concatenate(a: Seq<Json>, b: Seq<Json>, interest: MessageInterest)
    ensures
        values_messages(a + b, interest) == match (
            values_messages(a, interest),
            values_messages(b, interest),
        ) {
            (Some(first), Some(second)) => Some(first + second),
            _ => None,
        },
    decreases b.len(),
{
    if b.len() == 0 {
        assert(a + b =~= a);
        if let Some(first) = values_messages(a, interest) {
            assert(first + Seq::<WsMessageView>::empty() =~= first);
        }
    } else {
        law_values_concatenate(a, b.drop_last(), interest);
        assert((a + b).drop_last() =~= a + b.drop_last());
        assert((a + b).last() == b.last());
        match (
            values_messages(a, interest),
            values_messages(b.drop_last(), interest),
            value_messages(b.last(), interest),
        ) {
            (Some(first), Some(second), Some(third)) => {
                assert((first + second) + third =~= first + (second + third));
            },
            _ => {},
        }
    }
}

/// Blanks around a text change nothing.
pub proof fn law_blanks_change_nothing(text: Seq<char>, interest: MessageInterest)
    ensures
        text_messages(trimmed(text), interest) == text_messages(text, interest),
{
    lemma_trimmed_twice(text);
}

} // verus!
