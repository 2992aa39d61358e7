//! What messages say, member by member.

use vstd::prelude::*;

use crate::decimal::decimal_in;
use crate::decode::{
    list_of, maybe_list_of, names_variant, side_named, slot_of, status_name, trader_side_named,
    FromJson,
};
use crate::json::Json;
use crate::messages::{
    BatchEntryView, BatchView, BookUpdate, BookView, LastTradePrice, LastTradeView, LevelView,
    MakerOrder, MakerView, MidpointUpdate, MidpointView, OrderBookLevel, OrderMessage, OrderStatus,
    OrderView, PriceChange, PriceChangeBatch, PriceChangeBatchEntry, PriceChangeView, Side,
    TickSizeChange, TickSizeView, TradeMessage, TradeView, TraderSide,
};
use crate::text::i64_value;

verus! {

/// The item of an array in a place; `None` behind its end.
pub open spec fn item_at(items: Seq<Json>, place: int) -> Option<Json> {
    if place < items.len() {
        Some(items[place])
    } else {
        None
    }
}

/// A list field is the items of an array, each read in its place, or empty
/// where the field is absent.
proof fn lemma_list_of<T: FromJson>(field: Option<Json>, list: Seq<T::V>)
    ensures
        list_of::<T>(field) == Some(list) <==> match field {
            None => list == Seq::<T::V>::empty(),
            Some(Json::Array(items)) => {
                &&& items.len() == list.len()
                &&& forall|i: int|
                    0 <= i < items.len() ==> T::decoded(#[trigger] items[i]) == Some(list[i])
            },
            _ => false,
        },
{
    if let Some(Json::Array(items)) = field {
        let read = items.map_values(|item: Json| T::decoded(item)->0);
        if list_of::<T>(field) == Some(list) {
            assert(list == read);
            assert forall|i: int| 0 <= i < items.len() implies T::decoded(#[trigger] items[i])
                == Some(list[i]) by {
                assert(read[i] == T::decoded(items[i])->0);
            }
        } else if items.len() == list.len() && forall|i: int|
            0 <= i < items.len() ==> T::decoded(#[trigger] items[i]) == Some(list[i]) {
            assert(read =~= list);
        }
    }
}

/// A list of texts that may be absent is the strings of an array, in order.
proof fn lemma_maybe_texts_of(field: Option<Json>, list: Option<Seq<Seq<char>>>)
    ensures
        maybe_list_of::<String>(field) == Some(list) <==> match list {
            Some(texts) => {
                &&& field matches Some(Json::Array(items))
                &&& items.len() == texts.len()
                &&& forall|i: int|
                    0 <= i < items.len() ==> (#[trigger] items[i]) == Json::String(texts[i])
            },
            None => field is None || field == Some(Json::Null),
        },
{
    if let Some(texts) = list {
        lemma_list_of::<String>(field, texts);
        if let Some(Json::Array(items)) = field {
            assert forall|i: int| 0 <= i < items.len() && i < texts.len() implies (
            String::decoded(#[trigger] items[i]) == Some(texts[i]) <==> items[i] == Json::String(
                texts[i],
            )) by {}
        }
    }
}

/// A variant is named by its name, or by an object with nothing but that name
/// and `null` under it.
pub proof fn law_names_of_variants(tree: Json, name: Seq<char>)
    ensures
        names_variant(tree, name) <==> tree == Json::String(name) || tree == Json::Object(
            map![name => Json::Null],
        ),
{
    if let Json::Object(members) = tree {
        if names_variant(tree, name) {
            assert forall|key: Seq<char>| members.dom().contains(key) implies key == name by {
                if key != name {
                    assert(members.dom().remove(name).contains(key));
                    assert(members.dom().remove(name).len() == 0);
                }
            }
            assert(members =~= map![name => Json::Null]);
        }
        if members == map![name => Json::Null] {
            assert(members.dom() =~= set![name]);
            assert(members.dom().len() == 1);
        }
    }
}

/// The side of an order or a trade is `BUY` or `SELL`.
pub proof fn law_sides(tree: Json)
    ensures
        side_named(tree) == Some(Side::Buy) <==> tree == Json::String("BUY"@) || tree
            == Json::Object(map!["BUY"@ => Json::Null]),
        side_named(tree) == Some(Side::Sell) <==> tree == Json::String("SELL"@) || tree
            == Json::Object(map!["SELL"@ => Json::Null]),
{
    reveal_strlit("BUY");
    reveal_strlit("SELL");
    assert("BUY"@.len() == 3);
    assert("SELL"@.len() == 4);
    law_names_of_variants(tree, "BUY"@);
    law_names_of_variants(tree, "SELL"@);
    let buy = map!["BUY"@ => Json::Null];
    let sell = map!["SELL"@ => Json::Null];
    assert(buy.dom().contains("BUY"@));
    assert(!sell.dom().contains("BUY"@));
}

/// The part in a trade is `TAKER` or `MAKER`.
pub proof fn law_trader_sides(tree: Json)
    ensures
        trader_side_named(tree) == Some(TraderSide::Taker) <==> tree == Json::String("TAKER"@)
            || tree == Json::Object(map!["TAKER"@ => Json::Null]),
        trader_side_named(tree) == Some(TraderSide::Maker) <==> tree == Json::String("MAKER"@)
            || tree == Json::Object(map!["MAKER"@ => Json::Null]),
{
    reveal_strlit("TAKER");
    reveal_strlit("MAKER");
    assert("TAKER"@[0] == 'T');
    assert("MAKER"@[0] == 'M');
    law_names_of_variants(tree, "TAKER"@);
    law_names_of_variants(tree, "MAKER"@);
    let taker = map!["TAKER"@ => Json::Null];
    let maker = map!["MAKER"@ => Json::Null];
    assert(taker.dom().contains("TAKER"@));
    assert(!maker.dom().contains("TAKER"@));
}

/// Each order status has its name.
pub proof fn law_order_statuses(status: OrderStatus)
    ensures
        status_name(status) == match status {
            OrderStatus::Open => "OPEN"@,
            OrderStatus::Matched => "MATCHED"@,
            OrderStatus::PartiallyFilled => "PARTIALLY_FILLED"@,
            OrderStatus::Cancelled => "CANCELLED"@,
            OrderStatus::Placement => "PLACEMENT"@,
            OrderStatus::Update => "UPDATE"@,
            OrderStatus::Cancellation => "CANCELLATION"@,
        },
        status@ == status,
{
}

/// An order status is read from its name, and from nothing else.
pub proof fn law_order_status_from_its_name(tree: Json, status: OrderStatus)
    ensures
        OrderStatus::decoded(tree) == Some(status) ==> tree == Json::String(status_name(status))
            || tree == Json::Object(map![status_name(status) => Json::Null]),
        OrderStatus::decoded(tree) is None ==> tree != Json::String(status_name(status)) && tree
            != Json::Object(map![status_name(status) => Json::Null]),
{
    law_names_of_variants(tree, status_name(OrderStatus::Open));
    law_names_of_variants(tree, status_name(OrderStatus::Matched));
    law_names_of_variants(tree, status_name(OrderStatus::PartiallyFilled));
    law_names_of_variants(tree, status_name(OrderStatus::Cancelled));
    law_names_of_variants(tree, status_name(OrderStatus::Placement));
    law_names_of_variants(tree, status_name(OrderStatus::Update));
    law_names_of_variants(tree, status_name(OrderStatus::Cancellation));
}

/// An object reads as a price level exactly where each field of the latter is
/// what the member of its name says. Other members do not matter.
pub proof fn law_order_book_level_from_an_object(members: Map<Seq<char>, Json>, view: LevelView)
    ensures
        OrderBookLevel::decoded(Json::Object(members)) == Some(view) <==> {
            let price = members.get("price"@);
            let size = members.get("size"@);
            &&& price is Some && decimal_in(price->0) == Some(view.price)
            &&& size is Some && decimal_in(size->0) == Some(view.size)
        },
{
}

/// An array reads as a price level exactly where it has the right length and
/// each field of the latter is what the item in its place says.
pub proof fn law_order_book_level_from_an_array(items: Seq<Json>, view: LevelView)
    ensures
        OrderBookLevel::decoded(Json::Array(items)) == Some(view) <==> {
            let price = Some(items[0]);
            let size = Some(items[1]);
            &&& items.len() == 2
            &&& price is Some && decimal_in(price->0) == Some(view.price)
            &&& size is Some && decimal_in(size->0) == Some(view.size)
        },
{
}

/// An object reads as an orderbook update exactly where each field of the
/// latter is what the member of its name says. Other members do not matter.
pub proof fn law_book_update_from_an_object(members: Map<Seq<char>, Json>, view: BookView)
    ensures
        BookUpdate::decoded(Json::Object(members)) == Some(view) <==> {
            let asset_id = members.get("asset_id"@);
            let market = members.get("market"@);
            let timestamp = members.get("timestamp"@);
            let bids = members.get("bids"@);
            let asks = members.get("asks"@);
            let hash = members.get("hash"@);
            &&& asset_id == Some(Json::String(view.asset_id))
            &&& market == Some(Json::String(view.market))
            &&& timestamp matches Some(Json::String(text))
                && i64_value(text) == Some(view.timestamp)
            &&& match bids {
                None => view.bids == Seq::<LevelView>::empty(),
                Some(Json::Array(items)) => {
                    &&& items.len() == view.bids.len()
                    &&& forall|i: int|
                        0 <= i < items.len()
                            ==> OrderBookLevel::decoded(#[trigger] items[i]) == Some(
                            view.bids[i],
                        )
                },
                _ => false,
            }
            &&& match asks {
                None => view.asks == Seq::<LevelView>::empty(),
                Some(Json::Array(items)) => {
                    &&& items.len() == view.asks.len()
                    &&& forall|i: int|
                        0 <= i < items.len()
                            ==> OrderBookLevel::decoded(#[trigger] items[i]) == Some(
                            view.asks[i],
                        )
                },
                _ => false,
            }
            &&& match view.hash {
                Some(text) => hash == Some(Json::String(text)),
                None => hash is None || hash == Some(Json::Null),
            }
        },
{
    lemma_list_of::<OrderBookLevel>(members.get("bids"@), view.bids);
    lemma_list_of::<OrderBookLevel>(members.get("asks"@), view.asks);
}

/// An array reads as an orderbook update exactly where it has the right length
/// and each field of the latter is what the item in its place says.
pub proof fn law_book_update_from_an_array(items: Seq<Json>, view: BookView)
    ensures
        BookUpdate::decoded(Json::Array(items)) == Some(view) <==> {
            let asset_id = Some(items[0]);
            let market = Some(items[1]);
            let timestamp = Some(items[2]);
            let bids = Some(items[3]);
            let asks = Some(items[4]);
            let hash = Some(items[5]);
            &&& items.len() == 6
            &&& asset_id == Some(Json::String(view.asset_id))
            &&& market == Some(Json::String(view.market))
            &&& timestamp matches Some(Json::String(text))
                && i64_value(text) == Some(view.timestamp)
            &&& match bids {
                None => view.bids == Seq::<LevelView>::empty(),
                Some(Json::Array(items)) => {
                    &&& items.len() == view.bids.len()
                    &&& forall|i: int|
                        0 <= i < items.len()
                            ==> OrderBookLevel::decoded(#[trigger] items[i]) == Some(
                            view.bids[i],
                        )
                },
                _ => false,
            }
            &&& match asks {
                None => view.asks == Seq::<LevelView>::empty(),
                Some(Json::Array(items)) => {
                    &&& items.len() == view.asks.len()
                    &&& forall|i: int|
                        0 <= i < items.len()
                            ==> OrderBookLevel::decoded(#[trigger] items[i]) == Some(
                            view.asks[i],
                        )
                },
                _ => false,
            }
            &&& match view.hash {
                Some(text) => hash == Some(Json::String(text)),
                None => hash is None || hash == Some(Json::Null),
            }
        },
{
    lemma_list_of::<OrderBookLevel>(slot_of(Json::Array(items), 3, "bids"@), view.bids);
    lemma_list_of::<OrderBookLevel>(slot_of(Json::Array(items), 4, "asks"@), view.asks);
}

/// An object reads as a price change exactly where each field of the latter is
/// what the member of its name says. Other members do not matter.
pub proof fn law_price_change_from_an_object(members: Map<Seq<char>, Json>, view: PriceChangeView)
    ensures
        PriceChange::decoded(Json::Object(members)) == Some(view) <==> {
            let asset_id = members.get("asset_id"@);
            let market = members.get("market"@);
            let price = members.get("price"@);
            let size = members.get("size"@);
            let side = members.get("side"@);
            let timestamp = members.get("timestamp"@);
            let hash = members.get("hash"@);
            let best_bid = members.get("best_bid"@);
            let best_ask = members.get("best_ask"@);
            &&& asset_id == Some(Json::String(view.asset_id))
            &&& market == Some(Json::String(view.market))
            &&& price is Some && decimal_in(price->0) == Some(view.price)
            &&& match view.size {
                Some(d) => size is Some && size != Some(Json::Null)
                    && decimal_in(size->0) == Some(d),
                None => size is None || size == Some(Json::Null),
            }
            &&& side is Some && side_named(side->0) == Some(view.side)
            &&& timestamp matches Some(Json::String(text))
                && i64_value(text) == Some(view.timestamp)
            &&& match view.hash {
                Some(text) => hash == Some(Json::String(text)),
                None => hash is None || hash == Some(Json::Null),
            }
            &&& match view.best_bid {
                Some(d) => best_bid is Some && best_bid != Some(Json::Null)
                    && decimal_in(best_bid->0) == Some(d),
                None => best_bid is None || best_bid == Some(Json::Null),
            }
            &&& match view.best_ask {
                Some(d) => best_ask is Some && best_ask != Some(Json::Null)
                    && decimal_in(best_ask->0) == Some(d),
                None => best_ask is None || best_ask == Some(Json::Null),
            }
        },
{
}

/// An array reads as a price change exactly where it has the right length and
/// each field of the latter is what the item in its place says.
pub proof fn law_price_change_from_an_array(items: Seq<Json>, view: PriceChangeView)
    ensures
        PriceChange::decoded(Json::Array(items)) == Some(view) <==> {
            let asset_id = Some(items[0]);
            let market = Some(items[1]);
            let price = Some(items[2]);
            let size = Some(items[3]);
            let side = Some(items[4]);
            let timestamp = Some(items[5]);
            let hash = Some(items[6]);
            let best_bid = Some(items[7]);
            let best_ask = Some(items[8]);
            &&& items.len() == 9
            &&& asset_id == Some(Json::String(view.asset_id))
            &&& market == Some(Json::String(view.market))
            &&& price is Some && decimal_in(price->0) == Some(view.price)
            &&& match view.size {
                Some(d) => size is Some && size != Some(Json::Null)
                    && decimal_in(size->0) == Some(d),
                None => size is None || size == Some(Json::Null),
            }
            &&& side is Some && side_named(side->0) == Some(view.side)
            &&& timestamp matches Some(Json::String(text))
                && i64_value(text) == Some(view.timestamp)
            &&& match view.hash {
                Some(text) => hash == Some(Json::String(text)),
                None => hash is None || hash == Some(Json::Null),
            }
            &&& match view.best_bid {
                Some(d) => best_bid is Some && best_bid != Some(Json::Null)
                    && decimal_in(best_bid->0) == Some(d),
                None => best_bid is None || best_bid == Some(Json::Null),
            }
            &&& match view.best_ask {
                Some(d) => best_ask is Some && best_ask != Some(Json::Null)
                    && decimal_in(best_ask->0) == Some(d),
                None => best_ask is None || best_ask == Some(Json::Null),
            }
        },
{
}

/// An object reads as an entry of a batch exactly where each field of the
/// latter is what the member of its name says. Other members do not matter.
pub proof fn law_price_change_batch_entry_from_an_object(members: Map<Seq<char>, Json>,
    view: BatchEntryView)
    ensures
        PriceChangeBatchEntry::decoded(Json::Object(members)) == Some(view) <==> {
            let asset_id = members.get("asset_id"@);
            let price = members.get("price"@);
            let size = members.get("size"@);
            let side = members.get("side"@);
            let hash = members.get("hash"@);
            let best_bid = members.get("best_bid"@);
            let best_ask = members.get("best_ask"@);
            &&& asset_id == Some(Json::String(view.asset_id))
            &&& price is Some && decimal_in(price->0) == Some(view.price)
            &&& match view.size {
                Some(d) => size is Some && size != Some(Json::Null)
                    && decimal_in(size->0) == Some(d),
                None => size is None || size == Some(Json::Null),
            }
            &&& side is Some && side_named(side->0) == Some(view.side)
            &&& match view.hash {
                Some(text) => hash == Some(Json::String(text)),
                None => hash is None || hash == Some(Json::Null),
            }
            &&& match view.best_bid {
                Some(d) => best_bid is Some && best_bid != Some(Json::Null)
                    && decimal_in(best_bid->0) == Some(d),
                None => best_bid is None || best_bid == Some(Json::Null),
            }
            &&& match view.best_ask {
                Some(d) => best_ask is Some && best_ask != Some(Json::Null)
                    && decimal_in(best_ask->0) == Some(d),
                None => best_ask is None || best_ask == Some(Json::Null),
            }
        },
{
}

/// An array reads as an entry of a batch exactly where it has the right length
/// and each field of the latter is what the item in its place says.
pub proof fn law_price_change_batch_entry_from_an_array(items: Seq<Json>, view: BatchEntryView)
    ensures
        PriceChangeBatchEntry::decoded(Json::Array(items)) == Some(view) <==> {
            let asset_id = Some(items[0]);
            let price = Some(items[1]);
            let size = Some(items[2]);
            let side = Some(items[3]);
            let hash = Some(items[4]);
            let best_bid = Some(items[5]);
            let best_ask = Some(items[6]);
            &&& items.len() == 7
            &&& asset_id == Some(Json::String(view.asset_id))
            &&& price is Some && decimal_in(price->0) == Some(view.price)
            &&& match view.size {
                Some(d) => size is Some && size != Some(Json::Null)
                    && decimal_in(size->0) == Some(d),
                None => size is None || size == Some(Json::Null),
            }
            &&& side is Some && side_named(side->0) == Some(view.side)
            &&& match view.hash {
                Some(text) => hash == Some(Json::String(text)),
                None => hash is None || hash == Some(Json::Null),
            }
            &&& match view.best_bid {
                Some(d) => best_bid is Some && best_bid != Some(Json::Null)
                    && decimal_in(best_bid->0) == Some(d),
                None => best_bid is None || best_bid == Some(Json::Null),
            }
            &&& match view.best_ask {
                Some(d) => best_ask is Some && best_ask != Some(Json::Null)
                    && decimal_in(best_ask->0) == Some(d),
                None => best_ask is None || best_ask == Some(Json::Null),
            }
        },
{
}

/// An object reads as a batch of price changes exactly where each field of the
/// latter is what the member of its name says. Other members do not matter.
pub proof fn law_price_change_batch_from_an_object(members: Map<Seq<char>, Json>, view: BatchView)
    ensures
        PriceChangeBatch::decoded(Json::Object(members)) == Some(view) <==> {
            let market = members.get("market"@);
            let timestamp = members.get("timestamp"@);
            let price_changes = members.get("price_changes"@);
            &&& market == Some(Json::String(view.market))
            &&& match timestamp {
                Some(Json::String(text)) => i64_value(text) == Some(view.timestamp),
                Some(Json::Integer(n)) => n == view.timestamp,
                _ => false,
            }
            &&& match price_changes {
                None => view.price_changes == Seq::<BatchEntryView>::empty(),
                Some(Json::Array(items)) => {
                    &&& items.len() == view.price_changes.len()
                    &&& forall|i: int|
                        0 <= i < items.len()
                            ==> PriceChangeBatchEntry::decoded(#[trigger] items[i]) == Some(
                            view.price_changes[i],
                        )
                },
                _ => false,
            }
        },
{
    lemma_list_of::<PriceChangeBatchEntry>(members.get("price_changes"@), view.price_changes);
}

/// An array reads as a batch of price changes exactly where it has the right
/// length and each field of the latter is what the item in its place says.
pub proof fn law_price_change_batch_from_an_array(items: Seq<Json>, view: BatchView)
    ensures
        PriceChangeBatch::decoded(Json::Array(items)) == Some(view) <==> {
            let market = Some(items[0]);
            let timestamp = Some(items[1]);
            let price_changes = item_at(items, 2);
            &&& 2 <= items.len() <= 3
            &&& market == Some(Json::String(view.market))
            &&& match timestamp {
                Some(Json::String(text)) => i64_value(text) == Some(view.timestamp),
                Some(Json::Integer(n)) => n == view.timestamp,
                _ => false,
            }
            &&& match price_changes {
                None => view.price_changes == Seq::<BatchEntryView>::empty(),
                Some(Json::Array(items)) => {
                    &&& items.len() == view.price_changes.len()
                    &&& forall|i: int|
                        0 <= i < items.len()
                            ==> PriceChangeBatchEntry::decoded(#[trigger] items[i]) == Some(
                            view.price_changes[i],
                        )
                },
                _ => false,
            }
        },
{
    lemma_list_of::<PriceChangeBatchEntry>(slot_of(Json::Array(items), 2, "price_changes"@),
        view.price_changes);
}

/// An object reads as a tick size change exactly where each field of the latter
/// is what the member of its name says. Other members do not matter.
pub proof fn law_tick_size_change_from_an_object(members: Map<Seq<char>, Json>, view: TickSizeView)
    ensures
        TickSizeChange::decoded(Json::Object(members)) == Some(view) <==> {
            let asset_id = members.get("asset_id"@);
            let market = members.get("market"@);
            let old_tick_size = members.get("old_tick_size"@);
            let new_tick_size = members.get("new_tick_size"@);
            let timestamp = members.get("timestamp"@);
            &&& asset_id == Some(Json::String(view.asset_id))
            &&& market == Some(Json::String(view.market))
            &&& old_tick_size is Some && decimal_in(old_tick_size->0) == Some(view.old_tick_size)
            &&& new_tick_size is Some && decimal_in(new_tick_size->0) == Some(view.new_tick_size)
            &&& timestamp matches Some(Json::String(text))
                && i64_value(text) == Some(view.timestamp)
        },
{
}

/// An array reads as a tick size change exactly where it has the right length
/// and each field of the latter is what the item in its place says.
pub proof fn law_tick_size_change_from_an_array(items: Seq<Json>, view: TickSizeView)
    ensures
        TickSizeChange::decoded(Json::Array(items)) == Some(view) <==> {
            let asset_id = Some(items[0]);
            let market = Some(items[1]);
            let old_tick_size = Some(items[2]);
            let new_tick_size = Some(items[3]);
            let timestamp = Some(items[4]);
            &&& items.len() == 5
            &&& asset_id == Some(Json::String(view.asset_id))
            &&& market == Some(Json::String(view.market))
            &&& old_tick_size is Some && decimal_in(old_tick_size->0) == Some(view.old_tick_size)
            &&& new_tick_size is Some && decimal_in(new_tick_size->0) == Some(view.new_tick_size)
            &&& timestamp matches Some(Json::String(text))
                && i64_value(text) == Some(view.timestamp)
        },
{
}

/// An object reads as a last trade price exactly where each field of the latter
/// is what the member of its name says. Other members do not matter.
pub proof fn law_last_trade_price_from_an_object(members: Map<Seq<char>, Json>, view: LastTradeView)
    ensures
        LastTradePrice::decoded(Json::Object(members)) == Some(view) <==> {
            let asset_id = members.get("asset_id"@);
            let market = members.get("market"@);
            let price = members.get("price"@);
            let side = members.get("side"@);
            let timestamp = members.get("timestamp"@);
            &&& asset_id == Some(Json::String(view.asset_id))
            &&& market == Some(Json::String(view.market))
            &&& price is Some && decimal_in(price->0) == Some(view.price)
            &&& match view.side {
                Some(named) => side is Some && side_named(side->0) == Some(named),
                None => side is None || side == Some(Json::Null),
            }
            &&& timestamp matches Some(Json::String(text))
                && i64_value(text) == Some(view.timestamp)
        },
{
}

/// An array reads as a last trade price exactly where it has the right length
/// and each field of the latter is what the item in its place says.
pub proof fn law_last_trade_price_from_an_array(items: Seq<Json>, view: LastTradeView)
    ensures
        LastTradePrice::decoded(Json::Array(items)) == Some(view) <==> {
            let asset_id = Some(items[0]);
            let market = Some(items[1]);
            let price = Some(items[2]);
            let side = Some(items[3]);
            let timestamp = Some(items[4]);
            &&& items.len() == 5
            &&& asset_id == Some(Json::String(view.asset_id))
            &&& market == Some(Json::String(view.market))
            &&& price is Some && decimal_in(price->0) == Some(view.price)
            &&& match view.side {
                Some(named) => side is Some && side_named(side->0) == Some(named),
                None => side is None || side == Some(Json::Null),
            }
            &&& timestamp matches Some(Json::String(text))
                && i64_value(text) == Some(view.timestamp)
        },
{
}

/// An object reads as a maker order exactly where each field of the latter is
/// what the member of its name says. Other members do not matter.
pub proof fn law_maker_order_from_an_object(members: Map<Seq<char>, Json>, view: MakerView)
    ensures
        MakerOrder::decoded(Json::Object(members)) == Some(view) <==> {
            let asset_id = members.get("asset_id"@);
            let matched_amount = members.get("matched_amount"@);
            let order_id = members.get("order_id"@);
            let outcome = members.get("outcome"@);
            let owner = members.get("owner"@);
            let price = members.get("price"@);
            &&& asset_id == Some(Json::String(view.asset_id))
            &&& matched_amount == Some(Json::String(view.matched_amount))
            &&& order_id == Some(Json::String(view.order_id))
            &&& outcome == Some(Json::String(view.outcome))
            &&& owner == Some(Json::String(view.owner))
            &&& price == Some(Json::String(view.price))
        },
{
}

/// An array reads as a maker order exactly where it has the right length and
/// each field of the latter is what the item in its place says.
pub proof fn law_maker_order_from_an_array(items: Seq<Json>, view: MakerView)
    ensures
        MakerOrder::decoded(Json::Array(items)) == Some(view) <==> {
            let asset_id = Some(items[0]);
            let matched_amount = Some(items[1]);
            let order_id = Some(items[2]);
            let outcome = Some(items[3]);
            let owner = Some(items[4]);
            let price = Some(items[5]);
            &&& items.len() == 6
            &&& asset_id == Some(Json::String(view.asset_id))
            &&& matched_amount == Some(Json::String(view.matched_amount))
            &&& order_id == Some(Json::String(view.order_id))
            &&& outcome == Some(Json::String(view.outcome))
            &&& owner == Some(Json::String(view.owner))
            &&& price == Some(Json::String(view.price))
        },
{
}

/// An object reads as a trade exactly where each field of the latter is what
/// the member of its name says. Other members do not matter.
pub proof fn law_trade_message_from_an_object(members: Map<Seq<char>, Json>, view: TradeView)
    ensures
        TradeMessage::decoded(Json::Object(members)) == Some(view) <==> {
            let id = members.get("id"@);
            let market = members.get("market"@);
            let asset_id = members.get("asset_id"@);
            let side = members.get("side"@);
            let size = members.get("size"@);
            let price = members.get("price"@);
            let status = members.get("status"@);
            let event_type = members.get("event_type"@);
            let msg_type = members.get("type"@);
            let last_update = members.get("last_update"@);
            let matchtime = members.get("matchtime"@);
            let timestamp = members.get("timestamp"@);
            let outcome = members.get("outcome"@);
            let owner = members.get("owner"@);
            let trade_owner = members.get("trade_owner"@);
            let taker_order_id = members.get("taker_order_id"@);
            let maker_orders = members.get("maker_orders"@);
            let fee_rate_bps = members.get("fee_rate_bps"@);
            let transaction_hash = members.get("transaction_hash"@);
            let trader_side = members.get("trader_side"@);
            &&& id == Some(Json::String(view.id))
            &&& market == Some(Json::String(view.market))
            &&& asset_id == Some(Json::String(view.asset_id))
            &&& side is Some && side_named(side->0) == Some(view.side)
            &&& size == Some(Json::String(view.size))
            &&& price == Some(Json::String(view.price))
            &&& status == Some(Json::String(view.status))
            &&& match view.event_type {
                Some(text) => event_type == Some(Json::String(text)),
                None => event_type is None || event_type == Some(Json::Null),
            }
            &&& match view.msg_type {
                Some(text) => msg_type == Some(Json::String(text)),
                None => msg_type is None || msg_type == Some(Json::Null),
            }
            &&& match view.last_update {
                Some(text) => last_update == Some(Json::String(text)),
                None => last_update is None || last_update == Some(Json::Null),
            }
            &&& match view.matchtime {
                Some(text) => matchtime == Some(Json::String(text)),
                None => matchtime is None || matchtime == Some(Json::Null),
            }
            &&& match view.timestamp {
                Some(text) => timestamp == Some(Json::String(text)),
                None => timestamp is None || timestamp == Some(Json::Null),
            }
            &&& match view.outcome {
                Some(text) => outcome == Some(Json::String(text)),
                None => outcome is None || outcome == Some(Json::Null),
            }
            &&& match view.owner {
                Some(text) => owner == Some(Json::String(text)),
                None => owner is None || owner == Some(Json::Null),
            }
            &&& match view.trade_owner {
                Some(text) => trade_owner == Some(Json::String(text)),
                None => trade_owner is None || trade_owner == Some(Json::Null),
            }
            &&& match view.taker_order_id {
                Some(text) => taker_order_id == Some(Json::String(text)),
                None => taker_order_id is None || taker_order_id == Some(Json::Null),
            }
            &&& match maker_orders {
                None => view.maker_orders == Seq::<MakerView>::empty(),
                Some(Json::Array(items)) => {
                    &&& items.len() == view.maker_orders.len()
                    &&& forall|i: int|
                        0 <= i < items.len() ==> MakerOrder::decoded(#[trigger] items[i]) == Some(
                            view.maker_orders[i],
                        )
                },
                _ => false,
            }
            &&& match view.fee_rate_bps {
                Some(text) => fee_rate_bps == Some(Json::String(text)),
                None => fee_rate_bps is None || fee_rate_bps == Some(Json::Null),
            }
            &&& match view.transaction_hash {
                Some(text) => transaction_hash == Some(Json::String(text)),
                None => transaction_hash is None || transaction_hash == Some(Json::Null),
            }
            &&& match view.trader_side {
                Some(named) => trader_side is Some
                    && trader_side_named(trader_side->0) == Some(named),
                None => trader_side is None || trader_side == Some(Json::Null),
            }
        },
{
    lemma_list_of::<MakerOrder>(members.get("maker_orders"@), view.maker_orders);
}

/// An array reads as a trade exactly where it has the right length and each
/// field of the latter is what the item in its place says.
pub proof fn law_trade_message_from_an_array(items: Seq<Json>, view: TradeView)
    ensures
        TradeMessage::decoded(Json::Array(items)) == Some(view) <==> {
            let id = Some(items[0]);
            let market = Some(items[1]);
            let asset_id = Some(items[2]);
            let side = Some(items[3]);
            let size = Some(items[4]);
            let price = Some(items[5]);
            let status = Some(items[6]);
            let event_type = item_at(items, 7);
            let msg_type = item_at(items, 8);
            let last_update = item_at(items, 9);
            let matchtime = item_at(items, 10);
            let timestamp = item_at(items, 11);
            let outcome = item_at(items, 12);
            let owner = item_at(items, 13);
            let trade_owner = item_at(items, 14);
            let taker_order_id = item_at(items, 15);
            let maker_orders = item_at(items, 16);
            let fee_rate_bps = item_at(items, 17);
            let transaction_hash = item_at(items, 18);
            let trader_side = item_at(items, 19);
            &&& 7 <= items.len() <= 20
            &&& id == Some(Json::String(view.id))
            &&& market == Some(Json::String(view.market))
            &&& asset_id == Some(Json::String(view.asset_id))
            &&& side is Some && side_named(side->0) == Some(view.side)
            &&& size == Some(Json::String(view.size))
            &&& price == Some(Json::String(view.price))
            &&& status == Some(Json::String(view.status))
            &&& match view.event_type {
                Some(text) => event_type == Some(Json::String(text)),
                None => event_type is None || event_type == Some(Json::Null),
            }
            &&& match view.msg_type {
                Some(text) => msg_type == Some(Json::String(text)),
                None => msg_type is None || msg_type == Some(Json::Null),
            }
            &&& match view.last_update {
                Some(text) => last_update == Some(Json::String(text)),
                None => last_update is None || last_update == Some(Json::Null),
            }
            &&& match view.matchtime {
                Some(text) => matchtime == Some(Json::String(text)),
                None => matchtime is None || matchtime == Some(Json::Null),
            }
            &&& match view.timestamp {
                Some(text) => timestamp == Some(Json::String(text)),
                None => timestamp is None || timestamp == Some(Json::Null),
            }
            &&& match view.outcome {
                Some(text) => outcome == Some(Json::String(text)),
                None => outcome is None || outcome == Some(Json::Null),
            }
            &&& match view.owner {
                Some(text) => owner == Some(Json::String(text)),
                None => owner is None || owner == Some(Json::Null),
            }
            &&& match view.trade_owner {
                Some(text) => trade_owner == Some(Json::String(text)),
                None => trade_owner is None || trade_owner == Some(Json::Null),
            }
            &&& match view.taker_order_id {
                Some(text) => taker_order_id == Some(Json::String(text)),
                None => taker_order_id is None || taker_order_id == Some(Json::Null),
            }
            &&& match maker_orders {
                None => view.maker_orders == Seq::<MakerView>::empty(),
                Some(Json::Array(items)) => {
                    &&& items.len() == view.maker_orders.len()
                    &&& forall|i: int|
                        0 <= i < items.len() ==> MakerOrder::decoded(#[trigger] items[i]) == Some(
                            view.maker_orders[i],
                        )
                },
                _ => false,
            }
            &&& match view.fee_rate_bps {
                Some(text) => fee_rate_bps == Some(Json::String(text)),
                None => fee_rate_bps is None || fee_rate_bps == Some(Json::Null),
            }
            &&& match view.transaction_hash {
                Some(text) => transaction_hash == Some(Json::String(text)),
                None => transaction_hash is None || transaction_hash == Some(Json::Null),
            }
            &&& match view.trader_side {
                Some(named) => trader_side is Some
                    && trader_side_named(trader_side->0) == Some(named),
                None => trader_side is None || trader_side == Some(Json::Null),
            }
        },
{
    lemma_list_of::<MakerOrder>(slot_of(Json::Array(items), 16, "maker_orders"@),
        view.maker_orders);
}

/// An object reads as an order update exactly where each field of the latter is
/// what the member of its name says. Other members do not matter.
pub proof fn law_order_message_from_an_object(members: Map<Seq<char>, Json>, view: OrderView)
    ensures
        OrderMessage::decoded(Json::Object(members)) == Some(view) <==> {
            let id = members.get("id"@);
            let market = members.get("market"@);
            let asset_id = members.get("asset_id"@);
            let side = members.get("side"@);
            let price = members.get("price"@);
            let event_type = members.get("event_type"@);
            let msg_type = members.get("type"@);
            let outcome = members.get("outcome"@);
            let owner = members.get("owner"@);
            let order_owner = members.get("order_owner"@);
            let original_size = members.get("original_size"@);
            let size_matched = members.get("size_matched"@);
            let timestamp = members.get("timestamp"@);
            let associate_trades = members.get("associate_trades"@);
            &&& id == Some(Json::String(view.id))
            &&& market == Some(Json::String(view.market))
            &&& asset_id == Some(Json::String(view.asset_id))
            &&& side is Some && side_named(side->0) == Some(view.side)
            &&& price == Some(Json::String(view.price))
            &&& match view.event_type {
                Some(text) => event_type == Some(Json::String(text)),
                None => event_type is None || event_type == Some(Json::Null),
            }
            &&& match view.msg_type {
                Some(text) => msg_type == Some(Json::String(text)),
                None => msg_type is None || msg_type == Some(Json::Null),
            }
            &&& match view.outcome {
                Some(text) => outcome == Some(Json::String(text)),
                None => outcome is None || outcome == Some(Json::Null),
            }
            &&& match view.owner {
                Some(text) => owner == Some(Json::String(text)),
                None => owner is None || owner == Some(Json::Null),
            }
            &&& match view.order_owner {
                Some(text) => order_owner == Some(Json::String(text)),
                None => order_owner is None || order_owner == Some(Json::Null),
            }
            &&& match view.original_size {
                Some(text) => original_size == Some(Json::String(text)),
                None => original_size is None || original_size == Some(Json::Null),
            }
            &&& match view.size_matched {
                Some(text) => size_matched == Some(Json::String(text)),
                None => size_matched is None || size_matched == Some(Json::Null),
            }
            &&& match view.timestamp {
                Some(text) => timestamp == Some(Json::String(text)),
                None => timestamp is None || timestamp == Some(Json::Null),
            }
            &&& match view.associate_trades {
                Some(list) => {
                    &&& associate_trades matches Some(Json::Array(items))
                    &&& items.len() == list.len()
                    &&& forall|i: int|
                        0 <= i < items.len() ==> (#[trigger] items[i]) == Json::String(list[i])
                },
                None => associate_trades is None || associate_trades == Some(Json::Null),
            }
        },
{
    lemma_maybe_texts_of(members.get("associate_trades"@), view.associate_trades);
}

/// An array reads as an order update exactly where it has the right length and
/// each field of the latter is what the item in its place says.
pub proof fn law_order_message_from_an_array(items: Seq<Json>, view: OrderView)
    ensures
        OrderMessage::decoded(Json::Array(items)) == Some(view) <==> {
            let id = Some(items[0]);
            let market = Some(items[1]);
            let asset_id = Some(items[2]);
            let side = Some(items[3]);
            let price = Some(items[4]);
            let event_type = item_at(items, 5);
            let msg_type = item_at(items, 6);
            let outcome = item_at(items, 7);
            let owner = item_at(items, 8);
            let order_owner = item_at(items, 9);
            let original_size = item_at(items, 10);
            let size_matched = item_at(items, 11);
            let timestamp = item_at(items, 12);
            let associate_trades = item_at(items, 13);
            &&& 5 <= items.len() <= 14
            &&& id == Some(Json::String(view.id))
            &&& market == Some(Json::String(view.market))
            &&& asset_id == Some(Json::String(view.asset_id))
            &&& side is Some && side_named(side->0) == Some(view.side)
            &&& price == Some(Json::String(view.price))
            &&& match view.event_type {
                Some(text) => event_type == Some(Json::String(text)),
                None => event_type is None || event_type == Some(Json::Null),
            }
            &&& match view.msg_type {
                Some(text) => msg_type == Some(Json::String(text)),
                None => msg_type is None || msg_type == Some(Json::Null),
            }
            &&& match view.outcome {
                Some(text) => outcome == Some(Json::String(text)),
                None => outcome is None || outcome == Some(Json::Null),
            }
            &&& match view.owner {
                Some(text) => owner == Some(Json::String(text)),
                None => owner is None || owner == Some(Json::Null),
            }
            &&& match view.order_owner {
                Some(text) => order_owner == Some(Json::String(text)),
                None => order_owner is None || order_owner == Some(Json::Null),
            }
            &&& match view.original_size {
                Some(text) => original_size == Some(Json::String(text)),
                None => original_size is None || original_size == Some(Json::Null),
            }
            &&& match view.size_matched {
                Some(text) => size_matched == Some(Json::String(text)),
                None => size_matched is None || size_matched == Some(Json::Null),
            }
            &&& match view.timestamp {
                Some(text) => timestamp == Some(Json::String(text)),
                None => timestamp is None || timestamp == Some(Json::Null),
            }
            &&& match view.associate_trades {
                Some(list) => {
                    &&& associate_trades matches Some(Json::Array(items))
                    &&& items.len() == list.len()
                    &&& forall|i: int|
                        0 <= i < items.len() ==> (#[trigger] items[i]) == Json::String(list[i])
                },
                None => associate_trades is None || associate_trades == Some(Json::Null),
            }
        },
{
    lemma_maybe_texts_of(slot_of(Json::Array(items), 13, "associate_trades"@),
        view.associate_trades);
}

/// An object reads as a midpoint exactly where each field of the latter is what
/// the member of its name says. Other members do not matter.
pub proof fn law_midpoint_update_from_an_object(members: Map<Seq<char>, Json>, view: MidpointView)
    ensures
        MidpointUpdate::decoded(Json::Object(members)) == Some(view) <==> {
            let asset_id = members.get("asset_id"@);
            let market = members.get("market"@);
            let midpoint = members.get("midpoint"@);
            let timestamp = members.get("timestamp"@);
            &&& asset_id == Some(Json::String(view.asset_id))
            &&& market == Some(Json::String(view.market))
            &&& midpoint is Some && decimal_in(midpoint->0) == Some(view.midpoint)
            &&& timestamp matches Some(Json::String(text))
                && i64_value(text) == Some(view.timestamp)
        },
{
}

/// An array reads as a midpoint exactly where it has the right length and each
/// field of the latter is what the item in its place says.
pub proof fn law_midpoint_update_from_an_array(items: Seq<Json>, view: MidpointView)
    ensures
        MidpointUpdate::decoded(Json::Array(items)) == Some(view) <==> {
            let asset_id = Some(items[0]);
            let market = Some(items[1]);
            let midpoint = Some(items[2]);
            let timestamp = Some(items[3]);
            &&& items.len() == 4
            &&& asset_id == Some(Json::String(view.asset_id))
            &&& market == Some(Json::String(view.market))
            &&& midpoint is Some && decimal_in(midpoint->0) == Some(view.midpoint)
            &&& timestamp matches Some(Json::String(text))
                && i64_value(text) == Some(view.timestamp)
        },
{
}

} // verus!
