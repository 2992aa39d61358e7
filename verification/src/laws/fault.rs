//! What is told of values that are not what they should be.

use vstd::prelude::*;

use crate::decimal::decimal_in;
use crate::decode::{
    book_update_faults, items_fault_of, last_trade_price_faults, maker_order_faults,
    midpoint_update_faults, order_book_level_faults, order_message_faults,
    price_change_batch_entry_faults, price_change_batch_faults, price_change_faults, side_named,
    tick_size_change_faults, trade_message_faults, trader_side_named, FromJson,
};
use crate::fault::{
    ascending, fault_text, fault_view, fault_views, first_fault, first_present, indices, Fault,
    FaultView,
};
use crate::json::Json;
use crate::laws::decode::item_at;
use crate::messages::{
    BookUpdate, LastTradePrice, MakerOrder, MidpointUpdate, OrderBookLevel, OrderMessage,
    OrderStatus, PriceChange, PriceChangeBatch, PriceChangeBatchEntry, TickSizeChange, TradeMessage,
    WsMessage,
};
use crate::text::i64_value;

verus! {

/// What faults are called.
pub proof fn law_texts_of_faults(name: Seq<char>)
    ensures
        fault_text(FaultView::NotARecord) == "expected an object or an array"@,
        fault_text(FaultView::WrongLength) == "array of the wrong length"@,
        fault_text(FaultView::Missing(name)) == "missing field `"@ + name + "`"@,
        fault_text(FaultView::Invalid(name)) == "invalid value of field `"@ + name + "`"@,
        fault_text(FaultView::NotAString) == "expected a string"@,
        fault_text(FaultView::NoVariant)
            == "data did not match any variant of untagged enum WsMessage"@,
        fault_text(FaultView::UnknownVariant) == "unknown variant"@,
{
}

/// The view of a fault says what the fault does.
pub proof fn law_views_of_faults(fault: Fault, faults: Seq<Option<Fault>>, order: Seq<usize>,
    i: int)
    requires
        0 <= i < faults.len(),
        0 <= i < order.len(),
    ensures
        fault is NotARecord <==> fault@ is NotARecord,
        fault is WrongLength <==> fault@ is WrongLength,
        fault is NotAString <==> fault@ is NotAString,
        fault is NoVariant <==> fault@ is NoVariant,
        fault is UnknownVariant <==> fault@ is UnknownVariant,
        fault matches Fault::Missing(name) ==> fault@ == FaultView::Missing(name@),
        fault matches Fault::Invalid(name) ==> fault@ == FaultView::Invalid(name@),
        fault_view(Some(fault)) == Some(fault@),
        fault_view(None) is None,
        fault_views(faults).len() == faults.len(),
        fault_views(faults)[i] == fault_view(faults[i]),
        indices(order).len() == order.len(),
        indices(order)[i] == order[i],
{
}

/// What is not a string, and what names no variant, has one fault.
pub proof fn law_faults_of_plain_values(tree: Json)
    ensures
        String::explained(tree) == FaultView::NotAString,
        OrderStatus::explained(tree) == FaultView::UnknownVariant,
        WsMessage::explained(tree) == FaultView::NoVariant,
{
}

/// Of values that are neither objects nor arrays, that is told.
pub proof fn law_faults_of_other_values(tree: Json)
    requires
        !(tree is Object),
        !(tree is Array),
    ensures
        OrderBookLevel::explained(tree) == FaultView::NotARecord,
        BookUpdate::explained(tree) == FaultView::NotARecord,
        PriceChange::explained(tree) == FaultView::NotARecord,
        PriceChangeBatchEntry::explained(tree) == FaultView::NotARecord,
        PriceChangeBatch::explained(tree) == FaultView::NotARecord,
        TickSizeChange::explained(tree) == FaultView::NotARecord,
        LastTradePrice::explained(tree) == FaultView::NotARecord,
        MakerOrder::explained(tree) == FaultView::NotARecord,
        TradeMessage::explained(tree) == FaultView::NotARecord,
        OrderMessage::explained(tree) == FaultView::NotARecord,
        MidpointUpdate::explained(tree) == FaultView::NotARecord,
{
}

/// The fault of a list is that of its first item that has one.
pub proof fn law_fault_of_a_list<T: FromJson>(items: Seq<Json>, i: int)
    ensures
        (forall|j: int| 0 <= j < items.len() ==> T::decoded(#[trigger] items[j]) is Some)
            ==> items_fault_of::<T>(items) is None,
        0 <= i < items.len() && T::decoded(items[i]) is None && (forall|j: int|
            0 <= j < i ==> T::decoded(#[trigger] items[j]) is Some) ==> items_fault_of::<T>(items)
            == Some(T::explained(items[i])),
    decreases items.len(),
{
    if items.len() > 0 {
        let rest = items.drop_last();
        assert forall|j: int| 0 <= j < rest.len() implies #[trigger] rest[j] == items[j] by {}
        law_fault_of_a_list::<T>(rest, i);
    }
}

/// Whether there is nothing wrong with a field that is there.
spec fn passes(fault: Option<FaultView>) -> bool {
    fault is None || fault->0 is Missing
}

/// The first fault of a field that is there is told.
proof fn lemma_first_present_at(faults: Seq<Option<FaultView>>, order: Seq<int>, k: int)
    requires
        0 <= k < order.len(),
        !passes(faults[order[k]]),
        forall|j: int| 0 <= j < k ==> passes(faults[#[trigger] order[j]]),
    ensures
        first_present(faults, order) == faults[order[k]],
    decreases order.len(),
{
    let rest = order.drop_last();
    assert forall|j: int| 0 <= j < rest.len() implies #[trigger] rest[j] == order[j] by {}
    if k < rest.len() {
        lemma_first_present_at(faults, rest, k);
    } else {
        lemma_none_present(faults, rest);
    }
}

/// Without a fault of a field that is there, none is told.
proof fn lemma_none_present(faults: Seq<Option<FaultView>>, order: Seq<int>)
    requires
        forall|j: int| 0 <= j < order.len() ==> passes(faults[#[trigger] order[j]]),
    ensures
        first_present(faults, order) is None,
    decreases order.len(),
{
    if order.len() > 0 {
        let rest = order.drop_last();
        assert forall|j: int| 0 <= j < rest.len() implies #[trigger] rest[j] == order[j] by {}
        lemma_none_present(faults, rest);
    }
}

/// The first fault is told.
proof fn lemma_first_fault_at(faults: Seq<Option<FaultView>>, k: int)
    requires
        0 <= k < faults.len(),
        faults[k] is Some,
        forall|j: int| 0 <= j < k ==> (#[trigger] faults[j]) is None,
    ensures
        first_fault(faults) == faults[k],
    decreases faults.len(),
{
    let rest = faults.drop_last();
    assert forall|j: int| 0 <= j < rest.len() implies #[trigger] rest[j] == faults[j] by {}
    if k < rest.len() {
        lemma_first_fault_at(rest, k);
    } else {
        lemma_no_fault(rest);
    }
}

/// Without a fault, none is told.
proof fn lemma_no_fault(faults: Seq<Option<FaultView>>)
    requires
        forall|j: int| 0 <= j < faults.len() ==> (#[trigger] faults[j]) is None,
    ensures
        first_fault(faults) is None,
    decreases faults.len(),
{
    if faults.len() > 0 {
        let rest = faults.drop_last();
        assert forall|j: int| 0 <= j < rest.len() implies #[trigger] rest[j] == faults[j] by {}
        lemma_no_fault(rest);
    }
}

/// The fault of an object that is not a price level: the first, by name, of the
/// members that are not what they should be, and else the first that is
/// missing.
pub proof fn law_fault_of_an_order_book_level_in_an_object(members: Map<Seq<char>, Json>)
    ensures ({
        let fault = OrderBookLevel::explained(Json::Object(members));
        let price = members.get("price"@);
        let size = members.get("size"@);
        if price is Some && !(decimal_in(price->0) is Some) {
            fault == FaultView::Invalid("price"@)
        } else if size is Some && !(decimal_in(size->0) is Some) {
            fault == FaultView::Invalid("size"@)
        } else if price is None {
            fault == FaultView::Missing("price"@)
        } else if size is None {
            fault == FaultView::Missing("size"@)
        } else {
            true
        }
    }),
{
    let tree = Json::Object(members);
    let faults = order_book_level_faults(tree);
    let order: Seq<int> = seq![0, 1];
    let price = members.get("price"@);
    let size = members.get("size"@);
    assert(order[0] == 0);
    assert(order[1] == 1);
    if price is Some && !(decimal_in(price->0) is Some) {
        lemma_first_present_at(faults, order, 0);
    } else if size is Some && !(decimal_in(size->0) is Some) {
        lemma_first_present_at(faults, order, 1);
    } else if price is None {
        lemma_none_present(faults, order);
        lemma_first_fault_at(faults, 0);
    } else if size is None {
        lemma_none_present(faults, order);
        lemma_first_fault_at(faults, 1);
    }
}

/// The fault of an array that is not a price level: the first of the items that
/// are not what they should be, and else that it has the wrong length.
pub proof fn law_fault_of_an_order_book_level_in_an_array(items: Seq<Json>)
    ensures ({
        let fault = OrderBookLevel::explained(Json::Array(items));
        let price = item_at(items, 0);
        let size = item_at(items, 1);
        if price is Some && !(decimal_in(price->0) is Some) {
            fault == FaultView::Invalid("price"@)
        } else if size is Some && !(decimal_in(size->0) is Some) {
            fault == FaultView::Invalid("size"@)
        } else {
            fault == FaultView::WrongLength
        }
    }),
{
    let tree = Json::Array(items);
    let faults = order_book_level_faults(tree);
    let order = ascending(2);
    let price = item_at(items, 0);
    let size = item_at(items, 1);
    assert(faults.len() == 2);
    assert(order[0] == 0);
    assert(order[1] == 1);
    if price is Some && !(decimal_in(price->0) is Some) {
        lemma_first_present_at(faults, order, 0);
    } else if size is Some && !(decimal_in(size->0) is Some) {
        lemma_first_present_at(faults, order, 1);
    } else {
        lemma_none_present(faults, order);
    }
}

/// The fault of an object that is not an orderbook update: the first, by name,
/// of the members that are not what they should be, and else the first that is
/// missing.
pub proof fn law_fault_of_a_book_update_in_an_object(members: Map<Seq<char>, Json>)
    ensures ({
        let fault = BookUpdate::explained(Json::Object(members));
        let asset_id = members.get("asset_id"@);
        let market = members.get("market"@);
        let timestamp = members.get("timestamp"@);
        let bids = members.get("bids"@);
        let asks = members.get("asks"@);
        let hash = members.get("hash"@);
        if asks is Some && !(asks->0 is Array) {
            fault == FaultView::Invalid("asks"@)
        } else if asks matches Some(Json::Array(list))
            && items_fault_of::<OrderBookLevel>(list) matches Some(inner) && !(inner is Missing) {
            fault == items_fault_of::<OrderBookLevel>(asks->0->Array_0)->0
        } else if asset_id is Some && !(asset_id->0 is String) {
            fault == FaultView::Invalid("asset_id"@)
        } else if bids is Some && !(bids->0 is Array) {
            fault == FaultView::Invalid("bids"@)
        } else if bids matches Some(Json::Array(list))
            && items_fault_of::<OrderBookLevel>(list) matches Some(inner) && !(inner is Missing) {
            fault == items_fault_of::<OrderBookLevel>(bids->0->Array_0)->0
        } else if hash is Some && !(hash->0 is Null || hash->0 is String) {
            fault == FaultView::Invalid("hash"@)
        } else if market is Some && !(market->0 is String) {
            fault == FaultView::Invalid("market"@)
        } else if timestamp is Some && !((timestamp->0 matches Json::String(text)
            && i64_value(text) is Some)) {
            fault == FaultView::Invalid("timestamp"@)
        } else if asset_id is None {
            fault == FaultView::Missing("asset_id"@)
        } else if market is None {
            fault == FaultView::Missing("market"@)
        } else if timestamp is None {
            fault == FaultView::Missing("timestamp"@)
        } else if bids matches Some(Json::Array(list))
            && items_fault_of::<OrderBookLevel>(list) is Some {
            fault == items_fault_of::<OrderBookLevel>(bids->0->Array_0)->0
        } else if asks matches Some(Json::Array(list))
            && items_fault_of::<OrderBookLevel>(list) is Some {
            fault == items_fault_of::<OrderBookLevel>(asks->0->Array_0)->0
        } else {
            true
        }
    }),
{
    let tree = Json::Object(members);
    let faults = book_update_faults(tree);
    let order: Seq<int> = seq![4, 0, 3, 5, 1, 2];
    let asset_id = members.get("asset_id"@);
    let market = members.get("market"@);
    let timestamp = members.get("timestamp"@);
    let bids = members.get("bids"@);
    let asks = members.get("asks"@);
    let hash = members.get("hash"@);
    assert(order[0] == 4);
    assert(order[1] == 0);
    assert(order[2] == 3);
    assert(order[3] == 5);
    assert(order[4] == 1);
    assert(order[5] == 2);
    if asks is Some && !(asks->0 is Array) {
        lemma_first_present_at(faults, order, 0);
    } else if asks matches Some(Json::Array(list))
        && items_fault_of::<OrderBookLevel>(list) matches Some(inner) && !(inner is Missing) {
        lemma_first_present_at(faults, order, 0);
    } else if asset_id is Some && !(asset_id->0 is String) {
        lemma_first_present_at(faults, order, 1);
    } else if bids is Some && !(bids->0 is Array) {
        lemma_first_present_at(faults, order, 2);
    } else if bids matches Some(Json::Array(list))
        && items_fault_of::<OrderBookLevel>(list) matches Some(inner) && !(inner is Missing) {
        lemma_first_present_at(faults, order, 2);
    } else if hash is Some && !(hash->0 is Null || hash->0 is String) {
        lemma_first_present_at(faults, order, 3);
    } else if market is Some && !(market->0 is String) {
        lemma_first_present_at(faults, order, 4);
    } else if timestamp is Some && !((timestamp->0 matches Json::String(text)
        && i64_value(text) is Some)) {
        lemma_first_present_at(faults, order, 5);
    } else if asset_id is None {
        lemma_none_present(faults, order);
        lemma_first_fault_at(faults, 0);
    } else if market is None {
        lemma_none_present(faults, order);
        lemma_first_fault_at(faults, 1);
    } else if timestamp is None {
        lemma_none_present(faults, order);
        lemma_first_fault_at(faults, 2);
    } else if bids matches Some(Json::Array(list))
        && items_fault_of::<OrderBookLevel>(list) is Some {
        lemma_none_present(faults, order);
        lemma_first_fault_at(faults, 3);
    } else if asks matches Some(Json::Array(list))
        && items_fault_of::<OrderBookLevel>(list) is Some {
        lemma_none_present(faults, order);
        lemma_first_fault_at(faults, 4);
    }
}

/// The fault of an array that is not an orderbook update: the first of the
/// items that are not what they should be, and else that it has the wrong
/// length.
pub proof fn law_fault_of_a_book_update_in_an_array(items: Seq<Json>)
    ensures ({
        let fault = BookUpdate::explained(Json::Array(items));
        let asset_id = item_at(items, 0);
        let market = item_at(items, 1);
        let timestamp = item_at(items, 2);
        let bids = item_at(items, 3);
        let asks = item_at(items, 4);
        let hash = item_at(items, 5);
        if asset_id is Some && !(asset_id->0 is String) {
            fault == FaultView::Invalid("asset_id"@)
        } else if market is Some && !(market->0 is String) {
            fault == FaultView::Invalid("market"@)
        } else if timestamp is Some && !((timestamp->0 matches Json::String(text)
            && i64_value(text) is Some)) {
            fault == FaultView::Invalid("timestamp"@)
        } else if bids is Some && !(bids->0 is Array) {
            fault == FaultView::Invalid("bids"@)
        } else if bids matches Some(Json::Array(list))
            && items_fault_of::<OrderBookLevel>(list) matches Some(inner) && !(inner is Missing) {
            fault == items_fault_of::<OrderBookLevel>(bids->0->Array_0)->0
        } else if asks is Some && !(asks->0 is Array) {
            fault == FaultView::Invalid("asks"@)
        } else if asks matches Some(Json::Array(list))
            && items_fault_of::<OrderBookLevel>(list) matches Some(inner) && !(inner is Missing) {
            fault == items_fault_of::<OrderBookLevel>(asks->0->Array_0)->0
        } else if hash is Some && !(hash->0 is Null || hash->0 is String) {
            fault == FaultView::Invalid("hash"@)
        } else {
            fault == FaultView::WrongLength
        }
    }),
{
    let tree = Json::Array(items);
    let faults = book_update_faults(tree);
    let order = ascending(6);
    let asset_id = item_at(items, 0);
    let market = item_at(items, 1);
    let timestamp = item_at(items, 2);
    let bids = item_at(items, 3);
    let asks = item_at(items, 4);
    let hash = item_at(items, 5);
    assert(faults.len() == 6);
    assert(order[0] == 0);
    assert(order[1] == 1);
    assert(order[2] == 2);
    assert(order[3] == 3);
    assert(order[4] == 4);
    assert(order[5] == 5);
    if asset_id is Some && !(asset_id->0 is String) {
        lemma_first_present_at(faults, order, 0);
    } else if market is Some && !(market->0 is String) {
        lemma_first_present_at(faults, order, 1);
    } else if timestamp is Some && !((timestamp->0 matches Json::String(text)
        && i64_value(text) is Some)) {
        lemma_first_present_at(faults, order, 2);
    } else if bids is Some && !(bids->0 is Array) {
        lemma_first_present_at(faults, order, 3);
    } else if bids matches Some(Json::Array(list))
        && items_fault_of::<OrderBookLevel>(list) matches Some(inner) && !(inner is Missing) {
        lemma_first_present_at(faults, order, 3);
    } else if asks is Some && !(asks->0 is Array) {
        lemma_first_present_at(faults, order, 4);
    } else if asks matches Some(Json::Array(list))
        && items_fault_of::<OrderBookLevel>(list) matches Some(inner) && !(inner is Missing) {
        lemma_first_present_at(faults, order, 4);
    } else if hash is Some && !(hash->0 is Null || hash->0 is String) {
        lemma_first_present_at(faults, order, 5);
    } else {
        lemma_none_present(faults, order);
    }
}

/// The fault of an object that is not a price change: the first, by name, of
/// the members that are not what they should be, and else the first that is
/// missing.
pub proof fn law_fault_of_a_price_change_in_an_object(members: Map<Seq<char>, Json>)
    ensures ({
        let fault = PriceChange::explained(Json::Object(members));
        let asset_id = members.get("asset_id"@);
        let market = members.get("market"@);
        let price = members.get("price"@);
        let size = members.get("size"@);
        let side = members.get("side"@);
        let timestamp = members.get("timestamp"@);
        let hash = members.get("hash"@);
        let best_bid = members.get("best_bid"@);
        let best_ask = members.get("best_ask"@);
        if asset_id is Some && !(asset_id->0 is String) {
            fault == FaultView::Invalid("asset_id"@)
        } else if best_ask is Some && !(best_ask->0 is Null || decimal_in(best_ask->0) is Some) {
            fault == FaultView::Invalid("best_ask"@)
        } else if best_bid is Some && !(best_bid->0 is Null || decimal_in(best_bid->0) is Some) {
            fault == FaultView::Invalid("best_bid"@)
        } else if hash is Some && !(hash->0 is Null || hash->0 is String) {
            fault == FaultView::Invalid("hash"@)
        } else if market is Some && !(market->0 is String) {
            fault == FaultView::Invalid("market"@)
        } else if price is Some && !(decimal_in(price->0) is Some) {
            fault == FaultView::Invalid("price"@)
        } else if side is Some && !(side_named(side->0) is Some) {
            fault == FaultView::Invalid("side"@)
        } else if size is Some && !(size->0 is Null || decimal_in(size->0) is Some) {
            fault == FaultView::Invalid("size"@)
        } else if timestamp is Some && !((timestamp->0 matches Json::String(text)
            && i64_value(text) is Some)) {
            fault == FaultView::Invalid("timestamp"@)
        } else if asset_id is None {
            fault == FaultView::Missing("asset_id"@)
        } else if market is None {
            fault == FaultView::Missing("market"@)
        } else if price is None {
            fault == FaultView::Missing("price"@)
        } else if side is None {
            fault == FaultView::Missing("side"@)
        } else if timestamp is None {
            fault == FaultView::Missing("timestamp"@)
        } else {
            true
        }
    }),
{
    let tree = Json::Object(members);
    let faults = price_change_faults(tree);
    let order: Seq<int> = seq![0, 8, 7, 6, 1, 2, 4, 3, 5];
    let asset_id = members.get("asset_id"@);
    let market = members.get("market"@);
    let price = members.get("price"@);
    let size = members.get("size"@);
    let side = members.get("side"@);
    let timestamp = members.get("timestamp"@);
    let hash = members.get("hash"@);
    let best_bid = members.get("best_bid"@);
    let best_ask = members.get("best_ask"@);
    assert(order[0] == 0);
    assert(order[1] == 8);
    assert(order[2] == 7);
    assert(order[3] == 6);
    assert(order[4] == 1);
    assert(order[5] == 2);
    assert(order[6] == 4);
    assert(order[7] == 3);
    assert(order[8] == 5);
    if asset_id is Some && !(asset_id->0 is String) {
        lemma_first_present_at(faults, order, 0);
    } else if best_ask is Some && !(best_ask->0 is Null || decimal_in(best_ask->0) is Some) {
        lemma_first_present_at(faults, order, 1);
    } else if best_bid is Some && !(best_bid->0 is Null || decimal_in(best_bid->0) is Some) {
        lemma_first_present_at(faults, order, 2);
    } else if hash is Some && !(hash->0 is Null || hash->0 is String) {
        lemma_first_present_at(faults, order, 3);
    } else if market is Some && !(market->0 is String) {
        lemma_first_present_at(faults, order, 4);
    } else if price is Some && !(decimal_in(price->0) is Some) {
        lemma_first_present_at(faults, order, 5);
    } else if side is Some && !(side_named(side->0) is Some) {
        lemma_first_present_at(faults, order, 6);
    } else if size is Some && !(size->0 is Null || decimal_in(size->0) is Some) {
        lemma_first_present_at(faults, order, 7);
    } else if timestamp is Some && !((timestamp->0 matches Json::String(text)
        && i64_value(text) is Some)) {
        lemma_first_present_at(faults, order, 8);
    } else if asset_id is None {
        lemma_none_present(faults, order);
        lemma_first_fault_at(faults, 0);
    } else if market is None {
        lemma_none_present(faults, order);
        lemma_first_fault_at(faults, 1);
    } else if price is None {
        lemma_none_present(faults, order);
        lemma_first_fault_at(faults, 2);
    } else if side is None {
        lemma_none_present(faults, order);
        lemma_first_fault_at(faults, 4);
    } else if timestamp is None {
        lemma_none_present(faults, order);
        lemma_first_fault_at(faults, 5);
    }
}

/// The fault of an array that is not a price change: the first of the items
/// that are not what they should be, and else that it has the wrong length.
pub proof fn law_fault_of_a_price_change_in_an_array(items: Seq<Json>)
    ensures ({
        let fault = PriceChange::explained(Json::Array(items));
        let asset_id = item_at(items, 0);
        let market = item_at(items, 1);
        let price = item_at(items, 2);
        let size = item_at(items, 3);
        let side = item_at(items, 4);
        let timestamp = item_at(items, 5);
        let hash = item_at(items, 6);
        let best_bid = item_at(items, 7);
        let best_ask = item_at(items, 8);
        if asset_id is Some && !(asset_id->0 is String) {
            fault == FaultView::Invalid("asset_id"@)
        } else if market is Some && !(market->0 is String) {
            fault == FaultView::Invalid("market"@)
        } else if price is Some && !(decimal_in(price->0) is Some) {
            fault == FaultView::Invalid("price"@)
        } else if size is Some && !(size->0 is Null || decimal_in(size->0) is Some) {
            fault == FaultView::Invalid("size"@)
        } else if side is Some && !(side_named(side->0) is Some) {
            fault == FaultView::Invalid("side"@)
        } else if timestamp is Some && !((timestamp->0 matches Json::String(text)
            && i64_value(text) is Some)) {
            fault == FaultView::Invalid("timestamp"@)
        } else if hash is Some && !(hash->0 is Null || hash->0 is String) {
            fault == FaultView::Invalid("hash"@)
        } else if best_bid is Some && !(best_bid->0 is Null || decimal_in(best_bid->0) is Some) {
            fault == FaultView::Invalid("best_bid"@)
        } else if best_ask is Some && !(best_ask->0 is Null || decimal_in(best_ask->0) is Some) {
            fault == FaultView::Invalid("best_ask"@)
        } else {
            fault == FaultView::WrongLength
        }
    }),
{
    let tree = Json::Array(items);
    let faults = price_change_faults(tree);
    let order = ascending(9);
    let asset_id = item_at(items, 0);
    let market = item_at(items, 1);
    let price = item_at(items, 2);
    let size = item_at(items, 3);
    let side = item_at(items, 4);
    let timestamp = item_at(items, 5);
    let hash = item_at(items, 6);
    let best_bid = item_at(items, 7);
    let best_ask = item_at(items, 8);
    assert(faults.len() == 9);
    assert(order[0] == 0);
    assert(order[1] == 1);
    assert(order[2] == 2);
    assert(order[3] == 3);
    assert(order[4] == 4);
    assert(order[5] == 5);
    assert(order[6] == 6);
    assert(order[7] == 7);
    assert(order[8] == 8);
    if asset_id is Some && !(asset_id->0 is String) {
        lemma_first_present_at(faults, order, 0);
    } else if market is Some && !(market->0 is String) {
        lemma_first_present_at(faults, order, 1);
    } else if price is Some && !(decimal_in(price->0) is Some) {
        lemma_first_present_at(faults, order, 2);
    } else if size is Some && !(size->0 is Null || decimal_in(size->0) is Some) {
        lemma_first_present_at(faults, order, 3);
    } else if side is Some && !(side_named(side->0) is Some) {
        lemma_first_present_at(faults, order, 4);
    } else if timestamp is Some && !((timestamp->0 matches Json::String(text)
        && i64_value(text) is Some)) {
        lemma_first_present_at(faults, order, 5);
    } else if hash is Some && !(hash->0 is Null || hash->0 is String) {
        lemma_first_present_at(faults, order, 6);
    } else if best_bid is Some && !(best_bid->0 is Null || decimal_in(best_bid->0) is Some) {
        lemma_first_present_at(faults, order, 7);
    } else if best_ask is Some && !(best_ask->0 is Null || decimal_in(best_ask->0) is Some) {
        lemma_first_present_at(faults, order, 8);
    } else {
        lemma_none_present(faults, order);
    }
}

/// The fault of an object that is not an entry of a batch: the first, by name,
/// of the members that are not what they should be, and else the first that is
/// missing.
pub proof fn law_fault_of_a_price_change_batch_entry_in_an_object(members: Map<Seq<char>, Json>)
    ensures ({
        let fault = PriceChangeBatchEntry::explained(Json::Object(members));
        let asset_id = members.get("asset_id"@);
        let price = members.get("price"@);
        let size = members.get("size"@);
        let side = members.get("side"@);
        let hash = members.get("hash"@);
        let best_bid = members.get("best_bid"@);
        let best_ask = members.get("best_ask"@);
        if asset_id is Some && !(asset_id->0 is String) {
            fault == FaultView::Invalid("asset_id"@)
        } else if best_ask is Some && !(best_ask->0 is Null || decimal_in(best_ask->0) is Some) {
            fault == FaultView::Invalid("best_ask"@)
        } else if best_bid is Some && !(best_bid->0 is Null || decimal_in(best_bid->0) is Some) {
            fault == FaultView::Invalid("best_bid"@)
        } else if hash is Some && !(hash->0 is Null || hash->0 is String) {
            fault == FaultView::Invalid("hash"@)
        } else if price is Some && !(decimal_in(price->0) is Some) {
            fault == FaultView::Invalid("price"@)
        } else if side is Some && !(side_named(side->0) is Some) {
            fault == FaultView::Invalid("side"@)
        } else if size is Some && !(size->0 is Null || decimal_in(size->0) is Some) {
            fault == FaultView::Invalid("size"@)
        } else if asset_id is None {
            fault == FaultView::Missing("asset_id"@)
        } else if price is None {
            fault == FaultView::Missing("price"@)
        } else if side is None {
            fault == FaultView::Missing("side"@)
        } else {
            true
        }
    }),
{
    let tree = Json::Object(members);
    let faults = price_change_batch_entry_faults(tree);
    let order: Seq<int> = seq![0, 6, 5, 4, 1, 3, 2];
    let asset_id = members.get("asset_id"@);
    let price = members.get("price"@);
    let size = members.get("size"@);
    let side = members.get("side"@);
    let hash = members.get("hash"@);
    let best_bid = members.get("best_bid"@);
    let best_ask = members.get("best_ask"@);
    assert(order[0] == 0);
    assert(order[1] == 6);
    assert(order[2] == 5);
    assert(order[3] == 4);
    assert(order[4] == 1);
    assert(order[5] == 3);
    assert(order[6] == 2);
    if asset_id is Some && !(asset_id->0 is String) {
        lemma_first_present_at(faults, order, 0);
    } else if best_ask is Some && !(best_ask->0 is Null || decimal_in(best_ask->0) is Some) {
        lemma_first_present_at(faults, order, 1);
    } else if best_bid is Some && !(best_bid->0 is Null || decimal_in(best_bid->0) is Some) {
        lemma_first_present_at(faults, order, 2);
    } else if hash is Some && !(hash->0 is Null || hash->0 is String) {
        lemma_first_present_at(faults, order, 3);
    } else if price is Some && !(decimal_in(price->0) is Some) {
        lemma_first_present_at(faults, order, 4);
    } else if side is Some && !(side_named(side->0) is Some) {
        lemma_first_present_at(faults, order, 5);
    } else if size is Some && !(size->0 is Null || decimal_in(size->0) is Some) {
        lemma_first_present_at(faults, order, 6);
    } else if asset_id is None {
        lemma_none_present(faults, order);
        lemma_first_fault_at(faults, 0);
    } else if price is None {
        lemma_none_present(faults, order);
        lemma_first_fault_at(faults, 1);
    } else if side is None {
        lemma_none_present(faults, order);
        lemma_first_fault_at(faults, 3);
    }
}

/// The fault of an array that is not an entry of a batch: the first of the
/// items that are not what they should be, and else that it has the wrong
/// length.
pub proof fn law_fault_of_a_price_change_batch_entry_in_an_array(items: Seq<Json>)
    ensures ({
        let fault = PriceChangeBatchEntry::explained(Json::Array(items));
        let asset_id = item_at(items, 0);
        let price = item_at(items, 1);
        let size = item_at(items, 2);
        let side = item_at(items, 3);
        let hash = item_at(items, 4);
        let best_bid = item_at(items, 5);
        let best_ask = item_at(items, 6);
        if asset_id is Some && !(asset_id->0 is String) {
            fault == FaultView::Invalid("asset_id"@)
        } else if price is Some && !(decimal_in(price->0) is Some) {
            fault == FaultView::Invalid("price"@)
        } else if size is Some && !(size->0 is Null || decimal_in(size->0) is Some) {
            fault == FaultView::Invalid("size"@)
        } else if side is Some && !(side_named(side->0) is Some) {
            fault == FaultView::Invalid("side"@)
        } else if hash is Some && !(hash->0 is Null || hash->0 is String) {
            fault == FaultView::Invalid("hash"@)
        } else if best_bid is Some && !(best_bid->0 is Null || decimal_in(best_bid->0) is Some) {
            fault == FaultView::Invalid("best_bid"@)
        } else if best_ask is Some && !(best_ask->0 is Null || decimal_in(best_ask->0) is Some) {
            fault == FaultView::Invalid("best_ask"@)
        } else {
            fault == FaultView::WrongLength
        }
    }),
{
    let tree = Json::Array(items);
    let faults = price_change_batch_entry_faults(tree);
    let order = ascending(7);
    let asset_id = item_at(items, 0);
    let price = item_at(items, 1);
    let size = item_at(items, 2);
    let side = item_at(items, 3);
    let hash = item_at(items, 4);
    let best_bid = item_at(items, 5);
    let best_ask = item_at(items, 6);
    assert(faults.len() == 7);
    assert(order[0] == 0);
    assert(order[1] == 1);
    assert(order[2] == 2);
    assert(order[3] == 3);
    assert(order[4] == 4);
    assert(order[5] == 5);
    assert(order[6] == 6);
    if asset_id is Some && !(asset_id->0 is String) {
        lemma_first_present_at(faults, order, 0);
    } else if price is Some && !(decimal_in(price->0) is Some) {
        lemma_first_present_at(faults, order, 1);
    } else if size is Some && !(size->0 is Null || decimal_in(size->0) is Some) {
        lemma_first_present_at(faults, order, 2);
    } else if side is Some && !(side_named(side->0) is Some) {
        lemma_first_present_at(faults, order, 3);
    } else if hash is Some && !(hash->0 is Null || hash->0 is String) {
        lemma_first_present_at(faults, order, 4);
    } else if best_bid is Some && !(best_bid->0 is Null || decimal_in(best_bid->0) is Some) {
        lemma_first_present_at(faults, order, 5);
    } else if best_ask is Some && !(best_ask->0 is Null || decimal_in(best_ask->0) is Some) {
        lemma_first_present_at(faults, order, 6);
    } else {
        lemma_none_present(faults, order);
    }
}

/// The fault of an object that is not a batch of price changes: the first, by
/// name, of the members that are not what they should be, and else the first
/// that is missing.
pub proof fn law_fault_of_a_price_change_batch_in_an_object(members: Map<Seq<char>, Json>)
    ensures ({
        let fault = PriceChangeBatch::explained(Json::Object(members));
        let market = members.get("market"@);
        let timestamp = members.get("timestamp"@);
        let price_changes = members.get("price_changes"@);
        if market is Some && !(market->0 is String) {
            fault == FaultView::Invalid("market"@)
        } else if price_changes is Some && !(price_changes->0 is Array) {
            fault == FaultView::Invalid("price_changes"@)
        } else if price_changes matches Some(Json::Array(list))
            && items_fault_of::<PriceChangeBatchEntry>(list) matches Some(inner)
            && !(inner is Missing) {
            fault == items_fault_of::<PriceChangeBatchEntry>(price_changes->0->Array_0)->0
        } else if timestamp is Some && !((timestamp->0 matches Json::String(text)
            && i64_value(text) is Some) || (timestamp->0 matches Json::Integer(n)
            && i64::MIN <= n <= i64::MAX)) {
            fault == FaultView::Invalid("timestamp"@)
        } else if market is None {
            fault == FaultView::Missing("market"@)
        } else if timestamp is None {
            fault == FaultView::Missing("timestamp"@)
        } else if price_changes matches Some(Json::Array(list))
            && items_fault_of::<PriceChangeBatchEntry>(list) is Some {
            fault == items_fault_of::<PriceChangeBatchEntry>(price_changes->0->Array_0)->0
        } else {
            true
        }
    }),
{
    let tree = Json::Object(members);
    let faults = price_change_batch_faults(tree);
    let order: Seq<int> = seq![0, 2, 1];
    let market = members.get("market"@);
    let timestamp = members.get("timestamp"@);
    let price_changes = members.get("price_changes"@);
    assert(order[0] == 0);
    assert(order[1] == 2);
    assert(order[2] == 1);
    if market is Some && !(market->0 is String) {
        lemma_first_present_at(faults, order, 0);
    } else if price_changes is Some && !(price_changes->0 is Array) {
        lemma_first_present_at(faults, order, 1);
    } else if price_changes matches Some(Json::Array(list))
        && items_fault_of::<PriceChangeBatchEntry>(list) matches Some(inner)
        && !(inner is Missing) {
        lemma_first_present_at(faults, order, 1);
    } else if timestamp is Some && !((timestamp->0 matches Json::String(text)
        && i64_value(text) is Some) || (timestamp->0 matches Json::Integer(n)
        && i64::MIN <= n <= i64::MAX)) {
        lemma_first_present_at(faults, order, 2);
    } else if market is None {
        lemma_none_present(faults, order);
        lemma_first_fault_at(faults, 0);
    } else if timestamp is None {
        lemma_none_present(faults, order);
        lemma_first_fault_at(faults, 1);
    } else if price_changes matches Some(Json::Array(list))
        && items_fault_of::<PriceChangeBatchEntry>(list) is Some {
        lemma_none_present(faults, order);
        lemma_first_fault_at(faults, 2);
    }
}

/// The fault of an array that is not a batch of price changes: the first of the
/// items that are not what they should be, and else that it has the wrong
/// length.
pub proof fn law_fault_of_a_price_change_batch_in_an_array(items: Seq<Json>)
    ensures ({
        let fault = PriceChangeBatch::explained(Json::Array(items));
        let market = item_at(items, 0);
        let timestamp = item_at(items, 1);
        let price_changes = item_at(items, 2);
        if market is Some && !(market->0 is String) {
            fault == FaultView::Invalid("market"@)
        } else if timestamp is Some && !((timestamp->0 matches Json::String(text)
            && i64_value(text) is Some) || (timestamp->0 matches Json::Integer(n)
            && i64::MIN <= n <= i64::MAX)) {
            fault == FaultView::Invalid("timestamp"@)
        } else if price_changes is Some && !(price_changes->0 is Array) {
            fault == FaultView::Invalid("price_changes"@)
        } else if price_changes matches Some(Json::Array(list))
            && items_fault_of::<PriceChangeBatchEntry>(list) matches Some(inner)
            && !(inner is Missing) {
            fault == items_fault_of::<PriceChangeBatchEntry>(price_changes->0->Array_0)->0
        } else {
            fault == FaultView::WrongLength
        }
    }),
{
    let tree = Json::Array(items);
    let faults = price_change_batch_faults(tree);
    let order = ascending(3);
    let market = item_at(items, 0);
    let timestamp = item_at(items, 1);
    let price_changes = item_at(items, 2);
    assert(faults.len() == 3);
    assert(order[0] == 0);
    assert(order[1] == 1);
    assert(order[2] == 2);
    if market is Some && !(market->0 is String) {
        lemma_first_present_at(faults, order, 0);
    } else if timestamp is Some && !((timestamp->0 matches Json::String(text)
        && i64_value(text) is Some) || (timestamp->0 matches Json::Integer(n)
        && i64::MIN <= n <= i64::MAX)) {
        lemma_first_present_at(faults, order, 1);
    } else if price_changes is Some && !(price_changes->0 is Array) {
        lemma_first_present_at(faults, order, 2);
    } else if price_changes matches Some(Json::Array(list))
        && items_fault_of::<PriceChangeBatchEntry>(list) matches Some(inner)
        && !(inner is Missing) {
        lemma_first_present_at(faults, order, 2);
    } else {
        lemma_none_present(faults, order);
    }
}

/// The fault of an object that is not a tick size change: the first, by name,
/// of the members that are not what they should be, and else the first that is
/// missing.
pub proof fn law_fault_of_a_tick_size_change_in_an_object(members: Map<Seq<char>, Json>)
    ensures ({
        let fault = TickSizeChange::explained(Json::Object(members));
        let asset_id = members.get("asset_id"@);
        let market = members.get("market"@);
        let old_tick_size = members.get("old_tick_size"@);
        let new_tick_size = members.get("new_tick_size"@);
        let timestamp = members.get("timestamp"@);
        if asset_id is Some && !(asset_id->0 is String) {
            fault == FaultView::Invalid("asset_id"@)
        } else if market is Some && !(market->0 is String) {
            fault == FaultView::Invalid("market"@)
        } else if new_tick_size is Some && !(decimal_in(new_tick_size->0) is Some) {
            fault == FaultView::Invalid("new_tick_size"@)
        } else if old_tick_size is Some && !(decimal_in(old_tick_size->0) is Some) {
            fault == FaultView::Invalid("old_tick_size"@)
        } else if timestamp is Some && !((timestamp->0 matches Json::String(text)
            && i64_value(text) is Some)) {
            fault == FaultView::Invalid("timestamp"@)
        } else if asset_id is None {
            fault == FaultView::Missing("asset_id"@)
        } else if market is None {
            fault == FaultView::Missing("market"@)
        } else if old_tick_size is None {
            fault == FaultView::Missing("old_tick_size"@)
        } else if new_tick_size is None {
            fault == FaultView::Missing("new_tick_size"@)
        } else if timestamp is None {
            fault == FaultView::Missing("timestamp"@)
        } else {
            true
        }
    }),
{
    let tree = Json::Object(members);
    let faults = tick_size_change_faults(tree);
    let order: Seq<int> = seq![0, 1, 3, 2, 4];
    let asset_id = members.get("asset_id"@);
    let market = members.get("market"@);
    let old_tick_size = members.get("old_tick_size"@);
    let new_tick_size = members.get("new_tick_size"@);
    let timestamp = members.get("timestamp"@);
    assert(order[0] == 0);
    assert(order[1] == 1);
    assert(order[2] == 3);
    assert(order[3] == 2);
    assert(order[4] == 4);
    if asset_id is Some && !(asset_id->0 is String) {
        lemma_first_present_at(faults, order, 0);
    } else if market is Some && !(market->0 is String) {
        lemma_first_present_at(faults, order, 1);
    } else if new_tick_size is Some && !(decimal_in(new_tick_size->0) is Some) {
        lemma_first_present_at(faults, order, 2);
    } else if old_tick_size is Some && !(decimal_in(old_tick_size->0) is Some) {
        lemma_first_present_at(faults, order, 3);
    } else if timestamp is Some && !((timestamp->0 matches Json::String(text)
        && i64_value(text) is Some)) {
        lemma_first_present_at(faults, order, 4);
    } else if asset_id is None {
        lemma_none_present(faults, order);
        lemma_first_fault_at(faults, 0);
    } else if market is None {
        lemma_none_present(faults, order);
        lemma_first_fault_at(faults, 1);
    } else if old_tick_size is None {
        lemma_none_present(faults, order);
        lemma_first_fault_at(faults, 2);
    } else if new_tick_size is None {
        lemma_none_present(faults, order);
        lemma_first_fault_at(faults, 3);
    } else if timestamp is None {
        lemma_none_present(faults, order);
        lemma_first_fault_at(faults, 4);
    }
}

/// The fault of an array that is not a tick size change: the first of the items
/// that are not what they should be, and else that it has the wrong length.
pub proof fn law_fault_of_a_tick_size_change_in_an_array(items: Seq<Json>)
    ensures ({
        let fault = TickSizeChange::explained(Json::Array(items));
        let asset_id = item_at(items, 0);
        let market = item_at(items, 1);
        let old_tick_size = item_at(items, 2);
        let new_tick_size = item_at(items, 3);
        let timestamp = item_at(items, 4);
        if asset_id is Some && !(asset_id->0 is String) {
            fault == FaultView::Invalid("asset_id"@)
        } else if market is Some && !(market->0 is String) {
            fault == FaultView::Invalid("market"@)
        } else if old_tick_size is Some && !(decimal_in(old_tick_size->0) is Some) {
            fault == FaultView::Invalid("old_tick_size"@)
        } else if new_tick_size is Some && !(decimal_in(new_tick_size->0) is Some) {
            fault == FaultView::Invalid("new_tick_size"@)
        } else if timestamp is Some && !((timestamp->0 matches Json::String(text)
            && i64_value(text) is Some)) {
            fault == FaultView::Invalid("timestamp"@)
        } else {
            fault == FaultView::WrongLength
        }
    }),
{
    let tree = Json::Array(items);
    let faults = tick_size_change_faults(tree);
    let order = ascending(5);
    let asset_id = item_at(items, 0);
    let market = item_at(items, 1);
    let old_tick_size = item_at(items, 2);
    let new_tick_size = item_at(items, 3);
    let timestamp = item_at(items, 4);
    assert(faults.len() == 5);
    assert(order[0] == 0);
    assert(order[1] == 1);
    assert(order[2] == 2);
    assert(order[3] == 3);
    assert(order[4] == 4);
    if asset_id is Some && !(asset_id->0 is String) {
        lemma_first_present_at(faults, order, 0);
    } else if market is Some && !(market->0 is String) {
        lemma_first_present_at(faults, order, 1);
    } else if old_tick_size is Some && !(decimal_in(old_tick_size->0) is Some) {
        lemma_first_present_at(faults, order, 2);
    } else if new_tick_size is Some && !(decimal_in(new_tick_size->0) is Some) {
        lemma_first_present_at(faults, order, 3);
    } else if timestamp is Some && !((timestamp->0 matches Json::String(text)
        && i64_value(text) is Some)) {
        lemma_first_present_at(faults, order, 4);
    } else {
        lemma_none_present(faults, order);
    }
}

/// The fault of an object that is not a last trade price: the first, by name,
/// of the members that are not what they should be, and else the first that is
/// missing.
pub proof fn law_fault_of_a_last_trade_price_in_an_object(members: Map<Seq<char>, Json>)
    ensures ({
        let fault = LastTradePrice::explained(Json::Object(members));
        let asset_id = members.get("asset_id"@);
        let market = members.get("market"@);
        let price = members.get("price"@);
        let side = members.get("side"@);
        let timestamp = members.get("timestamp"@);
        if asset_id is Some && !(asset_id->0 is String) {
            fault == FaultView::Invalid("asset_id"@)
        } else if market is Some && !(market->0 is String) {
            fault == FaultView::Invalid("market"@)
        } else if price is Some && !(decimal_in(price->0) is Some) {
            fault == FaultView::Invalid("price"@)
        } else if side is Some && !(side->0 is Null || side_named(side->0) is Some) {
            fault == FaultView::Invalid("side"@)
        } else if timestamp is Some && !((timestamp->0 matches Json::String(text)
            && i64_value(text) is Some)) {
            fault == FaultView::Invalid("timestamp"@)
        } else if asset_id is None {
            fault == FaultView::Missing("asset_id"@)
        } else if market is None {
            fault == FaultView::Missing("market"@)
        } else if price is None {
            fault == FaultView::Missing("price"@)
        } else if timestamp is None {
            fault == FaultView::Missing("timestamp"@)
        } else {
            true
        }
    }),
{
    let tree = Json::Object(members);
    let faults = last_trade_price_faults(tree);
    let order: Seq<int> = seq![0, 1, 2, 3, 4];
    let asset_id = members.get("asset_id"@);
    let market = members.get("market"@);
    let price = members.get("price"@);
    let side = members.get("side"@);
    let timestamp = members.get("timestamp"@);
    assert(order[0] == 0);
    assert(order[1] == 1);
    assert(order[2] == 2);
    assert(order[3] == 3);
    assert(order[4] == 4);
    if asset_id is Some && !(asset_id->0 is String) {
        lemma_first_present_at(faults, order, 0);
    } else if market is Some && !(market->0 is String) {
        lemma_first_present_at(faults, order, 1);
    } else if price is Some && !(decimal_in(price->0) is Some) {
        lemma_first_present_at(faults, order, 2);
    } else if side is Some && !(side->0 is Null || side_named(side->0) is Some) {
        lemma_first_present_at(faults, order, 3);
    } else if timestamp is Some && !((timestamp->0 matches Json::String(text)
        && i64_value(text) is Some)) {
        lemma_first_present_at(faults, order, 4);
    } else if asset_id is None {
        lemma_none_present(faults, order);
        lemma_first_fault_at(faults, 0);
    } else if market is None {
        lemma_none_present(faults, order);
        lemma_first_fault_at(faults, 1);
    } else if price is None {
        lemma_none_present(faults, order);
        lemma_first_fault_at(faults, 2);
    } else if timestamp is None {
        lemma_none_present(faults, order);
        lemma_first_fault_at(faults, 4);
    }
}

/// The fault of an array that is not a last trade price: the first of the items
/// that are not what they should be, and else that it has the wrong length.
pub proof fn law_fault_of_a_last_trade_price_in_an_array(items: Seq<Json>)
    ensures ({
        let fault = LastTradePrice::explained(Json::Array(items));
        let asset_id = item_at(items, 0);
        let market = item_at(items, 1);
        let price = item_at(items, 2);
        let side = item_at(items, 3);
        let timestamp = item_at(items, 4);
        if asset_id is Some && !(asset_id->0 is String) {
            fault == FaultView::Invalid("asset_id"@)
        } else if market is Some && !(market->0 is String) {
            fault == FaultView::Invalid("market"@)
        } else if price is Some && !(decimal_in(price->0) is Some) {
            fault == FaultView::Invalid("price"@)
        } else if side is Some && !(side->0 is Null || side_named(side->0) is Some) {
            fault == FaultView::Invalid("side"@)
        } else if timestamp is Some && !((timestamp->0 matches Json::String(text)
            && i64_value(text) is Some)) {
            fault == FaultView::Invalid("timestamp"@)
        } else {
            fault == FaultView::WrongLength
        }
    }),
{
    let tree = Json::Array(items);
    let faults = last_trade_price_faults(tree);
    let order = ascending(5);
    let asset_id = item_at(items, 0);
    let market = item_at(items, 1);
    let price = item_at(items, 2);
    let side = item_at(items, 3);
    let timestamp = item_at(items, 4);
    assert(faults.len() == 5);
    assert(order[0] == 0);
    assert(order[1] == 1);
    assert(order[2] == 2);
    assert(order[3] == 3);
    assert(order[4] == 4);
    if asset_id is Some && !(asset_id->0 is String) {
        lemma_first_present_at(faults, order, 0);
    } else if market is Some && !(market->0 is String) {
        lemma_first_present_at(faults, order, 1);
    } else if price is Some && !(decimal_in(price->0) is Some) {
        lemma_first_present_at(faults, order, 2);
    } else if side is Some && !(side->0 is Null || side_named(side->0) is Some) {
        lemma_first_present_at(faults, order, 3);
    } else if timestamp is Some && !((timestamp->0 matches Json::String(text)
        && i64_value(text) is Some)) {
        lemma_first_present_at(faults, order, 4);
    } else {
        lemma_none_present(faults, order);
    }
}

/// The fault of an object that is not a maker order: the first, by name, of the
/// members that are not what they should be, and else the first that is
/// missing.
pub proof fn law_fault_of_a_maker_order_in_an_object(members: Map<Seq<char>, Json>)
    ensures ({
        let fault = MakerOrder::explained(Json::Object(members));
        let asset_id = members.get("asset_id"@);
        let matched_amount = members.get("matched_amount"@);
        let order_id = members.get("order_id"@);
        let outcome = members.get("outcome"@);
        let owner = members.get("owner"@);
        let price = members.get("price"@);
        if asset_id is Some && !(asset_id->0 is String) {
            fault == FaultView::Invalid("asset_id"@)
        } else if matched_amount is Some && !(matched_amount->0 is String) {
            fault == FaultView::Invalid("matched_amount"@)
        } else if order_id is Some && !(order_id->0 is String) {
            fault == FaultView::Invalid("order_id"@)
        } else if outcome is Some && !(outcome->0 is String) {
            fault == FaultView::Invalid("outcome"@)
        } else if owner is Some && !(owner->0 is String) {
            fault == FaultView::Invalid("owner"@)
        } else if price is Some && !(price->0 is String) {
            fault == FaultView::Invalid("price"@)
        } else if asset_id is None {
            fault == FaultView::Missing("asset_id"@)
        } else if matched_amount is None {
            fault == FaultView::Missing("matched_amount"@)
        } else if order_id is None {
            fault == FaultView::Missing("order_id"@)
        } else if outcome is None {
            fault == FaultView::Missing("outcome"@)
        } else if owner is None {
            fault == FaultView::Missing("owner"@)
        } else if price is None {
            fault == FaultView::Missing("price"@)
        } else {
            true
        }
    }),
{
    let tree = Json::Object(members);
    let faults = maker_order_faults(tree);
    let order: Seq<int> = seq![0, 1, 2, 3, 4, 5];
    let asset_id = members.get("asset_id"@);
    let matched_amount = members.get("matched_amount"@);
    let order_id = members.get("order_id"@);
    let outcome = members.get("outcome"@);
    let owner = members.get("owner"@);
    let price = members.get("price"@);
    assert(order[0] == 0);
    assert(order[1] == 1);
    assert(order[2] == 2);
    assert(order[3] == 3);
    assert(order[4] == 4);
    assert(order[5] == 5);
    if asset_id is Some && !(asset_id->0 is String) {
        lemma_first_present_at(faults, order, 0);
    } else if matched_amount is Some && !(matched_amount->0 is String) {
        lemma_first_present_at(faults, order, 1);
    } else if order_id is Some && !(order_id->0 is String) {
        lemma_first_present_at(faults, order, 2);
    } else if outcome is Some && !(outcome->0 is String) {
        lemma_first_present_at(faults, order, 3);
    } else if owner is Some && !(owner->0 is String) {
        lemma_first_present_at(faults, order, 4);
    } else if price is Some && !(price->0 is String) {
        lemma_first_present_at(faults, order, 5);
    } else if asset_id is None {
        lemma_none_present(faults, order);
        lemma_first_fault_at(faults, 0);
    } else if matched_amount is None {
        lemma_none_present(faults, order);
        lemma_first_fault_at(faults, 1);
    } else if order_id is None {
        lemma_none_present(faults, order);
        lemma_first_fault_at(faults, 2);
    } else if outcome is None {
        lemma_none_present(faults, order);
        lemma_first_fault_at(faults, 3);
    } else if owner is None {
        lemma_none_present(faults, order);
        lemma_first_fault_at(faults, 4);
    } else if price is None {
        lemma_none_present(faults, order);
        lemma_first_fault_at(faults, 5);
    }
}

/// The fault of an array that is not a maker order: the first of the items that
/// are not what they should be, and else that it has the wrong length.
pub proof fn law_fault_of_a_maker_order_in_an_array(items: Seq<Json>)
    ensures ({
        let fault = MakerOrder::explained(Json::Array(items));
        let asset_id = item_at(items, 0);
        let matched_amount = item_at(items, 1);
        let order_id = item_at(items, 2);
        let outcome = item_at(items, 3);
        let owner = item_at(items, 4);
        let price = item_at(items, 5);
        if asset_id is Some && !(asset_id->0 is String) {
            fault == FaultView::Invalid("asset_id"@)
        } else if matched_amount is Some && !(matched_amount->0 is String) {
            fault == FaultView::Invalid("matched_amount"@)
        } else if order_id is Some && !(order_id->0 is String) {
            fault == FaultView::Invalid("order_id"@)
        } else if outcome is Some && !(outcome->0 is String) {
            fault == FaultView::Invalid("outcome"@)
        } else if owner is Some && !(owner->0 is String) {
            fault == FaultView::Invalid("owner"@)
        } else if price is Some && !(price->0 is String) {
            fault == FaultView::Invalid("price"@)
        } else {
            fault == FaultView::WrongLength
        }
    }),
{
    let tree = Json::Array(items);
    let faults = maker_order_faults(tree);
    let order = ascending(6);
    let asset_id = item_at(items, 0);
    let matched_amount = item_at(items, 1);
    let order_id = item_at(items, 2);
    let outcome = item_at(items, 3);
    let owner = item_at(items, 4);
    let price = item_at(items, 5);
    assert(faults.len() == 6);
    assert(order[0] == 0);
    assert(order[1] == 1);
    assert(order[2] == 2);
    assert(order[3] == 3);
    assert(order[4] == 4);
    assert(order[5] == 5);
    if asset_id is Some && !(asset_id->0 is String) {
        lemma_first_present_at(faults, order, 0);
    } else if matched_amount is Some && !(matched_amount->0 is String) {
        lemma_first_present_at(faults, order, 1);
    } else if order_id is Some && !(order_id->0 is String) {
        lemma_first_present_at(faults, order, 2);
    } else if outcome is Some && !(outcome->0 is String) {
        lemma_first_present_at(faults, order, 3);
    } else if owner is Some && !(owner->0 is String) {
        lemma_first_present_at(faults, order, 4);
    } else if price is Some && !(price->0 is String) {
        lemma_first_present_at(faults, order, 5);
    } else {
        lemma_none_present(faults, order);
    }
}

/// The fault of an object that is not a trade: the first, by name, of the
/// members that are not what they should be, and else the first that is
/// missing.
#[verifier::rlimit(40)]
pub proof fn law_fault_of_a_trade_message_in_an_object(members: Map<Seq<char>, Json>)
    ensures ({
        let fault = TradeMessage::explained(Json::Object(members));
        let id = members.get("id"@);
        let market = members.get("market"@);
        let asset_id = members.get("asset_id"@);
        let side = members.get("side"@);
        let size = members.get("size"@);
        let price = members.get("price"@);
        let status = members.get("status"@);
        let event_type = members.get("event_type"@);
        let msg_type = members.get("type"@);
        let last_update = members.get("last_update"@);
        let matchtime = members.get("matchtime"@);
        let timestamp = members.get("timestamp"@);
        let outcome = members.get("outcome"@);
        let owner = members.get("owner"@);
        let trade_owner = members.get("trade_owner"@);
        let taker_order_id = members.get("taker_order_id"@);
        let maker_orders = members.get("maker_orders"@);
        let fee_rate_bps = members.get("fee_rate_bps"@);
        let transaction_hash = members.get("transaction_hash"@);
        let trader_side = members.get("trader_side"@);
        if asset_id is Some && !(asset_id->0 is String) {
            fault == FaultView::Invalid("asset_id"@)
        } else if event_type is Some && !(event_type->0 is Null || event_type->0 is String) {
            fault == FaultView::Invalid("event_type"@)
        } else if fee_rate_bps is Some && !(fee_rate_bps->0 is Null || fee_rate_bps->0 is String) {
            fault == FaultView::Invalid("fee_rate_bps"@)
        } else if id is Some && !(id->0 is String) {
            fault == FaultView::Invalid("id"@)
        } else if last_update is Some && !(last_update->0 is Null || last_update->0 is String) {
            fault == FaultView::Invalid("last_update"@)
        } else if maker_orders is Some && !(maker_orders->0 is Array) {
            fault == FaultView::Invalid("maker_orders"@)
        } else if maker_orders matches Some(Json::Array(list))
            && items_fault_of::<MakerOrder>(list) matches Some(inner) && !(inner is Missing) {
            fault == items_fault_of::<MakerOrder>(maker_orders->0->Array_0)->0
        } else if market is Some && !(market->0 is String) {
            fault == FaultView::Invalid("market"@)
        } else if matchtime is Some && !(matchtime->0 is Null || matchtime->0 is String) {
            fault == FaultView::Invalid("matchtime"@)
        } else if outcome is Some && !(outcome->0 is Null || outcome->0 is String) {
            fault == FaultView::Invalid("outcome"@)
        } else if owner is Some && !(owner->0 is Null || owner->0 is String) {
            fault == FaultView::Invalid("owner"@)
        } else if price is Some && !(price->0 is String) {
            fault == FaultView::Invalid("price"@)
        } else if side is Some && !(side_named(side->0) is Some) {
            fault == FaultView::Invalid("side"@)
        } else if size is Some && !(size->0 is String) {
            fault == FaultView::Invalid("size"@)
        } else if status is Some && !(status->0 is String) {
            fault == FaultView::Invalid("status"@)
        } else if taker_order_id is Some
            && !(taker_order_id->0 is Null || taker_order_id->0 is String) {
            fault == FaultView::Invalid("taker_order_id"@)
        } else if timestamp is Some && !(timestamp->0 is Null || timestamp->0 is String) {
            fault == FaultView::Invalid("timestamp"@)
        } else if trade_owner is Some && !(trade_owner->0 is Null || trade_owner->0 is String) {
            fault == FaultView::Invalid("trade_owner"@)
        } else if trader_side is Some
            && !(trader_side->0 is Null || trader_side_named(trader_side->0) is Some) {
            fault == FaultView::Invalid("trader_side"@)
        } else if transaction_hash is Some
            && !(transaction_hash->0 is Null || transaction_hash->0 is String) {
            fault == FaultView::Invalid("transaction_hash"@)
        } else if msg_type is Some && !(msg_type->0 is Null || msg_type->0 is String) {
            fault == FaultView::Invalid("type"@)
        } else if id is None {
            fault == FaultView::Missing("id"@)
        } else if market is None {
            fault == FaultView::Missing("market"@)
        } else if asset_id is None {
            fault == FaultView::Missing("asset_id"@)
        } else if side is None {
            fault == FaultView::Missing("side"@)
        } else if size is None {
            fault == FaultView::Missing("size"@)
        } else if price is None {
            fault == FaultView::Missing("price"@)
        } else if status is None {
            fault == FaultView::Missing("status"@)
        } else if maker_orders matches Some(Json::Array(list))
            && items_fault_of::<MakerOrder>(list) is Some {
            fault == items_fault_of::<MakerOrder>(maker_orders->0->Array_0)->0
        } else {
            true
        }
    }),
{
    let tree = Json::Object(members);
    let faults = trade_message_faults(tree);
    let order: Seq<int> = seq![2, 7, 17, 0, 9, 16, 1, 10, 12, 13, 5, 3, 4, 6, 15, 11, 14, 19,
        18, 8];
    let id = members.get("id"@);
    let market = members.get("market"@);
    let asset_id = members.get("asset_id"@);
    let side = members.get("side"@);
    let size = members.get("size"@);
    let price = members.get("price"@);
    let status = members.get("status"@);
    let event_type = members.get("event_type"@);
    let msg_type = members.get("type"@);
    let last_update = members.get("last_update"@);
    let matchtime = members.get("matchtime"@);
    let timestamp = members.get("timestamp"@);
    let outcome = members.get("outcome"@);
    let owner = members.get("owner"@);
    let trade_owner = members.get("trade_owner"@);
    let taker_order_id = members.get("taker_order_id"@);
    let maker_orders = members.get("maker_orders"@);
    let fee_rate_bps = members.get("fee_rate_bps"@);
    let transaction_hash = members.get("transaction_hash"@);
    let trader_side = members.get("trader_side"@);
    assert(order[0] == 2);
    assert(order[1] == 7);
    assert(order[2] == 17);
    assert(order[3] == 0);
    assert(order[4] == 9);
    assert(order[5] == 16);
    assert(order[6] == 1);
    assert(order[7] == 10);
    assert(order[8] == 12);
    assert(order[9] == 13);
    assert(order[10] == 5);
    assert(order[11] == 3);
    assert(order[12] == 4);
    assert(order[13] == 6);
    assert(order[14] == 15);
    assert(order[15] == 11);
    assert(order[16] == 14);
    assert(order[17] == 19);
    assert(order[18] == 18);
    assert(order[19] == 8);
    if asset_id is Some && !(asset_id->0 is String) {
        lemma_first_present_at(faults, order, 0);
    } else if event_type is Some && !(event_type->0 is Null || event_type->0 is String) {
        lemma_first_present_at(faults, order, 1);
    } else if fee_rate_bps is Some && !(fee_rate_bps->0 is Null || fee_rate_bps->0 is String) {
        lemma_first_present_at(faults, order, 2);
    } else if id is Some && !(id->0 is String) {
        lemma_first_present_at(faults, order, 3);
    } else if last_update is Some && !(last_update->0 is Null || last_update->0 is String) {
        lemma_first_present_at(faults, order, 4);
    } else if maker_orders is Some && !(maker_orders->0 is Array) {
        lemma_first_present_at(faults, order, 5);
    } else if maker_orders matches Some(Json::Array(list))
        && items_fault_of::<MakerOrder>(list) matches Some(inner) && !(inner is Missing) {
        lemma_first_present_at(faults, order, 5);
    } else if market is Some && !(market->0 is String) {
        lemma_first_present_at(faults, order, 6);
    } else if matchtime is Some && !(matchtime->0 is Null || matchtime->0 is String) {
        lemma_first_present_at(faults, order, 7);
    } else if outcome is Some && !(outcome->0 is Null || outcome->0 is String) {
        lemma_first_present_at(faults, order, 8);
    } else if owner is Some && !(owner->0 is Null || owner->0 is String) {
        lemma_first_present_at(faults, order, 9);
    } else if price is Some && !(price->0 is String) {
        lemma_first_present_at(faults, order, 10);
    } else if side is Some && !(side_named(side->0) is Some) {
        lemma_first_present_at(faults, order, 11);
    } else if size is Some && !(size->0 is String) {
        lemma_first_present_at(faults, order, 12);
    } else if status is Some && !(status->0 is String) {
        lemma_first_present_at(faults, order, 13);
    } else if taker_order_id is Some
        && !(taker_order_id->0 is Null || taker_order_id->0 is String) {
        lemma_first_present_at(faults, order, 14);
    } else if timestamp is Some && !(timestamp->0 is Null || timestamp->0 is String) {
        lemma_first_present_at(faults, order, 15);
    } else if trade_owner is Some && !(trade_owner->0 is Null || trade_owner->0 is String) {
        lemma_first_present_at(faults, order, 16);
    } else if trader_side is Some
        && !(trader_side->0 is Null || trader_side_named(trader_side->0) is Some) {
        lemma_first_present_at(faults, order, 17);
    } else if transaction_hash is Some
        && !(transaction_hash->0 is Null || transaction_hash->0 is String) {
        lemma_first_present_at(faults, order, 18);
    } else if msg_type is Some && !(msg_type->0 is Null || msg_type->0 is String) {
        lemma_first_present_at(faults, order, 19);
    } else if id is None {
        lemma_none_present(faults, order);
        lemma_first_fault_at(faults, 0);
    } else if market is None {
        lemma_none_present(faults, order);
        lemma_first_fault_at(faults, 1);
    } else if asset_id is None {
        lemma_none_present(faults, order);
        lemma_first_fault_at(faults, 2);
    } else if side is None {
        lemma_none_present(faults, order);
        lemma_first_fault_at(faults, 3);
    } else if size is None {
        lemma_none_present(faults, order);
        lemma_first_fault_at(faults, 4);
    } else if price is None {
        lemma_none_present(faults, order);
        lemma_first_fault_at(faults, 5);
    } else if status is None {
        lemma_none_present(faults, order);
        lemma_first_fault_at(faults, 6);
    } else if maker_orders matches Some(Json::Array(list))
        && items_fault_of::<MakerOrder>(list) is Some {
        lemma_none_present(faults, order);
        lemma_first_fault_at(faults, 16);
    }
}

/// The fault of an array that is not a trade: the first of the items that
/// are not what they should be, and else that it has the wrong length.
#[verifier::rlimit(40)]
pub proof fn law_fault_of_a_trade_message_in_an_array(items: Seq<Json>)
    ensures ({
        let fault = TradeMessage::explained(Json::Array(items));
        let id = item_at(items, 0);
        let market = item_at(items, 1);
        let asset_id = item_at(items, 2);
        let side = item_at(items, 3);
        let size = item_at(items, 4);
        let price = item_at(items, 5);
        let status = item_at(items, 6);
        let event_type = item_at(items, 7);
        let msg_type = item_at(items, 8);
        let last_update = item_at(items, 9);
        let matchtime = item_at(items, 10);
        let timestamp = item_at(items, 11);
        let outcome = item_at(items, 12);
        let owner = item_at(items, 13);
        let trade_owner = item_at(items, 14);
        let taker_order_id = item_at(items, 15);
        let maker_orders = item_at(items, 16);
        let fee_rate_bps = item_at(items, 17);
        let transaction_hash = item_at(items, 18);
        let trader_side = item_at(items, 19);
        if id is Some && !(id->0 is String) {
            fault == FaultView::Invalid("id"@)
        } else if market is Some && !(market->0 is String) {
            fault == FaultView::Invalid("market"@)
        } else if asset_id is Some && !(asset_id->0 is String) {
            fault == FaultView::Invalid("asset_id"@)
        } else if side is Some && !(side_named(side->0) is Some) {
            fault == FaultView::Invalid("side"@)
        } else if size is Some && !(size->0 is String) {
            fault == FaultView::Invalid("size"@)
        } else if price is Some && !(price->0 is String) {
            fault == FaultView::Invalid("price"@)
        } else if status is Some && !(status->0 is String) {
            fault == FaultView::Invalid("status"@)
        } else if event_type is Some && !(event_type->0 is Null || event_type->0 is String) {
            fault == FaultView::Invalid("event_type"@)
        } else if msg_type is Some && !(msg_type->0 is Null || msg_type->0 is String) {
            fault == FaultView::Invalid("type"@)
        } else if last_update is Some && !(last_update->0 is Null || last_update->0 is String) {
            fault == FaultView::Invalid("last_update"@)
        } else if matchtime is Some && !(matchtime->0 is Null || matchtime->0 is String) {
            fault == FaultView::Invalid("matchtime"@)
        } else if timestamp is Some && !(timestamp->0 is Null || timestamp->0 is String) {
            fault == FaultView::Invalid("timestamp"@)
        } else if outcome is Some && !(outcome->0 is Null || outcome->0 is String) {
            fault == FaultView::Invalid("outcome"@)
        } else if owner is Some && !(owner->0 is Null || owner->0 is String) {
            fault == FaultView::Invalid("owner"@)
        } else if trade_owner is Some && !(trade_owner->0 is Null || trade_owner->0 is String) {
            fault == FaultView::Invalid("trade_owner"@)
        } else if taker_order_id is Some
            && !(taker_order_id->0 is Null || taker_order_id->0 is String) {
            fault == FaultView::Invalid("taker_order_id"@)
        } else if maker_orders is Some && !(maker_orders->0 is Array) {
            fault == FaultView::Invalid("maker_orders"@)
        } else if maker_orders matches Some(Json::Array(list))
            && items_fault_of::<MakerOrder>(list) matches Some(inner) && !(inner is Missing) {
            fault == items_fault_of::<MakerOrder>(maker_orders->0->Array_0)->0
        } else if fee_rate_bps is Some && !(fee_rate_bps->0 is Null || fee_rate_bps->0 is String) {
            fault == FaultView::Invalid("fee_rate_bps"@)
        } else if transaction_hash is Some
            && !(transaction_hash->0 is Null || transaction_hash->0 is String) {
            fault == FaultView::Invalid("transaction_hash"@)
        } else if trader_side is Some
            && !(trader_side->0 is Null || trader_side_named(trader_side->0) is Some) {
            fault == FaultView::Invalid("trader_side"@)
        } else {
            fault == FaultView::WrongLength
        }
    }),
{
    let tree = Json::Array(items);
    let faults = trade_message_faults(tree);
    let order = ascending(20);
    let id = item_at(items, 0);
    let market = item_at(items, 1);
    let asset_id = item_at(items, 2);
    let side = item_at(items, 3);
    let size = item_at(items, 4);
    let price = item_at(items, 5);
    let status = item_at(items, 6);
    let event_type = item_at(items, 7);
    let msg_type = item_at(items, 8);
    let last_update = item_at(items, 9);
    let matchtime = item_at(items, 10);
    let timestamp = item_at(items, 11);
    let outcome = item_at(items, 12);
    let owner = item_at(items, 13);
    let trade_owner = item_at(items, 14);
    let taker_order_id = item_at(items, 15);
    let maker_orders = item_at(items, 16);
    let fee_rate_bps = item_at(items, 17);
    let transaction_hash = item_at(items, 18);
    let trader_side = item_at(items, 19);
    assert(faults.len() == 20);
    assert(order[0] == 0);
    assert(order[1] == 1);
    assert(order[2] == 2);
    assert(order[3] == 3);
    assert(order[4] == 4);
    assert(order[5] == 5);
    assert(order[6] == 6);
    assert(order[7] == 7);
    assert(order[8] == 8);
    assert(order[9] == 9);
    assert(order[10] == 10);
    assert(order[11] == 11);
    assert(order[12] == 12);
    assert(order[13] == 13);
    assert(order[14] == 14);
    assert(order[15] == 15);
    assert(order[16] == 16);
    assert(order[17] == 17);
    assert(order[18] == 18);
    assert(order[19] == 19);
    if id is Some && !(id->0 is String) {
        lemma_first_present_at(faults, order, 0);
    } else if market is Some && !(market->0 is String) {
        lemma_first_present_at(faults, order, 1);
    } else if asset_id is Some && !(asset_id->0 is String) {
        lemma_first_present_at(faults, order, 2);
    } else if side is Some && !(side_named(side->0) is Some) {
        lemma_first_present_at(faults, order, 3);
    } else if size is Some && !(size->0 is String) {
        lemma_first_present_at(faults, order, 4);
    } else if price is Some && !(price->0 is String) {
        lemma_first_present_at(faults, order, 5);
    } else if status is Some && !(status->0 is String) {
        lemma_first_present_at(faults, order, 6);
    } else if event_type is Some && !(event_type->0 is Null || event_type->0 is String) {
        lemma_first_present_at(faults, order, 7);
    } else if msg_type is Some && !(msg_type->0 is Null || msg_type->0 is String) {
        lemma_first_present_at(faults, order, 8);
    } else if last_update is Some && !(last_update->0 is Null || last_update->0 is String) {
        lemma_first_present_at(faults, order, 9);
    } else if matchtime is Some && !(matchtime->0 is Null || matchtime->0 is String) {
        lemma_first_present_at(faults, order, 10);
    } else if timestamp is Some && !(timestamp->0 is Null || timestamp->0 is String) {
        lemma_first_present_at(faults, order, 11);
    } else if outcome is Some && !(outcome->0 is Null || outcome->0 is String) {
        lemma_first_present_at(faults, order, 12);
    } else if owner is Some && !(owner->0 is Null || owner->0 is String) {
        lemma_first_present_at(faults, order, 13);
    } else if trade_owner is Some && !(trade_owner->0 is Null || trade_owner->0 is String) {
        lemma_first_present_at(faults, order, 14);
    } else if taker_order_id is Some
        && !(taker_order_id->0 is Null || taker_order_id->0 is String) {
        lemma_first_present_at(faults, order, 15);
    } else if maker_orders is Some && !(maker_orders->0 is Array) {
        lemma_first_present_at(faults, order, 16);
    } else if maker_orders matches Some(Json::Array(list))
        && items_fault_of::<MakerOrder>(list) matches Some(inner) && !(inner is Missing) {
        lemma_first_present_at(faults, order, 16);
    } else if fee_rate_bps is Some && !(fee_rate_bps->0 is Null || fee_rate_bps->0 is String) {
        lemma_first_present_at(faults, order, 17);
    } else if transaction_hash is Some
        && !(transaction_hash->0 is Null || transaction_hash->0 is String) {
        lemma_first_present_at(faults, order, 18);
    } else if trader_side is Some
        && !(trader_side->0 is Null || trader_side_named(trader_side->0) is Some) {
        lemma_first_present_at(faults, order, 19);
    } else {
        lemma_none_present(faults, order);
    }
}

/// The fault of an object that is not an order update: the first, by name, of
/// the members that are not what they should be, and else the first that is
/// missing.
#[verifier::rlimit(40)]
pub proof fn law_fault_of_an_order_message_in_an_object(members: Map<Seq<char>, Json>)
    ensures ({
        let fault = OrderMessage::explained(Json::Object(members));
        let id = members.get("id"@);
        let market = members.get("market"@);
        let asset_id = members.get("asset_id"@);
        let side = members.get("side"@);
        let price = members.get("price"@);
        let event_type = members.get("event_type"@);
        let msg_type = members.get("type"@);
        let outcome = members.get("outcome"@);
        let owner = members.get("owner"@);
        let order_owner = members.get("order_owner"@);
        let original_size = members.get("original_size"@);
        let size_matched = members.get("size_matched"@);
        let timestamp = members.get("timestamp"@);
        let associate_trades = members.get("associate_trades"@);
        if asset_id is Some && !(asset_id->0 is String) {
            fault == FaultView::Invalid("asset_id"@)
        } else if associate_trades is Some && !(associate_trades->0 is Null)
            && !(associate_trades->0 is Array) {
            fault == FaultView::Invalid("associate_trades"@)
        } else if associate_trades matches Some(Json::Array(list))
            && items_fault_of::<String>(list) matches Some(inner) && !(inner is Missing) {
            fault == items_fault_of::<String>(associate_trades->0->Array_0)->0
        } else if event_type is Some && !(event_type->0 is Null || event_type->0 is String) {
            fault == FaultView::Invalid("event_type"@)
        } else if id is Some && !(id->0 is String) {
            fault == FaultView::Invalid("id"@)
        } else if market is Some && !(market->0 is String) {
            fault == FaultView::Invalid("market"@)
        } else if order_owner is Some && !(order_owner->0 is Null || order_owner->0 is String) {
            fault == FaultView::Invalid("order_owner"@)
        } else if original_size is Some
            && !(original_size->0 is Null || original_size->0 is String) {
            fault == FaultView::Invalid("original_size"@)
        } else if outcome is Some && !(outcome->0 is Null || outcome->0 is String) {
            fault == FaultView::Invalid("outcome"@)
        } else if owner is Some && !(owner->0 is Null || owner->0 is String) {
            fault == FaultView::Invalid("owner"@)
        } else if price is Some && !(price->0 is String) {
            fault == FaultView::Invalid("price"@)
        } else if side is Some && !(side_named(side->0) is Some) {
            fault == FaultView::Invalid("side"@)
        } else if size_matched is Some && !(size_matched->0 is Null || size_matched->0 is String) {
            fault == FaultView::Invalid("size_matched"@)
        } else if timestamp is Some && !(timestamp->0 is Null || timestamp->0 is String) {
            fault == FaultView::Invalid("timestamp"@)
        } else if msg_type is Some && !(msg_type->0 is Null || msg_type->0 is String) {
            fault == FaultView::Invalid("type"@)
        } else if id is None {
            fault == FaultView::Missing("id"@)
        } else if market is None {
            fault == FaultView::Missing("market"@)
        } else if asset_id is None {
            fault == FaultView::Missing("asset_id"@)
        } else if side is None {
            fault == FaultView::Missing("side"@)
        } else if price is None {
            fault == FaultView::Missing("price"@)
        } else if associate_trades matches Some(Json::Array(list))
            && items_fault_of::<String>(list) is Some {
            fault == items_fault_of::<String>(associate_trades->0->Array_0)->0
        } else {
            true
        }
    }),
{
    let tree = Json::Object(members);
    let faults = order_message_faults(tree);
    let order: Seq<int> = seq![2, 13, 5, 0, 1, 9, 10, 7, 8, 4, 3, 11, 12, 6];
    let id = members.get("id"@);
    let market = members.get("market"@);
    let asset_id = members.get("asset_id"@);
    let side = members.get("side"@);
    let price = members.get("price"@);
    let event_type = members.get("event_type"@);
    let msg_type = members.get("type"@);
    let outcome = members.get("outcome"@);
    let owner = members.get("owner"@);
    let order_owner = members.get("order_owner"@);
    let original_size = members.get("original_size"@);
    let size_matched = members.get("size_matched"@);
    let timestamp = members.get("timestamp"@);
    let associate_trades = members.get("associate_trades"@);
    assert(order[0] == 2);
    assert(order[1] == 13);
    assert(order[2] == 5);
    assert(order[3] == 0);
    assert(order[4] == 1);
    assert(order[5] == 9);
    assert(order[6] == 10);
    assert(order[7] == 7);
    assert(order[8] == 8);
    assert(order[9] == 4);
    assert(order[10] == 3);
    assert(order[11] == 11);
    assert(order[12] == 12);
    assert(order[13] == 6);
    if asset_id is Some && !(asset_id->0 is String) {
        lemma_first_present_at(faults, order, 0);
    } else if associate_trades is Some && !(associate_trades->0 is Null)
        && !(associate_trades->0 is Array) {
        lemma_first_present_at(faults, order, 1);
    } else if associate_trades matches Some(Json::Array(list))
        && items_fault_of::<String>(list) matches Some(inner) && !(inner is Missing) {
        lemma_first_present_at(faults, order, 1);
    } else if event_type is Some && !(event_type->0 is Null || event_type->0 is String) {
        lemma_first_present_at(faults, order, 2);
    } else if id is Some && !(id->0 is String) {
        lemma_first_present_at(faults, order, 3);
    } else if market is Some && !(market->0 is String) {
        lemma_first_present_at(faults, order, 4);
    } else if order_owner is Some && !(order_owner->0 is Null || order_owner->0 is String) {
        lemma_first_present_at(faults, order, 5);
    } else if original_size is Some && !(original_size->0 is Null || original_size->0 is String) {
        lemma_first_present_at(faults, order, 6);
    } else if outcome is Some && !(outcome->0 is Null || outcome->0 is String) {
        lemma_first_present_at(faults, order, 7);
    } else if owner is Some && !(owner->0 is Null || owner->0 is String) {
        lemma_first_present_at(faults, order, 8);
    } else if price is Some && !(price->0 is String) {
        lemma_first_present_at(faults, order, 9);
    } else if side is Some && !(side_named(side->0) is Some) {
        lemma_first_present_at(faults, order, 10);
    } else if size_matched is Some && !(size_matched->0 is Null || size_matched->0 is String) {
        lemma_first_present_at(faults, order, 11);
    } else if timestamp is Some && !(timestamp->0 is Null || timestamp->0 is String) {
        lemma_first_present_at(faults, order, 12);
    } else if msg_type is Some && !(msg_type->0 is Null || msg_type->0 is String) {
        lemma_first_present_at(faults, order, 13);
    } else if id is None {
        lemma_none_present(faults, order);
        lemma_first_fault_at(faults, 0);
    } else if market is None {
        lemma_none_present(faults, order);
        lemma_first_fault_at(faults, 1);
    } else if asset_id is None {
        lemma_none_present(faults, order);
        lemma_first_fault_at(faults, 2);
    } else if side is None {
        lemma_none_present(faults, order);
        lemma_first_fault_at(faults, 3);
    } else if price is None {
        lemma_none_present(faults, order);
        lemma_first_fault_at(faults, 4);
    } else if associate_trades matches Some(Json::Array(list))
        && items_fault_of::<String>(list) is Some {
        lemma_none_present(faults, order);
        lemma_first_fault_at(faults, 13);
    }
}

/// The fault of an array that is not an order update: the first of the items
/// that are not what they should be, and else that it has the wrong length.
#[verifier::rlimit(40)]
pub proof fn law_fault_of_an_order_message_in_an_array(items: Seq<Json>)
    ensures ({
        let fault = OrderMessage::explained(Json::Array(items));
        let id = item_at(items, 0);
        let market = item_at(items, 1);
        let asset_id = item_at(items, 2);
        let side = item_at(items, 3);
        let price = item_at(items, 4);
        let event_type = item_at(items, 5);
        let msg_type = item_at(items, 6);
        let outcome = item_at(items, 7);
        let owner = item_at(items, 8);
        let order_owner = item_at(items, 9);
        let original_size = item_at(items, 10);
        let size_matched = item_at(items, 11);
        let timestamp = item_at(items, 12);
        let associate_trades = item_at(items, 13);
        if id is Some && !(id->0 is String) {
            fault == FaultView::Invalid("id"@)
        } else if market is Some && !(market->0 is String) {
            fault == FaultView::Invalid("market"@)
        } else if asset_id is Some && !(asset_id->0 is String) {
            fault == FaultView::Invalid("asset_id"@)
        } else if side is Some && !(side_named(side->0) is Some) {
            fault == FaultView::Invalid("side"@)
        } else if price is Some && !(price->0 is String) {
            fault == FaultView::Invalid("price"@)
        } else if event_type is Some && !(event_type->0 is Null || event_type->0 is String) {
            fault == FaultView::Invalid("event_type"@)
        } else if msg_type is Some && !(msg_type->0 is Null || msg_type->0 is String) {
            fault == FaultView::Invalid("type"@)
        } else if outcome is Some && !(outcome->0 is Null || outcome->0 is String) {
            fault == FaultView::Invalid("outcome"@)
        } else if owner is Some && !(owner->0 is Null || owner->0 is String) {
            fault == FaultView::Invalid("owner"@)
        } else if order_owner is Some && !(order_owner->0 is Null || order_owner->0 is String) {
            fault == FaultView::Invalid("order_owner"@)
        } else if original_size is Some
            && !(original_size->0 is Null || original_size->0 is String) {
            fault == FaultView::Invalid("original_size"@)
        } else if size_matched is Some && !(size_matched->0 is Null || size_matched->0 is String) {
            fault == FaultView::Invalid("size_matched"@)
        } else if timestamp is Some && !(timestamp->0 is Null || timestamp->0 is String) {
            fault == FaultView::Invalid("timestamp"@)
        } else if associate_trades is Some && !(associate_trades->0 is Null)
            && !(associate_trades->0 is Array) {
            fault == FaultView::Invalid("associate_trades"@)
        } else if associate_trades matches Some(Json::Array(list))
            && items_fault_of::<String>(list) matches Some(inner) && !(inner is Missing) {
            fault == items_fault_of::<String>(associate_trades->0->Array_0)->0
        } else {
            fault == FaultView::WrongLength
        }
    }),
{
    let tree = Json::Array(items);
    let faults = order_message_faults(tree);
    let order = ascending(14);
    let id = item_at(items, 0);
    let market = item_at(items, 1);
    let asset_id = item_at(items, 2);
    let side = item_at(items, 3);
    let price = item_at(items, 4);
    let event_type = item_at(items, 5);
    let msg_type = item_at(items, 6);
    let outcome = item_at(items, 7);
    let owner = item_at(items, 8);
    let order_owner = item_at(items, 9);
    let original_size = item_at(items, 10);
    let size_matched = item_at(items, 11);
    let timestamp = item_at(items, 12);
    let associate_trades = item_at(items, 13);
    assert(faults.len() == 14);
    assert(order[0] == 0);
    assert(order[1] == 1);
    assert(order[2] == 2);
    assert(order[3] == 3);
    assert(order[4] == 4);
    assert(order[5] == 5);
    assert(order[6] == 6);
    assert(order[7] == 7);
    assert(order[8] == 8);
    assert(order[9] == 9);
    assert(order[10] == 10);
    assert(order[11] == 11);
    assert(order[12] == 12);
    assert(order[13] == 13);
    if id is Some && !(id->0 is String) {
        lemma_first_present_at(faults, order, 0);
    } else if market is Some && !(market->0 is String) {
        lemma_first_present_at(faults, order, 1);
    } else if asset_id is Some && !(asset_id->0 is String) {
        lemma_first_present_at(faults, order, 2);
    } else if side is Some && !(side_named(side->0) is Some) {
        lemma_first_present_at(faults, order, 3);
    } else if price is Some && !(price->0 is String) {
        lemma_first_present_at(faults, order, 4);
    } else if event_type is Some && !(event_type->0 is Null || event_type->0 is String) {
        lemma_first_present_at(faults, order, 5);
    } else if msg_type is Some && !(msg_type->0 is Null || msg_type->0 is String) {
        lemma_first_present_at(faults, order, 6);
    } else if outcome is Some && !(outcome->0 is Null || outcome->0 is String) {
        lemma_first_present_at(faults, order, 7);
    } else if owner is Some && !(owner->0 is Null || owner->0 is String) {
        lemma_first_present_at(faults, order, 8);
    } else if order_owner is Some && !(order_owner->0 is Null || order_owner->0 is String) {
        lemma_first_present_at(faults, order, 9);
    } else if original_size is Some && !(original_size->0 is Null || original_size->0 is String) {
        lemma_first_present_at(faults, order, 10);
    } else if size_matched is Some && !(size_matched->0 is Null || size_matched->0 is String) {
        lemma_first_present_at(faults, order, 11);
    } else if timestamp is Some && !(timestamp->0 is Null || timestamp->0 is String) {
        lemma_first_present_at(faults, order, 12);
    } else if associate_trades is Some && !(associate_trades->0 is Null)
        && !(associate_trades->0 is Array) {
        lemma_first_present_at(faults, order, 13);
    } else if associate_trades matches Some(Json::Array(list))
        && items_fault_of::<String>(list) matches Some(inner) && !(inner is Missing) {
        lemma_first_present_at(faults, order, 13);
    } else {
        lemma_none_present(faults, order);
    }
}

/// The fault of an object that is not a midpoint: the first, by name, of the
/// members that are not what they should be, and else the first that is
/// missing.
pub proof fn law_fault_of_a_midpoint_update_in_an_object(members: Map<Seq<char>, Json>)
    ensures ({
        let fault = MidpointUpdate::explained(Json::Object(members));
        let asset_id = members.get("asset_id"@);
        let market = members.get("market"@);
        let midpoint = members.get("midpoint"@);
        let timestamp = members.get("timestamp"@);
        if asset_id is Some && !(asset_id->0 is String) {
            fault == FaultView::Invalid("asset_id"@)
        } else if market is Some && !(market->0 is String) {
            fault == FaultView::Invalid("market"@)
        } else if midpoint is Some && !(decimal_in(midpoint->0) is Some) {
            fault == FaultView::Invalid("midpoint"@)
        } else if timestamp is Some && !((timestamp->0 matches Json::String(text)
            && i64_value(text) is Some)) {
            fault == FaultView::Invalid("timestamp"@)
        } else if asset_id is None {
            fault == FaultView::Missing("asset_id"@)
        } else if market is None {
            fault == FaultView::Missing("market"@)
        } else if midpoint is None {
            fault == FaultView::Missing("midpoint"@)
        } else if timestamp is None {
            fault == FaultView::Missing("timestamp"@)
        } else {
            true
        }
    }),
{
    let tree = Json::Object(members);
    let faults = midpoint_update_faults(tree);
    let order: Seq<int> = seq![0, 1, 2, 3];
    let asset_id = members.get("asset_id"@);
    let market = members.get("market"@);
    let midpoint = members.get("midpoint"@);
    let timestamp = members.get("timestamp"@);
    assert(order[0] == 0);
    assert(order[1] == 1);
    assert(order[2] == 2);
    assert(order[3] == 3);
    if asset_id is Some && !(asset_id->0 is String) {
        lemma_first_present_at(faults, order, 0);
    } else if market is Some && !(market->0 is String) {
        lemma_first_present_at(faults, order, 1);
    } else if midpoint is Some && !(decimal_in(midpoint->0) is Some) {
        lemma_first_present_at(faults, order, 2);
    } else if timestamp is Some && !((timestamp->0 matches Json::String(text)
        && i64_value(text) is Some)) {
        lemma_first_present_at(faults, order, 3);
    } else if asset_id is None {
        lemma_none_present(faults, order);
        lemma_first_fault_at(faults, 0);
    } else if market is None {
        lemma_none_present(faults, order);
        lemma_first_fault_at(faults, 1);
    } else if midpoint is None {
        lemma_none_present(faults, order);
        lemma_first_fault_at(faults, 2);
    } else if timestamp is None {
        lemma_none_present(faults, order);
        lemma_first_fault_at(faults, 3);
    }
}

/// The fault of an array that is not a midpoint: the first of the items that
/// are not what they should be, and else that it has the wrong length.
pub proof fn law_fault_of_a_midpoint_update_in_an_array(items: Seq<Json>)
    ensures ({
        let fault = MidpointUpdate::explained(Json::Array(items));
        let asset_id = item_at(items, 0);
        let market = item_at(items, 1);
        let midpoint = item_at(items, 2);
        let timestamp = item_at(items, 3);
        if asset_id is Some && !(asset_id->0 is String) {
            fault == FaultView::Invalid("asset_id"@)
        } else if market is Some && !(market->0 is String) {
            fault == FaultView::Invalid("market"@)
        } else if midpoint is Some && !(decimal_in(midpoint->0) is Some) {
            fault == FaultView::Invalid("midpoint"@)
        } else if timestamp is Some && !((timestamp->0 matches Json::String(text)
            && i64_value(text) is Some)) {
            fault == FaultView::Invalid("timestamp"@)
        } else {
            fault == FaultView::WrongLength
        }
    }),
{
    let tree = Json::Array(items);
    let faults = midpoint_update_faults(tree);
    let order = ascending(4);
    let asset_id = item_at(items, 0);
    let market = item_at(items, 1);
    let midpoint = item_at(items, 2);
    let timestamp = item_at(items, 3);
    assert(faults.len() == 4);
    assert(order[0] == 0);
    assert(order[1] == 1);
    assert(order[2] == 2);
    assert(order[3] == 3);
    if asset_id is Some && !(asset_id->0 is String) {
        lemma_first_present_at(faults, order, 0);
    } else if market is Some && !(market->0 is String) {
        lemma_first_present_at(faults, order, 1);
    } else if midpoint is Some && !(decimal_in(midpoint->0) is Some) {
        lemma_first_present_at(faults, order, 2);
    } else if timestamp is Some && !((timestamp->0 matches Json::String(text)
        && i64_value(text) is Some)) {
        lemma_first_present_at(faults, order, 3);
    } else {
        lemma_none_present(faults, order);
    }
}

} // verus!
