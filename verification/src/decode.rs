//! From JSON to messages.
//!
//! A message is a JSON object with the members that its type names, or an
//! array with their values in the order of the fields. Members that a type
//! does not know are ignored; which members may be left out is part of each
//! type's specification.

use vstd::prelude::*;

use crate::decimal::{decimal_in, decimal_opt, Decimal};
use crate::fault::{
    choose_fault, fault_view, fault_views, indices, record_fault, Fault, FaultView,
};
use crate::json::{json_tree, json_tree_opt, json_trees, member, member_count, member_of, Json};
use crate::messages::{
    BatchEntryView, BatchView, BookUpdate, BookView, LastTradePrice, LastTradeView, LevelView,
    MakerOrder, MakerView, MidpointUpdate, MidpointView, OrderBookLevel, OrderMessage, OrderStatus,
    OrderView, PriceChange, PriceChangeBatch, PriceChangeBatchEntry, PriceChangeView, Side,
    TickSizeChange, TickSizeView, TradeMessage, TradeView, TraderSide,
};
use crate::text::{i64_value, parse_i64, same_text, text_opt};

verus! {

/// A type that is read from a JSON value.
pub trait FromJson: View + Sized {
    /// What is read from a JSON value; `None` where it is not of the type's shape.
    spec fn decoded(tree: Json) -> Option<Self::V>;

    /// Reads a JSON value.
    fn from_json(value: &serde_json::Value) -> (r: Option<Self>)
        ensures
            match r {
                Some(item) => Self::decoded(json_tree(*value)) == Some(item@),
                None => Self::decoded(json_tree(*value)) is None,
            },
    ;

    /// Why a JSON value that is not of the type's shape is not: the fault that
    /// is met first.
    spec fn explained(tree: Json) -> FaultView;

    /// Tells why a JSON value that is not of the type's shape is not.
    fn explain(value: &serde_json::Value) -> (r: Fault)
        ensures
            r@ == Self::explained(json_tree(*value)),
    ;
}

/// Whether a value can hold the fields of a type: an object, or an array with
/// `least` to `most` items.
pub open spec fn is_record(tree: Json, least: int, most: int) -> bool {
    match tree {
        Json::Object(_) => true,
        Json::Array(items) => least <= items.len() <= most,
        _ => false,
    }
}

/// A field of a record: the member under `name` of an object, or the item at
/// `index` of an array.
pub open spec fn slot_of(tree: Json, index: int, name: Seq<char>) -> Option<Json> {
    match tree {
        Json::Array(items) => if 0 <= index < items.len() {
            Some(items[index])
        } else {
            None
        },
        _ => member_of(tree, name),
    }
}

/// A field that holds a string.
pub open spec fn text_of(field: Option<Json>) -> Option<Seq<char>> {
    match field {
        Some(Json::String(text)) => Some(text),
        _ => None,
    }
}

/// A field that may hold a string, and may be `null` or absent.
pub open spec fn maybe_text_of(field: Option<Json>) -> Option<Option<Seq<char>>> {
    match field {
        None => Some(None),
        Some(Json::Null) => Some(None),
        Some(Json::String(text)) => Some(Some(text)),
        _ => None,
    }
}

/// A field that holds a decimal.
pub open spec fn decimal_of(field: Option<Json>) -> Option<(int, nat)> {
    match field {
        Some(tree) => decimal_in(tree),
        None => None,
    }
}

/// A field that may hold a decimal, and may be `null` or absent.
pub open spec fn maybe_decimal_of(field: Option<Json>) -> Option<Option<(int, nat)>> {
    match field {
        None => Some(None),
        Some(Json::Null) => Some(None),
        Some(tree) => match decimal_in(tree) {
            Some(d) => Some(Some(d)),
            None => None,
        },
    }
}

/// A field that holds a timestamp: a string that writes an integer.
pub open spec fn timestamp_of(field: Option<Json>) -> Option<i64> {
    match text_of(field) {
        Some(text) => i64_value(text),
        None => None,
    }
}

/// A field that holds a timestamp as a string or as a number.
pub open spec fn loose_timestamp_of(field: Option<Json>) -> Option<i64> {
    match field {
        Some(Json::String(text)) => i64_value(text),
        Some(Json::Integer(n)) if i64::MIN <= n <= i64::MAX => Some(n as i64),
        _ => None,
    }
}

/// Whether a value names the variant `name` of an enumeration: the name as a
/// string, or an object with that name as its only member and `null` under it.
pub open spec fn names_variant(tree: Json, name: Seq<char>) -> bool {
    match tree {
        Json::String(text) => text == name,
        Json::Object(members) => {
            &&& members.dom().finite()
            &&& members.dom().len() == 1
            &&& members.get(name) == Some(Json::Null)
        },
        _ => false,
    }
}

/// The side that a value names.
pub open spec fn side_named(tree: Json) -> Option<Side> {
    if names_variant(tree, "BUY"@) {
        Some(Side::Buy)
    } else if names_variant(tree, "SELL"@) {
        Some(Side::Sell)
    } else {
        None
    }
}

/// The part in a trade that a value names.
pub open spec fn trader_side_named(tree: Json) -> Option<TraderSide> {
    if names_variant(tree, "TAKER"@) {
        Some(TraderSide::Taker)
    } else if names_variant(tree, "MAKER"@) {
        Some(TraderSide::Maker)
    } else {
        None
    }
}

/// A field that holds a side.
pub open spec fn side_of(field: Option<Json>) -> Option<Side> {
    match field {
        Some(tree) => side_named(tree),
        None => None,
    }
}

/// A field that may hold a side, and may be `null` or absent.
pub open spec fn maybe_side_of(field: Option<Json>) -> Option<Option<Side>> {
    match field {
        None => Some(None),
        Some(Json::Null) => Some(None),
        Some(tree) => match side_named(tree) {
            Some(side) => Some(Some(side)),
            None => None,
        },
    }
}

/// A field that may hold a part in a trade, and may be `null` or absent.
pub open spec fn maybe_trader_side_of(field: Option<Json>) -> Option<Option<TraderSide>> {
    match field {
        None => Some(None),
        Some(Json::Null) => Some(None),
        Some(tree) => match trader_side_named(tree) {
            Some(side) => Some(Some(side)),
            None => None,
        },
    }
}

/// Every item of an array, read as a `T`; `None` where one of them is not.
pub open spec fn items_of<T: FromJson>(items: Seq<Json>) -> Option<Seq<T::V>> {
    if forall|i: int| 0 <= i < items.len() ==> T::decoded(#[trigger] items[i]) is Some {
        Some(items.map_values(|item: Json| T::decoded(item)->0))
    } else {
        None
    }
}

/// A field that holds an array of `T`, empty where the field is absent.
pub open spec fn list_of<T: FromJson>(field: Option<Json>) -> Option<Seq<T::V>> {
    match field {
        None => Some(Seq::empty()),
        Some(Json::Array(items)) => items_of::<T>(items),
        _ => None,
    }
}

/// A field that may hold an array of `T`, and may be `null` or absent.
pub open spec fn maybe_list_of<T: FromJson>(field: Option<Json>) -> Option<Option<Seq<T::V>>> {
    match field {
        None => Some(None),
        Some(Json::Null) => Some(None),
        Some(Json::Array(items)) => match items_of::<T>(items) {
            Some(list) => Some(Some(list)),
            None => None,
        },
        _ => None,
    }
}

/// The fault of a field: none where it is `good`, and else that it is missing or
/// that it holds something else than it should.
pub open spec fn field_fault_of(
    field: Option<Json>,
    good: bool,
    name: Seq<char>,
) -> Option<FaultView> {
    if good {
        None
    } else if field is None {
        Some(FaultView::Missing(name))
    } else {
        Some(FaultView::Invalid(name))
    }
}

/// The fault of a field that holds a string.
pub open spec fn text_fault_of(field: Option<Json>, name: Seq<char>) -> Option<FaultView> {
    field_fault_of(field, text_of(field) is Some, name)
}

/// The fault of a field that may hold a string.
pub open spec fn maybe_text_fault_of(field: Option<Json>, name: Seq<char>) -> Option<FaultView> {
    field_fault_of(field, maybe_text_of(field) is Some, name)
}

/// The fault of a field that holds a decimal.
pub open spec fn decimal_fault_of(field: Option<Json>, name: Seq<char>) -> Option<FaultView> {
    field_fault_of(field, decimal_of(field) is Some, name)
}

/// The fault of a field that may hold a decimal.
pub open spec fn maybe_decimal_fault_of(field: Option<Json>, name: Seq<char>) -> Option<FaultView> {
    field_fault_of(field, maybe_decimal_of(field) is Some, name)
}

/// The fault of a field that holds a timestamp.
pub open spec fn timestamp_fault_of(field: Option<Json>, name: Seq<char>) -> Option<FaultView> {
    field_fault_of(field, timestamp_of(field) is Some, name)
}

/// The fault of a field that holds a timestamp as a string or as a number.
pub open spec fn loose_timestamp_fault_of(field: Option<Json>, name: Seq<char>) -> Option<FaultView> {
    field_fault_of(field, loose_timestamp_of(field) is Some, name)
}

/// The fault of a field that holds a side.
pub open spec fn side_fault_of(field: Option<Json>, name: Seq<char>) -> Option<FaultView> {
    field_fault_of(field, side_of(field) is Some, name)
}

/// The fault of a field that may hold a side.
pub open spec fn maybe_side_fault_of(field: Option<Json>, name: Seq<char>) -> Option<FaultView> {
    field_fault_of(field, maybe_side_of(field) is Some, name)
}

/// The fault of a field that may hold a part in a trade.
pub open spec fn maybe_trader_side_fault_of(field: Option<Json>, name: Seq<char>) -> Option<FaultView> {
    field_fault_of(field, maybe_trader_side_of(field) is Some, name)
}

/// The fault of the first item of an array that is not a `T`.
pub open spec fn items_fault_of<T: FromJson>(items: Seq<Json>) -> Option<FaultView>
    decreases items.len(),
{
    if items.len() == 0 {
        None
    } else {
        match items_fault_of::<T>(items.drop_last()) {
            Some(fault) => Some(fault),
            None => if T::decoded(items.last()) is None {
                Some(T::explained(items.last()))
            } else {
                None
            },
        }
    }
}

/// The fault of a field that holds an array of `T`: that it is no array, or that
/// of an item.
pub open spec fn list_fault_of<T: FromJson>(field: Option<Json>, name: Seq<char>) -> Option<
    FaultView,
> {
    match field {
        None => None,
        Some(Json::Array(items)) => items_fault_of::<T>(items),
        _ => Some(FaultView::Invalid(name)),
    }
}

/// The fault of a field that may hold an array of `T`.
pub open spec fn maybe_list_fault_of<T: FromJson>(field: Option<Json>, name: Seq<char>) -> Option<
    FaultView,
> {
    match field {
        Some(Json::Null) => None,
        _ => list_fault_of::<T>(field, name),
    }
}

/// Whether a value can hold the fields of a type.
fn check_record(value: &serde_json::Value, least: usize, most: usize) -> (r: bool)
    ensures
        r == is_record(json_tree(*value), least as int, most as int),
{
    match value.as_array() {
        Some(items) => least <= items.len() && items.len() <= most,
        None => member_count(value).is_some(),
    }
}

/// A field of a record.
fn slot<'a>(value: &'a serde_json::Value, index: usize, name: &str) -> (r: Option<
    &'a serde_json::Value,
>)
    ensures
        json_tree_opt(r) == slot_of(json_tree(*value), index as int, name@),
{
    match value.as_array() {
        Some(items) => if index < items.len() {
            Some(&items[index])
        } else {
            None
        },
        None => member(value, name),
    }
}

/// Reads a field that holds a string.
fn read_text(field: Option<&serde_json::Value>) -> (r: Option<String>)
    ensures
        text_opt(r) == text_of(json_tree_opt(field)),
{
    match field {
        Some(value) => match value.as_str() {
            Some(text) => Some(text.to_owned()),
            None => None,
        },
        None => None,
    }
}

/// Reads a field that may hold a string.
fn read_maybe_text(field: Option<&serde_json::Value>) -> (r: Option<Option<String>>)
    ensures
        match r {
            Some(text) => maybe_text_of(json_tree_opt(field)) == Some(text_opt(text)),
            None => maybe_text_of(json_tree_opt(field)) is None,
        },
{
    match field {
        Some(value) => if value.is_null() {
            Some(None)
        } else {
            match value.as_str() {
                Some(text) => Some(Some(text.to_owned())),
                None => None,
            }
        },
        None => Some(None),
    }
}

/// Reads a field that holds a decimal.
fn read_decimal_field(field: Option<&serde_json::Value>) -> (r: Option<Decimal>)
    ensures
        decimal_opt(r) == decimal_of(json_tree_opt(field)),
{
    match field {
        Some(value) => Decimal::from_value(value),
        None => None,
    }
}

/// Reads a field that may hold a decimal.
fn read_maybe_decimal(field: Option<&serde_json::Value>) -> (r: Option<Option<Decimal>>)
    ensures
        match r {
            Some(d) => maybe_decimal_of(json_tree_opt(field)) == Some(decimal_opt(d)),
            None => maybe_decimal_of(json_tree_opt(field)) is None,
        },
{
    match field {
        Some(value) => if value.is_null() {
            Some(None)
        } else {
            match Decimal::from_value(value) {
                Some(d) => Some(Some(d)),
                None => None,
            }
        },
        None => Some(None),
    }
}

/// Reads a field that holds a timestamp.
fn read_timestamp(field: Option<&serde_json::Value>) -> (r: Option<i64>)
    ensures
        r == timestamp_of(json_tree_opt(field)),
{
    match field {
        Some(value) => match value.as_str() {
            Some(text) => parse_i64(text),
            None => None,
        },
        None => None,
    }
}

/// Reads a field that holds a timestamp as a string or as a number.
fn read_loose_timestamp(field: Option<&serde_json::Value>) -> (r: Option<i64>)
    ensures
        r == loose_timestamp_of(json_tree_opt(field)),
{
    match field {
        Some(value) => match value.as_str() {
            Some(text) => parse_i64(text),
            None => value.as_i64(),
        },
        None => None,
    }
}

/// Whether a value names the variant `name` of an enumeration.
fn check_variant(value: &serde_json::Value, name: &str) -> (r: bool)
    ensures
        r == names_variant(json_tree(*value), name@),
{
    match value.as_str() {
        Some(text) => same_text(text, name),
        None => match member_count(value) {
            Some(count) => if count == 1 {
                match member(value, name) {
                    Some(content) => content.is_null(),
                    None => false,
                }
            } else {
                false
            },
            None => false,
        },
    }
}

/// The side that a value names.
fn read_side(value: &serde_json::Value) -> (r: Option<Side>)
    ensures
        r == side_named(json_tree(*value)),
{
    if check_variant(value, "BUY") {
        Some(Side::Buy)
    } else if check_variant(value, "SELL") {
        Some(Side::Sell)
    } else {
        None
    }
}

/// Reads a field that holds a side.
fn read_side_field(field: Option<&serde_json::Value>) -> (r: Option<Side>)
    ensures
        r == side_of(json_tree_opt(field)),
{
    match field {
        Some(value) => read_side(value),
        None => None,
    }
}

/// Reads a field that may hold a side.
fn read_maybe_side(field: Option<&serde_json::Value>) -> (r: Option<Option<Side>>)
    ensures
        r == maybe_side_of(json_tree_opt(field)),
{
    match field {
        Some(value) => if value.is_null() {
            Some(None)
        } else {
            match read_side(value) {
                Some(side) => Some(Some(side)),
                None => None,
            }
        },
        None => Some(None),
    }
}

/// Reads a field that may hold a part in a trade.
fn read_maybe_trader_side(field: Option<&serde_json::Value>) -> (r: Option<Option<TraderSide>>)
    ensures
        r == maybe_trader_side_of(json_tree_opt(field)),
{
    match field {
        Some(value) => if value.is_null() {
            Some(None)
        } else if check_variant(value, "TAKER") {
            Some(Some(TraderSide::Taker))
        } else if check_variant(value, "MAKER") {
            Some(Some(TraderSide::Maker))
        } else {
            None
        },
        None => Some(None),
    }
}

/// Reads every item of an array as a `T`.
fn read_items<T: FromJson>(items: &Vec<serde_json::Value>) -> (r: Option<Vec<T>>)
    ensures
        match r {
            Some(list) => items_of::<T>(json_trees(items@)) == Some(
                list@.map_values(|item: T| item@),
            ),
            None => items_of::<T>(json_trees(items@)) is None,
        },
{
    let ghost trees = json_trees(items@);
    let mut list: Vec<T> = Vec::new();
    let mut i: usize = 0;
    while i < items.len()
        invariant
            i <= items.len(),
            i == list.len(),
            trees == json_trees(items@),
            forall|k: int|
                0 <= k < i ==> T::decoded(#[trigger] trees[k]) == Some(list@[k]@),
        decreases items.len() - i,
    {
        match T::from_json(&items[i]) {
            Some(item) => list.push(item),
            None => {
                assert(T::decoded(trees[i as int]) is None);
                return None;
            },
        }
        i = i + 1;
    }
    assert(trees.map_values(|item: Json| T::decoded(item)->0) =~= list@.map_values(
        |item: T| item@,
    ));
    Some(list)
}

/// Reads a field that holds an array of `T`.
fn read_list<T: FromJson>(field: Option<&serde_json::Value>) -> (r: Option<Vec<T>>)
    ensures
        match r {
            Some(list) => list_of::<T>(json_tree_opt(field)) == Some(
                list@.map_values(|item: T| item@),
            ),
            None => list_of::<T>(json_tree_opt(field)) is None,
        },
{
    match field {
        Some(value) => match value.as_array() {
            Some(items) => read_items::<T>(items),
            None => None,
        },
        None => {
            let list: Vec<T> = Vec::new();
            assert(list@.map_values(|item: T| item@) =~= Seq::<T::V>::empty());
            Some(list)
        },
    }
}

/// Reads a field that may hold an array of `T`.
fn read_maybe_list<T: FromJson>(field: Option<&serde_json::Value>) -> (r: Option<Option<Vec<T>>>)
    ensures
        match r {
            Some(Some(list)) => maybe_list_of::<T>(json_tree_opt(field)) == Some(
                Some(list@.map_values(|item: T| item@)),
            ),
            Some(None) => maybe_list_of::<T>(json_tree_opt(field)) == Some(None::<Seq<T::V>>),
            None => maybe_list_of::<T>(json_tree_opt(field)) is None,
        },
{
    match field {
        Some(value) => if value.is_null() {
            Some(None)
        } else {
            match value.as_array() {
                Some(items) => match read_items::<T>(items) {
                    Some(list) => Some(Some(list)),
                    None => None,
                },
                None => None,
            }
        },
        None => Some(None),
    }
}

/// The fault of a field.
fn field_fault(field: Option<&serde_json::Value>, good: bool, name: &'static str) -> (r: Option<
    Fault,
>)
    ensures
        fault_view(r) == field_fault_of(json_tree_opt(field), good, name@),
{
    if good {
        None
    } else if field.is_none() {
        Some(Fault::Missing(name))
    } else {
        Some(Fault::Invalid(name))
    }
}

/// The fault of a field that holds a string.
fn text_fault(field: Option<&serde_json::Value>, name: &'static str) -> (r: Option<Fault>)
    ensures
        fault_view(r) == text_fault_of(json_tree_opt(field), name@),
{
    field_fault(field, read_text(field).is_some(), name)
}

/// The fault of a field that may hold a string.
fn maybe_text_fault(field: Option<&serde_json::Value>, name: &'static str) -> (r: Option<Fault>)
    ensures
        fault_view(r) == maybe_text_fault_of(json_tree_opt(field), name@),
{
    field_fault(field, read_maybe_text(field).is_some(), name)
}

/// The fault of a field that holds a decimal.
fn decimal_fault(field: Option<&serde_json::Value>, name: &'static str) -> (r: Option<Fault>)
    ensures
        fault_view(r) == decimal_fault_of(json_tree_opt(field), name@),
{
    field_fault(field, read_decimal_field(field).is_some(), name)
}

/// The fault of a field that may hold a decimal.
fn maybe_decimal_fault(field: Option<&serde_json::Value>, name: &'static str) -> (r: Option<Fault>)
    ensures
        fault_view(r) == maybe_decimal_fault_of(json_tree_opt(field), name@),
{
    field_fault(field, read_maybe_decimal(field).is_some(), name)
}

/// The fault of a field that holds a timestamp.
fn timestamp_fault(field: Option<&serde_json::Value>, name: &'static str) -> (r: Option<Fault>)
    ensures
        fault_view(r) == timestamp_fault_of(json_tree_opt(field), name@),
{
    field_fault(field, read_timestamp(field).is_some(), name)
}

/// The fault of a field that holds a timestamp as a string or as a number.
fn loose_timestamp_fault(field: Option<&serde_json::Value>, name: &'static str) -> (r: Option<Fault>)
    ensures
        fault_view(r) == loose_timestamp_fault_of(json_tree_opt(field), name@),
{
    field_fault(field, read_loose_timestamp(field).is_some(), name)
}

/// The fault of a field that holds a side.
fn side_fault(field: Option<&serde_json::Value>, name: &'static str) -> (r: Option<Fault>)
    ensures
        fault_view(r) == side_fault_of(json_tree_opt(field), name@),
{
    field_fault(field, read_side_field(field).is_some(), name)
}

/// The fault of a field that may hold a side.
fn maybe_side_fault(field: Option<&serde_json::Value>, name: &'static str) -> (r: Option<Fault>)
    ensures
        fault_view(r) == maybe_side_fault_of(json_tree_opt(field), name@),
{
    field_fault(field, read_maybe_side(field).is_some(), name)
}

/// The fault of a field that may hold a part in a trade.
fn maybe_trader_side_fault(field: Option<&serde_json::Value>, name: &'static str) -> (r: Option<Fault>)
    ensures
        fault_view(r) == maybe_trader_side_fault_of(json_tree_opt(field), name@),
{
    field_fault(field, read_maybe_trader_side(field).is_some(), name)
}

/// The fault of the first item of an array that is not a `T`.
fn items_fault<T: FromJson>(items: &Vec<serde_json::Value>) -> (r: Option<Fault>)
    ensures
        fault_view(r) == items_fault_of::<T>(json_trees(items@)),
{
    let ghost trees = json_trees(items@);
    let mut i: usize = 0;
    while i < items.len()
        invariant
            i <= items.len(),
            trees == json_trees(items@),
            items_fault_of::<T>(trees.take(i as int)) is None,
        decreases items.len() - i,
    {
        assert(trees.take(i + 1).drop_last() =~= trees.take(i as int));
        assert(trees.take(i + 1).last() == json_tree(items@[i as int]));
        if T::from_json(&items[i]).is_none() {
            let fault = T::explain(&items[i]);
            proof {
                lemma_items_fault_stays::<T>(trees, i + 1);
            }
            return Some(fault);
        }
        i = i + 1;
    }
    assert(trees.take(i as int) =~= trees);
    None
}

/// A fault among the first items is the fault of the whole.
proof fn lemma_items_fault_stays<T: FromJson>(items: Seq<Json>, n: int)
    requires
        0 <= n <= items.len(),
        items_fault_of::<T>(items.take(n)) is Some,
    ensures
        items_fault_of::<T>(items) == items_fault_of::<T>(items.take(n)),
    decreases items.len(),
{
    if n == items.len() {
        assert(items.take(n) =~= items);
    } else {
        assert(items.drop_last().take(n) =~= items.take(n));
        lemma_items_fault_stays::<T>(items.drop_last(), n);
    }
}

/// The fault of a field that holds an array of `T`.
fn list_fault<T: FromJson>(field: Option<&serde_json::Value>, name: &'static str) -> (r: Option<
    Fault,
>)
    ensures
        fault_view(r) == list_fault_of::<T>(json_tree_opt(field), name@),
{
    match field {
        Some(value) => match value.as_array() {
            Some(items) => items_fault::<T>(items),
            None => Some(Fault::Invalid(name)),
        },
        None => None,
    }
}

/// The fault of a field that may hold an array of `T`.
fn maybe_list_fault<T: FromJson>(
    field: Option<&serde_json::Value>,
    name: &'static str,
) -> (r: Option<Fault>)
    ensures
        fault_view(r) == maybe_list_fault_of::<T>(json_tree_opt(field), name@),
{
    if let Some(value) = field {
        if value.is_null() {
            return None;
        }
    }
    list_fault::<T>(field, name)
}

impl FromJson for String {
    open spec fn decoded(tree: Json) -> Option<Seq<char>> {
        text_of(Some(tree))
    }

    fn from_json(value: &serde_json::Value) -> (r: Option<Self>) {
        read_text(Some(value))
    }

    open spec fn explained(tree: Json) -> FaultView {
        FaultView::NotAString
    }

    fn explain(value: &serde_json::Value) -> (r: Fault) {
        Fault::NotAString
    }
}

/// The faults of the fields of an [`OrderBookLevel`], in the order of the fields.
pub open spec fn order_book_level_faults(tree: Json) -> Seq<Option<FaultView>> {
    seq![
        decimal_fault_of(slot_of(tree, 0, "price"@), "price"@),
        decimal_fault_of(slot_of(tree, 1, "size"@), "size"@),
    ]
}

impl FromJson for OrderBookLevel {
    open spec fn decoded(tree: Json) -> Option<LevelView> {
        let price = decimal_of(slot_of(tree, 0, "price"@));
        let size = decimal_of(slot_of(tree, 1, "size"@));
        if {
            &&& is_record(tree, 2, 2)
            &&& price is Some
            &&& size is Some
        } {
            Some(LevelView { price: price->0, size: size->0 })
        } else {
            None
        }
    }

    fn from_json(value: &serde_json::Value) -> (r: Option<Self>) {
        if !check_record(value, 2, 2) {
            return None;
        }
        let price = read_decimal_field(slot(value, 0, "price"))?;
        let size = read_decimal_field(slot(value, 1, "size"))?;
        Some(OrderBookLevel { price, size })
    }

    open spec fn explained(tree: Json) -> FaultView {
        record_fault(tree, order_book_level_faults(tree), seq![0, 1])
    }

    fn explain(value: &serde_json::Value) -> (r: Fault) {
        let mut faults: Vec<Option<Fault>> = Vec::new();
        faults.push(decimal_fault(slot(value, 0, "price"), "price"));
        faults.push(decimal_fault(slot(value, 1, "size"), "size"));
        let by_name: Vec<usize> = vec![0, 1];
        assert(fault_views(faults@) =~= order_book_level_faults(json_tree(*value)));
        assert(indices(by_name@) =~= seq![0, 1]);
        choose_fault(value, &faults, &by_name)
    }
}

/// The faults of the fields of a [`BookUpdate`], in the order of the fields.
pub open spec fn book_update_faults(tree: Json) -> Seq<Option<FaultView>> {
    seq![
        text_fault_of(slot_of(tree, 0, "asset_id"@), "asset_id"@),
        text_fault_of(slot_of(tree, 1, "market"@), "market"@),
        timestamp_fault_of(slot_of(tree, 2, "timestamp"@), "timestamp"@),
        list_fault_of::<OrderBookLevel>(slot_of(tree, 3, "bids"@), "bids"@),
        list_fault_of::<OrderBookLevel>(slot_of(tree, 4, "asks"@), "asks"@),
        maybe_text_fault_of(slot_of(tree, 5, "hash"@), "hash"@),
    ]
}

impl FromJson for BookUpdate {
    open spec fn decoded(tree: Json) -> Option<BookView> {
        let asset_id = text_of(slot_of(tree, 0, "asset_id"@));
        let market = text_of(slot_of(tree, 1, "market"@));
        let timestamp = timestamp_of(slot_of(tree, 2, "timestamp"@));
        let bids = list_of::<OrderBookLevel>(slot_of(tree, 3, "bids"@));
        let asks = list_of::<OrderBookLevel>(slot_of(tree, 4, "asks"@));
        let hash = maybe_text_of(slot_of(tree, 5, "hash"@));
        if {
            &&& is_record(tree, 6, 6)
            &&& asset_id is Some
            &&& market is Some
            &&& timestamp is Some
            &&& bids is Some
            &&& asks is Some
            &&& hash is Some
        } {
            Some(BookView {
                asset_id: asset_id->0,
                market: market->0,
                timestamp: timestamp->0,
                bids: bids->0,
                asks: asks->0,
                hash: hash->0,
            })
        } else {
            None
        }
    }

    fn from_json(value: &serde_json::Value) -> (r: Option<Self>) {
        if !check_record(value, 6, 6) {
            return None;
        }
        let asset_id = read_text(slot(value, 0, "asset_id"))?;
        let market = read_text(slot(value, 1, "market"))?;
        let timestamp: i64 = read_timestamp(slot(value, 2, "timestamp"))?;
        let bids = read_list::<OrderBookLevel>(slot(value, 3, "bids"))?;
        let asks = read_list::<OrderBookLevel>(slot(value, 4, "asks"))?;
        let hash = read_maybe_text(slot(value, 5, "hash"))?;
        Some(BookUpdate {
            asset_id,
            market,
            timestamp,
            bids,
            asks,
            hash,
        })
    }

    open spec fn explained(tree: Json) -> FaultView {
        record_fault(tree, book_update_faults(tree), seq![4, 0, 3, 5, 1, 2])
    }

    fn explain(value: &serde_json::Value) -> (r: Fault) {
        let mut faults: Vec<Option<Fault>> = Vec::new();
        faults.push(text_fault(slot(value, 0, "asset_id"), "asset_id"));
        faults.push(text_fault(slot(value, 1, "market"), "market"));
        faults.push(timestamp_fault(slot(value, 2, "timestamp"), "timestamp"));
        faults.push(list_fault::<OrderBookLevel>(slot(value, 3, "bids"), "bids"));
        faults.push(list_fault::<OrderBookLevel>(slot(value, 4, "asks"), "asks"));
        faults.push(maybe_text_fault(slot(value, 5, "hash"), "hash"));
        let by_name: Vec<usize> = vec![4, 0, 3, 5, 1, 2];
        assert(fault_views(faults@) =~= book_update_faults(json_tree(*value)));
        assert(indices(by_name@) =~= seq![4, 0, 3, 5, 1, 2]);
        choose_fault(value, &faults, &by_name)
    }
}

/// The faults of the fields of a [`PriceChange`], in the order of the fields.
pub open spec fn price_change_faults(tree: Json) -> Seq<Option<FaultView>> {
    seq![
        text_fault_of(slot_of(tree, 0, "asset_id"@), "asset_id"@),
        text_fault_of(slot_of(tree, 1, "market"@), "market"@),
        decimal_fault_of(slot_of(tree, 2, "price"@), "price"@),
        maybe_decimal_fault_of(slot_of(tree, 3, "size"@), "size"@),
        side_fault_of(slot_of(tree, 4, "side"@), "side"@),
        timestamp_fault_of(slot_of(tree, 5, "timestamp"@), "timestamp"@),
        maybe_text_fault_of(slot_of(tree, 6, "hash"@), "hash"@),
        maybe_decimal_fault_of(slot_of(tree, 7, "best_bid"@), "best_bid"@),
        maybe_decimal_fault_of(slot_of(tree, 8, "best_ask"@), "best_ask"@),
    ]
}

impl FromJson for PriceChange {
    open spec fn decoded(tree: Json) -> Option<PriceChangeView> {
        let asset_id = text_of(slot_of(tree, 0, "asset_id"@));
        let market = text_of(slot_of(tree, 1, "market"@));
        let price = decimal_of(slot_of(tree, 2, "price"@));
        let size = maybe_decimal_of(slot_of(tree, 3, "size"@));
        let side = side_of(slot_of(tree, 4, "side"@));
        let timestamp = timestamp_of(slot_of(tree, 5, "timestamp"@));
        let hash = maybe_text_of(slot_of(tree, 6, "hash"@));
        let best_bid = maybe_decimal_of(slot_of(tree, 7, "best_bid"@));
        let best_ask = maybe_decimal_of(slot_of(tree, 8, "best_ask"@));
        if {
            &&& is_record(tree, 9, 9)
            &&& asset_id is Some
            &&& market is Some
            &&& price is Some
            &&& size is Some
            &&& side is Some
            &&& timestamp is Some
            &&& hash is Some
            &&& best_bid is Some
            &&& best_ask is Some
        } {
            Some(PriceChangeView {
                asset_id: asset_id->0,
                market: market->0,
                price: price->0,
                size: size->0,
                side: side->0,
                timestamp: timestamp->0,
                hash: hash->0,
                best_bid: best_bid->0,
                best_ask: best_ask->0,
            })
        } else {
            None
        }
    }

    fn from_json(value: &serde_json::Value) -> (r: Option<Self>) {
        if !check_record(value, 9, 9) {
            return None;
        }
        let asset_id = read_text(slot(value, 0, "asset_id"))?;
        let market = read_text(slot(value, 1, "market"))?;
        let price = read_decimal_field(slot(value, 2, "price"))?;
        let size = read_maybe_decimal(slot(value, 3, "size"))?;
        let side = read_side_field(slot(value, 4, "side"))?;
        let timestamp: i64 = read_timestamp(slot(value, 5, "timestamp"))?;
        let hash = read_maybe_text(slot(value, 6, "hash"))?;
        let best_bid = read_maybe_decimal(slot(value, 7, "best_bid"))?;
        let best_ask = read_maybe_decimal(slot(value, 8, "best_ask"))?;
        Some(PriceChange {
            asset_id,
            market,
            price,
            size,
            side,
            timestamp,
            hash,
            best_bid,
            best_ask,
        })
    }

    open spec fn explained(tree: Json) -> FaultView {
        record_fault(tree, price_change_faults(tree), seq![0, 8, 7, 6, 1, 2, 4, 3, 5])
    }

    fn explain(value: &serde_json::Value) -> (r: Fault) {
        let mut faults: Vec<Option<Fault>> = Vec::new();
        faults.push(text_fault(slot(value, 0, "asset_id"), "asset_id"));
        faults.push(text_fault(slot(value, 1, "market"), "market"));
        faults.push(decimal_fault(slot(value, 2, "price"), "price"));
        faults.push(maybe_decimal_fault(slot(value, 3, "size"), "size"));
        faults.push(side_fault(slot(value, 4, "side"), "side"));
        faults.push(timestamp_fault(slot(value, 5, "timestamp"), "timestamp"));
        faults.push(maybe_text_fault(slot(value, 6, "hash"), "hash"));
        faults.push(maybe_decimal_fault(slot(value, 7, "best_bid"), "best_bid"));
        faults.push(maybe_decimal_fault(slot(value, 8, "best_ask"), "best_ask"));
        let by_name: Vec<usize> = vec![0, 8, 7, 6, 1, 2, 4, 3, 5];
        assert(fault_views(faults@) =~= price_change_faults(json_tree(*value)));
        assert(indices(by_name@) =~= seq![0, 8, 7, 6, 1, 2, 4, 3, 5]);
        choose_fault(value, &faults, &by_name)
    }
}

/// The faults of the fields of a [`PriceChangeBatchEntry`], in the order of the fields.
pub open spec fn price_change_batch_entry_faults(tree: Json) -> Seq<Option<FaultView>> {
    seq![
        text_fault_of(slot_of(tree, 0, "asset_id"@), "asset_id"@),
        decimal_fault_of(slot_of(tree, 1, "price"@), "price"@),
        maybe_decimal_fault_of(slot_of(tree, 2, "size"@), "size"@),
        side_fault_of(slot_of(tree, 3, "side"@), "side"@),
        maybe_text_fault_of(slot_of(tree, 4, "hash"@), "hash"@),
        maybe_decimal_fault_of(slot_of(tree, 5, "best_bid"@), "best_bid"@),
        maybe_decimal_fault_of(slot_of(tree, 6, "best_ask"@), "best_ask"@),
    ]
}

impl FromJson for PriceChangeBatchEntry {
    open spec fn decoded(tree: Json) -> Option<BatchEntryView> {
        let asset_id = text_of(slot_of(tree, 0, "asset_id"@));
        let price = decimal_of(slot_of(tree, 1, "price"@));
        let size = maybe_decimal_of(slot_of(tree, 2, "size"@));
        let side = side_of(slot_of(tree, 3, "side"@));
        let hash = maybe_text_of(slot_of(tree, 4, "hash"@));
        let best_bid = maybe_decimal_of(slot_of(tree, 5, "best_bid"@));
        let best_ask = maybe_decimal_of(slot_of(tree, 6, "best_ask"@));
        if {
            &&& is_record(tree, 7, 7)
            &&& asset_id is Some
            &&& price is Some
            &&& size is Some
            &&& side is Some
            &&& hash is Some
            &&& best_bid is Some
            &&& best_ask is Some
        } {
            Some(BatchEntryView {
                asset_id: asset_id->0,
                price: price->0,
                size: size->0,
                side: side->0,
                hash: hash->0,
                best_bid: best_bid->0,
                best_ask: best_ask->0,
            })
        } else {
            None
        }
    }

    fn from_json(value: &serde_json::Value) -> (r: Option<Self>) {
        if !check_record(value, 7, 7) {
            return None;
        }
        let asset_id = read_text(slot(value, 0, "asset_id"))?;
        let price = read_decimal_field(slot(value, 1, "price"))?;
        let size = read_maybe_decimal(slot(value, 2, "size"))?;
        let side = read_side_field(slot(value, 3, "side"))?;
        let hash = read_maybe_text(slot(value, 4, "hash"))?;
        let best_bid = read_maybe_decimal(slot(value, 5, "best_bid"))?;
        let best_ask = read_maybe_decimal(slot(value, 6, "best_ask"))?;
        Some(PriceChangeBatchEntry {
            asset_id,
            price,
            size,
            side,
            hash,
            best_bid,
            best_ask,
        })
    }

    open spec fn explained(tree: Json) -> FaultView {
        record_fault(tree, price_change_batch_entry_faults(tree), seq![0, 6, 5, 4, 1, 3, 2])
    }

    fn explain(value: &serde_json::Value) -> (r: Fault) {
        let mut faults: Vec<Option<Fault>> = Vec::new();
        faults.push(text_fault(slot(value, 0, "asset_id"), "asset_id"));
        faults.push(decimal_fault(slot(value, 1, "price"), "price"));
        faults.push(maybe_decimal_fault(slot(value, 2, "size"), "size"));
        faults.push(side_fault(slot(value, 3, "side"), "side"));
        faults.push(maybe_text_fault(slot(value, 4, "hash"), "hash"));
        faults.push(maybe_decimal_fault(slot(value, 5, "best_bid"), "best_bid"));
        faults.push(maybe_decimal_fault(slot(value, 6, "best_ask"), "best_ask"));
        let by_name: Vec<usize> = vec![0, 6, 5, 4, 1, 3, 2];
        assert(fault_views(faults@) =~= price_change_batch_entry_faults(json_tree(*value)));
        assert(indices(by_name@) =~= seq![0, 6, 5, 4, 1, 3, 2]);
        choose_fault(value, &faults, &by_name)
    }
}

/// The faults of the fields of a [`PriceChangeBatch`], in the order of the fields.
pub open spec fn price_change_batch_faults(tree: Json) -> Seq<Option<FaultView>> {
    seq![
        text_fault_of(slot_of(tree, 0, "market"@), "market"@),
        loose_timestamp_fault_of(slot_of(tree, 1, "timestamp"@), "timestamp"@),
        list_fault_of::<PriceChangeBatchEntry>(slot_of(tree, 2, "price_changes"@), "price_changes"@),
    ]
}

impl FromJson for PriceChangeBatch {
    open spec fn decoded(tree: Json) -> Option<BatchView> {
        let market = text_of(slot_of(tree, 0, "market"@));
        let timestamp = loose_timestamp_of(slot_of(tree, 1, "timestamp"@));
        let price_changes = list_of::<PriceChangeBatchEntry>(slot_of(tree, 2, "price_changes"@));
        if {
            &&& is_record(tree, 2, 3)
            &&& market is Some
            &&& timestamp is Some
            &&& price_changes is Some
        } {
            Some(BatchView {
                market: market->0,
                timestamp: timestamp->0,
                price_changes: price_changes->0,
            })
        } else {
            None
        }
    }

    fn from_json(value: &serde_json::Value) -> (r: Option<Self>) {
        if !check_record(value, 2, 3) {
            return None;
        }
        let market = read_text(slot(value, 0, "market"))?;
        let timestamp: i64 = read_loose_timestamp(slot(value, 1, "timestamp"))?;
        let price_changes = read_list::<PriceChangeBatchEntry>(slot(value, 2, "price_changes"))?;
        Some(PriceChangeBatch {
            market,
            timestamp,
            price_changes,
        })
    }

    open spec fn explained(tree: Json) -> FaultView {
        record_fault(tree, price_change_batch_faults(tree), seq![0, 2, 1])
    }

    fn explain(value: &serde_json::Value) -> (r: Fault) {
        let mut faults: Vec<Option<Fault>> = Vec::new();
        faults.push(text_fault(slot(value, 0, "market"), "market"));
        faults.push(loose_timestamp_fault(slot(value, 1, "timestamp"), "timestamp"));
        faults.push(list_fault::<PriceChangeBatchEntry>(slot(value, 2, "price_changes"), "price_changes"));
        let by_name: Vec<usize> = vec![0, 2, 1];
        assert(fault_views(faults@) =~= price_change_batch_faults(json_tree(*value)));
        assert(indices(by_name@) =~= seq![0, 2, 1]);
        choose_fault(value, &faults, &by_name)
    }
}

/// The faults of the fields of a [`TickSizeChange`], in the order of the fields.
pub open spec fn tick_size_change_faults(tree: Json) -> Seq<Option<FaultView>> {
    seq![
        text_fault_of(slot_of(tree, 0, "asset_id"@), "asset_id"@),
        text_fault_of(slot_of(tree, 1, "market"@), "market"@),
        decimal_fault_of(slot_of(tree, 2, "old_tick_size"@), "old_tick_size"@),
        decimal_fault_of(slot_of(tree, 3, "new_tick_size"@), "new_tick_size"@),
        timestamp_fault_of(slot_of(tree, 4, "timestamp"@), "timestamp"@),
    ]
}

impl FromJson for TickSizeChange {
    open spec fn decoded(tree: Json) -> Option<TickSizeView> {
        let asset_id = text_of(slot_of(tree, 0, "asset_id"@));
        let market = text_of(slot_of(tree, 1, "market"@));
        let old_tick_size = decimal_of(slot_of(tree, 2, "old_tick_size"@));
        let new_tick_size = decimal_of(slot_of(tree, 3, "new_tick_size"@));
        let timestamp = timestamp_of(slot_of(tree, 4, "timestamp"@));
        if {
            &&& is_record(tree, 5, 5)
            &&& asset_id is Some
            &&& market is Some
            &&& old_tick_size is Some
            &&& new_tick_size is Some
            &&& timestamp is Some
        } {
            Some(TickSizeView {
                asset_id: asset_id->0,
                market: market->0,
                old_tick_size: old_tick_size->0,
                new_tick_size: new_tick_size->0,
                timestamp: timestamp->0,
            })
        } else {
            None
        }
    }

    fn from_json(value: &serde_json::Value) -> (r: Option<Self>) {
        if !check_record(value, 5, 5) {
            return None;
        }
        let asset_id = read_text(slot(value, 0, "asset_id"))?;
        let market = read_text(slot(value, 1, "market"))?;
        let old_tick_size = read_decimal_field(slot(value, 2, "old_tick_size"))?;
        let new_tick_size = read_decimal_field(slot(value, 3, "new_tick_size"))?;
        let timestamp: i64 = read_timestamp(slot(value, 4, "timestamp"))?;
        Some(TickSizeChange {
            asset_id,
            market,
            old_tick_size,
            new_tick_size,
            timestamp,
        })
    }

    open spec fn explained(tree: Json) -> FaultView {
        record_fault(tree, tick_size_change_faults(tree), seq![0, 1, 3, 2, 4])
    }

    fn explain(value: &serde_json::Value) -> (r: Fault) {
        let mut faults: Vec<Option<Fault>> = Vec::new();
        faults.push(text_fault(slot(value, 0, "asset_id"), "asset_id"));
        faults.push(text_fault(slot(value, 1, "market"), "market"));
        faults.push(decimal_fault(slot(value, 2, "old_tick_size"), "old_tick_size"));
        faults.push(decimal_fault(slot(value, 3, "new_tick_size"), "new_tick_size"));
        faults.push(timestamp_fault(slot(value, 4, "timestamp"), "timestamp"));
        let by_name: Vec<usize> = vec![0, 1, 3, 2, 4];
        assert(fault_views(faults@) =~= tick_size_change_faults(json_tree(*value)));
        assert(indices(by_name@) =~= seq![0, 1, 3, 2, 4]);
        choose_fault(value, &faults, &by_name)
    }
}

/// The faults of the fields of a [`LastTradePrice`], in the order of the fields.
pub open spec fn last_trade_price_faults(tree: Json) -> Seq<Option<FaultView>> {
    seq![
        text_fault_of(slot_of(tree, 0, "asset_id"@), "asset_id"@),
        text_fault_of(slot_of(tree, 1, "market"@), "market"@),
        decimal_fault_of(slot_of(tree, 2, "price"@), "price"@),
        maybe_side_fault_of(slot_of(tree, 3, "side"@), "side"@),
        timestamp_fault_of(slot_of(tree, 4, "timestamp"@), "timestamp"@),
    ]
}

impl FromJson for LastTradePrice {
    open spec fn decoded(tree: Json) -> Option<LastTradeView> {
        let asset_id = text_of(slot_of(tree, 0, "asset_id"@));
        let market = text_of(slot_of(tree, 1, "market"@));
        let price = decimal_of(slot_of(tree, 2, "price"@));
        let side = maybe_side_of(slot_of(tree, 3, "side"@));
        let timestamp = timestamp_of(slot_of(tree, 4, "timestamp"@));
        if {
            &&& is_record(tree, 5, 5)
            &&& asset_id is Some
            &&& market is Some
            &&& price is Some
            &&& side is Some
            &&& timestamp is Some
        } {
            Some(LastTradeView {
                asset_id: asset_id->0,
                market: market->0,
                price: price->0,
                side: side->0,
                timestamp: timestamp->0,
            })
        } else {
            None
        }
    }

    fn from_json(value: &serde_json::Value) -> (r: Option<Self>) {
        if !check_record(value, 5, 5) {
            return None;
        }
        let asset_id = read_text(slot(value, 0, "asset_id"))?;
        let market = read_text(slot(value, 1, "market"))?;
        let price = read_decimal_field(slot(value, 2, "price"))?;
        let side = read_maybe_side(slot(value, 3, "side"))?;
        let timestamp: i64 = read_timestamp(slot(value, 4, "timestamp"))?;
        Some(LastTradePrice {
            asset_id,
            market,
            price,
            side,
            timestamp,
        })
    }

    open spec fn explained(tree: Json) -> FaultView {
        record_fault(tree, last_trade_price_faults(tree), seq![0, 1, 2, 3, 4])
    }

    fn explain(value: &serde_json::Value) -> (r: Fault) {
        let mut faults: Vec<Option<Fault>> = Vec::new();
        faults.push(text_fault(slot(value, 0, "asset_id"), "asset_id"));
        faults.push(text_fault(slot(value, 1, "market"), "market"));
        faults.push(decimal_fault(slot(value, 2, "price"), "price"));
        faults.push(maybe_side_fault(slot(value, 3, "side"), "side"));
        faults.push(timestamp_fault(slot(value, 4, "timestamp"), "timestamp"));
        let by_name: Vec<usize> = vec![0, 1, 2, 3, 4];
        assert(fault_views(faults@) =~= last_trade_price_faults(json_tree(*value)));
        assert(indices(by_name@) =~= seq![0, 1, 2, 3, 4]);
        choose_fault(value, &faults, &by_name)
    }
}

/// The faults of the fields of a [`MakerOrder`], in the order of the fields.
pub open spec fn maker_order_faults(tree: Json) -> Seq<Option<FaultView>> {
    seq![
        text_fault_of(slot_of(tree, 0, "asset_id"@), "asset_id"@),
        text_fault_of(slot_of(tree, 1, "matched_amount"@), "matched_amount"@),
        text_fault_of(slot_of(tree, 2, "order_id"@), "order_id"@),
        text_fault_of(slot_of(tree, 3, "outcome"@), "outcome"@),
        text_fault_of(slot_of(tree, 4, "owner"@), "owner"@),
        text_fault_of(slot_of(tree, 5, "price"@), "price"@),
    ]
}

impl FromJson for MakerOrder {
    open spec fn decoded(tree: Json) -> Option<MakerView> {
        let asset_id = text_of(slot_of(tree, 0, "asset_id"@));
        let matched_amount = text_of(slot_of(tree, 1, "matched_amount"@));
        let order_id = text_of(slot_of(tree, 2, "order_id"@));
        let outcome = text_of(slot_of(tree, 3, "outcome"@));
        let owner = text_of(slot_of(tree, 4, "owner"@));
        let price = text_of(slot_of(tree, 5, "price"@));
        if {
            &&& is_record(tree, 6, 6)
            &&& asset_id is Some
            &&& matched_amount is Some
            &&& order_id is Some
            &&& outcome is Some
            &&& owner is Some
            &&& price is Some
        } {
            Some(MakerView {
                asset_id: asset_id->0,
                matched_amount: matched_amount->0,
                order_id: order_id->0,
                outcome: outcome->0,
                owner: owner->0,
                price: price->0,
            })
        } else {
            None
        }
    }

    fn from_json(value: &serde_json::Value) -> (r: Option<Self>) {
        if !check_record(value, 6, 6) {
            return None;
        }
        let asset_id = read_text(slot(value, 0, "asset_id"))?;
        let matched_amount = read_text(slot(value, 1, "matched_amount"))?;
        let order_id = read_text(slot(value, 2, "order_id"))?;
        let outcome = read_text(slot(value, 3, "outcome"))?;
        let owner = read_text(slot(value, 4, "owner"))?;
        let price = read_text(slot(value, 5, "price"))?;
        Some(MakerOrder {
            asset_id,
            matched_amount,
            order_id,
            outcome,
            owner,
            price,
        })
    }

    open spec fn explained(tree: Json) -> FaultView {
        record_fault(tree, maker_order_faults(tree), seq![0, 1, 2, 3, 4, 5])
    }

    fn explain(value: &serde_json::Value) -> (r: Fault) {
        let mut faults: Vec<Option<Fault>> = Vec::new();
        faults.push(text_fault(slot(value, 0, "asset_id"), "asset_id"));
        faults.push(text_fault(slot(value, 1, "matched_amount"), "matched_amount"));
        faults.push(text_fault(slot(value, 2, "order_id"), "order_id"));
        faults.push(text_fault(slot(value, 3, "outcome"), "outcome"));
        faults.push(text_fault(slot(value, 4, "owner"), "owner"));
        faults.push(text_fault(slot(value, 5, "price"), "price"));
        let by_name: Vec<usize> = vec![0, 1, 2, 3, 4, 5];
        assert(fault_views(faults@) =~= maker_order_faults(json_tree(*value)));
        assert(indices(by_name@) =~= seq![0, 1, 2, 3, 4, 5]);
        choose_fault(value, &faults, &by_name)
    }
}

/// The faults of the fields of a [`TradeMessage`], in the order of the fields.
pub open spec fn trade_message_faults(tree: Json) -> Seq<Option<FaultView>> {
    seq![
        text_fault_of(slot_of(tree, 0, "id"@), "id"@),
        text_fault_of(slot_of(tree, 1, "market"@), "market"@),
        text_fault_of(slot_of(tree, 2, "asset_id"@), "asset_id"@),
        side_fault_of(slot_of(tree, 3, "side"@), "side"@),
        text_fault_of(slot_of(tree, 4, "size"@), "size"@),
        text_fault_of(slot_of(tree, 5, "price"@), "price"@),
        text_fault_of(slot_of(tree, 6, "status"@), "status"@),
        maybe_text_fault_of(slot_of(tree, 7, "event_type"@), "event_type"@),
        maybe_text_fault_of(slot_of(tree, 8, "type"@), "type"@),
        maybe_text_fault_of(slot_of(tree, 9, "last_update"@), "last_update"@),
        maybe_text_fault_of(slot_of(tree, 10, "matchtime"@), "matchtime"@),
        maybe_text_fault_of(slot_of(tree, 11, "timestamp"@), "timestamp"@),
        maybe_text_fault_of(slot_of(tree, 12, "outcome"@), "outcome"@),
        maybe_text_fault_of(slot_of(tree, 13, "owner"@), "owner"@),
        maybe_text_fault_of(slot_of(tree, 14, "trade_owner"@), "trade_owner"@),
        maybe_text_fault_of(slot_of(tree, 15, "taker_order_id"@), "taker_order_id"@),
        list_fault_of::<MakerOrder>(slot_of(tree, 16, "maker_orders"@), "maker_orders"@),
        maybe_text_fault_of(slot_of(tree, 17, "fee_rate_bps"@), "fee_rate_bps"@),
        maybe_text_fault_of(slot_of(tree, 18, "transaction_hash"@), "transaction_hash"@),
        maybe_trader_side_fault_of(slot_of(tree, 19, "trader_side"@), "trader_side"@),
    ]
}

impl FromJson for TradeMessage {
    open spec fn decoded(tree: Json) -> Option<TradeView> {
        let id = text_of(slot_of(tree, 0, "id"@));
        let market = text_of(slot_of(tree, 1, "market"@));
        let asset_id = text_of(slot_of(tree, 2, "asset_id"@));
        let side = side_of(slot_of(tree, 3, "side"@));
        let size = text_of(slot_of(tree, 4, "size"@));
        let price = text_of(slot_of(tree, 5, "price"@));
        let status = text_of(slot_of(tree, 6, "status"@));
        let event_type = maybe_text_of(slot_of(tree, 7, "event_type"@));
        let msg_type = maybe_text_of(slot_of(tree, 8, "type"@));
        let last_update = maybe_text_of(slot_of(tree, 9, "last_update"@));
        let matchtime = maybe_text_of(slot_of(tree, 10, "matchtime"@));
        let timestamp = maybe_text_of(slot_of(tree, 11, "timestamp"@));
        let outcome = maybe_text_of(slot_of(tree, 12, "outcome"@));
        let owner = maybe_text_of(slot_of(tree, 13, "owner"@));
        let trade_owner = maybe_text_of(slot_of(tree, 14, "trade_owner"@));
        let taker_order_id = maybe_text_of(slot_of(tree, 15, "taker_order_id"@));
        let maker_orders = list_of::<MakerOrder>(slot_of(tree, 16, "maker_orders"@));
        let fee_rate_bps = maybe_text_of(slot_of(tree, 17, "fee_rate_bps"@));
        let transaction_hash = maybe_text_of(slot_of(tree, 18, "transaction_hash"@));
        let trader_side = maybe_trader_side_of(slot_of(tree, 19, "trader_side"@));
        if {
            &&& is_record(tree, 7, 20)
            &&& id is Some
            &&& market is Some
            &&& asset_id is Some
            &&& side is Some
            &&& size is Some
            &&& price is Some
            &&& status is Some
            &&& event_type is Some
            &&& msg_type is Some
            &&& last_update is Some
            &&& matchtime is Some
            &&& timestamp is Some
            &&& outcome is Some
            &&& owner is Some
            &&& trade_owner is Some
            &&& taker_order_id is Some
            &&& maker_orders is Some
            &&& fee_rate_bps is Some
            &&& transaction_hash is Some
            &&& trader_side is Some
        } {
            Some(TradeView {
                id: id->0,
                market: market->0,
                asset_id: asset_id->0,
                side: side->0,
                size: size->0,
                price: price->0,
                status: status->0,
                event_type: event_type->0,
                msg_type: msg_type->0,
                last_update: last_update->0,
                matchtime: matchtime->0,
                timestamp: timestamp->0,
                outcome: outcome->0,
                owner: owner->0,
                trade_owner: trade_owner->0,
                taker_order_id: taker_order_id->0,
                maker_orders: maker_orders->0,
                fee_rate_bps: fee_rate_bps->0,
                transaction_hash: transaction_hash->0,
                trader_side: trader_side->0,
            })
        } else {
            None
        }
    }

    fn from_json(value: &serde_json::Value) -> (r: Option<Self>) {
        if !check_record(value, 7, 20) {
            return None;
        }
        let id = read_text(slot(value, 0, "id"))?;
        let market = read_text(slot(value, 1, "market"))?;
        let asset_id = read_text(slot(value, 2, "asset_id"))?;
        let side = read_side_field(slot(value, 3, "side"))?;
        let size = read_text(slot(value, 4, "size"))?;
        let price = read_text(slot(value, 5, "price"))?;
        let status = read_text(slot(value, 6, "status"))?;
        let event_type = read_maybe_text(slot(value, 7, "event_type"))?;
        let msg_type = read_maybe_text(slot(value, 8, "type"))?;
        let last_update = read_maybe_text(slot(value, 9, "last_update"))?;
        let matchtime = read_maybe_text(slot(value, 10, "matchtime"))?;
        let timestamp = read_maybe_text(slot(value, 11, "timestamp"))?;
        let outcome = read_maybe_text(slot(value, 12, "outcome"))?;
        let owner = read_maybe_text(slot(value, 13, "owner"))?;
        let trade_owner = read_maybe_text(slot(value, 14, "trade_owner"))?;
        let taker_order_id = read_maybe_text(slot(value, 15, "taker_order_id"))?;
        let maker_orders = read_list::<MakerOrder>(slot(value, 16, "maker_orders"))?;
        let fee_rate_bps = read_maybe_text(slot(value, 17, "fee_rate_bps"))?;
        let transaction_hash = read_maybe_text(slot(value, 18, "transaction_hash"))?;
        let trader_side = read_maybe_trader_side(slot(value, 19, "trader_side"))?;
        Some(TradeMessage {
            id,
            market,
            asset_id,
            side,
            size,
            price,
            status,
            event_type,
            msg_type,
            last_update,
            matchtime,
            timestamp,
            outcome,
            owner,
            trade_owner,
            taker_order_id,
            maker_orders,
            fee_rate_bps,
            transaction_hash,
            trader_side,
        })
    }

    open spec fn explained(tree: Json) -> FaultView {
        record_fault(tree, trade_message_faults(tree), seq![2, 7, 17, 0, 9, 16, 1, 10, 12, 13, 5, 3, 4, 6, 15, 11, 14, 19, 18, 8])
    }

    fn explain(value: &serde_json::Value) -> (r: Fault) {
        let mut faults: Vec<Option<Fault>> = Vec::new();
        faults.push(text_fault(slot(value, 0, "id"), "id"));
        faults.push(text_fault(slot(value, 1, "market"), "market"));
        faults.push(text_fault(slot(value, 2, "asset_id"), "asset_id"));
        faults.push(side_fault(slot(value, 3, "side"), "side"));
        faults.push(text_fault(slot(value, 4, "size"), "size"));
        faults.push(text_fault(slot(value, 5, "price"), "price"));
        faults.push(text_fault(slot(value, 6, "status"), "status"));
        faults.push(maybe_text_fault(slot(value, 7, "event_type"), "event_type"));
        faults.push(maybe_text_fault(slot(value, 8, "type"), "type"));
        faults.push(maybe_text_fault(slot(value, 9, "last_update"), "last_update"));
        faults.push(maybe_text_fault(slot(value, 10, "matchtime"), "matchtime"));
        faults.push(maybe_text_fault(slot(value, 11, "timestamp"), "timestamp"));
        faults.push(maybe_text_fault(slot(value, 12, "outcome"), "outcome"));
        faults.push(maybe_text_fault(slot(value, 13, "owner"), "owner"));
        faults.push(maybe_text_fault(slot(value, 14, "trade_owner"), "trade_owner"));
        faults.push(maybe_text_fault(slot(value, 15, "taker_order_id"), "taker_order_id"));
        faults.push(list_fault::<MakerOrder>(slot(value, 16, "maker_orders"), "maker_orders"));
        faults.push(maybe_text_fault(slot(value, 17, "fee_rate_bps"), "fee_rate_bps"));
        faults.push(maybe_text_fault(slot(value, 18, "transaction_hash"), "transaction_hash"));
        faults.push(maybe_trader_side_fault(slot(value, 19, "trader_side"), "trader_side"));
        let by_name: Vec<usize> = vec![2, 7, 17, 0, 9, 16, 1, 10, 12, 13, 5, 3, 4, 6, 15, 11, 14, 19, 18, 8];
        assert(fault_views(faults@) =~= trade_message_faults(json_tree(*value)));
        assert(indices(by_name@) =~= seq![2, 7, 17, 0, 9, 16, 1, 10, 12, 13, 5, 3, 4, 6, 15, 11, 14, 19, 18, 8]);
        choose_fault(value, &faults, &by_name)
    }
}

/// The faults of the fields of an [`OrderMessage`], in the order of the fields.
pub open spec fn order_message_faults(tree: Json) -> Seq<Option<FaultView>> {
    seq![
        text_fault_of(slot_of(tree, 0, "id"@), "id"@),
        text_fault_of(slot_of(tree, 1, "market"@), "market"@),
        text_fault_of(slot_of(tree, 2, "asset_id"@), "asset_id"@),
        side_fault_of(slot_of(tree, 3, "side"@), "side"@),
        text_fault_of(slot_of(tree, 4, "price"@), "price"@),
        maybe_text_fault_of(slot_of(tree, 5, "event_type"@), "event_type"@),
        maybe_text_fault_of(slot_of(tree, 6, "type"@), "type"@),
        maybe_text_fault_of(slot_of(tree, 7, "outcome"@), "outcome"@),
        maybe_text_fault_of(slot_of(tree, 8, "owner"@), "owner"@),
        maybe_text_fault_of(slot_of(tree, 9, "order_owner"@), "order_owner"@),
        maybe_text_fault_of(slot_of(tree, 10, "original_size"@), "original_size"@),
        maybe_text_fault_of(slot_of(tree, 11, "size_matched"@), "size_matched"@),
        maybe_text_fault_of(slot_of(tree, 12, "timestamp"@), "timestamp"@),
        maybe_list_fault_of::<String>(slot_of(tree, 13, "associate_trades"@), "associate_trades"@),
    ]
}

impl FromJson for OrderMessage {
    open spec fn decoded(tree: Json) -> Option<OrderView> {
        let id = text_of(slot_of(tree, 0, "id"@));
        let market = text_of(slot_of(tree, 1, "market"@));
        let asset_id = text_of(slot_of(tree, 2, "asset_id"@));
        let side = side_of(slot_of(tree, 3, "side"@));
        let price = text_of(slot_of(tree, 4, "price"@));
        let event_type = maybe_text_of(slot_of(tree, 5, "event_type"@));
        let msg_type = maybe_text_of(slot_of(tree, 6, "type"@));
        let outcome = maybe_text_of(slot_of(tree, 7, "outcome"@));
        let owner = maybe_text_of(slot_of(tree, 8, "owner"@));
        let order_owner = maybe_text_of(slot_of(tree, 9, "order_owner"@));
        let original_size = maybe_text_of(slot_of(tree, 10, "original_size"@));
        let size_matched = maybe_text_of(slot_of(tree, 11, "size_matched"@));
        let timestamp = maybe_text_of(slot_of(tree, 12, "timestamp"@));
        let associate_trades = maybe_list_of::<String>(slot_of(tree, 13, "associate_trades"@));
        if {
            &&& is_record(tree, 5, 14)
            &&& id is Some
            &&& market is Some
            &&& asset_id is Some
            &&& side is Some
            &&& price is Some
            &&& event_type is Some
            &&& msg_type is Some
            &&& outcome is Some
            &&& owner is Some
            &&& order_owner is Some
            &&& original_size is Some
            &&& size_matched is Some
            &&& timestamp is Some
            &&& associate_trades is Some
        } {
            Some(OrderView {
                id: id->0,
                market: market->0,
                asset_id: asset_id->0,
                side: side->0,
                price: price->0,
                event_type: event_type->0,
                msg_type: msg_type->0,
                outcome: outcome->0,
                owner: owner->0,
                order_owner: order_owner->0,
                original_size: original_size->0,
                size_matched: size_matched->0,
                timestamp: timestamp->0,
                associate_trades: associate_trades->0,
            })
        } else {
            None
        }
    }

    fn from_json(value: &serde_json::Value) -> (r: Option<Self>) {
        if !check_record(value, 5, 14) {
            return None;
        }
        let id = read_text(slot(value, 0, "id"))?;
        let market = read_text(slot(value, 1, "market"))?;
        let asset_id = read_text(slot(value, 2, "asset_id"))?;
        let side = read_side_field(slot(value, 3, "side"))?;
        let price = read_text(slot(value, 4, "price"))?;
        let event_type = read_maybe_text(slot(value, 5, "event_type"))?;
        let msg_type = read_maybe_text(slot(value, 6, "type"))?;
        let outcome = read_maybe_text(slot(value, 7, "outcome"))?;
        let owner = read_maybe_text(slot(value, 8, "owner"))?;
        let order_owner = read_maybe_text(slot(value, 9, "order_owner"))?;
        let original_size = read_maybe_text(slot(value, 10, "original_size"))?;
        let size_matched = read_maybe_text(slot(value, 11, "size_matched"))?;
        let timestamp = read_maybe_text(slot(value, 12, "timestamp"))?;
        let associate_trades = read_maybe_list::<String>(slot(value, 13, "associate_trades"))?;
        Some(OrderMessage {
            id,
            market,
            asset_id,
            side,
            price,
            event_type,
            msg_type,
            outcome,
            owner,
            order_owner,
            original_size,
            size_matched,
            timestamp,
            associate_trades,
        })
    }

    open spec fn explained(tree: Json) -> FaultView {
        record_fault(tree, order_message_faults(tree), seq![2, 13, 5, 0, 1, 9, 10, 7, 8, 4, 3, 11, 12, 6])
    }

    fn explain(value: &serde_json::Value) -> (r: Fault) {
        let mut faults: Vec<Option<Fault>> = Vec::new();
        faults.push(text_fault(slot(value, 0, "id"), "id"));
        faults.push(text_fault(slot(value, 1, "market"), "market"));
        faults.push(text_fault(slot(value, 2, "asset_id"), "asset_id"));
        faults.push(side_fault(slot(value, 3, "side"), "side"));
        faults.push(text_fault(slot(value, 4, "price"), "price"));
        faults.push(maybe_text_fault(slot(value, 5, "event_type"), "event_type"));
        faults.push(maybe_text_fault(slot(value, 6, "type"), "type"));
        faults.push(maybe_text_fault(slot(value, 7, "outcome"), "outcome"));
        faults.push(maybe_text_fault(slot(value, 8, "owner"), "owner"));
        faults.push(maybe_text_fault(slot(value, 9, "order_owner"), "order_owner"));
        faults.push(maybe_text_fault(slot(value, 10, "original_size"), "original_size"));
        faults.push(maybe_text_fault(slot(value, 11, "size_matched"), "size_matched"));
        faults.push(maybe_text_fault(slot(value, 12, "timestamp"), "timestamp"));
        faults.push(maybe_list_fault::<String>(slot(value, 13, "associate_trades"), "associate_trades"));
        let by_name: Vec<usize> = vec![2, 13, 5, 0, 1, 9, 10, 7, 8, 4, 3, 11, 12, 6];
        assert(fault_views(faults@) =~= order_message_faults(json_tree(*value)));
        assert(indices(by_name@) =~= seq![2, 13, 5, 0, 1, 9, 10, 7, 8, 4, 3, 11, 12, 6]);
        choose_fault(value, &faults, &by_name)
    }
}

/// The faults of the fields of a [`MidpointUpdate`], in the order of the fields.
pub open spec fn midpoint_update_faults(tree: Json) -> Seq<Option<FaultView>> {
    seq![
        text_fault_of(slot_of(tree, 0, "asset_id"@), "asset_id"@),
        text_fault_of(slot_of(tree, 1, "market"@), "market"@),
        decimal_fault_of(slot_of(tree, 2, "midpoint"@), "midpoint"@),
        timestamp_fault_of(slot_of(tree, 3, "timestamp"@), "timestamp"@),
    ]
}

impl FromJson for MidpointUpdate {
    open spec fn decoded(tree: Json) -> Option<MidpointView> {
        let asset_id = text_of(slot_of(tree, 0, "asset_id"@));
        let market = text_of(slot_of(tree, 1, "market"@));
        let midpoint = decimal_of(slot_of(tree, 2, "midpoint"@));
        let timestamp = timestamp_of(slot_of(tree, 3, "timestamp"@));
        if {
            &&& is_record(tree, 4, 4)
            &&& asset_id is Some
            &&& market is Some
            &&& midpoint is Some
            &&& timestamp is Some
        } {
            Some(
                MidpointView {
                    asset_id: asset_id->0,
                    market: market->0,
                    midpoint: midpoint->0,
                    timestamp: timestamp->0,
                },
            )
        } else {
            None
        }
    }

    fn from_json(value: &serde_json::Value) -> (r: Option<Self>) {
        if !check_record(value, 4, 4) {
            return None;
        }
        let asset_id = read_text(slot(value, 0, "asset_id"))?;
        let market = read_text(slot(value, 1, "market"))?;
        let midpoint = read_decimal_field(slot(value, 2, "midpoint"))?;
        let timestamp: i64 = read_timestamp(slot(value, 3, "timestamp"))?;
        Some(MidpointUpdate { asset_id, market, midpoint, timestamp })
    }

    open spec fn explained(tree: Json) -> FaultView {
        record_fault(tree, midpoint_update_faults(tree), seq![0, 1, 2, 3])
    }

    fn explain(value: &serde_json::Value) -> (r: Fault) {
        let mut faults: Vec<Option<Fault>> = Vec::new();
        faults.push(text_fault(slot(value, 0, "asset_id"), "asset_id"));
        faults.push(text_fault(slot(value, 1, "market"), "market"));
        faults.push(decimal_fault(slot(value, 2, "midpoint"), "midpoint"));
        faults.push(timestamp_fault(slot(value, 3, "timestamp"), "timestamp"));
        let by_name: Vec<usize> = vec![0, 1, 2, 3];
        assert(fault_views(faults@) =~= midpoint_update_faults(json_tree(*value)));
        assert(indices(by_name@) =~= seq![0, 1, 2, 3]);
        choose_fault(value, &faults, &by_name)
    }
}

/// The name of an order status on the wire.
pub open spec fn status_name(status: OrderStatus) -> Seq<char> {
    match status {
        OrderStatus::Open => "OPEN"@,
        OrderStatus::Matched => "MATCHED"@,
        OrderStatus::PartiallyFilled => "PARTIALLY_FILLED"@,
        OrderStatus::Cancelled => "CANCELLED"@,
        OrderStatus::Placement => "PLACEMENT"@,
        OrderStatus::Update => "UPDATE"@,
        OrderStatus::Cancellation => "CANCELLATION"@,
    }
}

impl View for OrderStatus {
    type V = OrderStatus;

    open spec fn view(&self) -> OrderStatus {
        *self
    }
}

impl OrderStatus {
    /// The name of the status on the wire.
    pub fn as_str(&self) -> (r: &'static str)
        ensures
            r@ == status_name(*self),
    {
        match self {
            OrderStatus::Open => "OPEN",
            OrderStatus::Matched => "MATCHED",
            OrderStatus::PartiallyFilled => "PARTIALLY_FILLED",
            OrderStatus::Cancelled => "CANCELLED",
            OrderStatus::Placement => "PLACEMENT",
            OrderStatus::Update => "UPDATE",
            OrderStatus::Cancellation => "CANCELLATION",
        }
    }
}

impl FromJson for OrderStatus {
    open spec fn decoded(tree: Json) -> Option<OrderStatus> {
        if names_variant(tree, status_name(OrderStatus::Open)) {
            Some(OrderStatus::Open)
        } else if names_variant(tree, status_name(OrderStatus::Matched)) {
            Some(OrderStatus::Matched)
        } else if names_variant(tree, status_name(OrderStatus::PartiallyFilled)) {
            Some(OrderStatus::PartiallyFilled)
        } else if names_variant(tree, status_name(OrderStatus::Cancelled)) {
            Some(OrderStatus::Cancelled)
        } else if names_variant(tree, status_name(OrderStatus::Placement)) {
            Some(OrderStatus::Placement)
        } else if names_variant(tree, status_name(OrderStatus::Update)) {
            Some(OrderStatus::Update)
        } else if names_variant(tree, status_name(OrderStatus::Cancellation)) {
            Some(OrderStatus::Cancellation)
        } else {
            None
        }
    }

    fn from_json(value: &serde_json::Value) -> (r: Option<Self>) {
        if check_variant(value, OrderStatus::Open.as_str()) {
            Some(OrderStatus::Open)
        } else if check_variant(value, OrderStatus::Matched.as_str()) {
            Some(OrderStatus::Matched)
        } else if check_variant(value, OrderStatus::PartiallyFilled.as_str()) {
            Some(OrderStatus::PartiallyFilled)
        } else if check_variant(value, OrderStatus::Cancelled.as_str()) {
            Some(OrderStatus::Cancelled)
        } else if check_variant(value, OrderStatus::Placement.as_str()) {
            Some(OrderStatus::Placement)
        } else if check_variant(value, OrderStatus::Update.as_str()) {
            Some(OrderStatus::Update)
        } else if check_variant(value, OrderStatus::Cancellation.as_str()) {
            Some(OrderStatus::Cancellation)
        } else {
            None
        }
    }

    open spec fn explained(tree: Json) -> FaultView {
        FaultView::UnknownVariant
    }

    fn explain(value: &serde_json::Value) -> (r: Fault) {
        Fault::UnknownVariant
    }
}

/// The name of an order status is read back as that status.
pub proof fn law_status_round_trip(status: OrderStatus)
    ensures
        OrderStatus::decoded(Json::String(status_name(status))) == Some(status),
{
    reveal_strlit("OPEN");
    reveal_strlit("MATCHED");
    reveal_strlit("PARTIALLY_FILLED");
    reveal_strlit("CANCELLED");
    reveal_strlit("PLACEMENT");
    reveal_strlit("UPDATE");
    reveal_strlit("CANCELLATION");
    assert("OPEN"@.len() == 4);
    assert("MATCHED"@.len() == 7);
    assert("PARTIALLY_FILLED"@.len() == 16);
    assert("CANCELLED"@.len() == 9);
    assert("PLACEMENT"@.len() == 9);
    assert("UPDATE"@.len() == 6);
    assert("CANCELLATION"@.len() == 12);
    assert("CANCELLED"@[0] == 'C');
    assert("PLACEMENT"@[0] == 'P');
}

} // verus!
