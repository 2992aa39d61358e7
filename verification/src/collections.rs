//! The concurrent collections of `dashmap`, as far as subscriptions need them.
//!
//! What a collection holds is what [`held_texts`] and [`held_subscriptions`]
//! name. The order in which a map hands out its entries is left open.

use dashmap::{DashMap, DashSet};
use vstd::prelude::*;

use crate::subscription::{SubscriptionInfo, SubscriptionInfoView};

verus! {

/// `dashmap::DashSet`, carried without looking inside.
#[verifier::external_type_specification]
#[verifier::external_body]
#[verifier::reject_recursive_types(K)]
#[verifier::reject_recursive_types(S)]
pub struct ExDashSet<K, S>(dashmap::DashSet<K, S>);

/// `dashmap::DashMap`, carried without looking inside.
#[verifier::external_type_specification]
#[verifier::external_body]
#[verifier::reject_recursive_types(K)]
#[verifier::reject_recursive_types(V)]
#[verifier::reject_recursive_types(S)]
pub struct ExDashMap<K, V, S>(dashmap::DashMap<K, V, S>);

/// The texts that a set holds.
pub uninterp spec fn held_texts(set: DashSet<String>) -> Set<Seq<char>>;

/// The subscriptions that a map holds, each under its identifier.
pub uninterp spec fn held_subscriptions(map: DashMap<String, SubscriptionInfo>) -> Map<
    Seq<char>,
    SubscriptionInfoView,
>;

/// `DashSet::new`: a set that holds nothing.
#[verifier::external_body]
pub(crate) fn new_set() -> (r: DashSet<String>)
    ensures
        held_texts(r) == Set::<Seq<char>>::empty(),
{
    DashSet::new()
}

/// `DashSet::insert`: adds a text, and tells whether it is new. Nobody else
/// reaches the set meanwhile.
#[verifier::external_body]
pub(crate) fn set_insert(set: &mut DashSet<String>, text: String) -> (r: bool)
    ensures
        held_texts(*final(set)) == held_texts(*old(set)).insert(text@),
        r == !held_texts(*old(set)).contains(text@),
{
    set.insert(text)
}

/// `DashMap::new`: a map that holds nothing.
#[verifier::external_body]
pub(crate) fn new_map() -> (r: DashMap<String, SubscriptionInfo>)
    ensures
        held_subscriptions(r) == (Map::<Seq<char>, SubscriptionInfoView>::empty()),
{
    DashMap::new()
}

/// `DashMap::insert`: puts a subscription under an identifier, in place of the
/// one that was there, and hands that one back. Nobody else reaches the map
/// meanwhile.
#[verifier::external_body]
pub(crate) fn map_insert(
    map: &mut DashMap<String, SubscriptionInfo>,
    id: String,
    info: SubscriptionInfo,
) -> (r: Option<SubscriptionInfo>)
    ensures
        held_subscriptions(*final(map)) == held_subscriptions(*old(map)).insert(id@, info@),
        match r {
            Some(before) => held_subscriptions(*old(map)).dom().contains(id@) && before@
                == held_subscriptions(*old(map))[id@],
            None => !held_subscriptions(*old(map)).dom().contains(id@),
        },
{
    map.insert(id, info)
}

/// `DashMap::len`: how many entries a map holds.
#[verifier::external_body]
pub(crate) fn map_len(map: &DashMap<String, SubscriptionInfo>) -> (r: usize)
    ensures
        r == held_subscriptions(*map).dom().len(),
{
    map.len()
}

/// The identifiers of a list of entries.
pub open spec fn ids_of(entries: Seq<(String, SubscriptionInfo)>) -> Seq<Seq<char>> {
    entries.map_values(|entry: (String, SubscriptionInfo)| entry.0@)
}

/// `DashMap::iter`: every entry of a map once, in an order that is left open.
#[verifier::external_body]
pub(crate) fn map_entries(map: &DashMap<String, SubscriptionInfo>) -> (r: Vec<
    (String, SubscriptionInfo),
>)
    ensures
        ids_of(r@).no_duplicates(),
        ids_of(r@).to_set() == held_subscriptions(*map).dom(),
        forall|i: int|
            0 <= i < r@.len() ==> (#[trigger] r@[i]).1@ == held_subscriptions(*map)[r@[i].0@],
{
    map.iter().map(|entry| (entry.key().clone(), entry.value().clone())).collect()
}

} // verus!
