//! Which subscriptions there are, and what is asked of the server for them.

use std::time::Instant;

use dashmap::{DashMap, DashSet};
use vstd::prelude::*;
use vstd::string::*;

use crate::auth::CredentialsView;
use crate::collections::{
    held_subscriptions, held_texts, ids_of, map_entries, map_insert, map_len, new_map, new_set,
    set_insert,
};
use crate::connection::{ConnectionManager, LinkView};
use crate::error::WsError;
use crate::interest::{InterestTracker, MessageInterest};
use crate::messages::{
    market_request, request_json, user_request, AuthPayload, SubscriptionRequest,
};
use crate::streams::{MarketSubscription, UserSubscription};
use crate::text::{duplicate_texts, join, joined, texts};

verus! {

/// Channels of the server.
#[derive(Debug, Clone, Copy, PartialEq, Eq, Hash, Structural)]
pub enum ChannelType {
    /// Public market data channel
    Market,
    /// Authenticated user data channel
    User,
}

/// Information about an active subscription.
#[derive(Debug)]
pub struct SubscriptionInfo {
    /// Channel type subscribed to
    pub channel: ChannelType,
    /// Asset IDs subscribed to
    pub asset_ids: Vec<String>,
    /// When the subscription was created
    pub created_at: Instant,
}

/// What a [`SubscriptionInfo`] says.
#[verifier::ext_equal]
pub struct SubscriptionInfoView {
    pub channel: ChannelType,
    pub asset_ids: Seq<Seq<char>>,
    pub created_at: Instant,
}

impl View for SubscriptionInfo {
    type V = SubscriptionInfoView;

    open spec fn view(&self) -> SubscriptionInfoView {
        SubscriptionInfoView {
            channel: self.channel,
            asset_ids: texts(self.asset_ids@),
            created_at: self.created_at,
        }
    }
}

impl Clone for SubscriptionInfo {
    fn clone(&self) -> (r: Self)
        ensures
            r@ == self@,
    {
        SubscriptionInfo {
            channel: self.channel,
            asset_ids: duplicate_texts(&self.asset_ids),
            created_at: self.created_at,
        }
    }
}

/// Those of `ids` that are not known, each where it occurs first.
pub open spec fn fresh(ids: Seq<Seq<char>>, known: Set<Seq<char>>) -> Seq<Seq<char>>
    decreases ids.len(),
{
    if ids.len() == 0 {
        Seq::empty()
    } else {
        let before = fresh(ids.drop_last(), known);
        if known.contains(ids.last()) || ids.drop_last().contains(ids.last()) {
            before
        } else {
            before.push(ids.last())
        }
    }
}

/// The identifier of a market data subscription.
pub open spec fn market_id(asset_ids: Seq<Seq<char>>) -> Seq<char> {
    "market:"@ + joined(asset_ids, ","@)
}

/// The identifier of a user subscription.
pub open spec fn user_id(markets: Seq<Seq<char>>) -> Seq<char> {
    "user:"@ + joined(markets, ","@)
}

/// What a [`SubscriptionManager`] holds.
#[verifier::ext_equal]
pub struct SubscriptionsView {
    /// The active subscriptions, each under its identifier.
    pub active: Map<Seq<char>, SubscriptionInfoView>,
    /// The kinds of messages that somebody is waiting for.
    pub interest: MessageInterest,
    /// The assets that the server has been asked for.
    pub assets: Set<Seq<char>>,
    /// The markets that the server has been asked for.
    pub markets: Set<Seq<char>>,
}

impl SubscriptionsView {
    /// No subscriptions.
    pub open spec fn fresh() -> SubscriptionsView {
        SubscriptionsView {
            active: Map::empty(),
            interest: MessageInterest::empty(),
            assets: Set::empty(),
            markets: Set::empty(),
        }
    }

    /// The subscriptions once the assets have been asked for.
    pub open spec fn with_assets(self, asset_ids: Seq<Seq<char>>) -> SubscriptionsView {
        SubscriptionsView {
            interest: self.interest.with(MessageInterest::market_kinds()),
            assets: self.assets.union(asset_ids.to_set()),
            ..self
        }
    }

    /// The subscriptions once the markets have been asked for.
    pub open spec fn with_markets(self, markets: Seq<Seq<char>>) -> SubscriptionsView {
        SubscriptionsView {
            interest: self.interest.with(MessageInterest::user_kinds()),
            markets: self.markets.union(markets.to_set()),
            ..self
        }
    }

    /// The subscriptions with one more under `id`.
    pub open spec fn registered(
        self,
        id: Seq<char>,
        info: SubscriptionInfoView,
    ) -> SubscriptionsView {
        SubscriptionsView { active: self.active.insert(id, info), ..self }
    }

    /// Whether the server is asked for something in a market data subscription:
    /// only where there are assets that it has not been asked for.
    pub open spec fn asks_for_assets(self, asset_ids: Seq<Seq<char>>) -> bool {
        fresh(asset_ids, self.assets).len() > 0
    }

    /// Whether the server is asked for something in a user subscription: only
    /// where there are markets that it has not been asked for, or where the
    /// subscription is to all markets.
    pub open spec fn asks_for_markets(self, markets: Seq<Seq<char>>) -> bool {
        markets.len() == 0 || fresh(markets, self.markets).len() > 0
    }
}

/// Subscriptions by channel.
#[derive(Debug)]
pub struct ChannelSubscriptions {
    /// Subscriptions to the market data channel
    pub market: Vec<SubscriptionInfo>,
    /// Subscriptions to the user channel
    pub user: Vec<SubscriptionInfo>,
}

impl ChannelSubscriptions {
    /// The subscriptions of a channel; `None` where there are none.
    pub fn get(&self, channel: ChannelType) -> (r: Option<&Vec<SubscriptionInfo>>)
        ensures
            ({
                let group = match channel {
                    ChannelType::Market => self.market,
                    ChannelType::User => self.user,
                };
                match r {
                    Some(infos) => infos@.len() > 0 && *infos == group,
                    None => group@.len() == 0,
                }
            }),
    {
        let group = match channel {
            ChannelType::Market => &self.market,
            ChannelType::User => &self.user,
        };
        if group.len() == 0 {
            None
        } else {
            Some(group)
        }
    }
}

/// What each of a sequence of subscriptions says.
pub open spec fn info_views(infos: Seq<SubscriptionInfo>) -> Seq<SubscriptionInfoView> {
    infos.map_values(|info: SubscriptionInfo| info@)
}

/// The subscriptions to a channel, in the order of their identifiers in `ids`.
pub open spec fn channel_infos(
    active: Map<Seq<char>, SubscriptionInfoView>,
    ids: Seq<Seq<char>>,
    channel: ChannelType,
) -> Seq<SubscriptionInfoView>
    decreases ids.len(),
{
    if ids.len() == 0 {
        Seq::empty()
    } else {
        let before = channel_infos(active, ids.drop_last(), channel);
        let info = active[ids.last()];
        if info.channel == channel {
            before.push(info)
        } else {
            before
        }
    }
}

/// Whether `ids` lists the identifiers of the active subscriptions, each once.
pub open spec fn lists(
    ids: Seq<Seq<char>>,
    active: Map<Seq<char>, SubscriptionInfoView>,
) -> bool {
    ids.no_duplicates() && ids.to_set() == active.dom()
}

/// Manages active subscriptions.
pub struct SubscriptionManager {
    active_subs: DashMap<String, SubscriptionInfo>,
    interest: InterestTracker,
    subscribed_assets: DashSet<String>,
    subscribed_markets: DashSet<String>,
}

impl View for SubscriptionManager {
    type V = SubscriptionsView;

    closed spec fn view(&self) -> SubscriptionsView {
        SubscriptionsView {
            active: held_subscriptions(self.active_subs),
            interest: self.interest.interest(),
            assets: held_texts(self.subscribed_assets),
            markets: held_texts(self.subscribed_markets),
        }
    }
}

/// Adds `ids` to `known`, and returns those that were not in it.
fn take_fresh(known: &mut DashSet<String>, ids: &Vec<String>) -> (r: Vec<String>)
    ensures
        texts(r@) == fresh(texts(ids@), held_texts(*old(known))),
        held_texts(*final(known)) == held_texts(*old(known)).union(texts(ids@).to_set()),
{
    let ghost all = texts(ids@);
    let ghost start = held_texts(*known);
    let mut new_ids: Vec<String> = Vec::new();
    let mut i: usize = 0;
    assert(texts(new_ids@) =~= Seq::empty());
    assert(held_texts(*known) =~= start.union(all.take(0).to_set()));
    while i < ids.len()
        invariant
            i <= ids.len(),
            all == texts(ids@),
            texts(new_ids@) == fresh(all.take(i as int), start),
            held_texts(*known) == start.union(all.take(i as int).to_set()),
        decreases ids.len() - i,
    {
        let ghost before = all.take(i as int);
        let ghost after = all.take(i + 1);
        let ghost found = new_ids@;
        assert(after.drop_last() =~= before);
        assert(after.last() == ids@[i as int]@);
        assert(after =~= before.push(after.last()));
        assert(after.to_set() =~= before.to_set().insert(after.last())) by {
            assert forall|id: Seq<char>| after.contains(id) <==> before.contains(id) || id
                == after.last() by {
                if before.contains(id) {
                    let k = before.index_of(id);
                    assert(after[k] == id);
                }
                if id == after.last() {
                    assert(after[i as int] == id);
                }
            }
        }
        if set_insert(known, ids[i].clone()) {
            new_ids.push(ids[i].clone());
            assert(texts(new_ids@) =~= texts(found).push(after.last()));
        }
        assert(held_texts(*known) =~= start.union(after.to_set()));
        i = i + 1;
    }
    assert(all.take(i as int) =~= all);
    new_ids
}

/// The connection after a market data subscription: with a request for the
/// assets that the server has not been asked for, where there are any.
pub open spec fn link_with_assets(
    link: LinkView,
    subscriptions: SubscriptionsView,
    asset_ids: Seq<Seq<char>>,
) -> LinkView {
    if subscriptions.asks_for_assets(asset_ids) {
        LinkView {
            outbox: link.outbox.push(
                request_json(market_request(fresh(asset_ids, subscriptions.assets))),
            ),
            ..link
        }
    } else {
        link
    }
}

/// The connection after a user subscription: with a request for the markets
/// that the server has not been asked for, where there are any, or for all.
pub open spec fn link_with_markets(
    link: LinkView,
    subscriptions: SubscriptionsView,
    markets: Seq<Seq<char>>,
    auth: CredentialsView,
) -> LinkView {
    if subscriptions.asks_for_markets(markets) {
        LinkView {
            outbox: link.outbox.push(
                request_json(user_request(fresh(markets, subscriptions.markets), auth)),
            ),
            ..link
        }
    } else {
        link
    }
}

impl SubscriptionManager {
    /// Create a new subscription manager.
    pub fn new() -> (r: Self)
        ensures
            r@ == SubscriptionsView::fresh(),
    {
        SubscriptionManager {
            active_subs: new_map(),
            interest: InterestTracker::new(),
            subscribed_assets: new_set(),
            subscribed_markets: new_set(),
        }
    }

    /// Subscribe to public market data channel.
    ///
    /// The server is asked for the assets that it has not been asked for yet.
    /// Where the connection refuses the request, no subscription comes about,
    /// though the assets count as asked for from then on.
    pub fn subscribe_market(
        &mut self,
        connection: &mut ConnectionManager,
        asset_ids: Vec<String>,
        created_at: Instant,
    ) -> (r: Result<MarketSubscription, WsError>)
        ensures
            match r {
                Ok(subscription) => {
                    &&& !(old(self)@.asks_for_assets(texts(asset_ids@))
                        && old(connection)@.phase is Stopped)
                    &&& subscription@ == texts(asset_ids@)
                    &&& final(self)@ == old(self)@.with_assets(texts(asset_ids@)).registered(
                        market_id(texts(asset_ids@)),
                        SubscriptionInfoView {
                            channel: ChannelType::Market,
                            asset_ids: texts(asset_ids@),
                            created_at,
                        },
                    )
                    &&& final(connection)@ == link_with_assets(
                        old(connection)@,
                        old(self)@,
                        texts(asset_ids@),
                    )
                },
                Err(error) => {
                    &&& old(self)@.asks_for_assets(texts(asset_ids@))
                    &&& old(connection)@.phase is Stopped
                    &&& error is ConnectionClosed
                    &&& final(self)@ == old(self)@.with_assets(texts(asset_ids@))
                    &&& final(connection)@ == old(connection)@
                },
            },
    {
        self.interest.add(MessageInterest::market());
        let new_assets = take_fresh(&mut self.subscribed_assets, &asset_ids);
        if new_assets.len() > 0 {
            let request = SubscriptionRequest::market(new_assets);
            match connection.send(&request) {
                Ok(()) => {},
                Err(error) => {
                    return Err(error);
                },
            }
        }
        let mut sub_id = "market:".to_owned();
        sub_id.append(join(&asset_ids, ",").as_str());
        let info = SubscriptionInfo {
            channel: ChannelType::Market,
            asset_ids: duplicate_texts(&asset_ids),
            created_at,
        };
        let _ = map_insert(&mut self.active_subs, sub_id, info);
        Ok(MarketSubscription::new(asset_ids))
    }

    /// Subscribe to authenticated user channel.
    ///
    /// The server is asked for the markets that it has not been asked for yet;
    /// without any markets it is asked for all of them. Where the connection
    /// refuses the request, no subscription comes about, though the markets
    /// count as asked for from then on.
    pub fn subscribe_user(
        &mut self,
        connection: &mut ConnectionManager,
        markets: Vec<String>,
        auth: AuthPayload,
        created_at: Instant,
    ) -> (r: Result<UserSubscription, WsError>)
        ensures
            match r {
                Ok(_) => {
                    &&& !(old(self)@.asks_for_markets(texts(markets@))
                        && old(connection)@.phase is Stopped)
                    &&& final(self)@ == old(self)@.with_markets(texts(markets@)).registered(
                        user_id(texts(markets@)),
                        SubscriptionInfoView {
                            channel: ChannelType::User,
                            asset_ids: texts(markets@),
                            created_at,
                        },
                    )
                    &&& final(connection)@ == link_with_markets(
                        old(connection)@,
                        old(self)@,
                        texts(markets@),
                        auth@,
                    )
                },
                Err(error) => {
                    &&& old(self)@.asks_for_markets(texts(markets@))
                    &&& old(connection)@.phase is Stopped
                    &&& error is ConnectionClosed
                    &&& final(self)@ == old(self)@.with_markets(texts(markets@))
                    &&& final(connection)@ == old(connection)@
                },
            },
    {
        self.interest.add(MessageInterest::user());
        let new_markets = take_fresh(&mut self.subscribed_markets, &markets);
        if markets.len() == 0 || new_markets.len() > 0 {
            let request = SubscriptionRequest::user(new_markets, auth);
            match connection.send(&request) {
                Ok(()) => {},
                Err(error) => {
                    return Err(error);
                },
            }
        }
        let mut sub_id = "user:".to_owned();
        sub_id.append(join(&markets, ",").as_str());
        let info = SubscriptionInfo { channel: ChannelType::User, asset_ids: markets, created_at };
        let _ = map_insert(&mut self.active_subs, sub_id, info);
        Ok(UserSubscription)
    }

    /// Get information about all active subscriptions, by channel. The order
    /// within a channel is left open.
    pub fn active_subscriptions(&self) -> (r: ChannelSubscriptions)
        ensures
            exists|ids: Seq<Seq<char>>| #[trigger]
                lists(ids, self@.active) && info_views(r.market@) == channel_infos(
                    self@.active,
                    ids,
                    ChannelType::Market,
                ) && info_views(r.user@) == channel_infos(self@.active, ids, ChannelType::User),
    {
        let entries = map_entries(&self.active_subs);
        let ghost active = self@.active;
        let ghost ids = ids_of(entries@);
        let mut market: Vec<SubscriptionInfo> = Vec::new();
        let mut user: Vec<SubscriptionInfo> = Vec::new();
        let mut i: usize = 0;
        assert(info_views(market@) =~= Seq::empty());
        assert(info_views(user@) =~= Seq::empty());
        while i < entries.len()
            invariant
                i <= entries.len(),
                ids == ids_of(entries@),
                forall|k: int|
                    0 <= k < entries@.len() ==> (#[trigger] entries@[k]).1@ == active[ids[k]],
                info_views(market@) == channel_infos(
                    active,
                    ids.take(i as int),
                    ChannelType::Market,
                ),
                info_views(user@) == channel_infos(active, ids.take(i as int), ChannelType::User),
            decreases entries.len() - i,
        {
            let ghost markets_before = market@;
            let ghost users_before = user@;
            assert(ids.take(i + 1).drop_last() =~= ids.take(i as int));
            assert(ids.take(i + 1).last() == ids[i as int]);
            assert(entries@[i as int].1@ == active[ids[i as int]]);
            let info = entries[i].1.clone();
            match info.channel {
                ChannelType::Market => {
                    market.push(info);
                    assert(info_views(market@) =~= info_views(markets_before).push(info@));
                },
                ChannelType::User => {
                    user.push(info);
                    assert(info_views(user@) =~= info_views(users_before).push(info@));
                },
            }
            i = i + 1;
        }
        assert(ids.take(i as int) =~= ids);
        assert(lists(ids, active));
        ChannelSubscriptions { market, user }
    }

    /// Get the number of active subscriptions.
    pub fn subscription_count(&self) -> (r: usize)
        ensures
            r == self@.active.dom().len(),
    {
        map_len(&self.active_subs)
    }

    /// The kinds of messages that somebody is waiting for.
    pub fn interest(&self) -> (r: MessageInterest)
        ensures
            r == self@.interest,
    {
        self.interest.get()
    }
}

/// What is fresh is what is listed and not known, each once.
pub proof fn law_fresh_is_exact(ids: Seq<Seq<char>>, known: Set<Seq<char>>, id: Seq<char>)
    ensures
        fresh(ids, known).contains(id) <==> ids.contains(id) && !known.contains(id),
        fresh(ids, known).no_duplicates(),
    decreases ids.len(),
{
    if ids.len() > 0 {
        let rest = ids.drop_last();
        let last = ids.last();
        let before = fresh(rest, known);
        law_fresh_is_exact(rest, known, id);
        law_fresh_is_exact(rest, known, last);
        assert(ids =~= rest.push(last));
        assert(ids[rest.len() as int] == last);
        if rest.contains(id) {
            assert(ids[rest.index_of(id)] == id);
        }
        if ids.contains(id) && id != last {
            assert(rest[ids.index_of(id)] == id);
        }
        if !(known.contains(last) || rest.contains(last)) {
            let all = before.push(last);
            assert(all[before.len() as int] == last);
            if before.contains(id) {
                assert(all[before.index_of(id)] == id);
            }
            if all.contains(id) && id != last {
                assert(before[all.index_of(id)] == id);
            }
            assert forall|i: int, j: int|
                0 <= i < all.len() && 0 <= j < all.len() && i != j implies all[i] != all[j] by {
                if i == before.len() {
                    assert(before.contains(all[j]));
                } else if j == before.len() {
                    assert(before.contains(all[i]));
                }
            }
        }
    }
}

/// Where all that is listed is known, nothing is fresh. So a subscription to
/// assets that the server was asked for already asks it for nothing.
pub proof fn law_known_assets_are_not_asked_for(
    subscriptions: SubscriptionsView,
    link: LinkView,
    asset_ids: Seq<Seq<char>>,
)
    requires
        forall|id: Seq<char>| asset_ids.contains(id) ==> subscriptions.assets.contains(id),
    ensures
        !subscriptions.asks_for_assets(asset_ids),
        link_with_assets(link, subscriptions, asset_ids) == link,
{
    let new_ids = fresh(asset_ids, subscriptions.assets);
    if new_ids.len() > 0 {
        law_fresh_is_exact(asset_ids, subscriptions.assets, new_ids[0]);
        assert(new_ids.contains(new_ids[0]));
    }
}

/// A user subscription to markets that the server was asked for already asks
/// it for nothing, unless it is to all markets.
pub proof fn law_known_markets_are_not_asked_for(
    subscriptions: SubscriptionsView,
    link: LinkView,
    markets: Seq<Seq<char>>,
    auth: CredentialsView,
)
    requires
        markets.len() > 0,
        forall|id: Seq<char>| markets.contains(id) ==> subscriptions.markets.contains(id),
    ensures
        !subscriptions.asks_for_markets(markets),
        link_with_markets(link, subscriptions, markets, auth) == link,
{
    let new_ids = fresh(markets, subscriptions.markets);
    if new_ids.len() > 0 {
        law_fresh_is_exact(markets, subscriptions.markets, new_ids[0]);
        assert(new_ids.contains(new_ids[0]));
    }
}

/// The same market data subscription a second time asks the server for
/// nothing, though other subscriptions came in between, and leaves as many
/// subscriptions as there were.
pub proof fn law_subscribing_again_asks_for_nothing(
    subscriptions: SubscriptionsView,
    asset_ids: Seq<Seq<char>>,
    info: SubscriptionInfoView,
    other_assets: Seq<Seq<char>>,
    other_markets: Seq<Seq<char>>,
    again: SubscriptionInfoView,
)
    ensures
        ({
            let first = subscriptions.with_assets(asset_ids).registered(market_id(asset_ids), info);
            let between = first.with_assets(other_assets).with_markets(other_markets);
            let second = first.with_assets(asset_ids).registered(market_id(asset_ids), again);
            &&& !first.asks_for_assets(asset_ids)
            &&& !between.asks_for_assets(asset_ids)
            &&& second.active.dom() == first.active.dom()
            &&& second.assets == first.assets
            &&& second.interest == first.interest
        }),
{
    let first = subscriptions.with_assets(asset_ids).registered(market_id(asset_ids), info);
    let between = first.with_assets(other_assets).with_markets(other_markets);
    let second = first.with_assets(asset_ids).registered(market_id(asset_ids), again);
    let new_ids = fresh(asset_ids, first.assets);
    if new_ids.len() > 0 {
        law_fresh_is_exact(asset_ids, first.assets, new_ids[0]);
        assert(new_ids.contains(new_ids[0]));
    }
    let more_ids = fresh(asset_ids, between.assets);
    if more_ids.len() > 0 {
        law_fresh_is_exact(asset_ids, between.assets, more_ids[0]);
        assert(more_ids.contains(more_ids[0]));
    }
    assert(second.active.dom() =~= first.active.dom());
    assert(second.assets =~= first.assets);
}

/// What is fresh in two lists, one after the other, is what is fresh in both put
/// together. So over any run of subscriptions the server is asked for exactly
/// what is fresh in all of their lists, and for nothing twice.
pub proof fn law_fresh_adds_up(a: Seq<Seq<char>>, b: Seq<Seq<char>>, known: Set<Seq<char>>)
    ensures
        fresh(a + b, known) == fresh(a, known) + fresh(b, known.union(a.to_set())),
    decreases b.len(),
{
    if b.len() == 0 {
        assert(a + b =~= a);
        assert(fresh(a, known) + Seq::<Seq<char>>::empty() =~= fresh(a, known));
    } else {
        let rest = b.drop_last();
        let last = b.last();
        law_fresh_adds_up(a, rest, known);
        assert((a + b).drop_last() =~= a + rest);
        assert((a + b).last() == last);
        assert((a + rest).contains(last) <==> a.contains(last) || rest.contains(last)) by {
            if a.contains(last) {
                assert((a + rest)[a.index_of(last)] == last);
            }
            if rest.contains(last) {
                assert((a + rest)[a.len() + rest.index_of(last)] == last);
            }
            if (a + rest).contains(last) {
                let k = (a + rest).index_of(last);
                if k < a.len() {
                    assert(a[k] == last);
                } else {
                    assert(rest[k - a.len()] == last);
                }
            }
        }
        let found = fresh(a, known);
        let more = fresh(rest, known.union(a.to_set()));
        assert((found + more).push(last) =~= found + more.push(last));
    }
}

/// The lists of several subscriptions, put together.
pub open spec fn together(lists: Seq<Seq<Seq<char>>>) -> Seq<Seq<char>>
    decreases lists.len(),
{
    if lists.len() == 0 {
        Seq::empty()
    } else {
        together(lists.drop_last()) + lists.last()
    }
}

/// What the server is asked for over several subscriptions, each of which finds
/// known what those before it asked for.
pub open spec fn asked_for(lists: Seq<Seq<Seq<char>>>, known: Set<Seq<char>>) -> Seq<Seq<char>>
    decreases lists.len(),
{
    if lists.len() == 0 {
        Seq::empty()
    } else {
        let before = lists.drop_last();
        asked_for(before, known) + fresh(
            lists.last(),
            known.union(together(before).to_set()),
        )
    }
}

/// The subscriptions after several market data subscriptions.
pub open spec fn with_all_assets(
    subscriptions: SubscriptionsView,
    lists: Seq<Seq<Seq<char>>>,
) -> SubscriptionsView
    decreases lists.len(),
{
    if lists.len() == 0 {
        subscriptions
    } else {
        with_all_assets(subscriptions, lists.drop_last()).with_assets(lists.last())
    }
}

/// The subscriptions after several user subscriptions.
pub open spec fn with_all_markets(
    subscriptions: SubscriptionsView,
    lists: Seq<Seq<Seq<char>>>,
) -> SubscriptionsView
    decreases lists.len(),
{
    if lists.len() == 0 {
        subscriptions
    } else {
        with_all_markets(subscriptions, lists.drop_last()).with_markets(lists.last())
    }
}

/// The items of two lists put together are those of either.
proof fn lemma_to_set_of_sum(a: Seq<Seq<char>>, b: Seq<Seq<char>>)
    ensures
        (a + b).to_set() == a.to_set().union(b.to_set()),
{
    assert forall|id: Seq<char>| (a + b).contains(id) <==> a.contains(id) || b.contains(id) by {
        if a.contains(id) {
            assert((a + b)[a.index_of(id)] == id);
        }
        if b.contains(id) {
            assert((a + b)[a.len() + b.index_of(id)] == id);
        }
        if (a + b).contains(id) {
            let k = (a + b).index_of(id);
            if k < a.len() {
                assert(a[k] == id);
            } else {
                assert(b[k - a.len()] == id);
            }
        }
    }
    assert((a + b).to_set() =~= a.to_set().union(b.to_set()));
}

/// No asset is asked for twice: over any run of market data subscriptions the
/// server is asked for each asset that it was not asked for before once, and
/// each subscription finds known what those before it asked for.
pub proof fn law_no_asset_is_asked_for_twice(
    subscriptions: SubscriptionsView,
    lists: Seq<Seq<Seq<char>>>,
)
    ensures
        with_all_assets(subscriptions, lists).assets == subscriptions.assets.union(
            together(lists).to_set(),
        ),
        asked_for(lists, subscriptions.assets) == fresh(together(lists), subscriptions.assets),
        asked_for(lists, subscriptions.assets).no_duplicates(),
    decreases lists.len(),
{
    if lists.len() == 0 {
        assert(subscriptions.assets.union(together(lists).to_set()) =~= subscriptions.assets);
    } else {
        let before = lists.drop_last();
        law_no_asset_is_asked_for_twice(subscriptions, before);
        law_fresh_adds_up(together(before), lists.last(), subscriptions.assets);
        lemma_to_set_of_sum(together(before), lists.last());
        assert(with_all_assets(subscriptions, lists).assets =~= subscriptions.assets.union(
            together(lists).to_set(),
        ));
    }
    law_fresh_is_exact(together(lists), subscriptions.assets, Seq::empty());
}

/// No market is asked for twice, over any run of user subscriptions.
pub proof fn law_no_market_is_asked_for_twice(
    subscriptions: SubscriptionsView,
    lists: Seq<Seq<Seq<char>>>,
)
    ensures
        with_all_markets(subscriptions, lists).markets == subscriptions.markets.union(
            together(lists).to_set(),
        ),
        asked_for(lists, subscriptions.markets) == fresh(together(lists), subscriptions.markets),
        asked_for(lists, subscriptions.markets).no_duplicates(),
    decreases lists.len(),
{
    if lists.len() == 0 {
        assert(subscriptions.markets.union(together(lists).to_set()) =~= subscriptions.markets);
    } else {
        let before = lists.drop_last();
        law_no_market_is_asked_for_twice(subscriptions, before);
        law_fresh_adds_up(together(before), lists.last(), subscriptions.markets);
        lemma_to_set_of_sum(together(before), lists.last());
        assert(with_all_markets(subscriptions, lists).markets =~= subscriptions.markets.union(
            together(lists).to_set(),
        ));
    }
    law_fresh_is_exact(together(lists), subscriptions.markets, Seq::empty());
}

/// Market data subscriptions and user subscriptions never take each other's
/// place.
pub proof fn law_ids_tell_channels_apart(asset_ids: Seq<Seq<char>>, markets: Seq<Seq<char>>)
    ensures
        market_id(asset_ids) != user_id(markets),
{
    reveal_strlit("market:");
    reveal_strlit("user:");
    assert(market_id(asset_ids)[0] == 'm');
    assert(user_id(markets)[0] == 'u');
}

/// A subscription under a new identifier adds one to their number, and one
/// under an identifier that is there already leaves it.
pub proof fn law_subscription_count(
    subscriptions: SubscriptionsView,
    id: Seq<char>,
    info: SubscriptionInfoView,
)
    requires
        subscriptions.active.dom().finite(),
    ensures
        subscriptions.registered(id, info).active.dom().finite(),
        subscriptions.registered(id, info).active.dom().len() == subscriptions.active.dom().len()
            + if subscriptions.active.dom().contains(id) {
            0int
        } else {
            1int
        },
{
    assert(subscriptions.registered(id, info).active.dom() =~= subscriptions.active.dom().insert(
        id,
    ));
}

/// Every active subscription is listed under its channel, and under no other.
pub proof fn law_listed_under_its_channel(
    active: Map<Seq<char>, SubscriptionInfoView>,
    ids: Seq<Seq<char>>,
    id: Seq<char>,
    channel: ChannelType,
)
    requires
        ids.contains(id),
        active[id].channel == channel,
    ensures
        channel_infos(active, ids, channel).contains(active[id]),
        forall|other: ChannelType, i: int|
            0 <= i < channel_infos(active, ids, other).len() ==> (#[trigger] channel_infos(
                active,
                ids,
                other,
            )[i]).channel == other,
        channel_infos(active, ids, ChannelType::Market).len() + channel_infos(
            active,
            ids,
            ChannelType::User,
        ).len() == ids.len(),
    decreases ids.len(),
{
    lemma_channel_infos(active, ids);
    let rest = ids.drop_last();
    if id == ids.last() {
        let infos = channel_infos(active, ids, channel);
        assert(infos.last() == active[id]);
        assert(infos[infos.len() - 1] == active[id]);
    } else {
        assert(rest[ids.index_of(id)] == id);
        law_listed_under_its_channel(active, rest, id, channel);
        let before = channel_infos(active, rest, channel);
        let k = before.index_of(active[id]);
        assert(channel_infos(active, ids, channel)[k] == active[id]);
    }
}

/// The lists of the two channels hold what is of their channel, and all of it.
proof fn lemma_channel_infos(
    active: Map<Seq<char>, SubscriptionInfoView>,
    ids: Seq<Seq<char>>,
)
    ensures
        forall|other: ChannelType, i: int|
            0 <= i < channel_infos(active, ids, other).len() ==> (#[trigger] channel_infos(
                active,
                ids,
                other,
            )[i]).channel == other,
        channel_infos(active, ids, ChannelType::Market).len() + channel_infos(
            active,
            ids,
            ChannelType::User,
        ).len() == ids.len(),
    decreases ids.len(),
{
    if ids.len() > 0 {
        lemma_channel_infos(active, ids.drop_last());
    }
}

} // verus!
