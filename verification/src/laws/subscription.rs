//! What the server is asked for, and what is kept of it.

use std::time::Instant;

use vstd::prelude::*;

use crate::auth::Credentials;
use crate::client::ChannelView;
use crate::connection::LinkView;
use crate::interest::MessageInterest;
use crate::messages::{request_json, RequestView};
use crate::subscription::{
    fresh, law_fresh_adds_up, law_fresh_is_exact, link_with_assets, link_with_markets, lists,
    market_id, together, user_id, ChannelType, SubscriptionInfoView, SubscriptionsView,
};
use crate::text::joined;

verus! {

/// Of one item, that one is fresh unless it is known.
pub proof fn law_fresh_of_few(id: Seq<char>, known: Set<Seq<char>>)
    ensures
        fresh(Seq::<Seq<char>>::empty(), known) == Seq::<Seq<char>>::empty(),
        known.contains(id) ==> fresh(seq![id], known) == Seq::<Seq<char>>::empty(),
        !known.contains(id) ==> fresh(seq![id], known) == seq![id],
{
    reveal_with_fuel(fresh, 2);
    assert(seq![id].drop_last() =~= Seq::empty());
    assert(Seq::<Seq<char>>::empty().push(id) =~= seq![id]);
}

/// What is fresh keeps its order: a fresh item comes after all that is fresh
/// before it in the list.
pub proof fn law_fresh_keeps_the_order(ids: Seq<Seq<char>>, id: Seq<char>, known: Set<Seq<char>>)
    ensures
        !known.contains(id) && !ids.contains(id) ==> fresh(ids.push(id), known) == fresh(
            ids,
            known,
        ).push(id),
        known.contains(id) || ids.contains(id) ==> fresh(ids.push(id), known) == fresh(ids, known),
{
    assert(ids.push(id).drop_last() =~= ids);
}

/// Lists put together hold what each of them holds.
pub proof fn law_together(lists: Seq<Seq<Seq<char>>>, list: Seq<Seq<char>>)
    ensures
        together(Seq::<Seq<Seq<char>>>::empty()) == Seq::<Seq<char>>::empty(),
        together(lists.push(list)) == together(lists) + list,
{
    assert(lists.push(list).drop_last() =~= lists);
}

/// The identifiers of subscriptions are their channel and their list.
pub proof fn law_identifiers(ids: Seq<Seq<char>>)
    ensures
        market_id(ids) == "market:"@ + joined(ids, ","@),
        user_id(ids) == "user:"@ + joined(ids, ","@),
{
}

/// A market data subscription appends at most one request to what waits to be
/// sent. It appends one exactly where some listed asset was not asked for, and
/// the request lists every such asset once, and no other.
pub proof fn law_request_for_assets(
    link: LinkView,
    subscriptions: SubscriptionsView,
    asset_ids: Seq<Seq<char>>,
) -> (asked: Seq<Seq<char>>)
    ensures
        asked.no_duplicates(),
        forall|id: Seq<char>|
            asked.contains(id) <==> asset_ids.contains(id) && !subscriptions.assets.contains(id),
        subscriptions.asks_for_assets(asset_ids) <==> asked.len() > 0,
        asked.len() == 0 ==> link_with_assets(link, subscriptions, asset_ids) == link,
        asked.len() > 0 ==> link_with_assets(link, subscriptions, asset_ids).outbox
            == link.outbox.push(
            request_json(
                RequestView {
                    kind: "market"@,
                    markets: Seq::empty(),
                    assets_ids: asked,
                    initial_dump: Some(true),
                    auth: None,
                },
            ),
        ),
        link_with_assets(link, subscriptions, asset_ids).phase == link.phase,
        link_with_assets(link, subscriptions, asset_ids).attempt == link.attempt,
        link_with_assets(link, subscriptions, asset_ids).reconnect == link.reconnect,
{
    let asked = fresh(asset_ids, subscriptions.assets);
    assert forall|id: Seq<char>|
        asked.contains(id) <==> asset_ids.contains(id) && !subscriptions.assets.contains(id) by {
        law_fresh_is_exact(asset_ids, subscriptions.assets, id);
    }
    law_fresh_is_exact(asset_ids, subscriptions.assets, Seq::empty());
    asked
}

/// A user subscription appends at most one request to what waits to be sent. It
/// appends one exactly where some listed market was not asked for, or none is
/// listed. The request has the credentials, and lists every such market once,
/// and no other.
pub proof fn law_request_for_markets(
    link: LinkView,
    subscriptions: SubscriptionsView,
    markets: Seq<Seq<char>>,
    credentials: Credentials,
) -> (asked: Seq<Seq<char>>)
    ensures
        asked.no_duplicates(),
        forall|id: Seq<char>|
            asked.contains(id) <==> markets.contains(id) && !subscriptions.markets.contains(id),
        subscriptions.asks_for_markets(markets) <==> asked.len() > 0 || markets.len() == 0,
        asked.len() == 0 && markets.len() > 0 ==> link_with_markets(
            link,
            subscriptions,
            markets,
            credentials@,
        ) == link,
        asked.len() > 0 || markets.len() == 0 ==> link_with_markets(
            link,
            subscriptions,
            markets,
            credentials@,
        ).outbox == link.outbox.push(
            request_json(
                RequestView {
                    kind: "user"@,
                    markets: asked,
                    assets_ids: Seq::empty(),
                    initial_dump: Some(true),
                    auth: Some(credentials@),
                },
            ),
        ),
        link_with_markets(link, subscriptions, markets, credentials@).phase == link.phase,
        link_with_markets(link, subscriptions, markets, credentials@).attempt == link.attempt,
        link_with_markets(link, subscriptions, markets, credentials@).reconnect == link.reconnect,
{
    let asked = fresh(markets, subscriptions.markets);
    assert forall|id: Seq<char>|
        asked.contains(id) <==> markets.contains(id) && !subscriptions.markets.contains(id) by {
        law_fresh_is_exact(markets, subscriptions.markets, id);
    }
    law_fresh_is_exact(markets, subscriptions.markets, Seq::empty());
    asked
}

/// What a market data subscription that comes about leaves: the assets count as
/// asked for, market data is of interest, and the subscription is kept under
/// its identifier with its list and its time. The rest is as it was.
pub proof fn law_kept_market_subscription(
    channel: ChannelView,
    asset_ids: Seq<Seq<char>>,
    created_at: Instant,
    id: Seq<char>,
)
    ensures
        ({
            let after = channel.after_market(asset_ids, created_at);
            let key = "market:"@ + joined(asset_ids, ","@);
            &&& after.endpoint == channel.endpoint
            &&& after.subscriptions.assets.contains(id) <==> channel.subscriptions.assets.contains(
                id,
            ) || asset_ids.contains(id)
            &&& after.subscriptions.markets == channel.subscriptions.markets
            &&& after.subscriptions.interest.book
            &&& after.subscriptions.interest.price_change
            &&& after.subscriptions.interest.tick_size
            &&& after.subscriptions.interest.last_trade_price
            &&& after.subscriptions.interest.trade == channel.subscriptions.interest.trade
            &&& after.subscriptions.interest.order == channel.subscriptions.interest.order
            &&& channel.refuses_assets(asset_ids) ==> after.subscriptions.active
                == channel.subscriptions.active && after.link == channel.link
            &&& !channel.refuses_assets(asset_ids) ==> {
                &&& after.subscriptions.active.dom() == channel.subscriptions.active.dom().insert(
                    key,
                )
                &&& after.subscriptions.active[key].channel == ChannelType::Market
                &&& after.subscriptions.active[key].asset_ids == asset_ids
                &&& after.subscriptions.active[key].created_at == created_at
                &&& id != key && channel.subscriptions.active.dom().contains(id)
                    ==> after.subscriptions.active[id] == channel.subscriptions.active[id]
                &&& after.link == link_with_assets(channel.link, channel.subscriptions, asset_ids)
            }
        }),
        channel.refuses_assets(asset_ids) <==> channel.link.phase is Stopped && exists|x: Seq<char>|
            asset_ids.contains(x) && !channel.subscriptions.assets.contains(x),
{
    let asked = law_request_for_assets(channel.link, channel.subscriptions, asset_ids);
    if asked.len() > 0 {
        assert(asked.contains(asked[0]));
    }
    assert(channel.after_market(asset_ids, created_at).subscriptions.assets.contains(id)
        <==> channel.subscriptions.assets.contains(id) || asset_ids.contains(id));
}

/// What a user subscription that comes about leaves: the markets count as asked
/// for, orders and trades are of interest, and the subscription is kept under
/// its identifier with its list and its time. The rest is as it was.
pub proof fn law_kept_user_subscription(
    channel: ChannelView,
    markets: Seq<Seq<char>>,
    credentials: Credentials,
    created_at: Instant,
    id: Seq<char>,
)
    ensures
        ({
            let after = channel.after_user(markets, credentials, created_at);
            let key = "user:"@ + joined(markets, ","@);
            &&& after.endpoint == channel.endpoint
            &&& after.subscriptions.markets.contains(id)
                <==> channel.subscriptions.markets.contains(id) || markets.contains(id)
            &&& after.subscriptions.assets == channel.subscriptions.assets
            &&& after.subscriptions.interest.trade
            &&& after.subscriptions.interest.order
            &&& after.subscriptions.interest.book == channel.subscriptions.interest.book
            &&& after.subscriptions.interest.price_change
                == channel.subscriptions.interest.price_change
            &&& after.subscriptions.interest.tick_size == channel.subscriptions.interest.tick_size
            &&& after.subscriptions.interest.last_trade_price
                == channel.subscriptions.interest.last_trade_price
            &&& channel.refuses_markets(markets) ==> after.subscriptions.active
                == channel.subscriptions.active && after.link == channel.link
            &&& !channel.refuses_markets(markets) ==> {
                &&& after.subscriptions.active.dom() == channel.subscriptions.active.dom().insert(
                    key,
                )
                &&& after.subscriptions.active[key].channel == ChannelType::User
                &&& after.subscriptions.active[key].asset_ids == markets
                &&& after.subscriptions.active[key].created_at == created_at
                &&& id != key && channel.subscriptions.active.dom().contains(id)
                    ==> after.subscriptions.active[id] == channel.subscriptions.active[id]
                &&& after.link == link_with_markets(
                    channel.link,
                    channel.subscriptions,
                    markets,
                    credentials@,
                )
            }
        }),
        channel.refuses_markets(markets) <==> channel.link.phase is Stopped && (markets.len() == 0
            || exists|x: Seq<char>|
            markets.contains(x) && !channel.subscriptions.markets.contains(x)),
{
    let asked = law_request_for_markets(channel.link, channel.subscriptions, markets, credentials);
    if asked.len() > 0 {
        assert(asked.contains(asked[0]));
    }
    assert(channel.after_user(markets, credentials, created_at).subscriptions.markets.contains(id)
        <==> channel.subscriptions.markets.contains(id) || markets.contains(id));
}

/// The texts of requests for market data, one for each list of assets.
pub open spec fn market_texts(requests: Seq<Seq<Seq<char>>>) -> Seq<Seq<char>> {
    requests.map_values(
        |assets_ids: Seq<Seq<char>>|
            request_json(
                RequestView {
                    kind: "market"@,
                    markets: Seq::empty(),
                    assets_ids,
                    initial_dump: Some(true),
                    auth: None,
                },
            ),
    )
}

/// The texts of requests for user events, one for each list of markets.
pub open spec fn user_texts(requests: Seq<Seq<Seq<char>>>, credentials: Credentials) -> Seq<
    Seq<char>,
> {
    requests.map_values(
        |markets: Seq<Seq<char>>|
            request_json(
                RequestView {
                    kind: "user"@,
                    markets,
                    assets_ids: Seq::empty(),
                    initial_dump: Some(true),
                    auth: Some(credentials@),
                },
            ),
    )
}

/// A channel after several market data subscriptions.
pub open spec fn after_markets(
    channel: ChannelView,
    lists: Seq<Seq<Seq<char>>>,
    created_at: Instant,
) -> ChannelView
    decreases lists.len(),
{
    if lists.len() == 0 {
        channel
    } else {
        after_markets(channel, lists.drop_last(), created_at).after_market(lists.last(), created_at)
    }
}

/// A channel after several user subscriptions.
pub open spec fn after_users(
    channel: ChannelView,
    lists: Seq<Seq<Seq<char>>>,
    credentials: Credentials,
    created_at: Instant,
) -> ChannelView
    decreases lists.len(),
{
    if lists.len() == 0 {
        channel
    } else {
        after_users(channel, lists.drop_last(), credentials, created_at).after_user(
            lists.last(),
            credentials,
            created_at,
        )
    }
}

/// The items of two lists put together are those of either.
proof fn lemma_set_of_sum(a: Seq<Seq<char>>, b: Seq<Seq<char>>)
    ensures
        (a + b).to_set() == a.to_set().union(b.to_set()),
{
    assert forall|id: Seq<char>| (a + b).contains(id) <==> a.contains(id) || b.contains(id) by {
        if a.contains(id) {
            assert((a + b)[a.index_of(id)] == id);
        }
        if b.contains(id) {
            assert((a + b)[a.len() + b.index_of(id)] == id);
        }
        if (a + b).contains(id) {
            let k = (a + b).index_of(id);
            if k < a.len() {
                assert(a[k] == id);
            } else {
                assert(b[k - a.len()] == id);
            }
        }
    }
    assert((a + b).to_set() =~= a.to_set().union(b.to_set()));
}

/// What a run of market data subscriptions sends.
proof fn lemma_market_requests(
    channel: ChannelView,
    lists: Seq<Seq<Seq<char>>>,
    created_at: Instant,
) -> (requests: Seq<Seq<Seq<char>>>)
    requires
        !(channel.link.phase is Stopped),
    ensures
        ({
            let after = after_markets(channel, lists, created_at);
            &&& after.link.phase == channel.link.phase
            &&& after.link.outbox == channel.link.outbox + market_texts(requests)
            &&& after.subscriptions.assets == channel.subscriptions.assets.union(
                together(lists).to_set(),
            )
            &&& together(requests) == fresh(together(lists), channel.subscriptions.assets)
        }),
    decreases lists.len(),
{
    if lists.len() == 0 {
        let requests = Seq::<Seq<Seq<char>>>::empty();
        assert(channel.link.outbox + market_texts(requests) =~= channel.link.outbox);
        assert(channel.subscriptions.assets.union(together(lists).to_set())
            =~= channel.subscriptions.assets);
        requests
    } else {
        let before = lists.drop_last();
        let list = lists.last();
        let sent = lemma_market_requests(channel, before, created_at);
        let between = after_markets(channel, before, created_at);
        let known = channel.subscriptions.assets;
        law_fresh_adds_up(together(before), list, known);
        lemma_set_of_sum(together(before), list);
        assert(between.subscriptions.assets.union(list.to_set()) =~= known.union(
            together(lists).to_set(),
        ));
        let asked = fresh(list, between.subscriptions.assets);
        if asked.len() > 0 {
            let requests = sent.push(asked);
            law_together(sent, asked);
            assert(market_texts(requests) =~= market_texts(sent).push(
                market_texts(requests).last(),
            ));
            assert(channel.link.outbox + market_texts(requests) =~= (channel.link.outbox
                + market_texts(sent)).push(market_texts(requests).last()));
            requests
        } else {
            assert(together(sent) + asked =~= together(sent));
            sent
        }
    }
}

/// Over any run of market data subscriptions on a connection that is not given
/// up, the requests that are appended to what waits to be sent list, all
/// together, every asset of the subscriptions that was not asked for before
/// exactly once, and no other.
pub proof fn law_assets_are_requested_once(
    channel: ChannelView,
    lists: Seq<Seq<Seq<char>>>,
    created_at: Instant,
) -> (requests: Seq<Seq<Seq<char>>>)
    requires
        !(channel.link.phase is Stopped),
    ensures
        after_markets(channel, lists, created_at).link.outbox == channel.link.outbox + market_texts(
            requests,
        ),
        together(requests).no_duplicates(),
        forall|id: Seq<char>|
            together(requests).contains(id) <==> together(lists).contains(id)
                && !channel.subscriptions.assets.contains(id),
{
    let requests = lemma_market_requests(channel, lists, created_at);
    assert forall|id: Seq<char>|
        together(requests).contains(id) <==> together(lists).contains(id)
            && !channel.subscriptions.assets.contains(id) by {
        law_fresh_is_exact(together(lists), channel.subscriptions.assets, id);
    }
    law_fresh_is_exact(together(lists), channel.subscriptions.assets, Seq::empty());
    requests
}

/// What a run of user subscriptions sends.
proof fn lemma_user_requests(
    channel: ChannelView,
    lists: Seq<Seq<Seq<char>>>,
    credentials: Credentials,
    created_at: Instant,
) -> (requests: Seq<Seq<Seq<char>>>)
    requires
        !(channel.link.phase is Stopped),
    ensures
        ({
            let after = after_users(channel, lists, credentials, created_at);
            &&& after.link.phase == channel.link.phase
            &&& after.link.outbox == channel.link.outbox + user_texts(requests, credentials)
            &&& after.subscriptions.markets == channel.subscriptions.markets.union(
                together(lists).to_set(),
            )
            &&& together(requests) == fresh(together(lists), channel.subscriptions.markets)
        }),
    decreases lists.len(),
{
    if lists.len() == 0 {
        let requests = Seq::<Seq<Seq<char>>>::empty();
        assert(channel.link.outbox + user_texts(requests, credentials) =~= channel.link.outbox);
        assert(channel.subscriptions.markets.union(together(lists).to_set())
            =~= channel.subscriptions.markets);
        requests
    } else {
        let before = lists.drop_last();
        let list = lists.last();
        let sent = lemma_user_requests(channel, before, credentials, created_at);
        let between = after_users(channel, before, credentials, created_at);
        let known = channel.subscriptions.markets;
        law_fresh_adds_up(together(before), list, known);
        lemma_set_of_sum(together(before), list);
        assert(between.subscriptions.markets.union(list.to_set()) =~= known.union(
            together(lists).to_set(),
        ));
        let asked = fresh(list, between.subscriptions.markets);
        if asked.len() > 0 || list.len() == 0 {
            let requests = sent.push(asked);
            law_together(sent, asked);
            let texts = user_texts(requests, credentials);
            assert(texts =~= user_texts(sent, credentials).push(texts.last()));
            assert(channel.link.outbox + texts =~= (channel.link.outbox + user_texts(
                sent,
                credentials,
            )).push(texts.last()));
            requests
        } else {
            assert(together(sent) + asked =~= together(sent));
            sent
        }
    }
}

/// Over any run of user subscriptions on a connection that is not given up, the
/// requests that are appended to what waits to be sent list, all together,
/// every market of the subscriptions that was not asked for before exactly
/// once, and no other.
pub proof fn law_markets_are_requested_once(
    channel: ChannelView,
    lists: Seq<Seq<Seq<char>>>,
    credentials: Credentials,
    created_at: Instant,
) -> (requests: Seq<Seq<Seq<char>>>)
    requires
        !(channel.link.phase is Stopped),
    ensures
        after_users(channel, lists, credentials, created_at).link.outbox == channel.link.outbox
            + user_texts(requests, credentials),
        together(requests).no_duplicates(),
        forall|id: Seq<char>|
            together(requests).contains(id) <==> together(lists).contains(id)
                && !channel.subscriptions.markets.contains(id),
{
    let requests = lemma_user_requests(channel, lists, credentials, created_at);
    assert forall|id: Seq<char>|
        together(requests).contains(id) <==> together(lists).contains(id)
            && !channel.subscriptions.markets.contains(id) by {
        law_fresh_is_exact(together(lists), channel.subscriptions.markets, id);
    }
    law_fresh_is_exact(together(lists), channel.subscriptions.markets, Seq::empty());
    requests
}

/// A manager starts without subscriptions, without anything asked for and
/// without interest.
pub proof fn law_no_subscriptions_at_first(id: Seq<char>)
    ensures
        !SubscriptionsView::fresh().active.dom().contains(id),
        !SubscriptionsView::fresh().assets.contains(id),
        !SubscriptionsView::fresh().markets.contains(id),
        SubscriptionsView::fresh().active.dom().len() == 0,
        SubscriptionsView::fresh().interest == (MessageInterest {
            book: false,
            price_change: false,
            tick_size: false,
            last_trade_price: false,
            trade: false,
            order: false,
        }),
{
}

/// A list of the active subscriptions has each of their identifiers, no other,
/// and none twice.
pub proof fn law_lists_of_subscriptions(
    ids: Seq<Seq<char>>,
    active: Map<Seq<char>, SubscriptionInfoView>,
    id: Seq<char>,
    i: int,
    j: int,
)
    requires
        lists(ids, active),
    ensures
        0 <= i < j < ids.len() ==> ids[i] != ids[j],
        ids.contains(id) <==> active.dom().contains(id),
{
    assert(ids.to_set().contains(id) <==> ids.contains(id));
}

} // verus!
