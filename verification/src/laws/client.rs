//! Clients, their endpoints and their channels.

use std::time::Instant;

use vstd::prelude::*;

use crate::auth::{Authenticated, Unauthenticated};
use crate::client::{
    channel_view, endpoint_of, normalized_endpoint, ChannelHandles, ChannelView, ClientView,
};
use crate::config::WebSocketConfig;
use crate::error::{ClientError, WsError};
use crate::subscription::{ChannelType, SubscriptionsView};
use crate::text::{has_suffix, without_trailing_slashes};

verus! {

/// The endpoint of a channel is its base, without slashes at the end, followed
/// by the channel's path.
pub proof fn law_endpoints_of_channels(base: Seq<char>)
    requires
        base.len() > 0 ==> base.last() != '/',
    ensures
        endpoint_of(base, ChannelType::Market) == base + "/ws/market"@,
        endpoint_of(base, ChannelType::User) == base + "/ws/user"@,
        endpoint_of(base + "/"@, ChannelType::Market) == base + "/ws/market"@,
        endpoint_of(base + "/"@, ChannelType::User) == base + "/ws/user"@,
{
    reveal_strlit("/");
    reveal_strlit("/ws/");
    reveal_strlit("market");
    reveal_strlit("user");
    reveal_strlit("/ws/market");
    reveal_strlit("/ws/user");
    assert((base + "/"@).drop_last() =~= base);
    assert(without_trailing_slashes(base) == base);
    assert(without_trailing_slashes(base + "/"@) == base);
    assert(base + "/ws/"@ + "market"@ =~= base + "/ws/market"@);
    assert(base + "/ws/"@ + "user"@ =~= base + "/ws/user"@);
}

/// An endpoint with the path of a channel, or with `/ws`, stands for what is in
/// front of it; one with no such path stands for itself. Slashes at the end do
/// not count.
pub proof fn law_base_of_an_endpoint(head: Seq<char>, endpoint: Seq<char>)
    ensures
        normalized_endpoint(head + "/ws/market"@) == head,
        normalized_endpoint(head + "/ws/user"@) == head,
        normalized_endpoint(head + "/ws"@) == head,
        normalized_endpoint(endpoint + "/"@) == normalized_endpoint(endpoint),
        (endpoint.len() > 0 ==> endpoint.last() != '/') && !has_suffix(endpoint, "/ws/market"@)
            && !has_suffix(endpoint, "/ws/user"@) && !has_suffix(endpoint, "/ws"@)
            ==> normalized_endpoint(endpoint) == endpoint,
{
    reveal_strlit("/");
    reveal_strlit("/ws/market");
    reveal_strlit("/ws/user");
    reveal_strlit("/ws");
    assert((endpoint + "/"@).drop_last() =~= endpoint);
    let market = head + "/ws/market"@;
    let user = head + "/ws/user"@;
    let bare = head + "/ws"@;
    assert(market.last() == 't');
    assert(user.last() == 'r');
    assert(bare.last() == 's');
    assert(without_trailing_slashes(market) == market);
    assert(without_trailing_slashes(user) == user);
    assert(without_trailing_slashes(bare) == bare);
    assert(market.skip(market.len() - 10) =~= "/ws/market"@);
    assert(user.skip(user.len() - 8) =~= "/ws/user"@);
    assert(bare.skip(bare.len() - 3) =~= "/ws"@);
    assert("/ws/market"@.last() == 't');
    assert("/ws/user"@.last() == 'r');
    assert(user.skip(user.len() - 10).last() == 'r' || user.len() < 10);
    assert(bare.skip(bare.len() - 10).last() == 's' || bare.len() < 10);
    assert(bare.skip(bare.len() - 8).last() == 's' || bare.len() < 8);
    assert(normalized_endpoint(market) =~= head);
    assert(normalized_endpoint(user) =~= head);
    assert(normalized_endpoint(bare) =~= head);
}

/// A channel starts with a new connection to its endpoint, configured as the
/// client is, and without subscriptions.
pub proof fn law_new_channel(endpoint: Seq<char>, config: WebSocketConfig)
    ensures
        ChannelView::fresh(endpoint, config).endpoint == endpoint,
        ChannelView::fresh(endpoint, config).link.phase is Idle,
        ChannelView::fresh(endpoint, config).link.attempt == 0,
        ChannelView::fresh(endpoint, config).link.outbox.len() == 0,
        ChannelView::fresh(endpoint, config).link.reconnect == config.reconnect,
        ChannelView::fresh(endpoint, config).subscriptions == SubscriptionsView::fresh(),
{
}

/// What is held on a channel is there exactly where the channel is.
pub proof fn law_held_channels(channel: Option<ChannelHandles>)
    ensures
        channel is Some ==> channel_view(channel) == Some(channel->0@),
        channel is None ==> channel_view(channel) is None,
{
}

/// A client starts with its market data channel, below the base of the endpoint
/// that it was given, and without a user channel.
pub proof fn law_new_client(head: Seq<char>, config: WebSocketConfig)
    requires
        head.len() > 0 ==> head.last() != '/',
    ensures
        ({
            let client = ClientView::fresh(head + "/ws"@, config);
            &&& client.config == config
            &&& client.base_endpoint == head
            &&& client.user is None
            &&& client.market is Some
            &&& client.market->0 == ChannelView::fresh(head + "/ws/market"@, config)
        }),
{
    law_base_of_an_endpoint(head, head);
    law_endpoints_of_channels(head);
}

/// A client that acts for a user has a user channel below its base, acts for
/// that user, and has its market data channel as it was.
pub proof fn law_authenticating(
    client: ClientView<Unauthenticated>,
    state: Authenticated,
)
    ensures
        client.authenticated(state).state == state,
        client.authenticated(state).config == client.config,
        client.authenticated(state).base_endpoint == client.base_endpoint,
        client.authenticated(state).market == client.market,
        client.user is Some ==> client.authenticated(state).user == client.user,
        client.user is None && (client.base_endpoint.len() > 0 ==> client.base_endpoint.last()
            != '/') ==> client.authenticated(state).user == Some(
            ChannelView::fresh(client.base_endpoint + "/ws/user"@, client.config),
        ),
{
    if client.base_endpoint.len() > 0 ==> client.base_endpoint.last() != '/' {
        law_endpoints_of_channels(client.base_endpoint);
    }
}

/// A client that acts for nobody any more has no user channel, and the rest as
/// it was.
pub proof fn law_deauthenticating(client: ClientView<Authenticated>)
    ensures
        client.deauthenticated().user is None,
        client.deauthenticated().market == client.market,
        client.deauthenticated().config == client.config,
        client.deauthenticated().base_endpoint == client.base_endpoint,
{
}

/// Market data subscriptions go to the market data channel, and are refused
/// where there is none or where the channel refuses them.
pub proof fn law_market_subscriptions<S>(
    client: ClientView<S>,
    asset_ids: Seq<Seq<char>>,
    created_at: Instant,
    error: ClientError,
)
    ensures
        client.market is Some ==> client.after_market(asset_ids, created_at).market == Some(
            client.market->0.after_market(asset_ids, created_at),
        ),
        client.market is None ==> client.after_market(asset_ids, created_at) == client,
        client.after_market(asset_ids, created_at).user == client.user,
        client.after_market(asset_ids, created_at).state == client.state,
        client.after_market(asset_ids, created_at).config == client.config,
        client.after_market(asset_ids, created_at).base_endpoint == client.base_endpoint,
        client.takes_assets(asset_ids) <==> client.market is Some
            && !client.market->0.refuses_assets(asset_ids),
        client.is_market_error(asset_ids, error) ==> !client.takes_assets(asset_ids),
        client.market is Some && client.is_market_error(asset_ids, error) ==> error
            == ClientError::WebSocket(WsError::ConnectionClosed),
        client.market is None && client.is_market_error(asset_ids, error) ==> error is Validation
            && error->Validation_0@ == "Market channel unavailable; recreate client"@,
{
}

/// User subscriptions go to the user channel with the credentials of the user
/// that the client acts for, and are refused where there is none or where the
/// channel refuses them.
pub proof fn law_user_subscriptions(
    client: ClientView<Authenticated>,
    markets: Seq<Seq<char>>,
    created_at: Instant,
    error: ClientError,
)
    ensures
        client.user is Some ==> client.after_user(markets, created_at).user == Some(
            client.user->0.after_user(markets, client.state.credentials, created_at),
        ),
        client.user is None ==> client.after_user(markets, created_at) == client,
        client.after_user(markets, created_at).market == client.market,
        client.after_user(markets, created_at).state == client.state,
        client.after_user(markets, created_at).config == client.config,
        client.after_user(markets, created_at).base_endpoint == client.base_endpoint,
        client.takes_markets(markets) <==> client.user is Some && !client.user->0.refuses_markets(
            markets,
        ),
        client.is_user_error(markets, error) ==> !client.takes_markets(markets),
        client.user is Some && client.is_user_error(markets, error) ==> error
            == ClientError::WebSocket(WsError::ConnectionClosed),
        client.user is None && client.is_user_error(markets, error) ==> error is Validation
            && error->Validation_0@ == "User channel unavailable; authenticate first"@,
{
}

/// The channels of a client are found by their kind, changed on their own, and
/// counted by their subscriptions.
pub proof fn law_channels_by_kind<S>(client: ClientView<S>, channel: ChannelView)
    ensures
        client.channel(ChannelType::Market) == client.market,
        client.channel(ChannelType::User) == client.user,
        client.with_channel(ChannelType::Market, channel).market == Some(channel),
        client.with_channel(ChannelType::Market, channel).user == client.user,
        client.with_channel(ChannelType::User, channel).user == Some(channel),
        client.with_channel(ChannelType::User, channel).market == client.market,
        client.with_channel(ChannelType::Market, channel).state == client.state,
        client.with_channel(ChannelType::User, channel).state == client.state,
        client.market is Some ==> client.count(ChannelType::Market)
            == client.market->0.subscriptions.active.dom().len(),
        client.user is Some ==> client.count(ChannelType::User)
            == client.user->0.subscriptions.active.dom().len(),
        client.market is None ==> client.count(ChannelType::Market) == 0,
        client.user is None ==> client.count(ChannelType::User) == 0,
{
}

} // verus!
