use std::time::Instant;

use polymarket_ws::auth::{Address, Credentials};
use polymarket_ws::client::{channel_endpoint, normalize_base_endpoint, WebSocketClient};
use polymarket_ws::config::WebSocketConfig;
use polymarket_ws::connection::{ConnectionManager, ConnectionState, LinkEvent};
use polymarket_ws::decimal::Decimal;
use polymarket_ws::error::{ClientError, WsError};
use polymarket_ws::interest::{InterestTracker, MessageInterest, MessageKind};
use polymarket_ws::messages::{SubscriptionRequest, WsMessage};
use polymarket_ws::parse::parse_ws_text;
use polymarket_ws::streams::{Received, StreamStep};
use polymarket_ws::subscription::{ChannelType, SubscriptionManager};

fn ids(items: &[&str]) -> Vec<String> {
    items.iter().map(|item| (*item).to_owned()).collect()
}

fn key() -> Credentials {
    Credentials::new("k".to_owned(), "s".to_owned(), "p".to_owned())
}

fn open(connection: &mut ConnectionManager) {
    connection.advance(LinkEvent::Started);
    connection.advance(LinkEvent::Opened { since: Instant::now() });
}

fn give_up(connection: &mut ConnectionManager) {
    connection.advance(LinkEvent::Started);
    connection.advance(LinkEvent::OpenFailed { reason: "refused".to_owned() });
}

fn one_attempt() -> WebSocketConfig {
    let mut config = WebSocketConfig::default();
    config.reconnect.max_attempts = Some(1);
    config
}

fn thousandths(d: Decimal) -> i128 {
    let one = 10_i128.pow(d.scale());
    assert_eq!(d.mantissa() * 1000 % one, 0);
    d.mantissa() * 1000 / one
}

fn message(text: &str) -> WsMessage {
    parse_ws_text(text, MessageInterest::all()).unwrap().remove(0)
}

fn book(asset_id: &str, bids: &str, asks: &str) -> WsMessage {
    message(&format!(
        "{{\"event_type\":\"book\",\"asset_id\":\"{}\",\"market\":\"m\",\"timestamp\":\"3\",\"bids\":{},\"asks\":{}}}",
        asset_id, bids, asks
    ))
}

const ORDER: &str = r#"{"event_type":"order","id":"2","market":"m","asset_id":"a","side":"BUY","price":"0.4"}"#;
const TRADE: &str = r#"{"event_type":"trade","id":"1","market":"m","asset_id":"a","side":"SELL","size":"3","price":"0.4","status":"MATCHED"}"#;
const PRICE: &str = r#"{"event_type":"price_change","asset_id":"a","market":"m","price":"0.5","side":"BUY","timestamp":"1"}"#;

#[test]
fn only_new_assets_are_asked_for() {
    let mut connection = ConnectionManager::new(&WebSocketConfig::default());
    let mut subscriptions = SubscriptionManager::new();
    let at = Instant::now();
    subscriptions.subscribe_market(&mut connection, ids(&["a", "b", "a"]), at).unwrap();
    subscriptions.subscribe_market(&mut connection, ids(&["b", "c"]), at).unwrap();
    subscriptions.subscribe_market(&mut connection, ids(&["a", "c"]), at).unwrap();
    subscriptions.subscribe_market(&mut connection, ids(&[]), at).unwrap();
    open(&mut connection);
    assert_eq!(
        connection.next_outgoing(),
        Some(SubscriptionRequest::market(ids(&["a", "b"])).to_json())
    );
    assert_eq!(
        connection.next_outgoing(),
        Some(SubscriptionRequest::market(ids(&["c"])).to_json())
    );
    assert_eq!(connection.next_outgoing(), None);
    assert_eq!(subscriptions.subscription_count(), 4);
}

#[test]
fn all_markets_are_asked_for_every_time() {
    let mut connection = ConnectionManager::new(&WebSocketConfig::default());
    let mut subscriptions = SubscriptionManager::new();
    let at = Instant::now();
    subscriptions.subscribe_user(&mut connection, ids(&[]), key(), at).unwrap();
    subscriptions.subscribe_user(&mut connection, ids(&[]), key(), at).unwrap();
    subscriptions.subscribe_user(&mut connection, ids(&["m"]), key(), at).unwrap();
    subscriptions.subscribe_user(&mut connection, ids(&["m"]), key(), at).unwrap();
    open(&mut connection);
    let all = SubscriptionRequest::user(ids(&[]), key()).to_json();
    assert_eq!(connection.next_outgoing(), Some(all.clone()));
    assert_eq!(connection.next_outgoing(), Some(all));
    assert_eq!(
        connection.next_outgoing(),
        Some(SubscriptionRequest::user(ids(&["m"]), key()).to_json())
    );
    assert_eq!(connection.next_outgoing(), None);
    assert_eq!(subscriptions.subscription_count(), 2);
}

#[test]
fn refused_requests_leave_no_subscription() {
    let mut connection = ConnectionManager::new(&one_attempt());
    let mut subscriptions = SubscriptionManager::new();
    let at = Instant::now();
    give_up(&mut connection);
    assert!(matches!(
        subscriptions.subscribe_market(&mut connection, ids(&["a"]), at),
        Err(WsError::ConnectionClosed)
    ));
    assert_eq!(subscriptions.subscription_count(), 0);
    assert!(subscriptions.interest().wants(MessageKind::Book));
    // The asset counts as asked for, so nothing is sent and nothing refused.
    assert!(subscriptions.subscribe_market(&mut connection, ids(&["a"]), at).is_ok());
    assert_eq!(subscriptions.subscription_count(), 1);
    assert!(matches!(
        subscriptions.subscribe_user(&mut connection, ids(&[]), key(), at),
        Err(WsError::ConnectionClosed)
    ));
}

#[test]
fn subscriptions_are_listed_by_channel() {
    let mut connection = ConnectionManager::new(&WebSocketConfig::default());
    let mut subscriptions = SubscriptionManager::new();
    let at = Instant::now();
    assert!(subscriptions.active_subscriptions().get(ChannelType::Market).is_none());
    subscriptions.subscribe_market(&mut connection, ids(&["a"]), at).unwrap();
    subscriptions.subscribe_market(&mut connection, ids(&["b", "c"]), at).unwrap();
    let groups = subscriptions.active_subscriptions();
    assert!(groups.get(ChannelType::User).is_none());
    let mut listed: Vec<Vec<String>> =
        groups.get(ChannelType::Market).unwrap().iter().map(|info| info.asset_ids.clone()).collect();
    listed.sort();
    assert_eq!(listed, vec![ids(&["a"]), ids(&["b", "c"])]);
    subscriptions.subscribe_user(&mut connection, ids(&["a"]), key(), at).unwrap();
    let groups = subscriptions.active_subscriptions();
    let user = groups.get(ChannelType::User).unwrap();
    assert_eq!(user.len(), 1);
    assert_eq!(user[0].channel, ChannelType::User);
    assert_eq!(user[0].created_at, at);
    assert_eq!(groups.market.len(), 2);
}

#[test]
fn interest_grows() {
    let mut tracker = InterestTracker::new();
    assert_eq!(tracker.get(), MessageInterest::none());
    tracker.add(MessageInterest::user());
    assert!(tracker.get().contains(MessageInterest::user()));
    assert!(!tracker.get().contains(MessageInterest::market()));
    tracker.add(MessageInterest::market());
    assert_eq!(tracker.get(), MessageInterest::all());
    assert!(MessageInterest::all().contains(MessageInterest::none()));
    assert_eq!(
        MessageInterest::user().union(MessageInterest::market()),
        MessageInterest::all()
    );
}

#[test]
fn endpoints() {
    let base = "wss://host";
    for form in [
        "wss://host",
        "wss://host///",
        "wss://host/ws",
        "wss://host/ws/",
        "wss://host/ws/market",
        "wss://host/ws/user/",
    ] {
        assert_eq!(normalize_base_endpoint(form), base);
    }
    assert_eq!(normalize_base_endpoint("wss://host/ws/ws"), "wss://host/ws");
    assert_eq!(normalize_base_endpoint("wss://host/ws/other"), "wss://host/ws/other");
    assert_eq!(normalize_base_endpoint("/"), "");
    assert_eq!(channel_endpoint("wss://host/", ChannelType::Market), "wss://host/ws/market");
    assert_eq!(channel_endpoint("wss://host", ChannelType::User), "wss://host/ws/user");
}

#[test]
fn client_channels() {
    let client = WebSocketClient::default();
    assert_eq!(
        client.channel(ChannelType::Market).unwrap().endpoint,
        "wss://ws-subscriptions-clob.polymarket.com/ws/market"
    );
    assert!(client.channel(ChannelType::User).is_none());
    assert_eq!(client.connection_state(), ConnectionState::Disconnected);
    let mut client = client.authenticate(key(), Address { bytes: [7; 20] });
    assert_eq!(
        client.channel(ChannelType::User).unwrap().endpoint,
        "wss://ws-subscriptions-clob.polymarket.com/ws/user"
    );
    assert_eq!(client.state().address.bytes, [7; 20]);
    assert_eq!(client.state().credentials.secret, "s");
    open(&mut client.channel_mut(ChannelType::Market).unwrap().connection);
    assert!(client.connection_state().is_connected());
    let client = client.deauthenticate();
    assert!(client.channel(ChannelType::User).is_none());
    assert!(client.connection_state().is_connected());
}

#[test]
fn client_counts_over_channels() {
    let at = Instant::now();
    let mut client =
        WebSocketClient::new("wss://host", WebSocketConfig::default()).authenticate(key(), Address { bytes: [0; 20] });
    client.subscribe_orderbook(ids(&["a"]), at).unwrap();
    client.subscribe_prices(ids(&["a"]), at).unwrap();
    client.subscribe_midpoints(ids(&["b"]), at).unwrap();
    client.subscribe_market(ids(&["b"]), at).unwrap();
    client.subscribe_orders(ids(&[]), at).unwrap();
    client.subscribe_trades(ids(&["m"]), at).unwrap();
    client.subscribe_user_events(ids(&["m"]), at).unwrap();
    assert_eq!(client.subscription_count(), 4);
    assert_eq!(client.checked_subscription_count(), Some(4));
    let client = client.deauthenticate();
    assert_eq!(client.subscription_count(), 2);
}

#[test]
fn client_reports_refusals() {
    let at = Instant::now();
    let mut client =
        WebSocketClient::new("wss://host", one_attempt()).authenticate(key(), Address { bytes: [0; 20] });
    give_up(&mut client.channel_mut(ChannelType::Market).unwrap().connection);
    give_up(&mut client.channel_mut(ChannelType::User).unwrap().connection);
    assert!(matches!(
        client.subscribe_orderbook(ids(&["a"]), at),
        Err(ClientError::WebSocket(WsError::ConnectionClosed))
    ));
    assert!(matches!(
        client.subscribe_trades(ids(&["a"]), at),
        Err(ClientError::WebSocket(WsError::ConnectionClosed))
    ));
}

#[test]
fn market_subscribers_get_their_assets() {
    let mut client = WebSocketClient::new("wss://host", WebSocketConfig::default());
    let at = Instant::now();
    let all = client.subscribe_market(ids(&["a", "b"]), at).unwrap();
    let got = |received: Received| match all.step(received) {
        StreamStep::Yield(Ok(message)) => format!("{:?}", message.market_asset()),
        StreamStep::Yield(Err(WsError::InvalidMessage(text))) => text,
        StreamStep::Yield(Err(WsError::Lagged { count })) => format!("lagged {}", count),
        StreamStep::Yield(Err(_)) => panic!("Unexpected error"),
        StreamStep::Skip => "skip".to_owned(),
        StreamStep::End => "end".to_owned(),
    };
    assert_eq!(got(Received::Message(book("b", "[]", "[]"))), "Some(\"b\")");
    assert_eq!(got(Received::Message(message(PRICE))), "Some(\"a\")");
    assert_eq!(got(Received::Message(book("c", "[]", "[]"))), "skip");
    assert_eq!(got(Received::Message(message(ORDER))), "skip");
    assert_eq!(got(Received::Failure("bad".to_owned())), "bad");
    assert_eq!(got(Received::Lagged(9)), "lagged 9");
    assert_eq!(got(Received::Closed), "end");
}

#[test]
fn typed_subscribers_get_their_kind() {
    let at = Instant::now();
    let mut client =
        WebSocketClient::new("wss://host", WebSocketConfig::default()).authenticate(key(), Address { bytes: [0; 20] });
    let books = client.subscribe_orderbook(ids(&["a"]), at).unwrap();
    let prices = client.subscribe_prices(ids(&["a"]), at).unwrap();
    let orders = client.subscribe_orders(ids(&[]), at).unwrap();
    let trades = client.subscribe_trades(ids(&[]), at).unwrap();
    let events = client.subscribe_user_events(ids(&[]), at).unwrap();
    let texts = [PRICE, ORDER, TRADE];
    for (i, text) in texts.iter().enumerate() {
        assert!(matches!(books.step(Received::Message(message(text))), StreamStep::Skip));
        assert_eq!(
            matches!(prices.step(Received::Message(message(text))), StreamStep::Yield(Ok(_))),
            i == 0
        );
        assert_eq!(
            matches!(orders.step(Received::Message(message(text))), StreamStep::Yield(Ok(_))),
            i == 1
        );
        assert_eq!(
            matches!(trades.step(Received::Message(message(text))), StreamStep::Yield(Ok(_))),
            i == 2
        );
        assert_eq!(
            matches!(events.step(Received::Message(message(text))), StreamStep::Yield(Ok(_))),
            i != 0
        );
    }
    assert!(matches!(
        books.step(Received::Message(book("a", "[]", "[]"))),
        StreamStep::Yield(Ok(_))
    ));
    assert!(matches!(books.step(Received::Message(book("b", "[]", "[]"))), StreamStep::Skip));
    assert!(matches!(orders.step(Received::Lagged(2)), StreamStep::Yield(Err(WsError::Lagged { count: 2 }))));
    assert!(matches!(trades.step(Received::Closed), StreamStep::End));
    assert!(matches!(
        events.step(Received::Failure("x".to_owned())),
        StreamStep::Yield(Err(WsError::InvalidMessage(_)))
    ));
}

#[test]
fn midpoints_of_orderbooks() {
    let mut client = WebSocketClient::new("wss://host", WebSocketConfig::default());
    let midpoints = client.subscribe_midpoints(ids(&["a"]), Instant::now()).unwrap();
    let bids = r#"[{"price":"0.5","size":"1"},{"price":"0.1","size":"1"}]"#;
    let asks = r#"[{"price":"0.51","size":"2"}]"#;
    match midpoints.checked_step(Received::Message(book("a", bids, asks))) {
        Some(StreamStep::Yield(Ok(update))) => {
            assert_eq!(update.asset_id, "a");
            assert_eq!(update.market, "m");
            assert_eq!(update.timestamp, 3);
            assert_eq!(thousandths(update.midpoint), 505);
        }
        _ => panic!("Expected a midpoint"),
    }
    assert!(matches!(
        midpoints.step(Received::Message(book("a", "[]", asks))),
        StreamStep::Skip
    ));
    assert!(matches!(
        midpoints.step(Received::Message(book("b", bids, asks))),
        StreamStep::Skip
    ));
    assert!(matches!(midpoints.step(Received::Closed), StreamStep::End));
    let huge = r#"[{"price":"79228162514264337593543950335","size":"1"}]"#;
    assert!(midpoints.checked_step(Received::Message(book("a", huge, huge))).is_none());
}

#[test]
fn decimals() {
    let half = polymarket_ws::decimal::checked_midpoint(
        Decimal::new(3, 1).unwrap(),
        Decimal::new(-1, 0).unwrap(),
    )
    .unwrap();
    // (0.3 - 1) / 2 = -0.35
    assert_eq!(thousandths(half), -350);
    assert!(Decimal::new(0, 29).is_none());
    assert!(Decimal::new(1 << 96, 0).is_none());
    assert!(Decimal::new((1 << 96) - 1, 28).is_some());
}

#[test]
fn midpoints_lie_between_the_prices() {
    let middle = |bid: (i128, u32), ask: (i128, u32)| {
        let half = polymarket_ws::decimal::checked_midpoint(
            Decimal::new(bid.0, bid.1).unwrap(),
            Decimal::new(ask.0, ask.1).unwrap(),
        )
        .unwrap();
        // In units of the scale 28.
        half.mantissa() * 10_i128.pow(28 - half.scale())
    };
    // An even sum at the largest scale is halved exactly.
    assert_eq!(middle((1, 28), (3, 28)), 2);
    // An odd one is rounded, and stays between the prices.
    assert_eq!(middle((1, 28), (2, 28)), 2);
    assert_eq!(middle((-2, 28), (-1, 28)), -2);
    // A sum of 96 bits: 2^95 + (2^95 - 1), and the same shifted by one each.
    let high: i128 = 1 << 95;
    let half = |a: i128, b: i128| {
        let half = polymarket_ws::decimal::checked_midpoint(
            Decimal::new(a, 0).unwrap(),
            Decimal::new(b, 0).unwrap(),
        )
        .unwrap();
        assert_eq!(half.scale(), 0);
        half.mantissa()
    };
    assert_eq!(half(high, high - 1), high);
    assert_eq!(half(high + 1, high - 2), high);
    assert_eq!(half(high - 1, high - 1), high - 1);
    // The largest odd mantissa of which five times is a mantissa is halved exactly.
    let odd: i128 = 15845632502852867518708790067;
    assert_eq!(5 * odd, (1 << 96) - 1);
    assert_eq!(2 * middle((odd, 27), (0, 0)), 10 * odd);
    // The next one is rounded.
    assert_eq!(middle((odd + 2, 27), (0, 0)), 10 * ((odd + 1) / 2));
    // A sum that does not fit is rounded: the midpoint of equal prices is not the price.
    let price = (79228162514264337593543950333, 28);
    assert_eq!(middle(price, price), 79228162514264337593543950335);
}
