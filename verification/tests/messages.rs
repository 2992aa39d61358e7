use polymarket_ws::auth::Credentials;
use polymarket_ws::decimal::Decimal;
use polymarket_ws::decode::FromJson;
use polymarket_ws::error::ParseError;
use polymarket_ws::interest::{MessageInterest, MessageKind};
use polymarket_ws::messages::{MidpointUpdate, OrderStatus, Side, SubscriptionRequest, TraderSide, WsMessage};
use polymarket_ws::parse::{parse_ws_text, parse_ws_value};

const NIL_KEY: &str = "00000000-0000-0000-0000-000000000000";

fn value(text: &str) -> serde_json::Value {
    serde_json::from_str(text).unwrap()
}

fn parts(d: Decimal) -> (i128, u32) {
    (d.mantissa(), d.scale())
}

#[test]
fn parse_book_message() {
    let json = r#"{
        "event_type": "book",
        "asset_id": "123",
        "market": "market1",
        "timestamp": "1234567890",
        "bids": [{"price": "0.5", "size": "100"}],
        "asks": [{"price": "0.51", "size": "50"}]
    }"#;

    let msg = WsMessage::from_json(&value(json)).unwrap();
    match msg {
        WsMessage::Book(book) => {
            assert_eq!(book.asset_id, "123");
            assert_eq!(book.bids.len(), 1);
            assert_eq!(book.asks.len(), 1);
        }
        _ => panic!("Expected Book message"),
    }
}

#[test]
fn parse_price_change_message() {
    let json = r#"{
        "event_type": "price_change",
        "asset_id": "456",
        "market": "market2",
        "price": "0.52",
        "size": "10",
        "side": "BUY",
        "timestamp": "1234567890"
    }"#;

    let msg = WsMessage::from_json(&value(json)).unwrap();
    match msg {
        WsMessage::PriceChange(price) => {
            assert_eq!(price.asset_id, "456");
            assert_eq!(price.side, Side::Buy);
            assert_eq!(parts(price.size.unwrap()), (10, 0));
        }
        _ => panic!("Expected PriceChange message"),
    }
}

#[test]
fn parse_price_change_batch_message() {
    let json = r#"{
        "event_type": "price_change",
        "market": "market3",
        "timestamp": "1234567890",
        "price_changes": [
            {
                "asset_id": "asset_a",
                "price": "0.10",
                "side": "BUY",
                "hash": "abc",
                "best_bid": "0.11",
                "best_ask": "0.12"
            },
            {
                "asset_id": "asset_b",
                "price": "0.90",
                "size": "5",
                "side": "SELL"
            }
        ]
    }"#;

    let msgs = parse_ws_text(json, MessageInterest::all()).unwrap();
    assert_eq!(msgs.len(), 2);

    match &msgs[0] {
        WsMessage::PriceChange(price) => {
            assert_eq!(price.asset_id, "asset_a");
            assert_eq!(price.market, "market3");
            // 0.11
            assert_eq!(parts(price.best_bid.unwrap()), (11, 2));
            assert!(price.size.is_none());
        }
        _ => panic!("Expected first price change"),
    }

    match &msgs[1] {
        WsMessage::PriceChange(price) => {
            assert_eq!(price.asset_id, "asset_b");
            assert_eq!(parts(price.size.unwrap()), (5, 0));
            assert_eq!(price.side, Side::Sell);
        }
        _ => panic!("Expected second price change"),
    }
}

#[test]
fn serialize_market_subscription_request() {
    let request = SubscriptionRequest::market(vec!["asset1".to_owned(), "asset2".to_owned()]);

    let json = request.to_json();
    assert!(json.contains("\"type\":\"market\""));
    assert!(json.contains("\"assets_ids\""));
    assert!(json.contains("\"initial_dump\":true"));
}

#[test]
fn serialize_user_subscription_request() {
    let request = SubscriptionRequest::user(
        vec!["market1".to_owned()],
        Credentials::new(
            NIL_KEY.to_owned(),
            "test-secret".to_owned(),
            "test-pass".to_owned(),
        ),
    );

    let json = request.to_json();
    assert!(json.contains("\"type\":\"user\""));
    assert!(json.contains("\"markets\""));
    assert!(json.contains("\"auth\""));
    assert!(json.contains(&format!("\"apiKey\":\"{}\"", NIL_KEY)));
    assert!(json.contains("\"initial_dump\":true"));
}

#[test]
fn requests_are_written_in_full() {
    let market = SubscriptionRequest::market(vec!["a".to_owned(), "b\"\\\n\u{1}é".to_owned()]);
    assert_eq!(
        market.to_json(),
        "{\"type\":\"market\",\"markets\":[],\"assets_ids\":[\"a\",\"b\\\"\\\\\\n\\u0001é\"],\"initial_dump\":true}"
    );
    let mut user = SubscriptionRequest::user(
        Vec::new(),
        Credentials::new("k".to_owned(), "s".to_owned(), "p".to_owned()),
    );
    assert_eq!(
        user.to_json(),
        "{\"type\":\"user\",\"markets\":[],\"assets_ids\":[],\"initial_dump\":true,\"auth\":{\"apiKey\":\"k\",\"secret\":\"s\",\"passphrase\":\"p\"}}"
    );
    user.initial_dump = None;
    user.auth = None;
    assert_eq!(
        user.to_json(),
        "{\"type\":\"user\",\"markets\":[],\"assets_ids\":[]}"
    );
    user.initial_dump = Some(false);
    assert_eq!(
        user.to_json(),
        "{\"type\":\"user\",\"markets\":[],\"assets_ids\":[],\"initial_dump\":false}"
    );
}

#[test]
fn written_requests_are_json() {
    let request = SubscriptionRequest::user(
        vec!["m\u{8}\u{c}\t\r".to_owned()],
        Credentials::new("k".to_owned(), "s".to_owned(), "p".to_owned()),
    );
    let read = value(&request.to_json());
    assert_eq!(read["type"], "user");
    assert_eq!(read["markets"][0], "m\u{8}\u{c}\t\r");
    assert_eq!(read["auth"]["passphrase"], "p");
}

#[test]
fn blank_text_has_no_messages() {
    assert!(parse_ws_text("", MessageInterest::all()).unwrap().is_empty());
    assert!(parse_ws_text(" \t\r\n\u{a0}", MessageInterest::all()).unwrap().is_empty());
}

#[test]
fn broken_text_is_a_syntax_error() {
    for text in ["PONGS", "{", "[1, 2", "{} {}"] {
        assert!(matches!(
            parse_ws_text(text, MessageInterest::all()),
            Err(ParseError::Syntax(_))
        ));
    }
}

#[test]
fn other_json_is_a_schema_error() {
    for text in ["1", "null", "{}", "{\"event_type\":\"book\"}", "[1]", "[[]]"] {
        assert!(matches!(
            parse_ws_text(text, MessageInterest::all()),
            Err(ParseError::Schema { .. })
        ));
    }
    let kind = |text: &str| match parse_ws_text(text, MessageInterest::all()) {
        Err(ParseError::Schema { kind, .. }) => kind,
        _ => panic!("Expected a schema error"),
    };
    assert_eq!(kind("{}"), None);
    assert_eq!(kind("{\"event_type\":\"trade\"}"), Some(MessageKind::Trade));
    // The first value of the wrong shape is told.
    assert_eq!(
        kind("[{\"event_type\":\"order\"},{\"event_type\":\"trade\"},{}]"),
        Some(MessageKind::Order)
    );
}

const TICK: &str = r#"{"event_type":"tick_size_change","asset_id":"t","market":"m","old_tick_size":"0.01","new_tick_size":"0.001","timestamp":"-5"}"#;
const LAST: &str = r#"{"event_type":"last_trade_price","asset_id":"l","market":"m","price":0.25,"timestamp":"7","side":null}"#;
const TRADE: &str = r#"{"event_type":"trade","id":"1","market":"m","asset_id":"a","side":"SELL","size":"3","price":"0.4","status":"MATCHED","type":"TRADE","maker_orders":[{"asset_id":"x","matched_amount":"1","order_id":"o","outcome":"Yes","owner":"k","price":"0.4"}],"trader_side":"MAKER"}"#;
const ORDER: &str = r#"{"event_type":"order","id":"2","market":"m","asset_id":"a","side":{"BUY":null},"price":"0.4","type":"PLACEMENT","associate_trades":["t1","t2"]}"#;

#[test]
fn every_kind_is_read() {
    let text = format!("  [{},{},{},{}]  ", TICK, LAST, TRADE, ORDER);
    let messages = parse_ws_text(&text, MessageInterest::all()).unwrap();
    assert_eq!(messages.len(), 4);
    match &messages[0] {
        WsMessage::TickSizeChange(m) => {
            assert_eq!(m.asset_id, "t");
            assert_eq!(parts(m.old_tick_size), (1, 2));
            assert_eq!(parts(m.new_tick_size), (1, 3));
            assert_eq!(m.timestamp, -5);
        }
        _ => panic!("Expected a tick size change"),
    }
    match &messages[1] {
        WsMessage::LastTradePrice(m) => {
            assert_eq!(parts(m.price), (25, 2));
            assert_eq!(m.side, None);
        }
        _ => panic!("Expected a last trade price"),
    }
    match &messages[2] {
        WsMessage::Trade(m) => {
            assert_eq!(m.side, Side::Sell);
            assert_eq!(m.msg_type.as_deref(), Some("TRADE"));
            assert_eq!(m.maker_orders.len(), 1);
            assert_eq!(m.maker_orders[0].order_id, "o");
            assert_eq!(m.trader_side, Some(TraderSide::Maker));
            assert_eq!(m.owner, None);
        }
        _ => panic!("Expected a trade"),
    }
    match &messages[3] {
        WsMessage::Order(m) => {
            assert_eq!(m.side, Side::Buy);
            assert_eq!(m.associate_trades, Some(vec!["t1".to_owned(), "t2".to_owned()]));
        }
        _ => panic!("Expected an order"),
    }
    assert!(messages[2].is_user() && !messages[2].is_market());
    assert!(messages[0].is_market() && !messages[0].is_user());
}

#[test]
fn one_bad_value_fails_the_whole_array() {
    let text = format!("[{},{{\"event_type\":\"book\"}}]", TICK);
    assert!(matches!(
        parse_ws_text(&text, MessageInterest::all()),
        Err(ParseError::Schema { kind: Some(MessageKind::Book), .. })
    ));
    // Skipped for want of interest, the bad value does no harm.
    assert!(parse_ws_text(&text, MessageInterest::user()).unwrap().is_empty());
}

#[test]
fn arrays_concatenate() {
    let both = format!("[{},{}]", TICK, LAST);
    let all = parse_ws_text(&both, MessageInterest::all()).unwrap();
    let first = parse_ws_text(TICK, MessageInterest::all()).unwrap();
    let second = parse_ws_text(LAST, MessageInterest::all()).unwrap();
    assert_eq!(all.len(), first.len() + second.len());
    assert_eq!(
        format!("{:?}", all),
        format!("{:?}", first.into_iter().chain(second).collect::<Vec<_>>())
    );
}

#[test]
fn interest_selects_by_kind() {
    for (text, user) in [(TICK, false), (LAST, false), (TRADE, true), (ORDER, true)] {
        let market = parse_ws_text(text, MessageInterest::market()).unwrap();
        let own = parse_ws_text(text, MessageInterest::user()).unwrap();
        assert_eq!(market.len(), if user { 0 } else { 1 });
        assert_eq!(own.len(), if user { 1 } else { 0 });
        assert!(parse_ws_text(text, MessageInterest::none()).unwrap().is_empty());
    }
}

#[test]
fn interest_selects_without_a_known_event_type() {
    let book = r#"{"asset_id":"1","market":"m","timestamp":"5"}"#;
    let mut trades = MessageInterest::none();
    trades.trade = true;
    assert!(parse_ws_text(book, trades).unwrap().is_empty());
    let messages = parse_ws_text(book, MessageInterest::market()).unwrap();
    assert!(matches!(messages[0], WsMessage::Book(_)));

    let news = r#"{"event_type":"news","asset_id":"l","market":"m","price":"1","timestamp":"7"}"#;
    assert!(parse_ws_text(news, MessageInterest::none()).unwrap().is_empty());
    assert!(parse_ws_text(news, MessageInterest::user()).unwrap().is_empty());
    let messages = parse_ws_text(news, MessageInterest::all()).unwrap();
    assert!(matches!(messages[0], WsMessage::LastTradePrice(_)));

    // Without a kind, a value of the wrong shape is an error whatever the interest.
    assert!(parse_ws_text("{}", MessageInterest::none()).is_err());
}

#[test]
fn the_first_fitting_shape_wins() {
    // Has what a price change needs and what a last trade price needs.
    let text = r#"{"asset_id":"l","market":"m","price":"1","side":"BUY","timestamp":"7"}"#;
    let message = WsMessage::from_json(&value(text)).unwrap();
    assert!(matches!(message, WsMessage::PriceChange(_)));
}

#[test]
fn records_may_be_arrays() {
    let text = r#"["a","m","7",[["0.4","1"]],[],null]"#;
    let message = WsMessage::from_json(&value(text)).unwrap();
    match message {
        WsMessage::Book(book) => {
            assert_eq!(book.asset_id, "a");
            assert_eq!(parts(book.bids[0].price), (4, 1));
            assert_eq!(book.hash, None);
        }
        _ => panic!("Expected a book"),
    }
    assert!(WsMessage::from_json(&value(r#"["a","m","7",[],[]]"#)).is_none());
    assert!(WsMessage::from_json(&value(r#"["a","m","7",[],[],null,1]"#)).is_none());
}

#[test]
fn batch_timestamp_may_be_a_number() {
    let text = r#"{"event_type":"price_change","market":"m","timestamp":12,"price_changes":[{"asset_id":"a","price":"1","side":"BUY"}]}"#;
    match &parse_ws_text(text, MessageInterest::all()).unwrap()[0] {
        WsMessage::PriceChange(change) => assert_eq!(change.timestamp, 12),
        _ => panic!("Expected a price change"),
    }
    let single = r#"{"event_type":"price_change","asset_id":"a","market":"m","price":"1","side":"BUY","timestamp":12}"#;
    assert!(parse_ws_text(single, MessageInterest::all()).is_err());
}

#[test]
fn empty_batch_has_no_messages() {
    let text = r#"{"event_type":"price_change","market":"m","timestamp":"12","price_changes":[]}"#;
    assert!(parse_ws_text(text, MessageInterest::all()).unwrap().is_empty());
    let broken = r#"{"event_type":"price_change","market":"m","timestamp":"12","price_changes":null}"#;
    assert!(parse_ws_value(&value(broken), MessageInterest::all()).is_err());
}

#[test]
fn timestamps_are_integers_in_strings() {
    for (timestamp, read) in [
        ("\"9223372036854775807\"", true),
        ("\"-9223372036854775808\"", true),
        ("\"+5\"", true),
        ("\"9223372036854775808\"", false),
        ("\" 5\"", false),
        ("\"\"", false),
        ("5", false),
    ] {
        let text = format!(
            "{{\"event_type\":\"book\",\"asset_id\":\"a\",\"market\":\"m\",\"timestamp\":{}}}",
            timestamp
        );
        assert_eq!(parse_ws_text(&text, MessageInterest::all()).is_ok(), read);
    }
}

#[test]
fn order_status_round_trip() {
    for status in [
        OrderStatus::Open,
        OrderStatus::Matched,
        OrderStatus::PartiallyFilled,
        OrderStatus::Cancelled,
        OrderStatus::Placement,
        OrderStatus::Update,
        OrderStatus::Cancellation,
    ] {
        let name = serde_json::Value::String(status.as_str().to_owned());
        assert_eq!(OrderStatus::from_json(&name), Some(status));
    }
    assert_eq!(OrderStatus::PartiallyFilled.as_str(), "PARTIALLY_FILLED");
    assert_eq!(OrderStatus::from_json(&value("\"Open\"")), None);
    assert_eq!(OrderStatus::from_json(&value("{\"OPEN\":null}")), Some(OrderStatus::Open));
    assert_eq!(OrderStatus::from_json(&value("{\"OPEN\":1}")), None);
    assert_eq!(OrderStatus::from_json(&value("{\"OPEN\":null,\"UPDATE\":null}")), None);
}

#[test]
fn decimals_are_read_from_json() {
    for (text, expected) in [
        ("\"0.50\"", Some((50, 2))),
        ("\"-1.5\"", Some((-15, 1))),
        ("\"+007\"", Some((7, 0))),
        ("\"-0\"", Some((0, 0))),
        ("\"1234567890123456789012345678\"", Some((1234567890123456789012345678, 0))),
        ("\"1.234567890123456789012345678\"", Some((1234567890123456789012345678, 27))),
        ("\"-9.999999999999999999999999999\"", Some((-9999999999999999999999999999, 27))),
        ("18446744073709551615", Some((18446744073709551615, 0))),
        ("-3", Some((-3, 0))),
        ("0.25", Some((25, 2))),
        ("\"1e2\"", Some((100, 0))),
        ("\"\"", None),
        ("\"abc\"", None),
        ("null", None),
        ("[1]", None),
        ("{}", None),
        ("true", None),
    ] {
        assert_eq!(Decimal::from_value(&value(text)).map(parts), expected);
    }
}

#[test]
fn midpoints_are_read_from_json() {
    let text = r#"{"asset_id":"a","market":"m","midpoint":"0.505","timestamp":"9"}"#;
    let update = MidpointUpdate::from_json(&value(text)).unwrap();
    assert_eq!(update.asset_id, "a");
    assert_eq!(update.market, "m");
    assert_eq!(parts(update.midpoint), (505, 3));
    assert_eq!(update.timestamp, 9);
    assert!(MidpointUpdate::from_json(&value("{}")).is_none());
}

#[test]
fn schema_errors_tell_the_fault() {
    let account = |text: &str| match parse_ws_text(text, MessageInterest::all()) {
        Err(ParseError::Schema { fault, .. }) => fault.describe(),
        _ => panic!("Expected a schema error"),
    };
    // What is missing is told in the order of the fields.
    assert_eq!(account(r#"{"event_type":"book"}"#), "missing field `asset_id`");
    assert_eq!(
        account(r#"{"event_type":"book","asset_id":"a","market":"m"}"#),
        "missing field `timestamp`"
    );
    // What is there but wrong comes before what is missing, by name.
    assert_eq!(
        account(r#"{"event_type":"book","market":1,"asks":5}"#),
        "invalid value of field `asks`"
    );
    assert_eq!(
        account(r#"{"event_type":"book","asset_id":"a","market":"m","timestamp":"x"}"#),
        "invalid value of field `timestamp`"
    );
    // Faults inside lists are those of the first bad item.
    assert_eq!(
        account(
            r#"{"event_type":"book","asset_id":"a","market":"m","timestamp":"1","bids":[{"price":"1","size":"1"},{"price":"1"}]}"#
        ),
        "missing field `size`"
    );
    assert_eq!(
        account(
            r#"{"event_type":"book","asset_id":"a","market":"m","timestamp":"1","bids":[["1"]]}"#
        ),
        "array of the wrong length"
    );
    assert_eq!(
        account(
            r#"{"event_type":"book","asset_id":"a","market":"m","timestamp":"1","bids":[7]}"#
        ),
        "expected an object or an array"
    );
    assert_eq!(
        account(
            r#"{"event_type":"book","asset_id":"a","market":"m","timestamp":"1","bids":[[[],"1"]]}"#
        ),
        "invalid value of field `price`"
    );
    assert_eq!(
        account(
            r#"{"event_type":"order","id":"1","market":"m","asset_id":"a","side":"BUY","price":"1","associate_trades":[1]}"#
        ),
        "expected a string"
    );
    assert_eq!(
        account(r#"{"event_type":"trade","type":1}"#),
        "invalid value of field `type`"
    );
    assert_eq!(
        account(r#"{"event_type":"price_change","market":"m","timestamp":"1","price_changes":{}}"#),
        "invalid value of field `price_changes`"
    );
    assert_eq!(
        account("{}"),
        "data did not match any variant of untagged enum WsMessage"
    );
    // The first value of the wrong shape is told.
    assert_eq!(
        account(r#"[{"event_type":"order","id":1},{}]"#),
        "invalid value of field `id`"
    );
    assert_eq!(OrderStatus::explain(&value("1")).describe(), "unknown variant");
    assert_eq!(
        MidpointUpdate::explain(&value(r#"{"asset_id":"a"}"#)).describe(),
        "missing field `market`"
    );
}

#[test]
fn smaller_interest_selects_in_arrays() {
    let text = format!("[{},{},{},{}]", TICK, TRADE, LAST, ORDER);
    let all = parse_ws_text(&text, MessageInterest::all()).unwrap();
    let user = parse_ws_text(&text, MessageInterest::user()).unwrap();
    assert_eq!(
        format!("{:?}", user),
        format!("{:?}", all.into_iter().filter(|m| m.is_user()).collect::<Vec<_>>())
    );
}
