use std::time::Instant;

use polymarket_ws::config::{ReconnectConfig, WebSocketConfig};
use polymarket_ws::connection::{
    session_step, ConnectionManager, ConnectionState, LinkAction, LinkEvent, SessionAction,
    SessionEvent,
};
use polymarket_ws::error::{ParseError, WsError};
use polymarket_ws::heartbeat::{BeatAction, BeatEnd, BeatEvent, Heartbeat};
use polymarket_ws::interest::MessageInterest;
use polymarket_ws::messages::SubscriptionRequest;

fn with_max(max_attempts: Option<u32>) -> ConnectionManager {
    let mut config = WebSocketConfig::default();
    config.reconnect.max_attempts = max_attempts;
    ConnectionManager::new(&config)
}

fn fail(connection: &mut ConnectionManager) -> LinkAction {
    let step = connection.advance(LinkEvent::OpenFailed {
        reason: "refused".to_owned(),
    });
    match step.report {
        Some(WsError::Connection(reason)) => assert_eq!(reason, "refused"),
        _ => panic!("Expected a report"),
    }
    step.action
}

fn act(connection: &mut ConnectionManager, event: LinkEvent) -> LinkAction {
    let step = connection.advance(event);
    assert!(step.report.is_none());
    step.action
}

#[test]
fn connection_lifecycle() {
    let since = Instant::now();
    let mut connection = with_max(None);
    assert_eq!(connection.state(), ConnectionState::Disconnected);
    assert!(!connection.state().is_connected());
    assert_eq!(act(&mut connection, LinkEvent::Started), LinkAction::Open);
    assert_eq!(connection.state(), ConnectionState::Connecting);
    assert_eq!(fail(&mut connection), LinkAction::Wait);
    assert_eq!(connection.state(), ConnectionState::Reconnecting { attempt: 1 });
    assert_eq!(act(&mut connection, LinkEvent::RetryDue), LinkAction::Open);
    assert_eq!(act(&mut connection, LinkEvent::Opened { since }), LinkAction::Serve);
    assert_eq!(connection.state(), ConnectionState::Connected { since });
    assert!(connection.state().is_connected());
    assert_eq!(act(&mut connection, LinkEvent::Ended), LinkAction::Wait);
    assert_eq!(connection.state(), ConnectionState::Reconnecting { attempt: 0 });
}

#[test]
fn gives_up_at_the_maximum() {
    let mut connection = with_max(Some(3));
    act(&mut connection, LinkEvent::Started);
    assert_eq!(fail(&mut connection), LinkAction::Wait);
    act(&mut connection, LinkEvent::RetryDue);
    assert_eq!(fail(&mut connection), LinkAction::Wait);
    act(&mut connection, LinkEvent::RetryDue);
    assert_eq!(fail(&mut connection), LinkAction::Stop);
    assert_eq!(connection.state(), ConnectionState::Disconnected);
    assert_eq!(act(&mut connection, LinkEvent::RetryDue), LinkAction::Ignore);
    assert_eq!(act(&mut connection, LinkEvent::Started), LinkAction::Ignore);
}

#[test]
fn a_success_starts_the_count_over() {
    let mut connection = with_max(Some(2));
    act(&mut connection, LinkEvent::Started);
    fail(&mut connection);
    act(&mut connection, LinkEvent::RetryDue);
    act(&mut connection, LinkEvent::Opened { since: Instant::now() });
    assert_eq!(act(&mut connection, LinkEvent::Ended), LinkAction::Wait);
    act(&mut connection, LinkEvent::RetryDue);
    assert_eq!(fail(&mut connection), LinkAction::Wait);
    act(&mut connection, LinkEvent::RetryDue);
    assert_eq!(fail(&mut connection), LinkAction::Stop);
}

#[test]
fn a_maximum_of_none_at_all_stops_after_the_first_session() {
    let mut connection = with_max(Some(0));
    act(&mut connection, LinkEvent::Started);
    act(&mut connection, LinkEvent::Opened { since: Instant::now() });
    assert_eq!(act(&mut connection, LinkEvent::Ended), LinkAction::Stop);
}

#[test]
fn requests_leave_in_order_once_open() {
    let mut connection = with_max(Some(1));
    let first = SubscriptionRequest::market(vec!["a".to_owned()]);
    let second = SubscriptionRequest::market(vec!["b".to_owned()]);
    assert!(connection.send(&first).is_ok());
    act(&mut connection, LinkEvent::Started);
    assert_eq!(connection.next_outgoing(), None);
    act(&mut connection, LinkEvent::Opened { since: Instant::now() });
    assert!(connection.send(&second).is_ok());
    assert_eq!(connection.next_outgoing(), Some(first.to_json()));
    assert_eq!(connection.next_outgoing(), Some(second.to_json()));
    assert_eq!(connection.next_outgoing(), None);
}

#[test]
fn requests_are_refused_once_given_up() {
    let mut connection = with_max(Some(1));
    let request = SubscriptionRequest::market(vec!["a".to_owned()]);
    act(&mut connection, LinkEvent::Started);
    assert!(connection.send(&request).is_ok());
    assert_eq!(fail(&mut connection), LinkAction::Stop);
    assert!(matches!(connection.send(&request), Err(WsError::ConnectionClosed)));
    assert_eq!(connection.next_outgoing(), None);
}

#[test]
fn sessions_tell_frames_apart() {
    let all = MessageInterest::all();
    let text = |t: &str| session_step(SessionEvent::Text(t.to_owned()), all);
    assert!(matches!(text("PONG"), SessionAction::NotePong));
    assert!(matches!(text(""), SessionAction::Deliver(messages) if messages.is_empty()));
    assert!(matches!(
        text("pong"),
        SessionAction::Report(WsError::MessageParse(ParseError::Syntax(_)))
    ));
    assert!(matches!(
        text("{}"),
        SessionAction::Report(WsError::MessageParse(ParseError::Schema { kind: None, .. }))
    ));
    let book = "{\"event_type\":\"book\",\"asset_id\":\"a\",\"market\":\"m\",\"timestamp\":\"1\"}";
    assert!(matches!(text(book), SessionAction::Deliver(messages) if messages.len() == 1));
    assert!(matches!(
        session_step(SessionEvent::Closed, all),
        SessionAction::End(Some(WsError::ConnectionClosed))
    ));
    assert!(matches!(session_step(SessionEvent::Other, all), SessionAction::Continue));
    assert!(matches!(session_step(SessionEvent::Written, all), SessionAction::Continue));
    assert!(matches!(session_step(SessionEvent::WriteFailed, all), SessionAction::End(None)));
    assert!(matches!(session_step(SessionEvent::Drained, all), SessionAction::End(None)));
    assert!(matches!(session_step(SessionEvent::HeartbeatLost, all), SessionAction::End(None)));
    match session_step(SessionEvent::ReadFailed { reason: "reset".to_owned() }, all) {
        SessionAction::End(Some(WsError::Connection(reason))) => assert_eq!(reason, "reset"),
        _ => panic!("Expected the end"),
    }
}

#[test]
fn heartbeat_rounds() {
    let mut heartbeat = Heartbeat::new(&WebSocketConfig::default());
    assert_eq!(Heartbeat::ping_text(), "PING");
    let tick = |now: u128| BeatEvent::Tick { connected: true, now };
    assert_eq!(heartbeat.step(tick(5)), BeatAction::SendPing);
    assert_eq!(heartbeat.step(tick(6)), BeatAction::Ignore);
    assert_eq!(
        heartbeat.step(BeatEvent::PingSent),
        BeatAction::AwaitPong { within: 30_000_000_000 }
    );
    assert_eq!(heartbeat.step(BeatEvent::PongSeen { last_pong: 5 }), BeatAction::Rest);
    assert_eq!(heartbeat.step(tick(9)), BeatAction::SendPing);
    heartbeat.step(BeatEvent::PingSent);
    assert_eq!(
        heartbeat.step(BeatEvent::PongSeen { last_pong: 8 }),
        BeatAction::Stop(BeatEnd::StalePong)
    );
    assert_eq!(heartbeat.step(tick(20)), BeatAction::Ignore);
}

#[test]
fn heartbeat_ends() {
    for (event, end) in [
        (BeatEvent::PongsClosed, BeatEnd::PongsClosed),
        (BeatEvent::TimedOut, BeatEnd::TimedOut),
    ] {
        let mut heartbeat = Heartbeat::new(&WebSocketConfig::default());
        heartbeat.step(BeatEvent::Tick { connected: true, now: 1 });
        heartbeat.step(BeatEvent::PingSent);
        assert_eq!(heartbeat.step(event), BeatAction::Stop(end));
    }
    let mut heartbeat = Heartbeat::new(&WebSocketConfig::default());
    heartbeat.step(BeatEvent::Tick { connected: true, now: 1 });
    assert_eq!(heartbeat.step(BeatEvent::PingFailed), BeatAction::Stop(BeatEnd::PingFailed));
    let mut heartbeat = Heartbeat::new(&WebSocketConfig::default());
    assert_eq!(
        heartbeat.step(BeatEvent::Tick { connected: false, now: 1 }),
        BeatAction::Stop(BeatEnd::NotConnected)
    );
}

#[test]
fn default_configuration() {
    let config = WebSocketConfig::default();
    assert_eq!(config.heartbeat_interval, 10_000_000_000);
    assert_eq!(config.heartbeat_timeout, 30_000_000_000);
    assert_eq!(config.reconnect.max_attempts, None);
    assert_eq!(config.reconnect.initial_backoff, 1_000_000_000);
    assert_eq!(config.reconnect.max_backoff, 60_000_000_000);
}

#[test]
fn backoff_bounds() {
    let config = ReconnectConfig::default();
    assert_eq!(config.cap_backoff(8_000_000_000), 8_000_000_000);
    assert_eq!(config.cap_backoff(1_024_000_000_000), 60_000_000_000);
    assert_eq!(ReconnectConfig::backoff_exponent(10), 10);
    assert_eq!(ReconnectConfig::backoff_exponent(u32::MAX), i32::MAX);
    assert!(!config.is_spent(u32::MAX));
    let bounded = ReconnectConfig { max_attempts: Some(2), ..config };
    assert!(!bounded.is_spent(1));
    assert!(bounded.is_spent(2));
}

#[test]
fn a_missing_pong_ends_the_connection() {
    let mut heartbeat = Heartbeat::new(&WebSocketConfig::default());
    heartbeat.step(BeatEvent::Tick { connected: true, now: 1 });
    heartbeat.step(BeatEvent::PingSent);
    let end = match heartbeat.step(BeatEvent::TimedOut) {
        BeatAction::Stop(end) => end,
        _ => panic!("Expected the heartbeat to stop"),
    };
    let event = end.session_event().unwrap();
    assert!(matches!(event, SessionEvent::HeartbeatLost));
    assert!(matches!(
        session_step(event, MessageInterest::none()),
        SessionAction::End(None)
    ));
    let mut connection = with_max(None);
    act(&mut connection, LinkEvent::Started);
    act(&mut connection, LinkEvent::Opened { since: Instant::now() });
    act(&mut connection, LinkEvent::Ended);
    assert!(!connection.state().is_connected());
    for end in [
        BeatEnd::NotConnected,
        BeatEnd::PingFailed,
        BeatEnd::StalePong,
        BeatEnd::PongsClosed,
    ] {
        assert!(end.session_event().is_none());
    }
}

#[test]
fn gives_up_only_at_the_maximum_whatever_happens() {
    let mut connection = with_max(Some(2));
    let since = Instant::now();
    act(&mut connection, LinkEvent::Ended);
    act(&mut connection, LinkEvent::Started);
    assert_eq!(fail(&mut connection), LinkAction::Wait);
    // Events that do not fit do not count.
    assert_eq!(act(&mut connection, LinkEvent::Ended), LinkAction::Ignore);
    assert_eq!(act(&mut connection, LinkEvent::Opened { since }), LinkAction::Ignore);
    act(&mut connection, LinkEvent::RetryDue);
    act(&mut connection, LinkEvent::Opened { since });
    act(&mut connection, LinkEvent::Ended);
    act(&mut connection, LinkEvent::RetryDue);
    assert_eq!(fail(&mut connection), LinkAction::Wait);
    act(&mut connection, LinkEvent::RetryDue);
    assert_eq!(fail(&mut connection), LinkAction::Stop);
}
