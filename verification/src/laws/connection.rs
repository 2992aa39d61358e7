//! The life of a connection and of its heartbeat.

use std::time::Instant;

use vstd::prelude::*;

use crate::config::{ReconnectConfig, WebSocketConfig};
use crate::connection::{
    is_session_action, ConnectionState, LinkAction, LinkEvent, LinkView, Phase, SessionAction,
    SessionEvent,
};
use crate::error::WsError;
use crate::heartbeat::{beat_action, beat_after, ending_event, Beat, BeatAction, BeatEnd, BeatEvent};
use crate::interest::{MessageInterest, MessageKind};
use crate::json::json_text;
use crate::messages::message_views;
use crate::parse::text_messages;
use crate::text::trimmed;

verus! {

/// The attempts are spent exactly where there is a maximum and as many failed.
pub proof fn law_spent_attempts(reconnect: ReconnectConfig, attempt: u32)
    ensures
        reconnect.spent(attempt) <==> reconnect.max_attempts is Some && attempt
            >= reconnect.max_attempts->0,
{
}

/// The defaults: a PING every ten seconds, thirty seconds for its PONG,
/// attempts without end, and waits from one second to sixty.
pub proof fn law_defaults()
    ensures
        WebSocketConfig::standard().heartbeat_interval == 10 * 1_000_000_000,
        WebSocketConfig::standard().heartbeat_timeout == 30 * 1_000_000_000,
        WebSocketConfig::standard().reconnect == ReconnectConfig::standard(),
        ReconnectConfig::standard().max_attempts is None,
        ReconnectConfig::standard().initial_backoff == 1_000_000_000,
        ReconnectConfig::standard().max_backoff == 60 * 1_000_000_000,
{
}

/// A new connection has done nothing and has nothing to send.
pub proof fn law_new_connection(reconnect: ReconnectConfig)
    ensures
        LinkView::fresh(reconnect).phase is Idle,
        LinkView::fresh(reconnect).attempt == 0,
        LinkView::fresh(reconnect).reconnect == reconnect,
        LinkView::fresh(reconnect).outbox.len() == 0,
{
}

/// No event changes the configuration. What waits to be sent is the same after
/// an event as before it, unless the event makes the connection be given up.
pub proof fn law_events_keep_what_waits(link: LinkView, event: LinkEvent)
    ensures
        link.after(event).reconnect == link.reconnect,
        !(link.after(event).phase is Stopped) ==> link.after(event).outbox == link.outbox,
        link.phase is Stopped ==> link.after(event).outbox == link.outbox,
        link.after(event).phase is Stopped && !(link.phase is Stopped) ==> link.after(
            event,
        ).outbox.len() == 0,
{
}

/// Over any run of events, a request that was accepted still waits to be sent,
/// in its place, unless the connection has been given up.
pub proof fn law_accepted_requests_wait(link: LinkView, events: Seq<LinkEvent>)
    ensures
        link.after_all(events).phase is Stopped || link.after_all(events).outbox == link.outbox,
        link.phase is Stopped ==> link.after_all(events) == link,
    decreases events.len(),
{
    if events.len() > 0 {
        law_accepted_requests_wait(link, events.drop_last());
        law_events_keep_what_waits(link.after_all(events.drop_last()), events.last());
    }
}

/// Events come one after the other.
pub proof fn law_runs_of_events(link: LinkView, events: Seq<LinkEvent>, event: LinkEvent)
    ensures
        link.after_all(Seq::<LinkEvent>::empty()) == link,
        link.after_all(events.push(event)) == link.after_all(events).after(event),
{
    assert(events.push(event).drop_last() =~= events);
}

/// What each event does where it fits: starting opens, an attempt that succeeds
/// makes the connection open and forgets the failures, one that fails counts,
/// the end of an open connection does not, and a retry opens again. After a
/// failure or an end the connection waits, unless the attempts are spent: then
/// it is given up.
pub proof fn law_fitting_events(link: LinkView, since: Instant, reason: String)
    ensures
        link.phase is Idle ==> link.after(LinkEvent::Started).phase is Opening && link.after(
            LinkEvent::Started,
        ).attempt == link.attempt,
        link.phase is Waiting ==> link.after(LinkEvent::RetryDue).phase is Opening && link.after(
            LinkEvent::RetryDue,
        ).attempt == link.attempt,
        link.phase is Opening ==> link.after(LinkEvent::Opened { since }).phase == (Phase::Open {
            since,
        }) && link.after(LinkEvent::Opened { since }).attempt == 0,
        link.phase is Opening && link.attempt < u32::MAX ==> link.after(
            LinkEvent::OpenFailed { reason },
        ).attempt == link.attempt + 1,
        link.phase is Opening && link.attempt == u32::MAX ==> link.after(
            LinkEvent::OpenFailed { reason },
        ).attempt == u32::MAX,
        link.phase is Open ==> link.after(LinkEvent::Ended).attempt == link.attempt,
        ({
            let failed = link.after(LinkEvent::OpenFailed { reason });
            link.phase is Opening ==> if link.reconnect.max_attempts is Some && failed.attempt
                >= link.reconnect.max_attempts->0 {
                failed.phase is Stopped
            } else {
                failed.phase is Waiting
            }
        }),
        ({
            let ended = link.after(LinkEvent::Ended);
            link.phase is Open ==> if link.reconnect.max_attempts is Some && link.attempt
                >= link.reconnect.max_attempts->0 {
                ended.phase is Stopped
            } else {
                ended.phase is Waiting
            }
        }),
{
}

/// An event that does not fit changes nothing.
pub proof fn law_unfitting_events(link: LinkView, event: LinkEvent)
    requires
        match event {
            LinkEvent::Started => !(link.phase is Idle),
            LinkEvent::Opened { since: _ } => !(link.phase is Opening),
            LinkEvent::OpenFailed { reason: _ } => !(link.phase is Opening),
            LinkEvent::Ended => !(link.phase is Open),
            LinkEvent::RetryDue => !(link.phase is Waiting),
        },
    ensures
        link.after(event) == link,
        link.action(event) == LinkAction::Ignore,
{
}

/// What is done is what the connection has come to: it is opened where it
/// begins to open, served where it has opened, waited for where it begins to
/// wait, and stopped where it is given up.
pub proof fn law_actions_follow_the_connection(link: LinkView, event: LinkEvent)
    ensures
        link.action(event) == LinkAction::Open <==> !(link.phase is Opening) && link.after(
            event,
        ).phase is Opening,
        link.action(event) == LinkAction::Serve <==> !(link.phase is Open) && link.after(
            event,
        ).phase is Open,
        link.action(event) == LinkAction::Wait <==> !(link.phase is Waiting) && link.after(
            event,
        ).phase is Waiting,
        link.action(event) == LinkAction::Stop <==> !(link.phase is Stopped) && link.after(
            event,
        ).phase is Stopped,
{
}

/// What users of a connection see of it.
pub proof fn law_states(link: LinkView)
    ensures
        match link.phase {
            Phase::Idle => link.state() == ConnectionState::Disconnected,
            Phase::Opening => link.state() == ConnectionState::Connecting,
            Phase::Open { since } => link.state() == (ConnectionState::Connected { since }),
            Phase::Waiting => link.state() == (ConnectionState::Reconnecting {
                attempt: link.attempt,
            }),
            Phase::Stopped => link.state() == ConnectionState::Disconnected,
        },
{
}

/// The text `PONG` is noted. Any other text is delivered as the messages that
/// it has, all of them and in order, or reported where it has none for a fault.
/// A close frame and a failed read end the session with their error; a failed
/// write, a drained connection and a lost heartbeat end it without one. Nothing
/// else ends it.
pub proof fn law_session(
    event: SessionEvent,
    interest: MessageInterest,
    action: SessionAction,
)
    requires
        is_session_action(event, interest, action),
    ensures
        match event {
            SessionEvent::Text(text) => {
                &&& text@ == "PONG"@ <==> action is NotePong
                &&& text@ != "PONG"@ && text_messages(text@, interest) is Some ==> action is Deliver
                    && message_views(action->Deliver_0@) == text_messages(text@, interest)->0
                &&& text@ != "PONG"@ && text_messages(text@, interest) is None ==> action is Report
                    && action->Report_0 is MessageParse
                        && (action->Report_0->MessageParse_0 is Syntax
                    <==> json_text(trimmed(text@)) is None)
            },
            SessionEvent::Closed => action == SessionAction::End(Some(WsError::ConnectionClosed)),
            SessionEvent::ReadFailed { reason } => action == SessionAction::End(
                Some(WsError::Connection(reason)),
            ),
            SessionEvent::WriteFailed => action == SessionAction::End(None),
            SessionEvent::Drained => action == SessionAction::End(None),
            SessionEvent::HeartbeatLost => action == SessionAction::End(None),
            SessionEvent::Other => action is Continue,
            SessionEvent::Written => action is Continue,
        },
{
}

/// How the heartbeat goes on: a tick on an open connection sends a PING, one on
/// another stops it. A PING that was sent is awaited for as long as the timeout
/// says, one that was not stops it. A PONG that is not older than the PING lets
/// it rest until the next tick.
pub proof fn law_heartbeat(
    now: u128,
    ping_sent: u128,
    last_pong: u128,
    timeout: u128,
)
    ensures
        beat_after(Beat::Resting, BeatEvent::Tick { connected: true, now }) == (Beat::Pinging {
            ping_sent: now,
        }),
        beat_action(Beat::Resting, timeout, BeatEvent::Tick { connected: true, now })
            == BeatAction::SendPing,
        beat_after(Beat::Resting, BeatEvent::Tick { connected: false, now }) == Beat::Stopped,
        beat_action(Beat::Resting, timeout, BeatEvent::Tick { connected: false, now })
            == BeatAction::Stop(BeatEnd::NotConnected),
        beat_after(Beat::Pinging { ping_sent }, BeatEvent::PingSent) == (Beat::Awaiting {
            ping_sent,
        }),
        beat_action(Beat::Pinging { ping_sent }, timeout, BeatEvent::PingSent) == (
        BeatAction::AwaitPong { within: timeout }),
        beat_after(Beat::Pinging { ping_sent }, BeatEvent::PingFailed) == Beat::Stopped,
        beat_action(Beat::Pinging { ping_sent }, timeout, BeatEvent::PingFailed)
            == BeatAction::Stop(BeatEnd::PingFailed),
        ping_sent <= last_pong ==> beat_after(
            Beat::Awaiting { ping_sent },
            BeatEvent::PongSeen { last_pong },
        ) == Beat::Resting,
        ping_sent <= last_pong ==> beat_action(
            Beat::Awaiting { ping_sent },
            timeout,
            BeatEvent::PongSeen { last_pong },
        ) == BeatAction::Rest,
        ping_sent > last_pong ==> beat_after(
            Beat::Awaiting { ping_sent },
            BeatEvent::PongSeen { last_pong },
        ) == Beat::Stopped,
        ping_sent > last_pong ==> beat_action(
            Beat::Awaiting { ping_sent },
            timeout,
            BeatEvent::PongSeen { last_pong },
        ) == BeatAction::Stop(BeatEnd::StalePong),
        beat_after(Beat::Awaiting { ping_sent }, BeatEvent::PongsClosed) == Beat::Stopped,
        beat_action(Beat::Awaiting { ping_sent }, timeout, BeatEvent::PongsClosed)
            == BeatAction::Stop(BeatEnd::PongsClosed),
        beat_after(Beat::Awaiting { ping_sent }, BeatEvent::TimedOut) == Beat::Stopped,
        beat_action(Beat::Awaiting { ping_sent }, timeout, BeatEvent::TimedOut)
            == BeatAction::Stop(BeatEnd::TimedOut),
{
}

/// An event that does not fit leaves the heartbeat as it is.
pub proof fn law_unfitting_heartbeat_events(beat: Beat, timeout: u128, event: BeatEvent)
    requires
        match event {
            BeatEvent::Tick { connected: _, now: _ } => !(beat is Resting),
            BeatEvent::PingSent => !(beat is Pinging),
            BeatEvent::PingFailed => !(beat is Pinging),
            BeatEvent::PongSeen { last_pong: _ } => !(beat is Awaiting),
            BeatEvent::PongsClosed => !(beat is Awaiting),
            BeatEvent::TimedOut => !(beat is Awaiting),
        },
    ensures
        beat_after(beat, event) == beat,
        beat_action(beat, timeout, event) == BeatAction::Ignore,
{
}

/// The heartbeat stops exactly where it says so.
pub proof fn law_heartbeat_stops_as_it_says(beat: Beat, timeout: u128, event: BeatEvent)
    ensures
        beat_action(beat, timeout, event) is Stop <==> beat_after(beat, event) == Beat::Stopped
            && beat != Beat::Stopped,
{
}

/// Of the ends of the heartbeat, the timeout alone ends the session.
pub proof fn law_ends_of_the_heartbeat(end: BeatEnd)
    ensures
        end == BeatEnd::TimedOut ==> ending_event(end) == Some(SessionEvent::HeartbeatLost),
        end != BeatEnd::TimedOut ==> ending_event(end) is None,
{
}

/// The six kinds in an interest, each on its own.
pub proof fn law_kinds_of_interest(a: MessageInterest, b: MessageInterest)
    ensures
        a.has(MessageKind::Book) == a.book,
        a.has(MessageKind::PriceChange) == a.price_change,
        a.has(MessageKind::TickSize) == a.tick_size,
        a.has(MessageKind::LastTradePrice) == a.last_trade_price,
        a.has(MessageKind::Trade) == a.trade,
        a.has(MessageKind::Order) == a.order,
        a.with(b).book == (a.book || b.book),
        a.with(b).price_change == (a.price_change || b.price_change),
        a.with(b).tick_size == (a.tick_size || b.tick_size),
        a.with(b).last_trade_price == (a.last_trade_price || b.last_trade_price),
        a.with(b).trade == (a.trade || b.trade),
        a.with(b).order == (a.order || b.order),
{
}

/// The market data channel has four kinds, the user channel the other two.
pub proof fn law_kinds_of_channels()
    ensures
        MessageInterest::market_kinds() == (MessageInterest {
            book: true,
            price_change: true,
            tick_size: true,
            last_trade_price: true,
            trade: false,
            order: false,
        }),
        MessageInterest::user_kinds() == (MessageInterest {
            book: false,
            price_change: false,
            tick_size: false,
            last_trade_price: false,
            trade: true,
            order: true,
        }),
        MessageInterest::empty() == (MessageInterest {
            book: false,
            price_change: false,
            tick_size: false,
            last_trade_price: false,
            trade: false,
            order: false,
        }),
{
}

} // verus!
