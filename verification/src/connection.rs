//! The life of a connection.
//!
//! [`ConnectionManager`] decides what happens to a connection; whoever owns the
//! socket performs the [`LinkAction`]s and tells what came of them as
//! [`LinkEvent`]s. [`session_step`] decides what a frame on an open connection
//! means.

use std::collections::VecDeque;
use std::time::Instant;

use vstd::prelude::*;

use crate::config::{ReconnectConfig, WebSocketConfig};
use crate::error::{ParseError, WsError};
use crate::interest::MessageInterest;
use crate::json::json_text;
use crate::messages::{message_views, request_json, SubscriptionRequest, WsMessage};
use crate::parse::{
    carried, failing_value, is_schema_error, parse_ws_text, text_messages,
};
use crate::text::{same_text, texts, trimmed};

verus! {

/// `std::time::Instant`, carried without looking inside.
#[verifier::external_type_specification]
#[verifier::external_body]
pub struct ExInstant(std::time::Instant);

/// Connection state tracking.
#[derive(Debug, Clone, Copy, PartialEq, Eq)]
pub enum ConnectionState {
    /// Not connected
    Disconnected,
    /// Attempting to connect
    Connecting,
    /// Successfully connected
    Connected {
        /// When the connection was established
        since: Instant,
    },
    /// Reconnecting after failure
    Reconnecting {
        /// Current reconnection attempt number
        attempt: u32,
    },
}

impl ConnectionState {
    /// Check if the connection is currently active.
    pub fn is_connected(self) -> (r: bool)
        ensures
            r == (self is Connected),
    {
        match self {
            ConnectionState::Connected { since: _ } => true,
            _ => false,
        }
    }
}

/// Where a connection stands.
#[derive(Debug, Clone, Copy)]
pub enum Phase {
    /// Nothing has been tried yet
    Idle,
    /// An attempt to connect is under way
    Opening,
    /// The connection is open
    Open {
        /// When it was established
        since: Instant,
    },
    /// The next attempt waits for its time
    Waiting,
    /// No more attempts are made
    Stopped,
}

/// What happened to a connection.
#[derive(Debug)]
pub enum LinkEvent {
    /// The connection shall be opened
    Started,
    /// An attempt to connect succeeded
    Opened {
        /// When it did
        since: Instant,
    },
    /// An attempt to connect failed
    OpenFailed {
        /// The transport's account of it
        reason: String,
    },
    /// An open connection came to its end
    Ended,
    /// The wait before the next attempt is over
    RetryDue,
}

/// What is to be done about a connection.
#[derive(Debug, Clone, Copy, PartialEq, Eq, Structural)]
pub enum LinkAction {
    /// Try to connect
    Open,
    /// Serve the open connection, and start the backoff over
    Serve,
    /// Wait for as long as the backoff says
    Wait,
    /// Give the connection up
    Stop,
    /// Do nothing: the event does not fit where the connection stands
    Ignore,
}

/// What is to be done about a connection, and what subscribers are told.
#[derive(Debug)]
pub struct LinkStep {
    /// What is to be done
    pub action: LinkAction,
    /// The error that subscribers are told
    pub report: Option<WsError>,
}

/// What a [`ConnectionManager`] holds.
#[verifier::ext_equal]
pub struct LinkView {
    pub phase: Phase,
    /// Failed attempts since the connection was last open.
    pub attempt: u32,
    pub reconnect: ReconnectConfig,
    /// Texts that wait to be sent, the next one first.
    pub outbox: Seq<Seq<char>>,
}

impl LinkView {
    /// A connection that has not been started.
    pub open spec fn fresh(reconnect: ReconnectConfig) -> LinkView {
        LinkView { phase: Phase::Idle, attempt: 0, reconnect, outbox: Seq::empty() }
    }

    /// What the connection is when it is neither open nor being opened any
    /// more: given up, with what waited to be sent dropped, or waiting.
    pub open spec fn down(self, attempt: u32) -> LinkView {
        if self.reconnect.spent(attempt) {
            LinkView { phase: Phase::Stopped, attempt, outbox: Seq::empty(), ..self }
        } else {
            LinkView { phase: Phase::Waiting, attempt, ..self }
        }
    }

    /// The number of failed attempts after one more.
    pub open spec fn failed_once_more(self) -> u32 {
        if self.attempt < u32::MAX {
            (self.attempt + 1) as u32
        } else {
            u32::MAX
        }
    }

    /// The connection after an event.
    pub open spec fn after(self, event: LinkEvent) -> LinkView {
        match (self.phase, event) {
            (Phase::Idle, LinkEvent::Started) => LinkView { phase: Phase::Opening, ..self },
            (Phase::Opening, LinkEvent::Opened { since }) => LinkView {
                phase: Phase::Open { since },
                attempt: 0,
                ..self
            },
            (Phase::Opening, LinkEvent::OpenFailed { reason: _ }) => self.down(
                self.failed_once_more(),
            ),
            (Phase::Open { since: _ }, LinkEvent::Ended) => self.down(self.attempt),
            (Phase::Waiting, LinkEvent::RetryDue) => LinkView { phase: Phase::Opening, ..self },
            _ => self,
        }
    }

    /// What is done upon an event.
    pub open spec fn action(self, event: LinkEvent) -> LinkAction {
        match (self.phase, event) {
            (Phase::Idle, LinkEvent::Started) => LinkAction::Open,
            (Phase::Opening, LinkEvent::Opened { since: _ }) => LinkAction::Serve,
            (Phase::Opening, LinkEvent::OpenFailed { reason: _ }) => if self.reconnect.spent(
                self.failed_once_more(),
            ) {
                LinkAction::Stop
            } else {
                LinkAction::Wait
            },
            (Phase::Open { since: _ }, LinkEvent::Ended) => if self.reconnect.spent(self.attempt) {
                LinkAction::Stop
            } else {
                LinkAction::Wait
            },
            (Phase::Waiting, LinkEvent::RetryDue) => LinkAction::Open,
            _ => LinkAction::Ignore,
        }
    }

    /// The state that users of the connection see.
    pub open spec fn state(self) -> ConnectionState {
        match self.phase {
            Phase::Idle => ConnectionState::Disconnected,
            Phase::Opening => ConnectionState::Connecting,
            Phase::Open { since } => ConnectionState::Connected { since },
            Phase::Waiting => ConnectionState::Reconnecting { attempt: self.attempt },
            Phase::Stopped => ConnectionState::Disconnected,
        }
    }
}

/// Manages WebSocket connection lifecycle and reconnection.
pub struct ConnectionManager {
    /// Where the connection stands
    phase: Phase,
    /// Failed attempts since the connection was last open
    attempt: u32,
    /// When to give up
    reconnect: ReconnectConfig,
    /// Texts that wait to be sent
    outbox: VecDeque<String>,
}

impl View for ConnectionManager {
    type V = LinkView;

    closed spec fn view(&self) -> LinkView {
        LinkView {
            phase: self.phase,
            attempt: self.attempt,
            reconnect: self.reconnect,
            outbox: texts(self.outbox@),
        }
    }
}

impl ConnectionManager {
    /// Create a new connection manager, with the connection not yet started.
    pub fn new(config: &WebSocketConfig) -> (r: Self)
        ensures
            r@ == LinkView::fresh(config.reconnect),
    {
        let r = ConnectionManager {
            phase: Phase::Idle,
            attempt: 0,
            reconnect: config.reconnect,
            outbox: VecDeque::new(),
        };
        assert(r@.outbox =~= Seq::empty());
        r
    }

    /// Takes note of the end of an attempt or of a connection: gives up where
    /// there were enough attempts, and else waits for the next one.
    fn go_down(&mut self, attempt: u32) -> (r: LinkAction)
        ensures
            final(self)@ == old(self)@.down(attempt),
            r == if old(self)@.reconnect.spent(attempt) {
                LinkAction::Stop
            } else {
                LinkAction::Wait
            },
    {
        self.attempt = attempt;
        if self.reconnect.is_spent(attempt) {
            self.phase = Phase::Stopped;
            self.outbox = VecDeque::new();
            assert(self@.outbox =~= Seq::empty());
            LinkAction::Stop
        } else {
            self.phase = Phase::Waiting;
            LinkAction::Wait
        }
    }

    /// Takes note of an event, and says what to do. Subscribers are told of
    /// every attempt to connect that failed.
    pub fn advance(&mut self, event: LinkEvent) -> (r: LinkStep)
        ensures
            final(self)@ == old(self)@.after(event),
            r.action == old(self)@.action(event),
            match (old(self)@.phase, event) {
                (Phase::Opening, LinkEvent::OpenFailed { reason }) => r.report == Some(
                    WsError::Connection(reason),
                ),
                _ => r.report is None,
            },
    {
        match (self.phase, event) {
            (Phase::Idle, LinkEvent::Started) => {
                self.phase = Phase::Opening;
                LinkStep { action: LinkAction::Open, report: None }
            },
            (Phase::Opening, LinkEvent::Opened { since }) => {
                self.phase = Phase::Open { since };
                self.attempt = 0;
                LinkStep { action: LinkAction::Serve, report: None }
            },
            (Phase::Opening, LinkEvent::OpenFailed { reason }) => {
                let attempt: u32 = self.attempt.saturating_add(1);
                let action = self.go_down(attempt);
                LinkStep { action, report: Some(WsError::Connection(reason)) }
            },
            (Phase::Open { since: _ }, LinkEvent::Ended) => {
                let attempt: u32 = self.attempt;
                let action = self.go_down(attempt);
                LinkStep { action, report: None }
            },
            (Phase::Waiting, LinkEvent::RetryDue) => {
                self.phase = Phase::Opening;
                LinkStep { action: LinkAction::Open, report: None }
            },
            _ => LinkStep { action: LinkAction::Ignore, report: None },
        }
    }

    /// Send a subscription request to the WebSocket server: its text waits for
    /// its turn on the open connection, whether that is open already or not.
    /// Once the connection has been given up, requests are refused.
    pub fn send(&mut self, message: &SubscriptionRequest) -> (r: Result<(), WsError>)
        ensures
            match r {
                Ok(()) => !(old(self)@.phase is Stopped) && final(self)@ == (LinkView {
                    outbox: old(self)@.outbox.push(request_json(message@)),
                    ..old(self)@
                }),
                Err(error) => old(self)@.phase is Stopped && error is ConnectionClosed
                    && final(self)@ == old(self)@,
            },
    {
        let json = message.to_json();
        match self.phase {
            Phase::Stopped => Err(WsError::ConnectionClosed),
            _ => {
                let ghost before = self@.outbox;
                self.outbox.push_back(json);
                assert(self@.outbox =~= before.push(json@));
                Ok(())
            },
        }
    }

    /// The next text to send on the open connection, the one that has waited
    /// longest. `None` where none waits or the connection is not open.
    pub fn next_outgoing(&mut self) -> (r: Option<String>)
        ensures
            match r {
                Some(text) => old(self)@.phase is Open && old(self)@.outbox.len() > 0 && text@
                    == old(self)@.outbox[0] && final(self)@ == (LinkView {
                    outbox: old(self)@.outbox.drop_first(),
                    ..old(self)@
                }),
                None => (!(old(self)@.phase is Open) || old(self)@.outbox.len() == 0)
                    && final(self)@ == old(self)@,
            },
    {
        match self.phase {
            Phase::Open { since: _ } => {
                let ghost before = self@.outbox;
                let text = self.outbox.pop_front();
                proof {
                    if text is Some {
                        assert(self@.outbox =~= before.drop_first());
                    }
                }
                text
            },
            _ => None,
        }
    }

    /// Get the current connection state.
    pub fn state(&self) -> (r: ConnectionState)
        ensures
            r == self@.state(),
    {
        match self.phase {
            Phase::Idle => ConnectionState::Disconnected,
            Phase::Opening => ConnectionState::Connecting,
            Phase::Open { since } => ConnectionState::Connected { since },
            Phase::Waiting => ConnectionState::Reconnecting { attempt: self.attempt },
            Phase::Stopped => ConnectionState::Disconnected,
        }
    }
}

/// What comes in on an open connection, or comes of writing to it.
#[derive(Debug)]
pub enum SessionEvent {
    /// A text frame
    Text(String),
    /// A close frame
    Closed,
    /// Any other frame
    Other,
    /// Reading failed
    ReadFailed {
        /// The transport's account of it
        reason: String,
    },
    /// A text was written
    Written,
    /// A text could not be written
    WriteFailed,
    /// There is nothing more to read, and nothing more to write will come
    Drained,
    /// No PONG came in time: the connection counts as dead
    HeartbeatLost,
}

/// What is to be done on an open connection.
#[derive(Debug)]
pub enum SessionAction {
    /// Take note of the time: the server answered a PING
    NotePong,
    /// Hand these messages to the subscribers
    Deliver(Vec<WsMessage>),
    /// Tell the subscribers of an error, and go on
    Report(WsError),
    /// Go on
    Continue,
    /// Tell the subscribers of the error, where there is one, and leave the connection
    End(Option<WsError>),
}

/// Whether `action` is what an event on an open connection means, for
/// subscribers with this interest.
pub open spec fn is_session_action(
    event: SessionEvent,
    interest: MessageInterest,
    action: SessionAction,
) -> bool {
    match event {
        SessionEvent::Text(text) => if text@ == "PONG"@ {
            action is NotePong
        } else {
            match action {
                SessionAction::Deliver(messages) => text_messages(text@, interest) == Some(
                    message_views(messages@),
                ),
                SessionAction::Report(WsError::MessageParse(ParseError::Syntax(_))) =>
                    text_messages(text@, interest) is None && json_text(trimmed(text@)) is None,
                SessionAction::Report(WsError::MessageParse(error)) => {
                    &&& text_messages(text@, interest) is None
                    &&& json_text(trimmed(text@)) matches Some(tree) && is_schema_error(
                        error,
                        failing_value(carried(trimmed(text@), tree), interest),
                    )
                },
                _ => false,
            }
        },
        SessionEvent::Closed => action == SessionAction::End(Some(WsError::ConnectionClosed)),
        SessionEvent::Other => action is Continue,
        SessionEvent::ReadFailed { reason } => action == SessionAction::End(
            Some(WsError::Connection(reason)),
        ),
        SessionEvent::Written => action is Continue,
        SessionEvent::WriteFailed => action == SessionAction::End(None),
        SessionEvent::Drained => action == SessionAction::End(None),
        SessionEvent::HeartbeatLost => action == SessionAction::End(None),
    }
}

/// What an event on an open connection means, for subscribers with this
/// interest.
pub fn session_step(event: SessionEvent, interest: MessageInterest) -> (r: SessionAction)
    ensures
        is_session_action(event, interest, r),
{
    match event {
        SessionEvent::Text(text) => if same_text(text.as_str(), "PONG") {
            SessionAction::NotePong
        } else {
            match parse_ws_text(text.as_str(), interest) {
                Ok(messages) => SessionAction::Deliver(messages),
                Err(error) => SessionAction::Report(WsError::MessageParse(error)),
            }
        },
        SessionEvent::Closed => SessionAction::End(Some(WsError::ConnectionClosed)),
        SessionEvent::Other => SessionAction::Continue,
        SessionEvent::ReadFailed { reason } => SessionAction::End(
            Some(WsError::Connection(reason)),
        ),
        SessionEvent::Written => SessionAction::Continue,
        SessionEvent::WriteFailed => SessionAction::End(None),
        SessionEvent::Drained => SessionAction::End(None),
        SessionEvent::HeartbeatLost => SessionAction::End(None),
    }
}

impl LinkView {
    /// What holds of a connection at all times: failed attempts are counted
    /// from when it was last open, it waits only where it may try again, and it
    /// is given up only where there were enough attempts; nothing waits to be
    /// sent then.
    pub open spec fn consistent(self) -> bool {
        match self.phase {
            Phase::Idle => self.attempt == 0,
            Phase::Opening => self.attempt > 0 ==> !self.reconnect.spent(self.attempt),
            Phase::Open { since: _ } => self.attempt == 0,
            Phase::Waiting => !self.reconnect.spent(self.attempt),
            Phase::Stopped => self.reconnect.spent(self.attempt) && self.outbox.len() == 0,
        }
    }

    /// The connection after `n` attempts in a row that failed.
    pub open spec fn after_failures(self, n: nat, reason: String) -> LinkView
        decreases n,
    {
        if n == 0 {
            self
        } else {
            self.after_failures((n - 1) as nat, reason).after(LinkEvent::RetryDue).after(
                LinkEvent::OpenFailed { reason },
            )
        }
    }
}

/// A new connection is consistent, and no event changes that.
pub proof fn law_consistency_is_kept(
    reconnect: ReconnectConfig,
    link: LinkView,
    event: LinkEvent,
    text: Seq<char>,
)
    requires
        link.consistent(),
    ensures
        LinkView::fresh(reconnect).consistent(),
        link.after(event).consistent(),
        !(link.phase is Stopped) ==> (LinkView {
            outbox: link.outbox.push(text),
            ..link
        }).consistent(),
{
}

/// A connection that has been given up stays so: nothing is done about it any
/// more, it reads as disconnected, and requests are refused.
pub proof fn law_stopped_is_final(link: LinkView, event: LinkEvent)
    requires
        link.phase is Stopped,
    ensures
        link.after(event) == link,
        link.action(event) == LinkAction::Ignore,
        link.state() is Disconnected,
{
}

/// A connection reads as connected exactly while it is open, that is from the
/// attempt that succeeded until its end.
pub proof fn law_connected_while_open(link: LinkView, event: LinkEvent)
    ensures
        link.state() is Connected <==> link.phase is Open,
        link.phase is Open && !(event is Ended) ==> link.after(event) == link,
        link.phase is Open && event is Ended ==> !(link.after(event).state() is Connected),
        !(link.phase is Open) && link.after(event).phase is Open ==> event is Opened
            && link.after(event).attempt == 0,
{
}

impl LinkView {
    /// The connection after a sequence of events.
    pub open spec fn after_all(self, events: Seq<LinkEvent>) -> LinkView
        decreases events.len(),
    {
        if events.len() == 0 {
            self
        } else {
            self.after_all(events.drop_last()).after(events.last())
        }
    }

    /// How many attempts to connect have failed, in a sequence of events, since
    /// the connection was last open. Events that do not fit do not count.
    pub open spec fn failures(self, events: Seq<LinkEvent>) -> nat
        decreases events.len(),
    {
        if events.len() == 0 {
            0
        } else {
            let before = events.drop_last();
            match (self.after_all(before).phase, events.last()) {
                (Phase::Opening, LinkEvent::OpenFailed { reason: _ }) => self.failures(before) + 1,
                (Phase::Opening, LinkEvent::Opened { since: _ }) => 0,
                _ => self.failures(before),
            }
        }
    }
}

/// What a new connection has come to after any sequence of events whatever:
/// with a maximum, it has been given up exactly where as many attempts in a row
/// have failed, and never have more; with a maximum of 0, it is given up only at
/// the first end of an attempt or of a connection. Without a maximum it is never
/// given up.
pub proof fn law_gives_up_only_at_the_maximum(reconnect: ReconnectConfig, events: Seq<LinkEvent>)
    ensures
        ({
            let link = LinkView::fresh(reconnect).after_all(events);
            let failures = LinkView::fresh(reconnect).failures(events);
            &&& link.reconnect == reconnect
            &&& link.attempt == if failures <= u32::MAX {
                failures as int
            } else {
                u32::MAX as int
            }
            &&& match reconnect.max_attempts {
                Some(max) => if max > 0 {
                    failures <= max && (link.phase is Stopped <==> failures == max)
                } else {
                    (link.phase is Stopped || failures == 0) && !(link.phase is Waiting)
                },
                None => !(link.phase is Stopped),
            }
        }),
        LinkView::fresh(reconnect).after_all(events).consistent(),
    decreases events.len(),
{
    if events.len() > 0 {
        law_gives_up_only_at_the_maximum(reconnect, events.drop_last());
    }
}

/// With a maximum of `max` attempts, a connection that is being opened after
/// none has failed is given up at the failure with the number `max`, or at the
/// first one where `max` is 0, and not before. Until then it waits after each
/// failure, and tells how many there were.
pub proof fn law_gives_up_at_the_maximum(link: LinkView, max: u32, n: nat, reason: String)
    requires
        link.phase is Opening,
        link.attempt == 0,
        link.reconnect.max_attempts == Some(max),
        n >= 1,
    ensures
        n < max ==> link.after_failures(n, reason).state() == (ConnectionState::Reconnecting {
            attempt: n as u32,
        }),
        n >= max ==> link.after_failures(n, reason).phase is Stopped,
    decreases n,
{
    if n == 1 {
        assert(link.after_failures(0, reason) == link);
    } else {
        law_gives_up_at_the_maximum(link, max, (n - 1) as nat, reason);
        lemma_failures_keep_the_rest(link, (n - 1) as nat, reason);
    }
}

/// Without a maximum, a connection is never given up, however many attempts
/// fail: it waits after each, and what waits to be sent stays.
pub proof fn law_never_gives_up_without_maximum(link: LinkView, n: nat, reason: String)
    requires
        link.phase is Opening,
        link.attempt == 0,
        link.reconnect.max_attempts is None,
        n >= 1,
    ensures
        link.after_failures(n, reason).state() == (ConnectionState::Reconnecting {
            attempt: if n <= u32::MAX {
                n as u32
            } else {
                u32::MAX
            },
        }),
        link.after_failures(n, reason).outbox == link.outbox,
    decreases n,
{
    if n == 1 {
        assert(link.after_failures(0, reason) == link);
    } else {
        law_never_gives_up_without_maximum(link, (n - 1) as nat, reason);
        lemma_failures_keep_the_rest(link, (n - 1) as nat, reason);
    }
}

/// Failed attempts leave the configuration as it is.
proof fn lemma_failures_keep_the_rest(link: LinkView, n: nat, reason: String)
    ensures
        link.after_failures(n, reason).reconnect == link.reconnect,
    decreases n,
{
    if n > 0 {
        lemma_failures_keep_the_rest(link, (n - 1) as nat, reason);
    }
}

} // verus!
