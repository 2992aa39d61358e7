//! Keeping an open connection alive.
//!
//! [`Heartbeat`] decides when a PING goes out and what the wait for its PONG
//! came to. Times are in nanoseconds since a moment that the caller chose.

use vstd::prelude::*;

use crate::config::WebSocketConfig;
use crate::connection::{is_session_action, LinkEvent, LinkView, SessionAction, SessionEvent};
use crate::interest::MessageInterest;

verus! {

/// Where the heartbeat stands.
#[derive(Debug, Clone, Copy, PartialEq, Eq, Structural)]
pub enum Beat {
    /// Waiting for the next tick
    Resting,
    /// A PING is being sent
    Pinging {
        /// When the PING was made ready
        ping_sent: u128,
    },
    /// Waiting for the PONG
    Awaiting {
        /// When the PING was made ready
        ping_sent: u128,
    },
    /// No more PINGs are sent
    Stopped,
}

/// What happened to the heartbeat.
#[derive(Debug, Clone, Copy, PartialEq, Eq, Structural)]
pub enum BeatEvent {
    /// It is time for a PING
    Tick {
        /// Whether the connection is open
        connected: bool,
        /// The time
        now: u128,
    },
    /// The PING was sent
    PingSent,
    /// The PING could not be sent
    PingFailed,
    /// A PONG came since the PING was made ready
    PongSeen {
        /// When the last PONG came
        last_pong: u128,
    },
    /// No PONG can come any more
    PongsClosed,
    /// The wait for the PONG is over
    TimedOut,
}

/// Why the heartbeat stopped.
#[derive(Debug, Clone, Copy, PartialEq, Eq, Structural)]
pub enum BeatEnd {
    /// The connection is not open
    NotConnected,
    /// The PING could not be sent
    PingFailed,
    /// The PONG is older than the PING: the connection may be stale
    StalePong,
    /// No PONG can come any more
    PongsClosed,
    /// No PONG came in time
    TimedOut,
}

/// What the end of the heartbeat means for the open connection: without a PONG
/// in time the connection counts as dead. The other ends leave it to the
/// connection itself.
pub open spec fn ending_event(end: BeatEnd) -> Option<SessionEvent> {
    match end {
        BeatEnd::TimedOut => Some(SessionEvent::HeartbeatLost),
        _ => None,
    }
}

impl BeatEnd {
    /// What the end of the heartbeat means for the open connection.
    pub fn session_event(self) -> (r: Option<SessionEvent>)
        ensures
            r == ending_event(self),
    {
        match self {
            BeatEnd::TimedOut => Some(SessionEvent::HeartbeatLost),
            _ => None,
        }
    }
}

/// What is to be done for the heartbeat.
#[derive(Debug, Clone, Copy, PartialEq, Eq, Structural)]
pub enum BeatAction {
    /// Take the PONGs so far as seen, and send a PING
    SendPing,
    /// Wait for a PONG
    AwaitPong {
        /// For how long
        within: u128,
    },
    /// Wait for the next tick
    Rest,
    /// Send no more PINGs
    Stop(BeatEnd),
    /// Do nothing: the event does not fit where the heartbeat stands
    Ignore,
}

/// Sends PING messages and monitors PONG responses.
#[derive(Debug)]
pub struct Heartbeat {
    beat: Beat,
    timeout: u128,
}

/// Where the heartbeat stands after an event.
pub open spec fn beat_after(beat: Beat, event: BeatEvent) -> Beat {
    match (beat, event) {
        (Beat::Resting, BeatEvent::Tick { connected, now }) => if connected {
            Beat::Pinging { ping_sent: now }
        } else {
            Beat::Stopped
        },
        (Beat::Pinging { ping_sent }, BeatEvent::PingSent) => Beat::Awaiting { ping_sent },
        (Beat::Pinging { ping_sent: _ }, BeatEvent::PingFailed) => Beat::Stopped,
        (Beat::Awaiting { ping_sent }, BeatEvent::PongSeen { last_pong }) => if last_pong
            < ping_sent {
            Beat::Stopped
        } else {
            Beat::Resting
        },
        (Beat::Awaiting { ping_sent: _ }, BeatEvent::PongsClosed) => Beat::Stopped,
        (Beat::Awaiting { ping_sent: _ }, BeatEvent::TimedOut) => Beat::Stopped,
        _ => beat,
    }
}

/// What is done for the heartbeat upon an event.
pub open spec fn beat_action(beat: Beat, timeout: u128, event: BeatEvent) -> BeatAction {
    match (beat, event) {
        (Beat::Resting, BeatEvent::Tick { connected, now: _ }) => if connected {
            BeatAction::SendPing
        } else {
            BeatAction::Stop(BeatEnd::NotConnected)
        },
        (Beat::Pinging { ping_sent: _ }, BeatEvent::PingSent) => BeatAction::AwaitPong {
            within: timeout,
        },
        (Beat::Pinging { ping_sent: _ }, BeatEvent::PingFailed) => BeatAction::Stop(
            BeatEnd::PingFailed,
        ),
        (Beat::Awaiting { ping_sent }, BeatEvent::PongSeen { last_pong }) => if last_pong
            < ping_sent {
            BeatAction::Stop(BeatEnd::StalePong)
        } else {
            BeatAction::Rest
        },
        (Beat::Awaiting { ping_sent: _ }, BeatEvent::PongsClosed) => BeatAction::Stop(
            BeatEnd::PongsClosed,
        ),
        (Beat::Awaiting { ping_sent: _ }, BeatEvent::TimedOut) => BeatAction::Stop(
            BeatEnd::TimedOut,
        ),
        _ => BeatAction::Ignore,
    }
}

impl Heartbeat {
    /// Where the heartbeat stands.
    pub closed spec fn beat(self) -> Beat {
        self.beat
    }

    /// How long it waits for a PONG.
    pub closed spec fn timeout(self) -> u128 {
        self.timeout
    }

    /// A heartbeat for a connection that was just opened.
    pub fn new(config: &WebSocketConfig) -> (r: Self)
        ensures
            r.beat() == Beat::Resting,
            r.timeout() == config.heartbeat_timeout,
    {
        Heartbeat { beat: Beat::Resting, timeout: config.heartbeat_timeout }
    }

    /// The text of a PING.
    pub fn ping_text() -> (r: &'static str)
        ensures
            r@ == "PING"@,
    {
        "PING"
    }

    /// Takes note of an event, and says what to do.
    pub fn step(&mut self, event: BeatEvent) -> (r: BeatAction)
        ensures
            final(self).beat() == beat_after(old(self).beat(), event),
            final(self).timeout() == old(self).timeout(),
            r == beat_action(old(self).beat(), old(self).timeout(), event),
    {
        match (self.beat, event) {
            (Beat::Resting, BeatEvent::Tick { connected, now }) => if connected {
                self.beat = Beat::Pinging { ping_sent: now };
                BeatAction::SendPing
            } else {
                self.stop(BeatEnd::NotConnected)
            },
            (Beat::Pinging { ping_sent }, BeatEvent::PingSent) => {
                self.beat = Beat::Awaiting { ping_sent };
                BeatAction::AwaitPong { within: self.timeout }
            },
            (Beat::Pinging { ping_sent: _ }, BeatEvent::PingFailed) => self.stop(
                BeatEnd::PingFailed,
            ),
            (Beat::Awaiting { ping_sent }, BeatEvent::PongSeen { last_pong }) => if last_pong
                < ping_sent {
                self.stop(BeatEnd::StalePong)
            } else {
                self.beat = Beat::Resting;
                BeatAction::Rest
            },
            (Beat::Awaiting { ping_sent: _ }, BeatEvent::PongsClosed) => self.stop(
                BeatEnd::PongsClosed,
            ),
            (Beat::Awaiting { ping_sent: _ }, BeatEvent::TimedOut) => self.stop(BeatEnd::TimedOut),
            _ => BeatAction::Ignore,
        }
    }

    /// Stops the heartbeat.
    fn stop(&mut self, end: BeatEnd) -> (r: BeatAction)
        ensures
            final(self).beat() == Beat::Stopped,
            final(self).timeout() == old(self).timeout(),
            r == BeatAction::Stop(end),
    {
        self.beat = Beat::Stopped;
        BeatAction::Stop(end)
    }
}

/// One round of the heartbeat: a tick on an open connection, the PING sent,
/// and a PONG. It goes on to the next round exactly where the PONG is not older
/// than the PING, whatever PONGs came before.
pub proof fn law_round_goes_on_with_a_new_pong(now: u128, last_pong: u128)
    ensures
        ({
            let ticked = beat_after(Beat::Resting, BeatEvent::Tick { connected: true, now });
            let waiting = beat_after(ticked, BeatEvent::PingSent);
            let done = beat_after(waiting, BeatEvent::PongSeen { last_pong });
            &&& done == Beat::Resting <==> last_pong >= now
            &&& done == Beat::Stopped <==> last_pong < now
        }),
{
}

/// A connection without a PONG in time counts as dead: the heartbeat stops, the
/// session ends, and the connection does not read as connected any more.
pub proof fn law_missing_pong_ends_the_connection(
    ping_sent: u128,
    timeout: u128,
    interest: MessageInterest,
    action: SessionAction,
    link: LinkView,
)
    requires
        is_session_action(SessionEvent::HeartbeatLost, interest, action),
        link.phase is Open,
    ensures
        beat_action(Beat::Awaiting { ping_sent }, timeout, BeatEvent::TimedOut) == BeatAction::Stop(
            BeatEnd::TimedOut,
        ),
        ending_event(BeatEnd::TimedOut) == Some(SessionEvent::HeartbeatLost),
        action is End,
        !(link.after(LinkEvent::Ended).state() is Connected),
{
}

/// A heartbeat that has stopped stays so.
pub proof fn law_stopped_heartbeat_is_final(timeout: u128, event: BeatEvent)
    ensures
        beat_after(Beat::Stopped, event) == Beat::Stopped,
        beat_action(Beat::Stopped, timeout, event) == BeatAction::Ignore,
{
}

/// No PING goes out before the one before it was answered, and none on a
/// connection that is not open.
pub proof fn law_one_ping_at_a_time(beat: Beat, timeout: u128, event: BeatEvent)
    ensures
        beat_action(beat, timeout, event) == BeatAction::SendPing ==> beat == Beat::Resting
            && event is Tick && event->connected,
        beat_after(beat, event) == Beat::Resting && beat != Beat::Resting ==> beat is Awaiting
            && event is PongSeen,
{
}

} // verus!
