use vstd::prelude::*;

verus! {

/// The display channel opened.
#[derive(Clone, Copy, Debug, PartialEq, Eq, Structural)]
pub struct DisplayOpenEvent;

/// The display channel closed.
#[derive(Clone, Copy, Debug, PartialEq, Eq, Structural)]
pub struct DisplayCloseEvent;

/// The main channel opened: the session is connected.
#[derive(Clone, Copy, Debug, PartialEq, Eq, Structural)]
pub struct ConnectSuccessEvent;

/// The session failed to connect, with a stable reason code and a message.
#[derive(Clone, Debug)]
pub struct ConnectFailEvent {
    pub reason: i32,
    pub message: String,
}

impl ConnectFailEvent {
    /// The reason code: 1 connect, 2 TLS, 3 link, 4 authentication, 5 I/O.
    pub fn reason(&self) -> (r: i32)
        ensures
            r == self.reason,
    {
        self.reason
    }

    /// The human-readable message.
    pub fn message(&self) -> (r: &str)
        ensures
            r@ == self.message@,
    {
        self.message.as_str()
    }
}

/// The kind of a channel that the session discovered.
#[derive(Clone, Copy, Debug, PartialEq, Eq, Structural)]
pub enum ChannelKind {
    Main,
    Display,
    Inputs,
    Other,
}

/// A lifecycle notification of one channel.
#[derive(Clone, Copy, Debug, PartialEq, Eq, Structural)]
pub enum ChannelEventKind {
    Idle,
    Opened,
    Switching,
    Closed,
    ErrorConnect,
    ErrorTls,
    ErrorLink,
    ErrorAuth,
    ErrorIo,
    Unknown,
}

/// A session-level lifecycle event delivered to the host.
#[derive(Clone, Debug)]
pub enum SessionEvent {
    DisplayOpen(DisplayOpenEvent),
    DisplayClose(DisplayCloseEvent),
    ConnectSuccess(ConnectSuccessEvent),
    ConnectFail(ConnectFailEvent),
}

/// The reason code and message of a main-channel error, if the event is one.
pub open spec fn failure_of(ev: ChannelEventKind) -> Option<(i32, Seq<char>)> {
    match ev {
        ChannelEventKind::ErrorConnect => Some((1i32, "connect error"@)),
        ChannelEventKind::ErrorTls => Some((2i32, "tls error"@)),
        ChannelEventKind::ErrorLink => Some((3i32, "link error"@)),
        ChannelEventKind::ErrorAuth => Some((4i32, "auth error"@)),
        ChannelEventKind::ErrorIo => Some((5i32, "io error"@)),
        _ => None,
    }
}

/// What the host hears of a channel notification: the main channel reports
/// connection success and failures, the display channel its opening and
/// closing, and everything else is ignored.
pub open spec fn session_event_matches(kind: ChannelKind, ev: ChannelEventKind, r: Option<SessionEvent>) -> bool {
    match kind {
        ChannelKind::Main => if ev == ChannelEventKind::Opened {
            r == Some(SessionEvent::ConnectSuccess(ConnectSuccessEvent))
        } else {
            match failure_of(ev) {
                Some((code, msg)) => match r {
                    Some(SessionEvent::ConnectFail(f)) => f.reason == code && f.message@ == msg,
                    _ => false,
                },
                None => r.is_none(),
            }
        },
        ChannelKind::Display => if ev == ChannelEventKind::Opened {
            r == Some(SessionEvent::DisplayOpen(DisplayOpenEvent))
        } else if ev == ChannelEventKind::Closed {
            r == Some(SessionEvent::DisplayClose(DisplayCloseEvent))
        } else {
            r.is_none()
        },
        _ => r.is_none(),
    }
}

fn connect_fail(reason: i32, message: &str) -> (r: SessionEvent)
    ensures
        r matches SessionEvent::ConnectFail(f) && f.reason == reason && f.message@ == message@,
{
    SessionEvent::ConnectFail(ConnectFailEvent { reason, message: message.to_owned() })
}

/// Translates a channel's lifecycle notification into the session event the
/// host receives, if any.
pub fn translate_channel_event(kind: ChannelKind, ev: ChannelEventKind) -> (r: Option<SessionEvent>)
    ensures
        session_event_matches(kind, ev, r),
{
    match kind {
        ChannelKind::Main => match ev {
            ChannelEventKind::Opened => Some(SessionEvent::ConnectSuccess(ConnectSuccessEvent)),
            ChannelEventKind::ErrorConnect => Some(connect_fail(1, "connect error")),
            ChannelEventKind::ErrorTls => Some(connect_fail(2, "tls error")),
            ChannelEventKind::ErrorLink => Some(connect_fail(3, "link error")),
            ChannelEventKind::ErrorAuth => Some(connect_fail(4, "auth error")),
            ChannelEventKind::ErrorIo => Some(connect_fail(5, "io error")),
            _ => None,
        },
        ChannelKind::Display => match ev {
            ChannelEventKind::Opened => Some(SessionEvent::DisplayOpen(DisplayOpenEvent)),
            ChannelEventKind::Closed => Some(SessionEvent::DisplayClose(DisplayCloseEvent)),
            _ => None,
        },
        _ => None,
    }
}

/// Where a session stands, as the host sees it.
#[derive(Clone, Debug)]
pub enum ConnectionState {
    Disconnected,
    Connecting,
    Connected,
    Failed { reason: i32, message: String },
}

/// The state after a session event: success completes a pending connection,
/// a failure ends a pending or established one, and the display closing ends
/// an established one. Anything else leaves the state as it was.
pub open spec fn next_state_matches(state: ConnectionState, ev: SessionEvent, r: ConnectionState) -> bool {
    match (state, ev) {
        (ConnectionState::Connecting, SessionEvent::ConnectSuccess(_)) => r is Connected,
        (ConnectionState::Connecting, SessionEvent::ConnectFail(f))
        | (ConnectionState::Connected, SessionEvent::ConnectFail(f)) => match r {
            ConnectionState::Failed { reason, message } => reason == f.reason && message@ == f.message@,
            _ => false,
        },
        (ConnectionState::Connected, SessionEvent::DisplayClose(_)) => r is Disconnected,
        _ => r == state,
    }
}

impl ConnectionState {
    /// The state of a bridge that has not connected.
    pub fn new() -> (r: ConnectionState)
        ensures
            r is Disconnected,
    {
        ConnectionState::Disconnected
    }

    /// The state once a session has been started.
    pub fn start(&mut self)
        ensures
            *final(self) is Connecting,
    {
        *self = ConnectionState::Connecting;
    }

    /// Follows one session event.
    pub fn on_session_event(&mut self, ev: &SessionEvent)
        ensures
            next_state_matches(*old(self), *ev, *final(self)),
    {
        match (&*self, ev) {
            (ConnectionState::Connecting, SessionEvent::ConnectSuccess(_)) => {
                *self = ConnectionState::Connected;
            },
            (ConnectionState::Connecting, SessionEvent::ConnectFail(f))
            | (ConnectionState::Connected, SessionEvent::ConnectFail(f)) => {
                let reason = f.reason;
                let message = f.message.clone();
                *self = ConnectionState::Failed { reason, message };
            },
            (ConnectionState::Connected, SessionEvent::DisplayClose(_)) => {
                *self = ConnectionState::Disconnected;
            },
            _ => {},
        }
    }

    /// Whether the session is established.
    pub fn is_connected(&self) -> (r: bool)
        ensures
            r <==> self is Connected,
    {
        match self {
            ConnectionState::Connected => true,
            _ => false,
        }
    }
}

/// Once failed or disconnected, only a fresh start leads back to connecting:
/// no session event does.
pub proof fn lemma_no_reconnect_without_start(state: ConnectionState, ev: SessionEvent, r: ConnectionState)
    requires
        !(state is Connecting),
        next_state_matches(state, ev, r),
    ensures
        !(r is Connecting),
{
}

} // verus!
