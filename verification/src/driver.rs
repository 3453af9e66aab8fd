//! The decisions of a driver's WebSocket session. The session loop (waiting
//! on the socket and on the history timer, talking to Redis) runs outside the
//! library; it hands each event to [`next_driver_action`] and performs the
//! action it gets back.
use vstd::prelude::*;

verus! {

/// Seconds between two history records of a driver session.
pub const HISTORY_TICK_SECS: u64 = 20;

/// Seconds a driver's socket may stay silent (no frame at all, not even a
/// pong) before the session is dropped; the last position stays in Redis.
pub const DRIVER_IDLE_TIMEOUT_SECS: u64 = 60;

/// Something that happened to a driver session.
#[derive(Debug, Clone, Copy, PartialEq, Eq, Structural)]
pub enum DriverEvent {
    /// A text frame arrived; `well_formed` tells whether it parses as a location update.
    LocationText { well_formed: bool },
    /// Reading from the socket failed.
    ReceiveFailed,
    /// A ping or pong frame arrived (the driver's heartbeat).
    Heartbeat,
    /// A frame other than text, ping or pong arrived.
    OtherFrame,
    /// The socket was closed by the driver.
    SocketClosed,
    /// No frame arrived for `DRIVER_IDLE_TIMEOUT_SECS` seconds.
    IdleTimeout,
    /// Publishing the last location update finished, successfully or not.
    PublishFinished { ok: bool },
    /// The history timer fired.
    Tick,
    /// Recording the last position in the history stream finished.
    HistoryFinished { ok: bool },
}

/// The text frames a driver session sends back.
#[derive(Debug, Clone, Copy, PartialEq, Eq, Structural)]
pub enum DriverReply {
    Success,
    Close,
    Malformed,
    Stream,
}

/// What the session does next.
#[derive(Debug, Clone, Copy, PartialEq, Eq, Structural)]
pub enum DriverAction {
    /// Publish the location update that just arrived.
    PublishLocation,
    /// Record the parcel's last position in the history stream, and ping the
    /// driver, whose pong counts as a frame for the idle timeout.
    RecordHistory,
    /// Nothing to do: go on waiting.
    Listen,
    /// Send `reply` to the driver, then go on waiting (`stay_open`) or end the session.
    Reply { reply: DriverReply, stay_open: bool },
    /// End the session without a reply.
    Disconnect,
}

/// The action a driver session takes on an event.
pub open spec fn driver_action(event: DriverEvent) -> DriverAction {
    match event {
        DriverEvent::LocationText { well_formed } => if well_formed {
            DriverAction::PublishLocation
        } else {
            DriverAction::Reply { reply: DriverReply::Close, stay_open: false }
        },
        DriverEvent::ReceiveFailed => DriverAction::Reply {
            reply: DriverReply::Close,
            stay_open: false,
        },
        DriverEvent::Heartbeat => DriverAction::Listen,
        DriverEvent::OtherFrame => DriverAction::Reply {
            reply: DriverReply::Malformed,
            stay_open: false,
        },
        DriverEvent::SocketClosed => DriverAction::Reply {
            reply: DriverReply::Close,
            stay_open: false,
        },
        DriverEvent::IdleTimeout => DriverAction::Reply {
            reply: DriverReply::Close,
            stay_open: false,
        },
        DriverEvent::PublishFinished { ok } => if ok {
            DriverAction::Reply { reply: DriverReply::Success, stay_open: true }
        } else {
            DriverAction::Disconnect
        },
        DriverEvent::Tick => DriverAction::RecordHistory,
        DriverEvent::HistoryFinished { ok } => if ok {
            DriverAction::Reply { reply: DriverReply::Stream, stay_open: true }
        } else {
            DriverAction::Reply { reply: DriverReply::Close, stay_open: true }
        },
    }
}

/// Whether the session goes on after an action.
pub open spec fn keeps_session(action: DriverAction) -> bool {
    match action {
        DriverAction::PublishLocation => true,
        DriverAction::RecordHistory => true,
        DriverAction::Listen => true,
        DriverAction::Reply { reply: _, stay_open } => stay_open,
        DriverAction::Disconnect => false,
    }
}

/// Decides what a driver session does on an event.
pub fn next_driver_action(event: DriverEvent) -> (r: DriverAction)
    ensures
        r == driver_action(event),
        // malformed or missing input ends the session
        (event is LocationText && !event->well_formed) || event is ReceiveFailed
            || event is OtherFrame || event is SocketClosed ==> !keeps_session(r),
        // a driver silent for the idle timeout is dropped (with a close frame)
        event is IdleTimeout ==> r == (DriverAction::Reply {
            reply: DriverReply::Close,
            stay_open: false,
        }),
        // the history timer never ends the session, whatever the history write gave
        event is Tick || event is HistoryFinished ==> keeps_session(r),
        // heartbeats keep the session and need no answer
        event is Heartbeat ==> r is Listen,
        // a well-formed update is always published
        event is LocationText && event->well_formed ==> r is PublishLocation,
{
    match event {
        DriverEvent::LocationText { well_formed } => if well_formed {
            DriverAction::PublishLocation
        } else {
            DriverAction::Reply { reply: DriverReply::Close, stay_open: false }
        },
        DriverEvent::ReceiveFailed => DriverAction::Reply {
            reply: DriverReply::Close,
            stay_open: false,
        },
        DriverEvent::Heartbeat => DriverAction::Listen,
        DriverEvent::OtherFrame => DriverAction::Reply {
            reply: DriverReply::Malformed,
            stay_open: false,
        },
        DriverEvent::SocketClosed => DriverAction::Reply {
            reply: DriverReply::Close,
            stay_open: false,
        },
        DriverEvent::IdleTimeout => DriverAction::Reply {
            reply: DriverReply::Close,
            stay_open: false,
        },
        DriverEvent::PublishFinished { ok } => if ok {
            DriverAction::Reply { reply: DriverReply::Success, stay_open: true }
        } else {
            DriverAction::Disconnect
        },
        DriverEvent::Tick => DriverAction::RecordHistory,
        DriverEvent::HistoryFinished { ok } => if ok {
            DriverAction::Reply { reply: DriverReply::Stream, stay_open: true }
        } else {
            DriverAction::Reply { reply: DriverReply::Close, stay_open: true }
        },
    }
}

/// The text of a reply frame.
pub open spec fn reply_text(reply: DriverReply) -> Seq<char> {
    match reply {
        DriverReply::Success => seq!['S', 'u', 'c', 'c', 'e', 's', 's'],
        DriverReply::Close => seq!['C', 'l', 'o', 's', 'e'],
        DriverReply::Malformed => seq![
            'L',
            'o',
            'c',
            'a',
            't',
            'i',
            'o',
            'n',
            ' ',
            'n',
            'o',
            't',
            ' ',
            'p',
            'r',
            'o',
            'p',
            'e',
            'r',
            'l',
            'y',
            ' ',
            'f',
            'o',
            'r',
            'm',
            'a',
            't',
            't',
            'e',
            'd',
        ],
        DriverReply::Stream => seq!['S', 't', 'r', 'e', 'a', 'm'],
    }
}

impl DriverReply {
    /// The text frame sent to the driver.
    pub fn text(&self) -> (r: &'static str)
        ensures
            r@ == reply_text(*self),
    {
        proof {
            reveal_strlit("Success");
            reveal_strlit("Close");
            reveal_strlit("Location not properly formatted");
            reveal_strlit("Stream");
        }
        let r = match self {
            DriverReply::Success => "Success",
            DriverReply::Close => "Close",
            DriverReply::Malformed => "Location not properly formatted",
            DriverReply::Stream => "Stream",
        };
        assert(r@ =~= reply_text(*self));
        r
    }
}

} // verus!
