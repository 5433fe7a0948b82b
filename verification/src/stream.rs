//! Streaming adapter: the per-connection decisions that turn broadcaster
//! changes into a push event stream. On connect the current snapshot, if
//! any, goes out first; each change pushes the newest value; an idle window
//! elapsing pushes a heartbeat; a disconnect ends the loop with no further
//! broadcaster interaction.

use vstd::prelude::*;

use crate::broadcast::Broadcaster;
use crate::broadcast::Snapshot;
use crate::broadcast::Subscriber;
use crate::broadcast::snapshot_view;
use crate::broadcast::spec_poll;

verus! {

/// One frame pushed to a streaming client.
pub enum StreamEvent {
    /// A new snapshot, pushed on every observed change.
    Data(Snapshot),
    /// A keep-alive frame, pushed when the idle window elapses.
    Heartbeat,
}

/// What the transport reported to the connection's loop.
pub enum ConnEvent {
    /// The broadcaster may hold something newer than the subscriber saw.
    Changed,
    /// Nothing arrived within the idle window.
    IdleTimeout,
    /// The client went away.
    Disconnected,
}

/// What the connection's loop must do next.
pub enum StreamAction {
    /// Push this frame to the client and keep looping.
    Push(StreamEvent),
    /// Nothing newer yet: suspend until the next event.
    Wait,
    /// Stop looping and release the subscriber handle.
    Close,
}

/// The state of one streaming connection: its subscriber handle.
pub struct StreamConn {
    pub subscriber: Subscriber,
}

/// Open a streaming connection against a feed: subscribe at the current
/// version and, if a snapshot already exists, emit it as the first event.
pub fn on_connect(b: &Broadcaster) -> (r: (StreamConn, Option<StreamEvent>))
    ensures
        r.0.subscriber.cursor() == b@.version,
        b@.current is Some ==> (r.1 matches Some(StreamEvent::Data(s)) && Some(s@) == b@.current),
        b@.current is None ==> r.1 is None,
{
    let subscriber = b.subscribe();
    let (current, _version) = b.snapshot();
    let first = match current {
        Some(s) => Some(StreamEvent::Data(s)),
        None => None,
    };
    (StreamConn { subscriber }, first)
}

/// One step of the connection's loop. A disconnect closes the stream and
/// touches nothing; an idle timeout pushes a heartbeat; a change pushes the
/// newest snapshot if one the subscriber has not seen exists, and otherwise
/// waits. The subscriber's cursor moves exactly when data is pushed.
pub fn on_event(b: &Broadcaster, conn: &mut StreamConn, event: ConnEvent) -> (action: StreamAction)
    requires
        b.well_formed(),
        old(conn).subscriber.cursor() <= b@.version,
    ensures
        final(conn).subscriber.cursor() <= b@.version,
        old(conn).subscriber.cursor() <= final(conn).subscriber.cursor(),
        event is Disconnected ==> action is Close && final(conn).subscriber.cursor() == old(
            conn,
        ).subscriber.cursor(),
        event is IdleTimeout ==> (action matches StreamAction::Push(e) && e is Heartbeat)
            && final(conn).subscriber.cursor() == old(conn).subscriber.cursor(),
        event is Changed ==> ({
            let (delivered, cursor) = spec_poll(b@, old(conn).subscriber.cursor());
            &&& final(conn).subscriber.cursor() == cursor
            &&& match delivered {
                Some(v) => action matches StreamAction::Push(StreamEvent::Data(s)) && s@ == v,
                None => action is Wait,
            }
        }),
{
    match event {
        ConnEvent::Disconnected => StreamAction::Close,
        ConnEvent::IdleTimeout => StreamAction::Push(StreamEvent::Heartbeat),
        ConnEvent::Changed => {
            match b.poll_next(&mut conn.subscriber) {
                Some(s) => StreamAction::Push(StreamEvent::Data(s)),
                None => StreamAction::Wait,
            }
        },
    }
}

} // verus!
