//! The telemetry responder's decisions: one connection at a time.
//!
//! The responder listens on a fixed port and serves connections strictly in
//! sequence: accept, read once, reply only to a request whose bytes begin
//! with the ASCII literal GET, close unconditionally, pause, repeat.  The
//! unverified loop around it owns the socket; the functions here decide what
//! it does with each connection's outcome.
//!
//! A zero-byte read (the peer closed) or a failed read stops the serving
//! loop for good: nothing restarts it.  That liveness gap is a deliberate
//! design choice of the node, and
//! [`lemma_stopped_responder_stays_stopped`] pins it down.

use vstd::prelude::*;

verus! {

/// Inactivity bound of one telemetry connection, in seconds.
pub const CONNECTION_TIMEOUT_SECS: u64 = 10;

/// Pause after a closed connection before the next accept, in milliseconds.
pub const ACCEPT_PAUSE_MS: u64 = 100;

/// Whether the responder still accepts connections.
#[derive(Clone, Copy, PartialEq, Eq, Structural, Debug)]
pub enum ResponderState {
    /// Ready to accept the next connection.
    Listening,
    /// The serving loop has exited; no further connection is accepted.
    Stopped,
}

/// The outcome of one accepted (or failed) connection attempt.
#[derive(Clone, Copy, PartialEq, Eq, Structural, Debug)]
pub enum ConnectionEvent {
    /// The accept itself failed; non-fatal.
    AcceptFailed,
    /// One read returned bytes beginning with the ASCII literal GET.
    GetRequest,
    /// One read returned bytes with any other prefix.
    OtherRequest,
    /// The read returned zero bytes: the peer closed the connection.
    PeerClosed,
    /// The read failed.
    ReadFailed,
}

/// What the surrounding loop must do after an event.
#[derive(Clone, Copy, PartialEq, Eq, Structural, Debug)]
pub enum ResponderAction {
    /// Try to accept again at once.
    RetryAccept,
    /// Take the latest sample from the telemetry slot (suspending until one
    /// is available), write the reply built for it, close the connection,
    /// and pause before the next accept.
    RespondAndClose,
    /// Write nothing, close the connection, and pause before the next
    /// accept.
    CloseOnly,
    /// Leave the serving loop.
    Exit,
}

/// Whether a request's bytes begin with the ASCII literal GET.
pub open spec fn spec_is_get(req: Seq<u8>) -> bool {
    req.len() >= 3 && req[0] == 71u8 && req[1] == 69u8 && req[2] == 84u8
}

/// Decides whether a request earns a telemetry reply: only a leading
/// literal GET does.
pub fn request_wants_telemetry(req: &[u8]) -> (r: bool)
    ensures
        r == spec_is_get(req@),
{
    req.len() >= 3 && req[0] == 71u8 && req[1] == 69u8 && req[2] == 84u8
}

/// Classifies one read: zero bytes means the peer closed; otherwise the
/// request's leading bytes decide.
pub fn event_of_read(req: &[u8], n: usize) -> (e: ConnectionEvent)
    requires
        n <= req@.len(),
    ensures
        n == 0 ==> e == ConnectionEvent::PeerClosed,
        n > 0 && spec_is_get(req@.take(n as int)) ==> e == ConnectionEvent::GetRequest,
        n > 0 && !spec_is_get(req@.take(n as int)) ==> e == ConnectionEvent::OtherRequest,
{
    if n == 0 {
        return ConnectionEvent::PeerClosed;
    }
    let received = slice_take(req, n);
    if request_wants_telemetry(received) {
        ConnectionEvent::GetRequest
    } else {
        ConnectionEvent::OtherRequest
    }
}

/// The first `n` bytes of a request buffer: what one read filled.
fn slice_take(req: &[u8], n: usize) -> (r: &[u8])
    requires
        n <= req@.len(),
    ensures
        r@ == req@.take(n as int),
{
    let r = &req[0..n];
    proof {
        assert(r@ =~= req@.take(n as int));
    }
    r
}

/// The state and action owed after each connection event.  An accept
/// failure is retried; a request is answered or silently closed by its
/// prefix; a closed peer or a failed read stops the serving loop, and a
/// stopped responder ignores every further event.
pub open spec fn spec_responder_step(state: ResponderState, event: ConnectionEvent) -> (
    ResponderState,
    ResponderAction,
) {
    match state {
        ResponderState::Stopped => (ResponderState::Stopped, ResponderAction::Exit),
        ResponderState::Listening => match event {
            ConnectionEvent::AcceptFailed => (
                ResponderState::Listening,
                ResponderAction::RetryAccept,
            ),
            ConnectionEvent::GetRequest => (
                ResponderState::Listening,
                ResponderAction::RespondAndClose,
            ),
            ConnectionEvent::OtherRequest => (
                ResponderState::Listening,
                ResponderAction::CloseOnly,
            ),
            ConnectionEvent::PeerClosed => (ResponderState::Stopped, ResponderAction::Exit),
            ConnectionEvent::ReadFailed => (ResponderState::Stopped, ResponderAction::Exit),
        },
    }
}

/// Advances the responder by one connection event and says what the
/// surrounding loop must do.
pub fn responder_step(state: ResponderState, event: ConnectionEvent) -> (r: (
    ResponderState,
    ResponderAction,
))
    ensures
        r == spec_responder_step(state, event),
{
    match state {
        ResponderState::Stopped => (ResponderState::Stopped, ResponderAction::Exit),
        ResponderState::Listening => match event {
            ConnectionEvent::AcceptFailed => (
                ResponderState::Listening,
                ResponderAction::RetryAccept,
            ),
            ConnectionEvent::GetRequest => (
                ResponderState::Listening,
                ResponderAction::RespondAndClose,
            ),
            ConnectionEvent::OtherRequest => (
                ResponderState::Listening,
                ResponderAction::CloseOnly,
            ),
            ConnectionEvent::PeerClosed => (ResponderState::Stopped, ResponderAction::Exit),
            ConnectionEvent::ReadFailed => (ResponderState::Stopped, ResponderAction::Exit),
        },
    }
}

/// Law: a zero-byte read stops the responder for good.  The event takes the
/// responder to the stopped state, and from there no event — however many
/// follow — ever returns it to listening or makes it accept again: every
/// later step keeps the stopped state and orders the loop to stay out.
pub proof fn lemma_stopped_responder_stays_stopped()
    ensures
        spec_responder_step(ResponderState::Listening, ConnectionEvent::PeerClosed).0
            == ResponderState::Stopped,
        forall|e: ConnectionEvent|
            (#[trigger] spec_responder_step(ResponderState::Stopped, e)).0
                == ResponderState::Stopped,
        forall|e: ConnectionEvent|
            (#[trigger] spec_responder_step(ResponderState::Stopped, e)).1
                == ResponderAction::Exit,
{
}

/// Law: a request that does not begin with GET is closed with zero response
/// bytes — the only action that writes anything is the one owed to a GET
/// prefix.
pub proof fn lemma_non_get_writes_nothing(state: ResponderState, event: ConnectionEvent)
    ensures
        spec_responder_step(state, event).1 == ResponderAction::RespondAndClose ==> state
            == ResponderState::Listening && event == ConnectionEvent::GetRequest,
{
}

} // verus!
