//! The per-viewer stream session protocol: sample the latest frame,
//! encode, frame, and attempt a non-blocking delivery, at a fixed pace,
//! until the lifecycle stops or the viewer falls behind.
//!
//! A session owns nothing shared: every decision is a function of the
//! lifecycle flag and the snapshot it was handed, so sessions cannot
//! affect one another.

use crate::frame::Frame;
use vstd::prelude::*;

verus! {

/// Capacity of one viewer's outbound queue of pending encoded frames.
/// A full queue on delivery ends that session, never blocks the producer.
pub const QUEUE_CAPACITY: usize = 100;

/// How long a session waits when no frame has been captured yet, in
/// milliseconds, before sampling again.
pub const BACKOFF_MILLIS: u64 = 1000;

/// The pause between two delivered frames, in milliseconds. Taken while
/// holding no lock.
pub const FRAME_INTERVAL_MILLIS: u64 = 50;

/// How a connection attempt is answered.
#[derive(Clone, Copy, Debug, PartialEq, Eq, Structural)]
pub enum ConnectDecision {
    /// Stopped: answer at once with plain status text, open no stream
    /// and create no session.
    Reject,
    /// Running: open the multipart stream and run the session.
    OpenStream,
}

/// What a session does next in one loop turn.
#[derive(Clone, Copy, Debug, PartialEq, Eq, Structural)]
pub enum SessionAction {
    /// The lifecycle stopped: end the session cleanly.
    Terminate,
    /// Nothing captured yet: wait this many milliseconds and retry.
    Backoff { millis: u64 },
    /// Encode the snapshot, frame it, and attempt delivery.
    Deliver,
}

/// What follows a delivery attempt.
#[derive(Clone, Copy, Debug, PartialEq, Eq, Structural)]
pub enum DeliveryFollowup {
    /// Delivered: wait this many milliseconds, then loop.
    Continue { wait_millis: u64 },
    /// Queue full or closed — the viewer is gone or too slow: end the
    /// session silently, surfacing nothing anywhere else.
    Terminate,
}

/// Answer a new connection: a stream is opened exactly when the
/// lifecycle is running.
pub fn connect_decision(running: bool) -> (d: ConnectDecision)
    ensures
        d is OpenStream <==> running,
{
    if running {
        ConnectDecision::OpenStream
    } else {
        ConnectDecision::Reject
    }
}

/// The plain status text a rejected connection is answered with.
pub fn not_started_text() -> (t: &'static str)
    ensures
        t@ == "camera not started"@,
{
    "camera not started"
}

/// One loop turn of a running session, on the snapshot it just took:
/// terminate when stopped, back off while nothing has been captured,
/// otherwise encode and deliver.
pub fn session_poll(running: bool, snapshot: &Frame) -> (a: SessionAction)
    ensures
        !running ==> a is Terminate,
        running && snapshot@.is_empty() ==> a == (SessionAction::Backoff {
            millis: BACKOFF_MILLIS,
        }),
        running && !snapshot@.is_empty() ==> a is Deliver,
{
    if !running {
        SessionAction::Terminate
    } else if snapshot.is_empty() {
        SessionAction::Backoff { millis: BACKOFF_MILLIS }
    } else {
        SessionAction::Deliver
    }
}

/// What follows one delivery attempt: on success the fixed inter-frame
/// pause, on failure silent termination.
pub fn after_delivery(delivered: bool) -> (f: DeliveryFollowup)
    ensures
        delivered ==> f == (DeliveryFollowup::Continue { wait_millis: FRAME_INTERVAL_MILLIS }),
        !delivered ==> f is Terminate,
{
    if delivered {
        DeliveryFollowup::Continue { wait_millis: FRAME_INTERVAL_MILLIS }
    } else {
        DeliveryFollowup::Terminate
    }
}

/// Terminating one session, modelled over the alive flags of all open
/// sessions.
pub open spec fn terminate_session(alive: Seq<bool>, i: int) -> Seq<bool> {
    alive.update(i, false)
}

/// Sessions are independent: ending one — a slow or vanished viewer —
/// leaves every other session exactly as it was. Nothing else about a
/// session is shared, so nothing else can change either.
pub proof fn lemma_sessions_independent(alive: Seq<bool>, i: int, j: int)
    requires
        0 <= i < alive.len(),
        0 <= j < alive.len(),
        i != j,
    ensures
        terminate_session(alive, i)[j] == alive[j],
        terminate_session(alive, i).len() == alive.len(),
{
}

} // verus!
