//! The capture loop: the long-lived background task that, while the
//! lifecycle is running, reads one frame per iteration and installs it as
//! the latest. It exits cooperatively when it observes the stopped state,
//! and exits terminally on a failed read — without touching the lifecycle
//! state, so the store then stays frozen until an explicit stop/start.
//!
//! One iteration is `capture_poll` (may the device be read?) followed,
//! when reading was allowed, by `apply_read` on its outcome; together they
//! implement one `loop_step` of the model below.

use crate::frame::Frame;
use crate::frame::FrameStore;
use crate::frame::FrameView;
use vstd::prelude::*;

verus! {

/// What the capture loop does next in one iteration.
#[derive(Clone, Copy, Debug, PartialEq, Eq, Structural)]
pub enum CaptureAction {
    /// Read one frame from the device, then report it to `apply_read`.
    ReadFrame,
    /// Leave the loop: the lifecycle stopped or the device is gone.
    Exit,
}

/// Decide one iteration: the device is read exactly when the lifecycle
/// is running and a device handle is present; otherwise the loop exits.
pub fn capture_poll(running: bool, device_open: bool) -> (a: CaptureAction)
    ensures
        a is ReadFrame <==> running && device_open,
{
    if running && device_open {
        CaptureAction::ReadFrame
    } else {
        CaptureAction::Exit
    }
}

/// Record the outcome of one device read. A captured frame replaces the
/// store's contents and the loop goes on; a failed read leaves the store
/// exactly as it was — the last successfully captured frame — and the
/// loop exits for good. The lifecycle state is not altered here.
pub fn apply_read(store: &mut FrameStore, read: Option<Frame>) -> (go_on: bool)
    ensures
        match read {
            Some(f) => final(store)@ == f@ && go_on,
            None => *final(store) == *old(store) && !go_on,
        },
{
    match read {
        Some(f) => {
            store.replace(f);
            true
        },
        None => false,
    }
}

/// The two states of the capture loop task. `Exited` is terminal: the
/// task has returned and runs no further iteration.
#[derive(Clone, Copy, Debug, PartialEq, Eq, Structural)]
pub enum LoopPhase {
    Active,
    Exited,
}

/// The capture loop and the store it writes, as one mathematical state.
#[verifier::ext_equal]
pub struct LoopModel {
    pub phase: LoopPhase,
    pub store: FrameView,
}

/// What one iteration observes: the lifecycle flag, whether a device
/// handle is present, and — if it read — the outcome of the read.
#[verifier::ext_equal]
pub struct CaptureEvent {
    pub running: bool,
    pub device_open: bool,
    pub read: Option<FrameView>,
}

/// One iteration of the capture loop over the model. An exited loop runs
/// no iteration, so no event changes anything; an active one exits on
/// stop or on a missing device, exits frozen on a failed read, and
/// installs the frame on a successful one.
pub open spec fn loop_step(m: LoopModel, ev: CaptureEvent) -> LoopModel {
    if !(m.phase is Active) {
        m
    } else if !ev.running || !ev.device_open {
        LoopModel { phase: LoopPhase::Exited, store: m.store }
    } else {
        match ev.read {
            Some(f) => LoopModel { phase: LoopPhase::Active, store: f },
            None => LoopModel { phase: LoopPhase::Exited, store: m.store },
        }
    }
}

/// The model after a whole sequence of iterations.
pub open spec fn loop_replay(m: LoopModel, evs: Seq<CaptureEvent>) -> LoopModel
    decreases evs.len(),
{
    if evs.len() == 0 {
        m
    } else {
        loop_step(loop_replay(m, evs.drop_last()), evs.last())
    }
}

/// A failed read exits the loop and leaves the store exactly as it was.
pub proof fn lemma_read_failure_freezes(m: LoopModel, ev: CaptureEvent)
    requires
        m.phase is Active,
        ev.running,
        ev.device_open,
        ev.read is None,
    ensures
        loop_step(m, ev) == (LoopModel { phase: LoopPhase::Exited, store: m.store }),
{
}

/// A stop/start cycle launches a fresh, active loop over the old store
/// contents, and its first successful read installs a new frame: only
/// that explicit operator action ends the frozen state.
pub proof fn lemma_restart_resumes(stale: FrameView, ev: CaptureEvent, f: FrameView)
    requires
        ev.running,
        ev.device_open,
        ev.read == Some(f),
    ensures
        loop_step(LoopModel { phase: LoopPhase::Active, store: stale }, ev) == (LoopModel {
            phase: LoopPhase::Active,
            store: f,
        }),
{
}

/// Once the capture loop has exited, no sequence of further events moves
/// it or the store: snapshots keep returning the last successfully
/// captured frame until an explicit stop/start launches a new loop.
pub proof fn lemma_store_frozen_after_exit(m: LoopModel, evs: Seq<CaptureEvent>)
    requires
        m.phase is Exited,
    ensures
        loop_replay(m, evs) == m,
    decreases evs.len(),
{
    if evs.len() > 0 {
        lemma_store_frozen_after_exit(m, evs.drop_last());
    }
}

} // verus!
