//! The lifecycle controller: the {Stopped, Running} state and the device
//! handle, updated as one atomic transition.
//!
//! `start` is split in two steps so that the device is only ever opened
//! when the controller is stopped: `start_request` decides whether an open
//! is needed, and `finish_start` records its outcome. `stop` releases the
//! handle by returning it to the caller. Both operations are idempotent.

use vstd::prelude::*;

verus! {

/// The read-buffer depth the device is configured with on every open:
/// shallow, to favour latency over throughput.
pub const BUFFER_DEPTH: u64 = 2;

/// A token standing for one opened capture device. The caller that opens
/// the device chooses the id and keeps the device object itself.
#[derive(Clone, Copy, Debug, PartialEq, Eq, Structural)]
pub struct DeviceHandle {
    pub id: u64,
}

/// The lifecycle state. A device handle exists if and only if the state
/// is `Running`.
#[derive(Clone, Copy, Debug, PartialEq, Eq, Structural)]
pub enum LifecycleState {
    Stopped,
    Running { handle: DeviceHandle },
}

/// What a `start` call must do in the current state.
#[derive(Clone, Copy, Debug, PartialEq, Eq, Structural)]
pub enum StartStep {
    /// Already running: answer at once, open nothing.
    AlreadyRunning,
    /// Stopped: open the device with this read-buffer depth, then report
    /// the outcome through `finish_start`.
    Open { buffer_depth: u64 },
}

/// The outcome of attempting to open and configure the device.
#[derive(Clone, Copy, Debug, PartialEq, Eq, Structural)]
pub enum OpenOutcome {
    Opened { handle: DeviceHandle },
    Failed,
}

/// The textual result class of a `start` call.
#[derive(Clone, Copy, Debug, PartialEq, Eq, Structural)]
pub enum StartStatus {
    Started,
    AlreadyRunning,
    ConfigError,
}

/// The textual result class of a `stop` call.
#[derive(Clone, Copy, Debug, PartialEq, Eq, Structural)]
pub enum StopStatus {
    Stopped,
    AlreadyStopped,
}

/// The owner of the lifecycle state. No other component writes it.
pub struct Controller {
    state: LifecycleState,
}

impl Controller {
    /// The current lifecycle state.
    pub closed spec fn state(self) -> LifecycleState {
        self.state
    }

    /// Whether the state is `Running`.
    pub open spec fn is_running(self) -> bool {
        self.state() is Running
    }

    /// A fresh controller: stopped, holding no device.
    pub fn new() -> (c: Controller)
        ensures
            !c.is_running(),
    {
        Controller { state: LifecycleState::Stopped }
    }

    /// Whether the state is `Running`, for callers that only poll the flag.
    pub fn running(&self) -> (r: bool)
        ensures
            r == self.is_running(),
    {
        match self.state {
            LifecycleState::Stopped => false,
            LifecycleState::Running { .. } => true,
        }
    }

    /// First half of `start`: while running, nothing is opened and the
    /// answer is distinct from a fresh start; while stopped, the device is
    /// to be opened with the shallow read buffer.
    pub fn start_request(&self) -> (p: StartStep)
        ensures
            self.is_running() ==> p is AlreadyRunning,
            !self.is_running() ==> p == (StartStep::Open { buffer_depth: BUFFER_DEPTH }),
    {
        match self.state {
            LifecycleState::Stopped => StartStep::Open { buffer_depth: BUFFER_DEPTH },
            LifecycleState::Running { .. } => StartStep::AlreadyRunning,
        }
    }

    /// Second half of `start`: record the outcome of the open attempt.
    /// A failed open leaves the state stopped; a successful one installs
    /// the handle and reports a fresh start.
    pub fn finish_start(&mut self, outcome: OpenOutcome) -> (s: StartStatus)
        requires
            !old(self).is_running(),
        ensures
            final(self).is_running() == step(old(self).is_running(), start_op(outcome)),
            match outcome {
                OpenOutcome::Opened { handle } => {
                    &&& final(self).state() == (LifecycleState::Running { handle })
                    &&& s is Started
                },
                OpenOutcome::Failed => {
                    &&& !final(self).is_running()
                    &&& s is ConfigError
                },
            },
    {
        match outcome {
            OpenOutcome::Opened { handle } => {
                self.state = LifecycleState::Running { handle };
                StartStatus::Started
            },
            OpenOutcome::Failed => StartStatus::ConfigError,
        }
    }

    /// `stop`: while stopped, a no-op whose answer is distinct from a
    /// fresh stop; while running, the handle is removed from the state and
    /// handed back so the caller can release the device.
    pub fn stop(&mut self) -> (r: (StopStatus, Option<DeviceHandle>))
        ensures
            final(self).is_running() == step(old(self).is_running(), LifecycleOp::Stop),
            !old(self).is_running() ==> {
                &&& final(self).state() == old(self).state()
                &&& r == (StopStatus::AlreadyStopped, None::<DeviceHandle>)
            },
            old(self).is_running() ==> {
                &&& !final(self).is_running()
                &&& r.0 is Stopped
                &&& r.1 == Some(old(self).state()->Running_handle)
            },
    {
        match self.state {
            LifecycleState::Stopped => (StopStatus::AlreadyStopped, None),
            LifecycleState::Running { handle } => {
                self.state = LifecycleState::Stopped;
                (StopStatus::Stopped, Some(handle))
            },
        }
    }
}

/// The status text each start result is answered with. The caller may
/// extend the configuration-error text with the device's own message.
pub fn start_status_text(s: StartStatus) -> (t: &'static str)
    ensures
        s is Started ==> t@ == "camera started"@,
        s is AlreadyRunning ==> t@ == "camera already running"@,
        s is ConfigError ==> t@ == "configuration error"@,
{
    match s {
        StartStatus::Started => "camera started",
        StartStatus::AlreadyRunning => "camera already running",
        StartStatus::ConfigError => "configuration error",
    }
}

/// The status text each stop result is answered with.
pub fn stop_status_text(s: StopStatus) -> (t: &'static str)
    ensures
        s is Stopped ==> t@ == "camera stopped"@,
        s is AlreadyStopped ==> t@ == "camera already stopped"@,
{
    match s {
        StopStatus::Stopped => "camera stopped",
        StopStatus::AlreadyStopped => "camera already stopped",
    }
}

/// A `start` that was an idempotent no-op, and one that failed, are both
/// answered distinguishably from a fresh start.
pub proof fn lemma_start_texts_distinct()
    ensures
        "camera started"@ != "camera already running"@,
        "camera started"@ != "configuration error"@,
        "camera already running"@ != "configuration error"@,
{
    reveal_strlit("camera started");
    reveal_strlit("camera already running");
    reveal_strlit("configuration error");
    assert("camera started"@.len() == 14);
    assert("camera already running"@.len() == 22);
    assert("configuration error"@.len() == 19);
}

/// A `stop` that was an idempotent no-op is answered distinguishably
/// from a fresh stop.
pub proof fn lemma_stop_texts_distinct()
    ensures
        "camera stopped"@ != "camera already stopped"@,
{
    reveal_strlit("camera stopped");
    reveal_strlit("camera already stopped");
    assert("camera stopped"@.len() == 14);
    assert("camera already stopped"@.len() == 22);
}

/// One lifecycle operation, as seen in a replayed history: a `start`
/// whose device open succeeded or failed, or a `stop`.
#[derive(Clone, Copy, Debug, PartialEq, Eq, Structural)]
pub enum LifecycleOp {
    Start { ok: bool },
    Stop,
}

/// The lifecycle operation a `start` performs, given its open outcome.
pub open spec fn start_op(outcome: OpenOutcome) -> LifecycleOp {
    LifecycleOp::Start { ok: outcome is Opened }
}

/// How one operation transforms the running flag: a `start` while running
/// and a `stop` while stopped are no-ops; otherwise `start` succeeds iff
/// its open did, and `stop` always stops.
pub open spec fn step(running: bool, op: LifecycleOp) -> bool {
    match op {
        LifecycleOp::Start { ok } => if running {
            true
        } else {
            ok
        },
        LifecycleOp::Stop => false,
    }
}

/// The running flag after replaying a whole history from a fresh process.
pub open spec fn replay(ops: Seq<LifecycleOp>) -> bool
    decreases ops.len(),
{
    if ops.len() == 0 {
        false
    } else {
        step(replay(ops.drop_last()), ops.last())
    }
}

/// After replaying any sequence of `start`/`stop` calls, the state is
/// `Running` exactly when some call was a successful `start` and every
/// later call was a `start` — that is, when the last call that was not an
/// idempotent no-op was a `start` that succeeded.
pub proof fn lemma_replay_running_iff(ops: Seq<LifecycleOp>)
    ensures
        replay(ops) <==> exists|i: int|
            0 <= i < ops.len() && ops[i] == (LifecycleOp::Start { ok: true }) && (forall|j: int|
                i < j < ops.len() ==> ops[j] is Start),
    decreases ops.len(),
{
    if ops.len() == 0 {
    } else {
        let pre = ops.drop_last();
        lemma_replay_running_iff(pre);
        match ops.last() {
            LifecycleOp::Stop => {
                assert(!replay(ops));
                assert forall|i: int|
                    0 <= i < ops.len() && ops[i] == (LifecycleOp::Start { ok: true })
                        implies !(forall|j: int| i < j < ops.len() ==> ops[j] is Start) by {
                    assert(i < ops.len() - 1 < ops.len());
                    assert(!(ops[ops.len() - 1] is Start));
                }
            },
            LifecycleOp::Start { ok } => {
                if replay(pre) {
                    let i = choose|i: int|
                        0 <= i < pre.len() && pre[i] == (LifecycleOp::Start { ok: true }) && (
                        forall|j: int| i < j < pre.len() ==> pre[j] is Start);
                    assert(ops[i] == (LifecycleOp::Start { ok: true }));
                    assert forall|j: int| i < j < ops.len() implies ops[j] is Start by {
                        if j < ops.len() - 1 {
                            assert(pre[j] is Start);
                        }
                    }
                    assert(replay(ops));
                } else {
                    if ok {
                        let i = ops.len() - 1;
                        assert(ops[i] == (LifecycleOp::Start { ok: true }));
                        assert(replay(ops));
                    } else {
                        assert(!replay(ops));
                        assert forall|i: int|
                            0 <= i < ops.len() && ops[i] == (LifecycleOp::Start { ok: true })
                                implies !(forall|j: int| i < j < ops.len() ==> ops[j] is Start) by {
                            if i == ops.len() - 1 {
                                assert(ops[i] == (LifecycleOp::Start { ok: false }));
                            } else {
                                if forall|j: int| i < j < ops.len() ==> ops[j] is Start {
                                    assert(pre[i] == (LifecycleOp::Start { ok: true }));
                                    assert(forall|j: int|
                                        i < j < pre.len() ==> pre[j] == ops[j] && ops[j] is Start);
                                    assert(replay(pre));
                                }
                            }
                        }
                    }
                }
            },
        }
    }
}

} // verus!
