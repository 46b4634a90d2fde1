use camstream::lifecycle::Controller;
use camstream::lifecycle::DeviceHandle;
use camstream::lifecycle::OpenOutcome;
use camstream::lifecycle::StartStatus;
use camstream::lifecycle::StartStep;
use camstream::lifecycle::StopStatus;
use camstream::lifecycle::start_status_text;
use camstream::lifecycle::stop_status_text;
use camstream::lifecycle::BUFFER_DEPTH;

#[test]
fn fresh_controller_is_stopped() {
    let c = Controller::new();
    assert!(!c.running());
}

#[test]
fn start_on_fresh_process_opens_with_depth_two() {
    let mut c = Controller::new();
    let step = c.start_request();
    assert!(matches!(step, StartStep::Open { buffer_depth: 2 }));
    assert_eq!(BUFFER_DEPTH, 2);
    let s = c.finish_start(OpenOutcome::Opened { handle: DeviceHandle { id: 1 } });
    assert!(matches!(s, StartStatus::Started));
    assert!(c.running());
    assert_eq!(start_status_text(s), "camera started");
}

#[test]
fn second_start_is_already_running_and_opens_nothing() {
    let mut c = Controller::new();
    let first = c.start_request();
    assert!(matches!(first, StartStep::Open { .. }));
    let s = c.finish_start(OpenOutcome::Opened { handle: DeviceHandle { id: 7 } });
    assert!(matches!(s, StartStatus::Started));
    // The second start is answered without any open step at all: exactly
    // one device open has occurred.
    let second = c.start_request();
    assert!(matches!(second, StartStep::AlreadyRunning));
    assert!(c.running());
    assert_eq!(start_status_text(StartStatus::AlreadyRunning), "camera already running");
    assert_ne!(
        start_status_text(StartStatus::AlreadyRunning),
        start_status_text(StartStatus::Started)
    );
}

#[test]
fn failed_open_leaves_state_stopped() {
    let mut c = Controller::new();
    let step = c.start_request();
    assert!(matches!(step, StartStep::Open { .. }));
    let s = c.finish_start(OpenOutcome::Failed);
    assert!(matches!(s, StartStatus::ConfigError));
    assert!(!c.running());
    assert_eq!(start_status_text(s), "configuration error");
}

#[test]
fn stop_returns_the_handle_for_release() {
    let mut c = Controller::new();
    c.start_request();
    c.finish_start(OpenOutcome::Opened { handle: DeviceHandle { id: 42 } });
    let (s, handle) = c.stop();
    assert!(matches!(s, StopStatus::Stopped));
    assert_eq!(handle, Some(DeviceHandle { id: 42 }));
    assert!(!c.running());
    assert_eq!(stop_status_text(s), "camera stopped");
}

#[test]
fn stop_while_stopped_is_a_distinguishable_no_op() {
    let mut c = Controller::new();
    let (s, handle) = c.stop();
    assert!(matches!(s, StopStatus::AlreadyStopped));
    assert_eq!(handle, None);
    assert!(!c.running());
    assert_eq!(stop_status_text(s), "camera already stopped");
    assert_ne!(stop_status_text(s), stop_status_text(StopStatus::Stopped));
}

#[test]
fn replayed_history_ends_running_iff_last_effective_call_was_a_start() {
    // start(ok), stop, start(failed) -> stopped
    let mut c = Controller::new();
    c.start_request();
    c.finish_start(OpenOutcome::Opened { handle: DeviceHandle { id: 1 } });
    c.stop();
    c.start_request();
    c.finish_start(OpenOutcome::Failed);
    assert!(!c.running());
    // ... then start(ok), and a redundant start -> still running
    c.start_request();
    c.finish_start(OpenOutcome::Opened { handle: DeviceHandle { id: 2 } });
    assert!(matches!(c.start_request(), StartStep::AlreadyRunning));
    assert!(c.running());
    // ... then stop, stop -> stopped
    c.stop();
    c.stop();
    assert!(!c.running());
}
