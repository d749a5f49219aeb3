use runtime::signal::{AbortController, AbortSignal, Reason, Signal, SignalError, SignalHub};

#[test]
fn controller_first_reason_wins() {
    let mut hub = SignalHub::new();
    let controller = AbortController::constructor(&mut hub);
    let a = controller.get_signal();
    let b = controller.get_signal();
    assert!(!a.get_aborted(&hub));
    controller.abort(&mut hub, Some(Reason::Value(1)));
    controller.abort(&mut hub, Some(Reason::Value(2)));
    assert_eq!(a.get_reason(&hub), Some(Reason::Value(1)));
    assert_eq!(b.get_reason(&hub), Some(Reason::Value(1)));
}

#[test]
fn controller_default_reason() {
    let mut hub = SignalHub::new();
    let controller = AbortController::constructor(&mut hub);
    controller.abort(&mut hub, None);
    assert_eq!(controller.get_signal().get_reason(&hub), Some(Reason::Aborted));
    assert_eq!(controller.get_signal().throwIfAborted(&hub), Err(Reason::Aborted));
}

#[test]
fn aborted_signal_resolves_at_once() {
    let hub = SignalHub::new();
    let signal = AbortSignal::abort(Some(Reason::Value(7)));
    assert!(signal.get_aborted(&hub));
    let mut future = signal.poll();
    assert_eq!(future.poll(&hub), Some(Reason::Value(7)));
    assert!(future.observed);
}

#[test]
fn inert_signal_stays_pending() {
    let hub = SignalHub::new();
    let signal = AbortSignal::default();
    let mut future = signal.poll();
    assert_eq!(future.poll(&hub), None);
    assert_eq!(signal.throwIfAborted(&hub), Ok(()));
    assert!(!future.observed);
}

#[test]
fn signal_constructor_is_refused() {
    assert_eq!(AbortSignal::constructor(), Err(SignalError::IllegalConstructor));
}

#[test]
fn timeout_fires_with_duration() {
    let mut hub = SignalHub::new();
    let (signal, task) = AbortSignal::timeout(&mut hub, 250);
    assert!(matches!(signal.signal, Signal::TimedPending(_)));
    let mut future = signal.poll();
    assert_eq!(future.poll(&hub), None);
    task.fire(&mut hub);
    assert_eq!(future.poll(&hub), Some(Reason::Timeout(250)));
}

#[test]
fn dismissed_timeout_does_nothing() {
    let mut hub = SignalHub::new();
    let (signal, task) = AbortSignal::timeout(&mut hub, 10);
    signal.poll().dismiss(&mut hub);
    assert!(hub.is_suppressed(task.cell));
    task.fire(&mut hub);
    assert_eq!(signal.get_reason(&hub), None);
}

#[test]
fn dismiss_after_firing_keeps_reason() {
    let mut hub = SignalHub::new();
    let (signal, task) = AbortSignal::timeout(&mut hub, 10);
    task.fire(&mut hub);
    signal.poll().dismiss(&mut hub);
    assert!(!hub.is_suppressed(task.cell));
    assert_eq!(signal.get_reason(&hub), Some(Reason::Timeout(10)));
}
