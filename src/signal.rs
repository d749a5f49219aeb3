//! Cancellation signals.
//!
//! Every broadcast cell lives in a `SignalHub`, the context object that is
//! handed explicitly to whatever needs to read or settle a cell. A cell moves
//! at most once from "no reason" to "reason present"; handles refer to a cell
//! by its index, so any number of them can share one.
use vstd::prelude::*;

verus! {

/// Why a signal was cancelled.
#[derive(Clone, Copy, Debug, PartialEq, Eq, Structural)]
pub enum Reason {
    /// The default reason of an abort that was given none.
    Aborted,
    /// A reason supplied by the caller, as an opaque handle.
    Value(u64),
    /// A timer fired; carries the configured duration in milliseconds.
    Timeout(u64),
}

/// The reason an abort settles with: the caller's, or the default one.
pub open spec fn reason_or_default(reason: Option<Reason>) -> Reason {
    match reason {
        Option::Some(r) => r,
        Option::None => Reason::Aborted,
    }
}

/// The state of a signal handle.
#[derive(Clone, Copy, Debug, PartialEq, Eq, Structural)]
pub enum Signal {
    /// Never cancels.
    Inert,
    /// Already cancelled with this reason.
    Cancelled(Reason),
    /// Subscribed to the broadcast cell with this index.
    Pending(usize),
    /// Subscribed to the cell with this index, which a timer settles; the
    /// timer's termination flag has the same index.
    TimedPending(usize),
}

impl Default for Signal {
    fn default() -> (r: Signal)
        ensures
            r == Signal::Inert,
    {
        Signal::Inert
    }
}

/// The broadcast cells and the timers' termination flags.
pub struct SignalHub {
    cells: Vec<Option<Reason>>,
    suppressed: Vec<bool>,
}

/// The cells after a settle of cell `c` with `r`: the first reason wins.
pub open spec fn settle(cells: Seq<Option<Reason>>, c: int, r: Reason) -> Seq<Option<Reason>> {
    if cells[c] is None {
        cells.update(c, Option::Some(r))
    } else {
        cells
    }
}

/// What a handle in state `s` reports against the cells.
pub open spec fn reason_of(cells: Seq<Option<Reason>>, s: Signal) -> Option<Reason> {
    match s {
        Signal::Inert => Option::None,
        Signal::Cancelled(r) => Option::Some(r),
        Signal::Pending(c) => if c < cells.len() { cells[c as int] } else { Option::None },
        Signal::TimedPending(c) => if c < cells.len() { cells[c as int] } else { Option::None },
    }
}

impl SignalHub {
    pub closed spec fn cells(&self) -> Seq<Option<Reason>> {
        self.cells@
    }

    pub closed spec fn suppressed(&self) -> Seq<bool> {
        self.suppressed@
    }

    pub open spec fn wf(&self) -> bool {
        self.cells().len() == self.suppressed().len()
    }

    pub fn new() -> (r: SignalHub)
        ensures
            r.wf(),
            r.cells() == Seq::<Option<Reason>>::empty(),
    {
        SignalHub { cells: Vec::new(), suppressed: Vec::new() }
    }

    /// Adds an unsettled cell, with its flag not suppressed, and returns its index.
    fn add_cell(&mut self) -> (c: usize)
        requires
            old(self).wf(),
            old(self).cells().len() < usize::MAX,
        ensures
            final(self).wf(),
            c == old(self).cells().len(),
            final(self).cells() == old(self).cells().push(Option::None),
            final(self).suppressed() == old(self).suppressed().push(false),
    {
        let c = self.cells.len();
        self.cells.push(Option::None);
        self.suppressed.push(false);
        c
    }

    /// Settles cell `c` with `r` unless it already holds a reason.
    fn settle_cell(&mut self, c: usize, r: Reason)
        requires
            old(self).wf(),
            c < old(self).cells().len(),
        ensures
            final(self).wf(),
            final(self).cells() == settle(old(self).cells(), c as int, r),
            final(self).suppressed() == old(self).suppressed(),
    {
        if self.cells[c].is_none() {
            self.cells.set(c, Option::Some(r));
        }
    }

    /// What a handle in state `s` reports now.
    pub fn reason(&self, s: Signal) -> (r: Option<Reason>)
        ensures
            r == reason_of(self.cells(), s),
    {
        match s {
            Signal::Inert => Option::None,
            Signal::Cancelled(r) => Option::Some(r),
            Signal::Pending(c) | Signal::TimedPending(c) => {
                if c < self.cells.len() {
                    self.cells[c]
                } else {
                    Option::None
                }
            },
        }
    }

    /// Whether the timer of cell `c` was told to skip its effect.
    pub fn is_suppressed(&self, c: usize) -> (r: bool)
        requires
            c < self.suppressed().len(),
        ensures
            r == self.suppressed()[c as int],
    {
        self.suppressed[c]
    }
}

/// The cells after the handle in state `s` is discarded: an unsettled
/// timer-backed handle suppresses its timer.
pub open spec fn dismissed(cells: Seq<Option<Reason>>, suppressed: Seq<bool>, s: Signal) -> Seq<bool> {
    match s {
        Signal::TimedPending(c) => if c < cells.len() && cells[c as int] is None {
            suppressed.update(c as int, true)
        } else {
            suppressed
        },
        _ => suppressed,
    }
}

/// The cells after a timer on cell `c` with `duration` runs.
pub open spec fn fired(cells: Seq<Option<Reason>>, suppressed: Seq<bool>, c: int, duration: u64) -> Seq<Option<Reason>> {
    if suppressed[c] {
        cells
    } else {
        settle(cells, c, Reason::Timeout(duration))
    }
}

/// Settles the broadcast cell that all of its signals share.
pub struct AbortController {
    cell: usize,
}

impl AbortController {
    pub closed spec fn cell(&self) -> usize {
        self.cell
    }

    /// A controller with a fresh, unsettled cell.
    pub fn constructor(hub: &mut SignalHub) -> (r: AbortController)
        requires
            old(hub).wf(),
            old(hub).cells().len() < usize::MAX,
        ensures
            final(hub).wf(),
            r.cell() == old(hub).cells().len(),
            final(hub).cells() == old(hub).cells().push(Option::None),
            final(hub).suppressed() == old(hub).suppressed().push(false),
    {
        AbortController { cell: hub.add_cell() }
    }

    /// A new handle subscribed to this controller's cell.
    pub fn get_signal(&self) -> (r: AbortSignal)
        ensures
            r.signal == Signal::Pending(self.cell()),
    {
        AbortSignal { signal: Signal::Pending(self.cell) }
    }

    /// Settles the cell with `reason`, or with the default reason when none is
    /// given. Only the first abort has an effect.
    pub fn abort(&self, hub: &mut SignalHub, reason: Option<Reason>)
        requires
            old(hub).wf(),
            self.cell() < old(hub).cells().len(),
        ensures
            final(hub).wf(),
            final(hub).cells() == settle(old(hub).cells(), self.cell() as int, reason_or_default(reason)),
            final(hub).suppressed() == old(hub).suppressed(),
    {
        let r = match reason {
            Option::Some(r) => r,
            Option::None => Reason::Aborted,
        };
        hub.settle_cell(self.cell, r);
    }
}

/// Why a signal operation refused to run.
#[derive(Clone, Copy, Debug, PartialEq, Eq, Structural)]
pub enum SignalError {
    /// Signals are made by a controller, `abort` or `timeout`, never directly.
    IllegalConstructor,
}

/// A handle on a cancellation signal.
#[derive(Clone, Copy, Debug, PartialEq, Eq, Structural)]
pub struct AbortSignal {
    pub signal: Signal,
}

impl AbortSignal {
    pub open spec fn default_spec() -> AbortSignal {
        AbortSignal { signal: Signal::Inert }
    }
}

impl Default for AbortSignal {
    fn default() -> (r: AbortSignal)
        ensures
            r.signal == Signal::Inert,
    {
        AbortSignal { signal: Signal::Inert }
    }
}

/// A timer's pending callback: when run, it settles its cell with a timeout
/// reason unless the cell's termination flag was raised first.
#[derive(Clone, Copy, Debug, PartialEq, Eq, Structural)]
pub struct TimerTask {
    pub cell: usize,
    pub duration: u64,
}

impl TimerTask {
    /// Runs the callback. A suppressed timer leaves every cell as it was.
    pub fn fire(&self, hub: &mut SignalHub)
        requires
            old(hub).wf(),
            self.cell < old(hub).cells().len(),
        ensures
            final(hub).wf(),
            final(hub).cells() == fired(old(hub).cells(), old(hub).suppressed(), self.cell as int, self.duration),
            final(hub).suppressed() == old(hub).suppressed(),
    {
        if !hub.suppressed[self.cell] {
            hub.settle_cell(self.cell, Reason::Timeout(self.duration));
        }
    }
}

impl AbortSignal {
    /// Signals are not constructed directly.
    pub fn constructor() -> (r: Result<AbortSignal, SignalError>)
        ensures
            r == Result::<AbortSignal, SignalError>::Err(SignalError::IllegalConstructor),
    {
        Result::Err(SignalError::IllegalConstructor)
    }

    /// A future that resolves when this signal is settled.
    pub fn poll(&self) -> (r: SignalFuture)
        ensures
            r.inner == self.signal,
            !r.observed,
    {
        SignalFuture { inner: self.signal, observed: false }
    }

    pub fn get_aborted(&self, hub: &SignalHub) -> (r: bool)
        ensures
            r == reason_of(hub.cells(), self.signal) is Some,
    {
        self.get_reason(hub).is_some()
    }

    pub fn get_reason(&self, hub: &SignalHub) -> (r: Option<Reason>)
        ensures
            r == reason_of(hub.cells(), self.signal),
    {
        hub.reason(self.signal)
    }

    /// Fails with the reason once the signal is settled.
    #[allow(non_snake_case)]
    pub fn throwIfAborted(&self, hub: &SignalHub) -> (r: Result<(), Reason>)
        ensures
            r is Err <==> reason_of(hub.cells(), self.signal) is Some,
            r is Err ==> Option::Some(r->Err_0) == reason_of(hub.cells(), self.signal),
    {
        match self.get_reason(hub) {
            Option::Some(reason) => Result::Err(reason),
            Option::None => Result::Ok(()),
        }
    }

    /// A signal that is already settled with `reason`, or the default reason.
    pub fn abort(reason: Option<Reason>) -> (r: AbortSignal)
        ensures
            r.signal == Signal::Cancelled(reason_or_default(reason)),
    {
        let r = match reason {
            Option::Some(r) => r,
            Option::None => Reason::Aborted,
        };
        AbortSignal { signal: Signal::Cancelled(r) }
    }

    /// A signal settled by a timer after `time` milliseconds. The returned task
    /// is to be run by the task queue once that time has elapsed.
    pub fn timeout(hub: &mut SignalHub, time: u64) -> (r: (AbortSignal, TimerTask))
        requires
            old(hub).wf(),
            old(hub).cells().len() < usize::MAX,
        ensures
            final(hub).wf(),
            final(hub).cells() == old(hub).cells().push(Option::None),
            final(hub).suppressed() == old(hub).suppressed().push(false),
            r.0.signal == Signal::TimedPending(old(hub).cells().len() as usize),
            r.1 == (TimerTask { cell: old(hub).cells().len() as usize, duration: time }),
    {
        let c = hub.add_cell();
        (AbortSignal { signal: Signal::TimedPending(c) }, TimerTask { cell: c, duration: time })
    }
}

/// Waits on one signal handle; remembers whether it has seen the signal fire.
pub struct SignalFuture {
    pub inner: Signal,
    pub observed: bool,
}

impl SignalFuture {
    /// One poll: the reason once settled, `None` while pending (an inert
    /// signal is pending for ever).
    pub fn poll(&mut self, hub: &SignalHub) -> (r: Option<Reason>)
        ensures
            r == reason_of(hub.cells(), old(self).inner),
            final(self).inner == old(self).inner,
            final(self).observed == (old(self).observed || r is Some),
    {
        let r = hub.reason(self.inner);
        if r.is_some() {
            self.observed = true;
        }
        r
    }

    /// Discards the handle. A timer-backed handle whose cell is still unsettled
    /// raises its timer's termination flag, so the timer's callback does nothing.
    pub fn dismiss(self, hub: &mut SignalHub)
        requires
            old(hub).wf(),
        ensures
            final(hub).wf(),
            final(hub).cells() == old(hub).cells(),
            final(hub).suppressed() == dismissed(old(hub).cells(), old(hub).suppressed(), self.inner),
    {
        if let Signal::TimedPending(c) = self.inner {
            if c < hub.cells.len() && hub.cells[c].is_none() {
                hub.suppressed.set(c, true);
            }
        }
    }
}

/// A signal made by `abort` is settled at once, and its first poll returns the
/// reason without waiting.
pub proof fn aborted_signal_is_settled(cells: Seq<Option<Reason>>, reason: Option<Reason>)
    ensures
        reason_of(cells, Signal::Cancelled(reason_or_default(reason))) == Option::Some(reason_or_default(reason)),
{
}

/// A timer whose handle was discarded before it fired leaves every cell as it
/// was when its callback runs.
pub proof fn dismissed_timer_never_broadcasts(
    cells: Seq<Option<Reason>>,
    suppressed: Seq<bool>,
    c: usize,
    duration: u64,
)
    requires
        cells.len() == suppressed.len(),
        c < cells.len(),
        cells[c as int] is None,
    ensures
        fired(cells, dismissed(cells, suppressed, Signal::TimedPending(c)), c as int, duration) == cells,
{
}

/// Two handles on one controller's cell report the same reason, the first one
/// given, however many aborts follow.
pub proof fn shared_cell_keeps_first_reason(
    cells: Seq<Option<Reason>>,
    c: usize,
    first: Reason,
    second: Reason,
    a: Signal,
    b: Signal,
)
    requires
        c < cells.len(),
        cells[c as int] is None,
        a == Signal::Pending(c) || a == Signal::TimedPending(c),
        b == Signal::Pending(c) || b == Signal::TimedPending(c),
    ensures
        reason_of(settle(settle(cells, c as int, first), c as int, second), a) == Option::Some(first),
        reason_of(settle(settle(cells, c as int, first), c as int, second), b) == Option::Some(first),
{
}

} // verus!
