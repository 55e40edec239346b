use vstd::prelude::*;
use crate::store::{StoredImage, StoreError};
use crate::notify::NotificationResult;

verus! {

/// Minimum time between two accepted captures in motion mode.
pub const MOTION_COOLDOWN_MS: u64 = 30000;

/// Time between two sensor polls.
pub const POLL_INTERVAL_MS: u64 = 500;

/// The time of the last accepted capture and the cooldown that follows it.
/// Times are milliseconds of a monotonic clock.
#[derive(Clone, Copy, Debug, PartialEq, Eq, Structural)]
pub struct DebounceWindow {
    pub cooldown_ms: u64,
    /// `None` until the first capture is accepted, so that it is always accepted.
    pub last_accept_ms: Option<u64>,
}

impl DebounceWindow {
    /// A capture at `now` is accepted: the cooldown has elapsed since the last one.
    pub open spec fn is_open_at(self, now: u64) -> bool {
        match self.last_accept_ms {
            None => true,
            Some(t) => now >= t && now - t >= self.cooldown_ms,
        }
    }

    /// The window after a capture accepted at `now`.
    pub open spec fn accepted(self, now: u64) -> DebounceWindow {
        DebounceWindow { last_accept_ms: Some(now), ..self }
    }

    /// The window after an activation at `now`, and whether it was accepted.
    pub open spec fn activate(self, now: u64) -> (DebounceWindow, bool) {
        if self.is_open_at(now) {
            (self.accepted(now), true)
        } else {
            (self, false)
        }
    }

    pub fn new(cooldown_ms: u64) -> (r: DebounceWindow)
        ensures
            r.cooldown_ms == cooldown_ms,
            r.last_accept_ms.is_none(),
    {
        DebounceWindow { cooldown_ms, last_accept_ms: None }
    }

    pub fn is_open(&self, now: u64) -> (r: bool)
        ensures
            r == self.is_open_at(now),
    {
        match self.last_accept_ms {
            None => true,
            Some(t) => now >= t && now - t >= self.cooldown_ms,
        }
    }

    /// Accepts an activation at `now` if the window is open, closing it from `now` on.
    pub fn try_accept(&mut self, now: u64) -> (r: bool)
        ensures
            (*final(self), r) == old(self).activate(now),
    {
        if self.is_open(now) {
            self.last_accept_ms = Some(now);
            true
        } else {
            false
        }
    }
}

/// The two ways the pipeline runs.
#[derive(Clone, Copy, Debug, PartialEq, Eq, Structural)]
pub enum Mode {
    /// One capture at startup, then exit.
    OneShot,
    /// Captures on sensor activation, forever.
    Motion,
}

/// Where the controller is in one capture cycle.
#[derive(Clone, Copy, Debug, PartialEq, Eq, Structural)]
pub enum Phase {
    Idle,
    Capturing,
    Persisting,
    Notifying,
    /// One-shot mode has run; nothing is left to do.
    Finished,
}

/// A camera fault, described by the driver.
#[derive(Clone, Debug, PartialEq, Eq)]
pub struct CameraError {
    pub message: String,
}

/// What the controller asks its runner to do next.
#[derive(Clone, Debug, PartialEq, Eq)]
pub enum Action {
    /// Wait one poll interval, then poll the sensor.
    Sleep,
    /// Take one frame.
    Capture,
    /// Write this frame to the frame store.
    Persist(Vec<u8>),
    /// Send this stored image to the notifier.
    Notify(StoredImage),
    /// End the process, with success or failure.
    Exit(bool),
}

/// What the runner reports back to the controller.
#[derive(Debug, PartialEq, Eq)]
pub enum Event {
    /// The sensor was read at `now` (ms of a monotonic clock).
    Poll { now: u64, active: bool },
    Captured(Result<Vec<u8>, CameraError>),
    Persisted(Result<StoredImage, StoreError>),
    Notified(NotificationResult),
}

/// The capture state machine: it owns the debounce window, orders
/// capture, persist and notify, and decides which failures end the process.
#[derive(Clone, Debug)]
pub struct CaptureController {
    pub mode: Mode,
    pub window: DebounceWindow,
    pub phase: Phase,
}

impl CaptureController {
    /// What follows a failed capture or save: motion mode drops the cycle, one-shot
    /// mode exits with failure.
    pub open spec fn after_failure(mode: Mode) -> (Phase, Action) {
        match mode {
            Mode::Motion => (Phase::Idle, Action::Sleep),
            Mode::OneShot => (Phase::Finished, Action::Exit(false)),
        }
    }

    /// Whether a poll at `now` that saw the sensor at `active` starts a capture.
    pub open spec fn accepts(self, now: u64, active: bool) -> bool {
        (self.mode == Mode::OneShot || active) && self.window.is_open_at(now)
    }

    /// The controller with `phase` in place of its own.
    pub open spec fn with_phase(self, phase: Phase) -> CaptureController {
        CaptureController { phase, ..self }
    }

    /// Whether `e` is what the controller waits for in its phase.
    pub open spec fn expects(self, e: Event) -> bool {
        match e {
            Event::Poll { .. } => self.phase == Phase::Idle,
            Event::Captured(_) => self.phase == Phase::Capturing,
            Event::Persisted(_) => self.phase == Phase::Persisting,
            Event::Notified(_) => self.phase == Phase::Notifying,
        }
    }

    /// One transition: the next controller and the action it asks for. An event that
    /// the phase does not wait for changes nothing.
    pub open spec fn step(self, e: Event) -> (CaptureController, Action) {
        if !self.expects(e) {
            (self, Action::Sleep)
        } else {
            match e {
                Event::Poll { now, active } => if self.accepts(now, active) {
                    (
                        CaptureController {
                            phase: Phase::Capturing,
                            window: self.window.accepted(now),
                            ..self
                        },
                        Action::Capture,
                    )
                } else {
                    (self, Action::Sleep)
                },
                Event::Captured(outcome) => match outcome {
                    Ok(frame) => (self.with_phase(Phase::Persisting), Action::Persist(frame)),
                    Err(_) => (
                        self.with_phase(Self::after_failure(self.mode).0),
                        Self::after_failure(self.mode).1,
                    ),
                },
                Event::Persisted(outcome) => match outcome {
                    Ok(image) => (self.with_phase(Phase::Notifying), Action::Notify(image)),
                    Err(_) => (
                        self.with_phase(Self::after_failure(self.mode).0),
                        Self::after_failure(self.mode).1,
                    ),
                },
                Event::Notified(_) => match self.mode {
                    Mode::Motion => (self.with_phase(Phase::Idle), Action::Sleep),
                    Mode::OneShot => (self.with_phase(Phase::Finished), Action::Exit(true)),
                },
            }
        }
    }

    /// Whether `e` is what the controller waits for now.
    pub fn expects_event(&self, e: &Event) -> (r: bool)
        ensures
            r == self.expects(*e),
    {
        match e {
            Event::Poll { .. } => self.phase == Phase::Idle,
            Event::Captured(_) => self.phase == Phase::Capturing,
            Event::Persisted(_) => self.phase == Phase::Persisting,
            Event::Notified(_) => self.phase == Phase::Notifying,
        }
    }

    /// Hands one event to the controller and returns the next action.
    pub fn handle(&mut self, e: Event) -> (a: Action)
        requires
            old(self).expects(e),
        ensures
            (*final(self), a) == old(self).step(e),
    {
        match e {
            Event::Poll { now, active } => self.on_poll(now, active),
            Event::Captured(outcome) => self.on_captured(outcome),
            Event::Persisted(outcome) => self.on_persisted(outcome),
            Event::Notified(result) => self.on_notified(result),
        }
    }

    /// Which of the `found` cameras to use: the first, and none when there is none,
    /// which is a startup fault.
    pub fn camera_to_use(found: usize) -> (r: Option<usize>)
        ensures
            found == 0 ==> r.is_none(),
            found > 0 ==> r == Some(0usize),
    {
        if found == 0 {
            None
        } else {
            Some(0)
        }
    }

    /// A motion-mode controller with the given cooldown; its first activation is
    /// accepted.
    pub fn motion(cooldown_ms: u64) -> (r: CaptureController)
        ensures
            r.mode == Mode::Motion,
            r.phase == Phase::Idle,
            r.window.cooldown_ms == cooldown_ms,
            r.window.last_accept_ms.is_none(),
    {
        CaptureController { mode: Mode::Motion, window: DebounceWindow::new(cooldown_ms), phase: Phase::Idle }
    }

    /// A one-shot controller: its first poll captures, whatever the sensor shows.
    pub fn one_shot() -> (r: CaptureController)
        ensures
            r.mode == Mode::OneShot,
            r.phase == Phase::Idle,
            r.window.last_accept_ms.is_none(),
    {
        CaptureController { mode: Mode::OneShot, window: DebounceWindow::new(0), phase: Phase::Idle }
    }

    /// A poll at `now` (ms). The window closes at the moment of acceptance, before
    /// the capture runs.
    pub fn on_poll(&mut self, now: u64, active: bool) -> (a: Action)
        requires
            old(self).phase == Phase::Idle,
        ensures
            final(self).mode == old(self).mode,
            old(self).accepts(now, active) ==> {
                &&& a == Action::Capture
                &&& final(self).phase == Phase::Capturing
                &&& final(self).window == old(self).window.accepted(now)
            },
            !old(self).accepts(now, active) ==> a == Action::Sleep && *final(self) == *old(self),
            (*final(self), a) == old(self).step(Event::Poll { now, active }),
    {
        let trigger = match self.mode {
            Mode::OneShot => true,
            Mode::Motion => active,
        };
        if trigger && self.window.try_accept(now) {
            self.phase = Phase::Capturing;
            Action::Capture
        } else {
            Action::Sleep
        }
    }

    /// The camera's answer. A frame goes on to the store; a fault ends the cycle.
    pub fn on_captured(&mut self, outcome: Result<Vec<u8>, CameraError>) -> (a: Action)
        requires
            old(self).phase == Phase::Capturing,
        ensures
            final(self).mode == old(self).mode,
            final(self).window == old(self).window,
            match outcome {
                Ok(frame) => a == Action::Persist(frame) && final(self).phase == Phase::Persisting,
                Err(_) => (final(self).phase, a) == Self::after_failure(old(self).mode),
            },
            (*final(self), a) == old(self).step(Event::Captured(outcome)),
    {
        match outcome {
            Ok(frame) => {
                self.phase = Phase::Persisting;
                Action::Persist(frame)
            },
            Err(_) => self.fail(),
        }
    }

    /// The store's answer. Only a stored image is handed to the notifier.
    pub fn on_persisted(&mut self, outcome: Result<StoredImage, StoreError>) -> (a: Action)
        requires
            old(self).phase == Phase::Persisting,
        ensures
            final(self).mode == old(self).mode,
            final(self).window == old(self).window,
            match outcome {
                Ok(image) => a == Action::Notify(image) && final(self).phase == Phase::Notifying,
                Err(_) => (final(self).phase, a) == Self::after_failure(old(self).mode),
            },
            (*final(self), a) == old(self).step(Event::Persisted(outcome)),
    {
        match outcome {
            Ok(image) => {
                self.phase = Phase::Notifying;
                Action::Notify(image)
            },
            Err(_) => self.fail(),
        }
    }

    /// The notifier's answer, which never ends the loop: motion mode goes back to
    /// polling, one-shot mode exits with success.
    pub fn on_notified(&mut self, result: NotificationResult) -> (a: Action)
        requires
            old(self).phase == Phase::Notifying,
        ensures
            final(self).mode == old(self).mode,
            final(self).window == old(self).window,
            old(self).mode == Mode::Motion ==> a == Action::Sleep && final(self).phase == Phase::Idle,
            old(self).mode == Mode::OneShot ==> a == Action::Exit(true) && final(self).phase
                == Phase::Finished,
            (*final(self), a) == old(self).step(Event::Notified(result)),
    {
        match self.mode {
            Mode::Motion => {
                self.phase = Phase::Idle;
                Action::Sleep
            },
            Mode::OneShot => {
                self.phase = Phase::Finished;
                Action::Exit(true)
            },
        }
    }

    fn fail(&mut self) -> (a: Action)
        ensures
            final(self).mode == old(self).mode,
            final(self).window == old(self).window,
            (final(self).phase, a) == Self::after_failure(old(self).mode),
    {
        match self.mode {
            Mode::Motion => {
                self.phase = Phase::Idle;
                Action::Sleep
            },
            Mode::OneShot => {
                self.phase = Phase::Finished;
                Action::Exit(false)
            },
        }
    }
}


/// The controller and the actions after a sequence of events, one action per event.
pub open spec fn run(c: CaptureController, es: Seq<Event>) -> (CaptureController, Seq<Action>)
    decreases es.len(),
{
    if es.len() == 0 {
        (c, seq![])
    } else {
        let (c1, actions) = run(c, es.drop_last());
        let (c2, a) = c1.step(es.last());
        (c2, actions.push(a))
    }
}

/// How many captures `actions` asks for.
pub open spec fn captures(actions: Seq<Action>) -> nat
    decreases actions.len(),
{
    if actions.len() == 0 {
        0
    } else {
        captures(actions.drop_last()) + if actions.last() == Action::Capture {
            1nat
        } else {
            0nat
        }
    }
}

/// The time of a poll that saw the sensor active.
pub open spec fn activation_time(e: Event) -> Option<u64> {
    match e {
        Event::Poll { now, active } => if active {
            Some(now)
        } else {
            None
        },
        _ => None,
    }
}

/// Any two sensor activations among `es` lie strictly closer together than `cooldown`.
pub open spec fn activations_within(es: Seq<Event>, cooldown: u64) -> bool {
    forall|i: int, j: int|
        0 <= i < es.len() && 0 <= j < es.len() && (#[trigger] activation_time(es[i])).is_some()
            && (#[trigger] activation_time(es[j])).is_some() ==> activation_time(es[i]).unwrap()
            - activation_time(es[j]).unwrap() < cooldown
}

proof fn lemma_run_keeps(c: CaptureController, es: Seq<Event>)
    ensures
        run(c, es).0.mode == c.mode,
        run(c, es).0.window.cooldown_ms == c.window.cooldown_ms,
        run(c, es).1.len() == es.len(),
    decreases es.len(),
{
    if es.len() > 0 {
        lemma_run_keeps(c, es.drop_last());
    }
}

/// Every notification that a run of the controller asks for is of the image that
/// the store reported as saved by the event just before it, so nothing is sent for
/// a cycle whose save failed.
pub proof fn lemma_notify_only_after_persisted(c: CaptureController, es: Seq<Event>, i: int)
    requires
        0 <= i < es.len(),
    ensures
        run(c, es).1.len() == es.len(),
        run(c, es).1[i] matches Action::Notify(image) ==> es[i] == Event::Persisted(Ok(image)),
    decreases es.len(),
{
    lemma_run_keeps(c, es);
    lemma_run_keeps(c, es.drop_last());
    if i < es.len() - 1 {
        lemma_notify_only_after_persisted(c, es.drop_last(), i);
    }
}

proof fn lemma_captures_shape(c: CaptureController, es: Seq<Event>)
    requires
        c.mode == Mode::Motion,
        activations_within(es, c.window.cooldown_ms),
    ensures
        captures(run(c, es).1) <= 1,
        captures(run(c, es).1) == 0 ==> run(c, es).0.window == c.window,
        captures(run(c, es).1) == 1 ==> exists|k: int|
            0 <= k < es.len() && (#[trigger] activation_time(es[k])).is_some()
                && run(c, es).0.window.last_accept_ms == activation_time(es[k]),
    decreases es.len(),
{
    if es.len() > 0 {
        let prefix = es.drop_last();
        assert(activations_within(prefix, c.window.cooldown_ms)) by {
            assert forall|i: int, j: int|
                0 <= i < prefix.len() && 0 <= j < prefix.len() && (#[trigger] activation_time(
                    prefix[i],
                )).is_some() && (#[trigger] activation_time(prefix[j])).is_some() implies activation_time(
                prefix[i],
            ).unwrap() - activation_time(prefix[j]).unwrap() < c.window.cooldown_ms by {
                assert(prefix[i] == es[i] && prefix[j] == es[j]);
            }
        }
        lemma_captures_shape(c, prefix);
        lemma_run_keeps(c, prefix);
        let (c1, acts) = run(c, prefix);
        let e = es.last();
        let (c2, a) = c1.step(e);
        assert(run(c, es).1.drop_last() =~= acts);
        if captures(acts) == 1 {
            let k = choose|k: int|
                0 <= k < prefix.len() && (#[trigger] activation_time(prefix[k])).is_some()
                    && c1.window.last_accept_ms == activation_time(prefix[k]);
            assert(prefix[k] == es[k]);
            if a == Action::Capture {
                assert(activation_time(es[es.len() - 1]).is_some());
                assert(!c1.window.is_open_at(activation_time(e).unwrap()));
            }
            assert(c2.window == c1.window);
            assert(activation_time(es[k]).is_some() && c2.window.last_accept_ms == activation_time(es[k]));
        } else {
            if a == Action::Capture {
                assert(activation_time(es[es.len() - 1]).is_some());
                assert(c2.window.last_accept_ms == activation_time(es[es.len() - 1]));
            } else {
                assert(c2.window == c1.window);
            }
        }
    }
}

/// In motion mode, sensor activations that all lie strictly closer together than
/// the cooldown lead to at most one accepted capture among them, whatever else
/// happens between them and whatever the controller held before.
pub proof fn lemma_debounce_at_most_one(c: CaptureController, es: Seq<Event>)
    requires
        c.mode == Mode::Motion,
        activations_within(es, c.window.cooldown_ms),
    ensures
        captures(run(c, es).1) <= 1,
{
    lemma_captures_shape(c, es);
}

/// After a capture accepted at `accepted_at`, the first sensor-active poll of an idle
/// controller at or after `accepted_at + cooldown` is accepted.
pub proof fn lemma_accepts_after_cooldown(c: CaptureController, accepted_at: u64, now: u64)
    requires
        c.mode == Mode::Motion,
        c.phase == Phase::Idle,
        c.window.last_accept_ms == Some(accepted_at),
        now >= accepted_at + c.window.cooldown_ms,
    ensures
        c.step(Event::Poll { now, active: true }).1 == Action::Capture,
        c.step(Event::Poll { now, active: true }).0.window.last_accept_ms == Some(now),
{
}

} // verus!
