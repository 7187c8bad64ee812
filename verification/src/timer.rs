//! The timer state machine: a target in seconds and an exit flag,
//! driven once per loop iteration by an optional input event and the
//! elapsed time. The caller owns the clock and the terminal; every
//! decision is made here.

use vstd::prelude::*;

verus! {

/// A terminal input event, reduced to what the timer reads.
#[derive(Clone, Copy, Debug, PartialEq, Eq, Structural)]
pub enum TimerEvent {
    /// A key was pressed.
    KeyPress(char),
    /// A key was released; never acted on.
    KeyRelease(char),
    /// The terminal was resized.
    Resize,
    /// Any other event.
    Other,
}

/// The live state of a running timer.
#[derive(Clone, Copy, Debug, PartialEq, Eq, Structural)]
pub struct App {
    /// The duration to run for, in whole seconds; constant after construction.
    pub target_seconds: u64,
    /// True once a quit condition was seen; never reset.
    pub should_exit: bool,
}

/// The state after one input event: a press of `q` quits, everything
/// else changes nothing.
pub open spec fn spec_handle_event(s: App, event: TimerEvent) -> App {
    App {
        target_seconds: s.target_seconds,
        should_exit: s.should_exit || event == TimerEvent::KeyPress('q'),
    }
}

/// The state after one elapsed-time check: once the elapsed whole
/// seconds reach the target, the timer exits. A delayed check past the
/// exact boundary still terminates, hence `>=` rather than `==`.
pub open spec fn spec_elapsed_check(s: App, elapsed_seconds: u64) -> App {
    App {
        target_seconds: s.target_seconds,
        should_exit: s.should_exit || elapsed_seconds >= s.target_seconds,
    }
}

/// The state after one full loop iteration: the event, if any, then
/// the elapsed-time check.
pub open spec fn spec_next(s: App, event: Option<TimerEvent>, elapsed_seconds: u64) -> App {
    let after_event = match event {
        Some(ev) => spec_handle_event(s, ev),
        None => s,
    };
    spec_elapsed_check(after_event, elapsed_seconds)
}

impl App {
    /// A fresh timer: not yet exiting, aimed at `duration` seconds.
    pub fn new(duration: u64) -> (r: App)
        ensures
            r.target_seconds == duration,
            !r.should_exit,
    {
        App { target_seconds: duration, should_exit: false }
    }

    /// Mark the timer as finished.
    pub fn exit(&mut self)
        ensures
            final(self).target_seconds == old(self).target_seconds,
            final(self).should_exit,
    {
        self.should_exit = true;
    }

    /// React to a pressed key: `q` quits, any other key does nothing.
    pub fn handle_key_event(&mut self, key: char)
        ensures
            *final(self) == spec_handle_event(*old(self), TimerEvent::KeyPress(key)),
    {
        if key == 'q' {
            self.exit();
        }
    }

    /// React to one input event: only a press of `q` changes the state.
    pub fn handle_event(&mut self, event: TimerEvent)
        ensures
            *final(self) == spec_handle_event(*old(self), event),
    {
        match event {
            TimerEvent::KeyPress(key) => self.handle_key_event(key),
            _ => {},
        }
    }

    /// Check the elapsed time against the target and exit once reached.
    pub fn elapsed_reached(&mut self, elapsed_seconds: u64)
        ensures
            *final(self) == spec_elapsed_check(*old(self), elapsed_seconds),
    {
        if elapsed_seconds >= self.target_seconds {
            self.exit();
        }
    }

    /// One loop iteration: handle the polled event, if any, then check
    /// the elapsed time.
    pub fn step(&mut self, event: Option<TimerEvent>, elapsed_seconds: u64)
        ensures
            *final(self) == spec_next(*old(self), event, elapsed_seconds),
    {
        match event {
            Some(ev) => self.handle_event(ev),
            None => {},
        }
        self.elapsed_reached(elapsed_seconds);
    }
}

/// The exit flag is monotonic: no iteration ever clears it.
pub proof fn lemma_exit_monotonic(s: App, event: Option<TimerEvent>, elapsed_seconds: u64)
    requires
        s.should_exit,
    ensures
        spec_next(s, event, elapsed_seconds).should_exit,
{
}

/// A zero-length timer exits on its first iteration, whatever was
/// polled and however little time has passed.
pub proof fn lemma_zero_target_exits(s: App, event: Option<TimerEvent>, elapsed_seconds: u64)
    requires
        s.target_seconds == 0,
    ensures
        spec_next(s, event, elapsed_seconds).should_exit,
{
}

/// With no quit key pressed, a running timer exits exactly when the
/// elapsed whole seconds reach the target: then, and not before.
pub proof fn lemma_times_out(s: App, event: Option<TimerEvent>, elapsed_seconds: u64)
    requires
        !s.should_exit,
        event != Some(TimerEvent::KeyPress('q')),
    ensures
        spec_next(s, event, elapsed_seconds).should_exit == (elapsed_seconds
            >= s.target_seconds),
{
}

/// A press of `q` exits at any point, whatever the elapsed time.
pub proof fn lemma_quit_key_exits(s: App, elapsed_seconds: u64)
    ensures
        spec_next(s, Some(TimerEvent::KeyPress('q')), elapsed_seconds).should_exit,
{
}

/// No event other than a press of `q` changes the exit flag.
pub proof fn lemma_non_quit_events_ignored(s: App, event: TimerEvent)
    requires
        event != TimerEvent::KeyPress('q'),
    ensures
        spec_handle_event(s, event) == s,
{
}

/// The target never changes, whatever happens in an iteration.
pub proof fn lemma_target_constant(s: App, event: Option<TimerEvent>, elapsed_seconds: u64)
    ensures
        spec_next(s, event, elapsed_seconds).target_seconds == s.target_seconds,
{
}

} // verus!
