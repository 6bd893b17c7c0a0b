//! Clear/busy channel detection
//!
//! The TNC reports a busy RF channel with `BUSY TRUE` and a clear one with
//! `BUSY FALSE`; when to start a new transmission is up to the client. The
//! detector below holds a "busy" lock whenever the channel is busy and
//! gives it up once the channel has been clear for long enough. Its runner
//! owns the lock, the event streams and the timer: the detector says, for
//! each thing the runner observes, what to do next.
use vstd::prelude::*;

use crate::protocol::response::{Event, EventView};

verus! {

/// What the runner of a busy detector observed
#[derive(Debug, PartialEq, Eq)]
pub enum BusyInput {
    /// The next event from the TNC
    Event(Event),
    /// The clear time passed without any event
    TimedOut,
    /// The event stream ended
    End,
}

/// What the runner of a busy detector must do next
#[derive(Debug, PartialEq, Eq)]
pub enum BusyAction {
    /// Take the busy lock: the channel is busy
    Acquire,
    /// Give up the busy lock: the channel is clear
    Release,
    /// Pass this (non-busy) event on
    Forward(Event),
    /// Stop: the event stream is over
    Stop,
    /// Nothing to do but await the next input
    Continue,
}

/// Abstract value of a `BusyAction`
pub enum BusyActionView {
    /// See `BusyAction::Acquire`
    Acquire,
    /// See `BusyAction::Release`
    Release,
    /// See `BusyAction::Forward`
    Forward(EventView),
    /// See `BusyAction::Stop`
    Stop,
    /// See `BusyAction::Continue`
    Continue,
}

impl View for BusyAction {
    type V = BusyActionView;

    open spec fn view(&self) -> BusyActionView {
        match self {
            BusyAction::Acquire => BusyActionView::Acquire,
            BusyAction::Release => BusyActionView::Release,
            BusyAction::Forward(e) => BusyActionView::Forward(e@),
            BusyAction::Stop => BusyActionView::Stop,
            BusyAction::Continue => BusyActionView::Continue,
        }
    }
}

/// State of the busy/clear channel detector
#[derive(Debug, Clone, Copy, PartialEq, Eq, Structural)]
pub struct BusyLock {
    /// The busy lock is held: the channel counts as busy
    pub held: bool,
    /// The last `BUSY` report said the channel is clear
    pub will_be_clear: bool,
    /// The clear time is zero: `BUSY FALSE` clears the channel at once
    pub immediately_clear: bool,
}

/// The detector as it starts: the lock is taken at startup and, with a
/// zero clear time, given up again at once
pub open spec fn spec_busy_lock_start(clear_time_is_zero: bool) -> BusyLock {
    BusyLock { held: !clear_time_is_zero, will_be_clear: true, immediately_clear: clear_time_is_zero }
}

/// One step of the detector on what the runner observed
pub open spec fn spec_busy_step(s: BusyLock, input: BusyInputView) -> (BusyLock, BusyActionView) {
    match input {
        BusyInputView::Event(EventView::BUSY(true)) => (
            BusyLock { held: true, will_be_clear: false, ..s },
            if s.held {
                BusyActionView::Continue
            } else {
                BusyActionView::Acquire
            },
        ),
        BusyInputView::Event(EventView::BUSY(false)) => if s.immediately_clear {
            (
                BusyLock { held: false, will_be_clear: true, ..s },
                if s.held {
                    BusyActionView::Release
                } else {
                    BusyActionView::Continue
                },
            )
        } else {
            (BusyLock { will_be_clear: true, ..s }, BusyActionView::Continue)
        },
        BusyInputView::Event(e) => (s, BusyActionView::Forward(e)),
        BusyInputView::TimedOut => if s.will_be_clear && s.held {
            (BusyLock { held: false, ..s }, BusyActionView::Release)
        } else {
            (s, BusyActionView::Continue)
        },
        BusyInputView::End => (s, BusyActionView::Stop),
    }
}

/// Abstract value of a `BusyInput`
pub enum BusyInputView {
    /// See `BusyInput::Event`
    Event(EventView),
    /// See `BusyInput::TimedOut`
    TimedOut,
    /// See `BusyInput::End`
    End,
}

impl View for BusyInput {
    type V = BusyInputView;

    open spec fn view(&self) -> BusyInputView {
        match self {
            BusyInput::Event(e) => BusyInputView::Event(e@),
            BusyInput::TimedOut => BusyInputView::TimedOut,
            BusyInput::End => BusyInputView::End,
        }
    }
}

impl BusyLock {
    /// A detector that has just started. The lock is taken on startup;
    /// with a zero clear time it is given up at once, since the channel
    /// then counts as clear as soon as `BUSY FALSE` arrives.
    pub fn new(clear_time_is_zero: bool) -> (r: BusyLock)
        ensures
            r == spec_busy_lock_start(clear_time_is_zero),
    {
        BusyLock { held: !clear_time_is_zero, will_be_clear: true, immediately_clear: clear_time_is_zero }
    }

    /// True if the next wait for an event must time out after the clear
    /// time: only while the lock is held and a clear time is set
    pub fn wants_timeout(&self) -> (r: bool)
        ensures
            r == (!self.immediately_clear && self.held),
    {
        !self.immediately_clear && self.held
    }

    /// Takes in what the runner observed and says what to do.
    ///
    /// `BUSY TRUE` takes the lock (if it is not held) and cancels any
    /// pending clear; `BUSY FALSE` marks the channel clear for the next
    /// timeout, or clears it at once when the clear time is zero; a
    /// timeout gives up the lock if the channel was last reported clear;
    /// other events are passed on; the end of the events stops the
    /// detector.
    pub fn step(&mut self, input: BusyInput) -> (r: BusyAction)
        ensures
            (*final(self), r@) == spec_busy_step(*old(self), input@),
    {
        match input {
            BusyInput::Event(Event::BUSY(true)) => {
                let was_held = self.held;
                self.held = true;
                self.will_be_clear = false;
                if was_held {
                    BusyAction::Continue
                } else {
                    BusyAction::Acquire
                }
            },
            BusyInput::Event(Event::BUSY(false)) => {
                self.will_be_clear = true;
                if self.immediately_clear {
                    let was_held = self.held;
                    self.held = false;
                    if was_held {
                        BusyAction::Release
                    } else {
                        BusyAction::Continue
                    }
                } else {
                    BusyAction::Continue
                }
            },
            BusyInput::Event(evt) => BusyAction::Forward(evt),
            BusyInput::TimedOut => {
                if self.will_be_clear && self.held {
                    self.held = false;
                    BusyAction::Release
                } else {
                    BusyAction::Continue
                }
            },
            BusyInput::End => BusyAction::Stop,
        }
    }
}


/// With a zero clear time the lock is held exactly while the last `BUSY`
/// report said busy: true at startup, and kept by every step
pub proof fn lemma_zero_clear_time_tracks_reports(s: BusyLock, input: BusyInputView)
    requires
        s.immediately_clear,
        s.held == !s.will_be_clear,
    ensures
        spec_busy_lock_start(true).held == !spec_busy_lock_start(true).will_be_clear,
        spec_busy_step(s, input).0.immediately_clear,
        spec_busy_step(s, input).0.held == !spec_busy_step(s, input).0.will_be_clear,
{
}

/// The lock is given up only when the last `BUSY` report said clear, and
/// taken only on `BUSY TRUE`; after `BUSY TRUE` it is always held
pub proof fn lemma_lock_follows_reports(s: BusyLock, input: BusyInputView)
    ensures
        spec_busy_step(s, input).1 is Release ==> spec_busy_step(s, input).0.will_be_clear,
        spec_busy_step(s, input).1 is Acquire ==> input == BusyInputView::Event(EventView::BUSY(true)),
        input == BusyInputView::Event(EventView::BUSY(true)) ==> spec_busy_step(s, input).0.held,
        spec_busy_step(s, input).0.immediately_clear == s.immediately_clear,
{
}

/// `BUSY` reports are consumed; every other event is passed on unchanged,
/// and the end of the events stops the detector
pub proof fn lemma_events_forwarded(s: BusyLock, e: EventView)
    ensures
        e is BUSY ==> !(spec_busy_step(s, BusyInputView::Event(e)).1 is Forward),
        !(e is BUSY) ==> spec_busy_step(s, BusyInputView::Event(e)) == (s, BusyActionView::Forward(e)),
        spec_busy_step(s, BusyInputView::End) == (s, BusyActionView::Stop),
{
}


/// With a clear time set, the lock taken at startup is given up after the
/// clear time if no `BUSY` report came: a channel that stays quiet after
/// startup counts as clear at the first timeout; a `BUSY TRUE` before it
/// keeps the lock through that timeout
pub proof fn lemma_quiet_start_clears()
    ensures
        spec_busy_lock_start(false).held,
        spec_busy_step(spec_busy_lock_start(false), BusyInputView::TimedOut).1 == BusyActionView::Release,
        !spec_busy_step(spec_busy_lock_start(false), BusyInputView::TimedOut).0.held,
        ({
            let s1 = spec_busy_step(
                spec_busy_lock_start(false),
                BusyInputView::Event(EventView::BUSY(true)),
            ).0;
            &&& spec_busy_step(s1, BusyInputView::TimedOut).1 == BusyActionView::Continue
            &&& spec_busy_step(s1, BusyInputView::TimedOut).0.held
        }),
{
}

} // verus!
