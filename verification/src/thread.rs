//! Helpers for a worker that has to notice when it should stop: a test for a
//! pending cancellation notification, and an interval timer.

use std::sync::mpsc::Receiver;
use std::sync::mpsc::RecvTimeoutError;
use std::time::Duration;
use std::time::Instant;
use vstd::prelude::*;

verus! {

/// A point on the monotonic clock. Nothing is known of its value.
#[verifier::external_type_specification]
#[verifier::external_body]
pub struct ExInstant(Instant);

/// The receiving end of a channel. Nothing is known of what it holds:
/// other threads fill it.
#[verifier::external_type_specification]
#[verifier::external_body]
#[verifier::reject_recursive_types(T)]
pub struct ExReceiver<T>(Receiver<T>);

/// Why a timed receive came back empty-handed.
#[verifier::external_type_specification]
#[verifier::external_body]
pub struct ExRecvTimeoutError(RecvTimeoutError);

/// `Instant::now` reads the clock.
pub assume_specification[ Instant::now ]() -> (now: Instant);

/// `Instant::elapsed` measures the time since the instant was taken; it
/// depends on the clock.
pub assume_specification[ Instant::elapsed ](start: &Instant) -> (elapsed: Duration);

/// `Duration::as_nanos` counts the whole nanoseconds of a duration.
pub assume_specification[ Duration::as_nanos ](duration: &Duration) -> (nanos: u128);

/// `Duration::from_millis` makes a duration of so many milliseconds.
pub assume_specification[ Duration::from_millis ](millis: u64) -> (duration: Duration);

/// `Receiver::recv_timeout` waits for a value for at most `timeout`; what
/// comes back depends on the other end of the channel.
pub assume_specification<T>[ Receiver::<T>::recv_timeout ](
    rx: &Receiver<T>,
    timeout: Duration,
) -> (received: Result<T, RecvTimeoutError>);

/// How long [`check_ended`] waits for a notification, in milliseconds.
pub const ENDED_WAIT_MILLIS: u64 = 50;

/// Whether a timed receive brought a notification: a timeout and a channel
/// that was hung up both count as none.
pub fn is_notification(received: &Result<(), RecvTimeoutError>) -> (ended: bool)
    ensures
        ended == (received is Ok),
{
    received.is_ok()
}

/// Waits up to [`ENDED_WAIT_MILLIS`] for a cancellation notification and
/// says whether one arrived. A notification that is received is consumed.
pub fn check_ended(rx: &Receiver<()>) -> (ended: bool) {
    let received = rx.recv_timeout(Duration::from_millis(ENDED_WAIT_MILLIS));
    is_notification(&received)
}

/// A timer as a mathematical value. Times are nanoseconds since the timer
/// was made.
pub struct TimerView {
    /// When the timer was last polled or reset.
    pub now: u128,
    /// When the timer fires next.
    pub deadline: u128,
    /// The distance from a reset to the next deadline.
    pub interval: u128,
}

/// Addition that stops at the largest value.
pub open spec fn saturating_sum(a: u128, b: u128) -> u128 {
    if a + b > u128::MAX {
        u128::MAX
    } else {
        (a + b) as u128
    }
}

impl TimerView {
    /// The timer at the moment it is made.
    pub open spec fn start(target: u128) -> TimerView {
        TimerView { now: 0, deadline: target, interval: target }
    }

    /// A poll at time `now`: the timer remembers the time and fires where
    /// the deadline has been reached.
    pub open spec fn poll_at(self, now: u128) -> (TimerView, bool) {
        (TimerView { now, ..self }, now >= self.deadline)
    }

    /// A reset at time `now`: the next deadline is one interval away.
    pub open spec fn reset_at(self, now: u128) -> TimerView {
        TimerView { now, deadline: saturating_sum(now, self.interval), ..self }
    }

    /// A poll at time `now` that rearms the timer where it fires.
    pub open spec fn poll_interval_at(self, now: u128) -> (TimerView, bool) {
        if now >= self.deadline {
            (self.reset_at(now), true)
        } else {
            (self.poll_at(now).0, false)
        }
    }
}

/// An interval timer on the monotonic clock.
pub struct Timer {
    start: Instant,
    now: u128,
    deadline: u128,
    interval: u128,
}

impl View for Timer {
    type V = TimerView;

    closed spec fn view(&self) -> TimerView {
        TimerView { now: self.now, deadline: self.deadline, interval: self.interval }
    }
}

impl Timer {
    /// Polls at the current time, and rearms the timer where it fires. The
    /// time that was read is `now` of the timer afterwards.
    pub fn poll_interval(&mut self) -> (fired: bool)
        ensures
            (final(self)@, fired) == old(self)@.poll_interval_at(final(self)@.now),
    {
        let now = self.clock();
        self.poll_interval_at(now)
    }

    /// Polls at the current time. The time that was read is `now` of the
    /// timer afterwards.
    pub fn poll(&mut self) -> (fired: bool)
        ensures
            (final(self)@, fired) == old(self)@.poll_at(final(self)@.now),
    {
        let now = self.clock();
        self.poll_at(now)
    }

    /// Rearms the timer at the current time. The time that was read is
    /// `now` of the timer afterwards.
    pub fn reset(&mut self)
        ensures
            final(self)@ == old(self)@.reset_at(final(self)@.now),
    {
        let now = self.clock();
        self.reset_at(now)
    }

    /// [`Timer::poll_interval`] at a given time.
    pub fn poll_interval_at(&mut self, now: u128) -> (fired: bool)
        ensures
            (final(self)@, fired) == old(self)@.poll_interval_at(now),
    {
        if self.poll_at(now) {
            self.reset_at(now);
            true
        } else {
            false
        }
    }

    /// [`Timer::poll`] at a given time.
    pub fn poll_at(&mut self, now: u128) -> (fired: bool)
        ensures
            (final(self)@, fired) == old(self)@.poll_at(now),
    {
        self.now = now;
        self.now >= self.deadline
    }

    /// [`Timer::reset`] at a given time.
    pub fn reset_at(&mut self, now: u128)
        ensures
            final(self)@ == old(self)@.reset_at(now),
    {
        self.now = now;
        self.deadline = if now <= u128::MAX - self.interval {
            now + self.interval
        } else {
            u128::MAX
        };
    }

    /// The timer's view of the current time.
    fn clock(&self) -> (now: u128) {
        self.start.elapsed().as_nanos()
    }
}

/// Makes a timer that fires `target` nanoseconds from now, and after each
/// reset `target` nanoseconds from the reset.
pub fn timer(target: u128) -> (timer: Timer)
    ensures
        timer@ == TimerView::start(target),
{
    Timer { start: Instant::now(), now: 0, deadline: target, interval: target }
}

} // verus!
