//! A one-shot timer and the signals that it leaves behind.
use vstd::prelude::*;

verus! {

/// What a timer leaves behind when it runs out.
#[derive(Debug, Clone, Copy, PartialEq, Eq, Structural)]
pub enum TimeoutSignal {
    Elapsed,
}

/// A timer that can be started, restarted and cancelled. Each time it runs out
/// it queues a signal, which stays until it is taken.
#[derive(Debug)]
pub struct Timer {
    deadline: Option<u64>,
    signals: Vec<TimeoutSignal>,
}

/// What a [`Timer`] stands at.
pub struct TimerModel {
    /// When the running timer runs out.
    pub deadline: Option<u64>,
    /// How many signals are queued.
    pub signals: nat,
}

impl TimerModel {
    /// A timer that was never started.
    pub open spec fn idle() -> TimerModel {
        TimerModel { deadline: None, signals: 0 }
    }

    /// The timer started at `now`, in place of a running one.
    pub open spec fn started(self, now: u64, timeout: u64) -> TimerModel {
        TimerModel {
            deadline: Some(
                if now + timeout <= u64::MAX {
                    (now + timeout) as u64
                } else {
                    u64::MAX
                },
            ),
            ..self
        }
    }

    /// The timer stopped; queued signals stay.
    pub open spec fn cancelled(self) -> TimerModel {
        TimerModel { deadline: None, ..self }
    }

    /// Whether the running timer has run out at `now`.
    pub open spec fn expired(self, now: u64) -> bool {
        self.deadline is Some && self.deadline->0 <= now
    }

    /// The timer seen at `now`: if it has run out, it has queued its signal.
    pub open spec fn polled(self, now: u64) -> TimerModel {
        if self.expired(now) {
            TimerModel { deadline: None, signals: self.signals + 1 }
        } else {
            self
        }
    }

    /// The timer with its signals taken.
    pub open spec fn drained(self) -> TimerModel {
        TimerModel { signals: 0, ..self }
    }
}

impl View for Timer {
    type V = TimerModel;

    closed spec fn view(&self) -> TimerModel {
        TimerModel { deadline: self.deadline, signals: self.signals@.len() }
    }
}

impl Timer {
    pub fn new() -> (r: Self)
        ensures
            r@ == TimerModel::idle(),
    {
        Timer { deadline: None, signals: Vec::new() }
    }

    /// Starts the timer, in place of a running one.
    pub fn start(&mut self, now: u64, timeout: u64)
        ensures
            final(self)@ == old(self)@.started(now, timeout),
    {
        let deadline: u64 = if timeout <= u64::MAX - now {
            now + timeout
        } else {
            u64::MAX
        };
        self.deadline = Some(deadline);
    }

    /// Stops the timer.
    pub fn cancel(&mut self)
        ensures
            final(self)@ == old(self)@.cancelled(),
    {
        self.deadline = None;
    }

    /// When the running timer runs out.
    pub fn deadline(&self) -> (r: Option<u64>)
        ensures
            r == self@.deadline,
    {
        self.deadline
    }

    /// Queues the signal if the timer has run out.
    pub fn poll(&mut self, now: u64)
        ensures
            final(self)@ == old(self)@.polled(now),
    {
        if let Some(deadline) = self.deadline {
            if deadline <= now {
                self.deadline = None;
                self.signals.push(TimeoutSignal::Elapsed);
            }
        }
    }

    /// Takes one signal, if there is one.
    pub fn take_signal(&mut self) -> (r: Option<TimeoutSignal>)
        ensures
            final(self)@.deadline == old(self)@.deadline,
            old(self)@.signals == 0 ==> r is None && final(self)@.signals == 0,
            old(self)@.signals > 0 ==> r is Some && final(self)@.signals == old(self)@.signals - 1,
    {
        self.signals.pop()
    }

    /// Drops all queued signals.
    pub fn drain(&mut self)
        ensures
            final(self)@ == old(self)@.drained(),
    {
        self.signals.clear();
    }
}

} // verus!
