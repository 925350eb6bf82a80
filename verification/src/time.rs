//! A timer that fires after a quiet period and is silenced when it is
//! cancelled or replaced. Time is a number of milliseconds on the caller's
//! clock; whoever sleeps on behalf of the ticker asks it with `poll` whether
//! the callback is due.

use vstd::prelude::*;
use tokio_util::sync::CancellationToken;
use crate::trusted::raise;

verus! {

/// Where a ticker is in its life.
#[derive(Clone, Copy, Debug, PartialEq, Eq, Structural)]
pub enum TickerState {
    /// The ticker waits for its deadline.
    Armed,
    /// The ticker has fired, once and for all.
    Fired,
    /// The ticker was cancelled before it could fire.
    Cancelled,
}

/// One thing that can happen to a ticker.
pub enum TickerOp {
    /// The ticker is asked, at the given time, whether it is due.
    Poll(u64),
    /// The ticker is cancelled.
    Cancel,
}

/// The moment `delay` after `now`, or the end of the clock if that moment
/// lies beyond it.
pub open spec fn deadline_after(now: u64, delay: u64) -> u64 {
    if now + delay > u64::MAX {
        u64::MAX
    } else {
        (now + delay) as u64
    }
}

/// What a `Ticker` is, to its callers.
pub struct TickerView {
    /// The time at which the ticker fires next.
    pub deadline: u64,
    /// The quiet period, which a looping ticker waits again after each fire.
    pub period: u64,
    /// Whether the ticker arms itself again after it fired.
    pub looping: bool,
    /// Where the ticker is in its life.
    pub state: TickerState,
}

impl TickerView {
    /// Whether a poll at `now` fires: the ticker is armed and its deadline
    /// has come.
    pub open spec fn due(self, now: u64) -> bool {
        self.state == TickerState::Armed && now >= self.deadline
    }

    /// The ticker after a poll at `now`. A poll that does not fire changes
    /// nothing. One that fires arms a looping ticker for one period after
    /// `now` and leaves any other ticker inert.
    pub open spec fn poll(self, now: u64) -> TickerView {
        if !self.due(now) {
            self
        } else if self.looping {
            TickerView { deadline: deadline_after(now, self.period), ..self }
        } else {
            TickerView { state: TickerState::Fired, ..self }
        }
    }

    /// The ticker after it was cancelled: an armed ticker is silenced, any
    /// other stays as it is.
    pub open spec fn cancel(self) -> TickerView {
        if self.state == TickerState::Armed {
            TickerView { state: TickerState::Cancelled, ..self }
        } else {
            self
        }
    }

    /// The ticker after one operation.
    pub open spec fn apply(self, op: TickerOp) -> TickerView {
        match op {
            TickerOp::Poll(now) => self.poll(now),
            TickerOp::Cancel => self.cancel(),
        }
    }

    /// How often the ticker fires while the operations happen to it, one
    /// after the other.
    pub open spec fn fires(self, ops: Seq<TickerOp>) -> nat
        decreases ops.len(),
    {
        if ops.len() == 0 {
            0
        } else {
            let fired: nat = match ops[0] {
                TickerOp::Poll(now) => if self.due(now) {
                    1
                } else {
                    0
                },
                TickerOp::Cancel => 0,
            };
            fired + self.apply(ops[0]).fires(ops.skip(1))
        }
    }

    /// The ticker after all the operations.
    pub open spec fn after(self, ops: Seq<TickerOp>) -> TickerView
        decreases ops.len(),
    {
        if ops.len() == 0 {
            self
        } else {
            self.apply(ops[0]).after(ops.skip(1))
        }
    }
}

/// Calls back after a quiet period, once or again and again, until it is
/// cancelled. The ticker itself only keeps the time; its owner polls it and
/// runs the callback when the poll says so.
pub struct Ticker {
    cancellation: CancellationToken,
    deadline: u64,
    period: u64,
    looping: bool,
    state: TickerState,
}

impl View for Ticker {
    type V = TickerView;

    closed spec fn view(&self) -> TickerView {
        TickerView {
            deadline: self.deadline,
            period: self.period,
            looping: self.looping,
            state: self.state,
        }
    }
}

impl Ticker {
    /// A ticker that fires every `duration` milliseconds, first at
    /// `duration` after `now`.
    pub fn looping(now: u64, duration: u64) -> (ticker: Self)
        ensures
            ticker@ == (TickerView {
                deadline: deadline_after(now, duration),
                period: duration,
                looping: true,
                state: TickerState::Armed,
            }),
    {
        let cancellation = CancellationToken::new();
        Ticker {
            cancellation,
            deadline: now.saturating_add(duration),
            period: duration,
            looping: true,
            state: TickerState::Armed,
        }
    }

    /// A ticker that fires once, `duration` milliseconds after `now`.
    pub fn once(now: u64, duration: u64) -> (ticker: Self)
        ensures
            ticker@ == (TickerView {
                deadline: deadline_after(now, duration),
                period: duration,
                looping: false,
                state: TickerState::Armed,
            }),
    {
        let cancellation = CancellationToken::new();
        Ticker {
            cancellation,
            deadline: now.saturating_add(duration),
            period: duration,
            looping: false,
            state: TickerState::Armed,
        }
    }

    /// The time at which the ticker fires next, if it is armed.
    pub fn deadline(&self) -> (deadline: u64)
        ensures
            deadline == self@.deadline,
    {
        self.deadline
    }

    /// Where the ticker is in its life.
    pub fn state(&self) -> (state: TickerState)
        ensures
            state == self@.state,
    {
        self.state
    }

    /// A handle on the ticker's cancellation flag, for the task that sleeps
    /// on the ticker's behalf: the flag is raised when the ticker is
    /// cancelled, so that the task need not sleep on.
    pub fn cancellation(&self) -> (token: CancellationToken) {
        self.cancellation.clone()
    }

    /// Asks the ticker, at time `now`, whether its callback is due. The
    /// answer is yes exactly when the ticker is armed and its deadline has
    /// come; the caller then runs the callback.
    pub fn poll(&mut self, now: u64) -> (fire: bool)
        ensures
            fire == old(self)@.due(now),
            final(self)@ == old(self)@.poll(now),
    {
        match self.state {
            TickerState::Armed => {
                if now >= self.deadline {
                    if self.looping {
                        self.deadline = now.saturating_add(self.period);
                    } else {
                        self.state = TickerState::Fired;
                    }
                    true
                } else {
                    false
                }
            },
            _ => false,
        }
    }

    /// Cancels the ticker and raises its cancellation flag. An armed ticker
    /// never fires afterwards; one that has fired stays as it is.
    pub fn cancel(&mut self)
        ensures
            final(self)@ == old(self)@.cancel(),
    {
        match self.state {
            TickerState::Armed => {
                self.state = TickerState::Cancelled;
            },
            _ => {},
        }
        raise(&self.cancellation);
    }
}

impl Drop for Ticker {
    /// A ticker that is dropped is cancelled: if it was armed it is
    /// silenced, and its cancellation flag is raised so that whoever sleeps
    /// on its behalf stops waiting.
    fn drop(&mut self)
        ensures
            final(self)@ == old(self)@.cancel(),
        opens_invariants none
        no_unwind
    {
        match self.state {
            TickerState::Armed => {
                self.state = TickerState::Cancelled;
            },
            _ => {},
        }
        raise(&self.cancellation);
    }
}

/// A ticker that was cancelled, by `cancel` or by being dropped, never
/// fires, whatever happens to it later, and stays exactly as the
/// cancellation left it.
pub proof fn lemma_cancelled_never_fires(ticker: TickerView, ops: Seq<TickerOp>)
    ensures
        ticker.cancel().fires(ops) == 0,
        ticker.cancel().after(ops) == ticker.cancel(),
    decreases ops.len(),
{
    let silenced = ticker.cancel();
    if ops.len() > 0 {
        lemma_cancelled_never_fires(silenced, ops.skip(1));
    }
}

/// A ticker that is not looping fires at most once, whatever happens to it:
/// the callback has run or the ticker was cancelled first, never both.
pub proof fn lemma_once_fires_at_most_once(ticker: TickerView, ops: Seq<TickerOp>)
    requires
        !ticker.looping,
    ensures
        ticker.fires(ops) <= 1,
        ticker.state != TickerState::Armed ==> ticker.fires(ops) == 0,
        ticker.fires(ops) == 1 ==> ticker.state == TickerState::Armed && ticker.after(ops).state
            == TickerState::Fired,
        ticker.state != TickerState::Armed ==> ticker.after(ops) == ticker,
    decreases ops.len(),
{
    if ops.len() > 0 {
        let next = ticker.apply(ops[0]);
        lemma_once_fires_at_most_once(next, ops.skip(1));
    }
}

} // verus!
