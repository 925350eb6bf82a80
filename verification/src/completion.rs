//! The single-use handshake between the thread that computes a result and the
//! thread that waits for it. `CompletionSlot` is the fulfilling half and
//! `Task` the awaiting half; the value travels through a one-shot channel.

use vstd::prelude::*;
use futures::channel::oneshot::{channel, Canceled, Receiver, Sender};

verus! {

/// What a `CompletionSlot` is, to its callers.
pub enum SlotState<T> {
    /// No value was provided yet.
    Pending,
    /// The value was handed to the awaiting side.
    Fulfilled(T),
    /// A value was offered after the awaiting side had gone; it was discarded.
    Abandoned,
}

/// What a `Task` is, to its callers.
#[derive(Clone, Copy, Debug, PartialEq, Eq, Structural)]
pub enum TaskState {
    /// The task may still yield a value.
    Waiting,
    /// The task has yielded its value, or has learnt that none will come.
    Spent,
}

impl TaskState {
    /// The task after a look that answered `r`: it goes on waiting exactly
    /// when it was waiting and the answer was "not yet".
    pub open spec fn after_poll<T>(self, r: Result<Option<T>, AwaitError>) -> TaskState {
        if self is Waiting && r matches Ok(None) {
            TaskState::Waiting
        } else {
            TaskState::Spent
        }
    }
}

/// Why a value could not be delivered.
#[derive(Clone, Copy, Debug, PartialEq, Eq, Structural)]
pub enum FulfillError {
    /// The slot had delivered a value before.
    AlreadyFulfilled,
    /// Nobody waits for the value any more.
    ReceiverGone,
}

/// Why no value will ever arrive.
#[derive(Clone, Copy, Debug, PartialEq, Eq, Structural)]
pub enum AwaitError {
    /// The fulfilling side went away without providing a value.
    SenderGone,
}

impl<T> SlotState<T> {
    /// What `fulfill` answers in this state. `received` tells whether the
    /// awaiting side was still there to take the value; it matters only while
    /// the slot is pending.
    pub open spec fn fulfill_result(self, received: bool) -> Result<(), FulfillError> {
        match self {
            SlotState::Pending => if received {
                Ok(())
            } else {
                Err(FulfillError::ReceiverGone)
            },
            SlotState::Fulfilled(_) => Err(FulfillError::AlreadyFulfilled),
            SlotState::Abandoned => Err(FulfillError::ReceiverGone),
        }
    }

    /// The state after `fulfill`: a pending slot takes the value or is
    /// abandoned, and any other slot stays as it is.
    pub open spec fn fulfill(self, value: T, received: bool) -> SlotState<T> {
        match self {
            SlotState::Pending => if received {
                SlotState::Fulfilled(value)
            } else {
                SlotState::Abandoned
            },
            _ => self,
        }
    }
}

#[verifier::reject_recursive_types(T)]
enum SlotInner<T> {
    Pending(Sender<T>),
    Fulfilled(Ghost<T>),
    Abandoned,
}

/// The fulfilling half of the handshake. It delivers at most one value.
#[verifier::reject_recursive_types(T)]
pub struct CompletionSlot<T> {
    inner: SlotInner<T>,
    peer: Ghost<Receiver<T>>,
}

/// The awaiting half of the handshake. There is exactly one per slot and it
/// cannot be cloned.
#[verifier::reject_recursive_types(T)]
pub struct Task<T> {
    receiver: Receiver<T>,
    spent: bool,
    made: Ghost<Receiver<T>>,
}

impl<T> View for Task<T> {
    type V = TaskState;

    closed spec fn view(&self) -> TaskState {
        if self.spent {
            TaskState::Spent
        } else {
            TaskState::Waiting
        }
    }
}

impl<T> View for CompletionSlot<T> {
    type V = SlotState<T>;

    closed spec fn view(&self) -> SlotState<T> {
        match self.inner {
            SlotInner::Pending(_) => SlotState::Pending,
            SlotInner::Fulfilled(v) => SlotState::Fulfilled(v@),
            SlotInner::Abandoned => SlotState::Abandoned,
        }
    }
}

/// What a fulfilment amounts to once the channel has answered: the channel
/// hands the value back exactly when the awaiting side is gone.
pub fn fulfilment<T>(sent: Result<(), T>) -> (r: Result<(), FulfillError>)
    ensures
        sent is Ok ==> r == Ok::<(), FulfillError>(()),
        sent is Err ==> r == Err::<(), FulfillError>(FulfillError::ReceiverGone),
{
    match sent {
        Ok(()) => Ok(()),
        Err(_) => Err(FulfillError::ReceiverGone),
    }
}

impl<T> CompletionSlot<T> {
    /// The handshake that the slot is one half of, told by the awaiting
    /// half as the channel made it. A slot and a task with the same link
    /// are the two halves of one handshake.
    pub closed spec fn link(&self) -> Receiver<T> {
        self.peer@
    }

    /// A pending slot and the task that waits for its value: the two halves
    /// of one handshake.
    pub fn channel() -> (pair: (CompletionSlot<T>, Task<T>))
        ensures
            pair.0@ is Pending,
            pair.1@ is Waiting,
            pair.0.link() == pair.1.link(),
    {
        let (sender, receiver) = channel::<T>();
        let ghost made = receiver;
        (
            CompletionSlot { inner: SlotInner::Pending(sender), peer: Ghost(made) },
            Task { receiver, spent: false, made: Ghost(made) },
        )
    }

    /// Whether no value was offered yet.
    pub fn is_pending(&self) -> (pending: bool)
        ensures
            pending == (self@ is Pending),
    {
        match &self.inner {
            SlotInner::Pending(_) => true,
            _ => false,
        }
    }

    /// Delivers `value` to the awaiting side.
    ///
    /// A pending slot hands the value to the channel, which decides whether
    /// the awaiting side is still there: the slot is then fulfilled, or it is
    /// abandoned and the value dropped. A slot that is not pending refuses
    /// the value, makes no call and stays exactly as it was, so a second
    /// fulfilment never changes what the first one delivered.
    pub fn fulfill(&mut self, value: T) -> (r: Result<(), FulfillError>)
        ensures
            ({
                &&& r == old(self)@.fulfill_result(true)
                &&& final(self)@ == old(self)@.fulfill(value, true)
            }) || ({
                &&& r == old(self)@.fulfill_result(false)
                &&& final(self)@ == old(self)@.fulfill(value, false)
            }),
            !(old(self)@ is Pending) ==> r is Err && final(self)@ == old(self)@,
            final(self).link() == old(self).link(),
    {
        let mut prev = SlotInner::Abandoned;
        core::mem::swap(&mut self.inner, &mut prev);
        match prev {
            SlotInner::Pending(sender) => {
                let ghost delivered = value;
                let r = fulfilment(sender.send(value));
                if r.is_ok() {
                    self.inner = SlotInner::Fulfilled(Ghost(delivered));
                }
                r
            },
            SlotInner::Fulfilled(v) => {
                self.inner = SlotInner::Fulfilled(v);
                Err(FulfillError::AlreadyFulfilled)
            },
            SlotInner::Abandoned => Err(FulfillError::ReceiverGone),
        }
    }
}

impl<T> Task<T> {
    /// What a look into the channel means to the awaiting side: a value, not
    /// yet, or never.
    pub fn outcome(got: Result<Option<T>, Canceled>) -> (r: Result<Option<T>, AwaitError>)
        ensures
            got matches Ok(v) ==> r == Ok::<Option<T>, AwaitError>(v),
            got is Err ==> r == Err::<Option<T>, AwaitError>(AwaitError::SenderGone),
    {
        match got {
            Ok(v) => Ok(v),
            Err(_) => Err(AwaitError::SenderGone),
        }
    }

    /// The channel half that the task holds.
    pub closed spec fn channel(&self) -> Receiver<T> {
        self.receiver
    }

    /// The handshake that the task is one half of, told by the awaiting
    /// half as the channel made it.
    pub closed spec fn link(&self) -> Receiver<T> {
        self.made@
    }

    /// Whether the task may still yield a value.
    pub fn is_waiting(&self) -> (waiting: bool)
        ensures
            waiting == (self@ is Waiting),
    {
        !self.spent
    }

    /// Looks for the value without waiting.
    ///
    /// A waiting task asks the channel: `Ok(Some(v))` once the value has
    /// arrived, `Ok(None)` while the fulfilling side is still at work, and
    /// `SenderGone` when that side went away without a value. What the
    /// channel answers depends on the other thread. The task goes on
    /// waiting after "not yet" and after nothing else: once it has yielded
    /// its value or learnt that none will come it is spent. A spent task
    /// asks the channel no more and answers `SenderGone`, so that a task
    /// yields at most one value.
    pub fn poll(&mut self) -> (r: Result<Option<T>, AwaitError>)
        ensures
            old(self)@ is Spent ==> r == Err::<Option<T>, AwaitError>(AwaitError::SenderGone),
            final(self)@ == old(self)@.after_poll(r),
            final(self).link() == old(self).link(),
    {
        if self.spent {
            return Err(AwaitError::SenderGone);
        }
        let r = Task::outcome(self.receiver.try_recv());
        match &r {
            Ok(None) => {},
            _ => {
                self.spent = true;
            },
        }
        r
    }

    /// Gives up the task for the channel half that it holds, which a caller
    /// on an async runtime can await.
    pub fn into_receiver(self) -> (receiver: Receiver<T>)
        ensures
            receiver == self.channel(),
    {
        self.receiver
    }
}

/// A task yields at most one value: after a look that did not answer "not
/// yet" the task is spent, it stays spent whatever later looks answer, and
/// a spent task answers `SenderGone`.
pub proof fn lemma_task_yields_once<T>(
    state: TaskState,
    first: Result<Option<T>, AwaitError>,
    later: Result<Option<T>, AwaitError>,
)
    requires
        !(first matches Ok(None)),
    ensures
        state.after_poll(first) is Spent,
        state.after_poll(first).after_poll(later) is Spent,
{
}

/// Fulfilling a slot twice fails the second time and leaves the delivered
/// value untouched, whatever the two values are and whether or not the
/// awaiting side was there.
pub proof fn lemma_fulfill_exactly_once<T>(
    state: SlotState<T>,
    first: T,
    second: T,
    first_received: bool,
    second_received: bool,
)
    ensures
        ({
            let after_first = state.fulfill(first, first_received);
            &&& after_first.fulfill_result(second_received) is Err
            &&& after_first.fulfill(second, second_received) == after_first
            &&& !(after_first is Pending)
        }),
{
}

} // verus!
