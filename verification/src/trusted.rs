//! The items of other crates that the library calls. Nothing in this file is
//! proved: each declaration states what the library takes for granted.

use vstd::prelude::*;
use futures::channel::oneshot::{Canceled, Receiver, Sender};
use tokio::task::{JoinError, JoinHandle};
use tokio_util::sync::CancellationToken;

verus! {

/// `futures::channel::oneshot::Sender`, the half of a one-shot channel that
/// provides the value. Opaque.
#[verifier::external_type_specification]
#[verifier::external_body]
#[verifier::reject_recursive_types(T)]
pub struct ExSender<T>(Sender<T>);

/// `futures::channel::oneshot::Receiver`, the half of a one-shot channel that
/// waits for the value. Opaque.
#[verifier::external_type_specification]
#[verifier::external_body]
#[verifier::reject_recursive_types(T)]
pub struct ExReceiver<T>(Receiver<T>);

/// `futures::channel::oneshot::Canceled`, the error of a receiver whose
/// sender went away without sending. Opaque.
#[verifier::external_type_specification]
#[verifier::external_body]
pub struct ExCanceled(Canceled);

/// `tokio_util::sync::CancellationToken`, a shared flag that any holder may
/// raise. Opaque: the flag lives behind the handle and other threads may
/// raise it at any moment, so nothing is said of it here.
#[verifier::external_type_specification]
#[verifier::external_body]
pub struct ExCancellationToken(CancellationToken);

/// `tokio::task::JoinHandle`, the owner's handle on a spawned task. Opaque.
#[verifier::external_type_specification]
#[verifier::external_body]
#[verifier::reject_recursive_types(T)]
pub struct ExJoinHandle<T>(JoinHandle<T>);

/// `tokio::task::JoinError`, which a `JoinHandle` resolves to when its task
/// failed. Declared because `JoinHandle` names it; never inspected.
#[verifier::external_type_specification]
#[verifier::external_body]
pub struct ExJoinError(JoinError);

/// `futures::channel::oneshot::channel` makes a connected pair of halves.
/// Nothing is claimed of the pair.
pub assume_specification<T>[ futures::channel::oneshot::channel::<T> ]() -> (pair: (
    Sender<T>,
    Receiver<T>,
));

/// `Sender::send` hands the value to the channel and consumes the sender. It
/// returns `Ok` when the value was stored and `Err` when the receiver was
/// already gone. Which of the two happens depends on the other thread, so
/// nothing is claimed of the result.
pub assume_specification<T>[ Sender::<T>::send ](sender: Sender<T>, t: T) -> (sent: Result<(), T>);

/// `Receiver::try_recv` looks into the channel without waiting. Its answer
/// depends on what the other thread has done, so nothing is claimed of it.
pub assume_specification<T>[ Receiver::<T>::try_recv ](receiver: &mut Receiver<T>) -> (got: Result<
    Option<T>,
    Canceled,
>);

/// `CancellationToken::new` makes a token that nobody has cancelled yet.
/// Nothing is claimed of it.
pub assume_specification[ CancellationToken::new ]() -> (token: CancellationToken);

/// `CancellationToken::clone` makes a second handle on the same flag.
/// Nothing is claimed of it.
pub assume_specification[ <CancellationToken as Clone>::clone ](
    token: &CancellationToken,
) -> (other: CancellationToken);

/// `CancellationToken::cancel` raises the flag for every handle on it and
/// wakes the tasks that wait for it. It returns nothing. The one claim made
/// is that the call comes back rather than unwinds, so that it may be made
/// while a value is dropped.
///
/// The claim rests on two assumptions. The call itself has nothing that
/// panics: it sets the flag under the token's own lock, releases the lock
/// and then wakes the waiting tasks. It unwinds only if the lock is
/// poisoned, which takes an earlier panic under it, or if the waker of a
/// waiting task panics. So it is assumed that no thread has panicked while
/// it held the token's lock, and that whoever waits on a handle of the
/// token, the handles given out by `Ticker::cancellation` among them, does
/// so with a waker that does not panic, as the wakers of an async runtime
/// do not.
#[verifier::external_body]
pub(crate) fn raise(token: &CancellationToken)
    opens_invariants none
    no_unwind
{
    token.cancel();
}

/// `CancellationToken::is_cancelled` reads the flag. Another thread may
/// raise it between two reads, so nothing is claimed of the answer.
pub assume_specification[ CancellationToken::is_cancelled ](token: &CancellationToken) -> (raised:
    bool);

/// `JoinHandle::abort` asks the runtime to stop the task at its next
/// suspension point. It returns nothing, and nothing is claimed.
pub assume_specification<T>[ JoinHandle::<T>::abort ](handle: &JoinHandle<T>);

} // verus!
