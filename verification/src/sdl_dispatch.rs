//! Dispatching work onto the owner's event stream: the envelope that carries
//! a task and the slot for its result, the dispatcher that any thread may
//! hold, and the slot in which one dispatcher is made the current one.

use vstd::prelude::*;
use futures::channel::oneshot::Receiver;
use crate::completion::{CompletionSlot, FulfillError, Task};
use crate::events::{Event, EventSubsystem, EventSubsystemView, PushError, RegistrationError};

verus! {

/// A task on its way to the owner thread: the input, and the slot through
/// which the owner's answer travels back to whoever waits for it.
#[verifier::reject_recursive_types(TOut)]
pub struct SdlPumpTask<TIn, TOut> {
    /// Input data
    input: TIn,
    /// Where the result goes
    shared_state: CompletionSlot<TOut>,
}

impl<TIn, TOut> SdlPumpTask<TIn, TOut> {
    #[verifier::type_invariant]
    spec fn pending(self) -> bool {
        self.shared_state@ is Pending
    }

    /// The input that the task carries.
    pub closed spec fn spec_input(&self) -> TIn {
        self.input
    }

    /// The handshake through which the task is answered.
    pub closed spec fn link(&self) -> Receiver<TOut> {
        self.shared_state.link()
    }

    /// An envelope around `input`, and the task that waits for its result.
    pub fn new(input: TIn) -> (pair: (SdlPumpTask<TIn, TOut>, Task<TOut>))
        ensures
            pair.0.spec_input() == input,
            pair.1@ is Waiting,
            pair.0.link() == pair.1.link(),
    {
        let (shared_state, task) = CompletionSlot::channel();
        (SdlPumpTask { input, shared_state }, task)
    }

    /// The input that the task carries.
    pub fn input(&self) -> (input: &TIn)
        ensures
            *input == self.spec_input(),
    {
        &self.input
    }

    /// Opens the envelope: the input, and the pending slot for the answer.
    pub fn into_parts(self) -> (parts: (TIn, CompletionSlot<TOut>))
        ensures
            parts.0 == self.spec_input(),
            parts.1@ is Pending,
            parts.1.link() == self.link(),
    {
        proof {
            use_type_invariant(&self);
        }
        let SdlPumpTask { input, shared_state } = self;
        (input, shared_state)
    }

    /// Answers the task with `result` and uses the envelope up, so that no
    /// task is answered twice. The answer is lost, and `ReceiverGone`
    /// reported, when nobody waits for it any more.
    pub fn complete(self, result: TOut) -> (r: Result<(), FulfillError>)
        ensures
            r is Ok || r == Err::<(), FulfillError>(FulfillError::ReceiverGone),
    {
        proof {
            use_type_invariant(&self);
        }
        let SdlPumpTask { input: _, shared_state } = self;
        let mut slot = shared_state;
        slot.fulfill(result)
    }
}

/// Why a task or a message did not reach the owner's event stream.
#[derive(Clone, Copy, Debug, PartialEq, Eq, Structural)]
pub enum DispatchError {
    /// No dispatcher is current.
    NoDispatcher,
    /// The stream is closed, or it is not the one the dispatcher is bound to.
    Unreachable,
    /// The kind was never registered with the stream.
    Unregistered,
}

/// Why the current dispatcher could not be set or fetched.
#[derive(Clone, Copy, Debug, PartialEq, Eq, Structural)]
pub enum RegistryError {
    /// A dispatcher is current already.
    AlreadyInstalled,
    /// No dispatcher is current.
    NotInstalled,
}

/// `SdlDispatcher` puts tasks and messages on the owner's event stream. It is
/// a plain handle: any number of copies may exist, on any thread, and all of
/// them feed the one stream they are bound to.
#[derive(Clone, Copy, Debug, PartialEq, Eq, Structural)]
pub struct SdlDispatcher {
    stream: u64,
}

impl SdlDispatcher {
    /// The identity of the stream that the dispatcher feeds.
    pub closed spec fn stream(&self) -> u64 {
        self.stream
    }

    /// What a dispatch of `kind` onto `events` answers: the stream must be
    /// the dispatcher's own and open, and the kind registered with it.
    pub open spec fn send_result<M>(&self, events: EventSubsystemView<M>, kind: u32) -> Result<
        (),
        DispatchError,
    > {
        if events.id != self.stream() || !events.open {
            Err(DispatchError::Unreachable)
        } else if !events.registered.contains(kind) {
            Err(DispatchError::Unregistered)
        } else {
            Ok(())
        }
    }

    /// The stream after a dispatch: an accepted payload joins the back of the
    /// queue, and a refused one leaves no trace.
    pub open spec fn after_send<M>(
        &self,
        events: EventSubsystemView<M>,
        kind: u32,
        payload: M,
    ) -> EventSubsystemView<M> {
        if self.send_result(events, kind) is Ok {
            events.enqueue(Event::User { kind, payload })
        } else {
            events
        }
    }

    /// A dispatcher bound to `events`.
    pub fn from_eventsubsystem<M>(events: &EventSubsystem<M>) -> (dispatcher: Self)
        ensures
            dispatcher.stream() == events@.id,
    {
        SdlDispatcher { stream: events.id() }
    }

    /// The identity of the stream that the dispatcher feeds.
    pub fn stream_id(&self) -> (id: u64)
        ensures
            id == self.stream(),
    {
        self.stream
    }

    /// Puts `input` on the stream as a custom event of `kind`, without
    /// asking for an answer.
    pub fn send<M>(&self, events: &mut EventSubsystem<M>, kind: u32, input: M) -> (r: Result<
        (),
        DispatchError,
    >)
        ensures
            r == self.send_result(old(events)@, kind),
            final(events)@ == self.after_send(old(events)@, kind, input),
    {
        if events.id() != self.stream {
            return Err(DispatchError::Unreachable);
        }
        match events.push_custom_event(kind, input) {
            Ok(()) => Ok(()),
            Err(PushError::Closed) => Err(DispatchError::Unreachable),
            Err(PushError::Unregistered) => Err(DispatchError::Unregistered),
        }
    }

    /// Wraps `input` in an envelope, puts the envelope on the stream as a
    /// custom event of `kind` and returns the task that waits for the
    /// owner's answer. A refused dispatch fails at once, returns no task and
    /// leaves the stream as it was.
    pub fn spawn<TIn, TOut>(
        &self,
        events: &mut EventSubsystem<SdlPumpTask<TIn, TOut>>,
        kind: u32,
        input: TIn,
    ) -> (r: Result<Task<TOut>, DispatchError>)
        ensures
            r is Ok <==> self.send_result(old(events)@, kind) is Ok,
            r matches Ok(task) ==> task@ is Waiting,
            r matches Err(e) ==> self.send_result(old(events)@, kind) == Err::<(), DispatchError>(e)
                && final(events)@ == old(events)@,
            r matches Ok(task) ==> exists|envelope: SdlPumpTask<TIn, TOut>|
                envelope.spec_input() == input && envelope.link() == task.link() && final(
                    events
                )@ == old(events)@.enqueue(Event::User { kind, payload: envelope }),
    {
        let (envelope, task) = SdlPumpTask::new(input);
        match self.send(events, kind, envelope) {
            Ok(()) => Ok(task),
            Err(e) => Err(e),
        }
    }

    /// Makes this dispatcher the current one of `registry`, for as long as
    /// the returned guard is held. Fails when a dispatcher is current
    /// already, and then changes nothing.
    pub fn make_current(self, registry: &mut DispatcherRegistry) -> (r: Result<
        DispatcherGuard,
        RegistryError,
    >)
        ensures
            r is Ok <==> old(registry)@ is None,
            r matches Err(e) ==> e == RegistryError::AlreadyInstalled,
            r matches Ok(guard) ==> guard.dispatcher() == self && guard.registry() == old(
                registry
            ).id(),
            final(registry)@ == install(old(registry)@, self),
            final(registry).id() == old(registry).id(),
    {
        DispatcherGuard::new(self, registry)
    }
}

/// The slot after an attempt to install `dispatcher`: an empty slot takes
/// it, an occupied one keeps what it has.
pub open spec fn install(slot: Option<SdlDispatcher>, dispatcher: SdlDispatcher) -> Option<
    SdlDispatcher,
> {
    if slot is Some {
        slot
    } else {
        Some(dispatcher)
    }
}

/// What an attempt to install a dispatcher answers.
pub open spec fn install_result(slot: Option<SdlDispatcher>) -> Result<(), RegistryError> {
    if slot is Some {
        Err(RegistryError::AlreadyInstalled)
    } else {
        Ok(())
    }
}

/// The slot after the guard of `dispatcher` was released on it: the slot is
/// emptied if it holds that dispatcher, and stays as it is otherwise.
pub open spec fn release(slot: Option<SdlDispatcher>, dispatcher: SdlDispatcher) -> Option<
    SdlDispatcher,
> {
    if slot == Some(dispatcher) {
        None
    } else {
        slot
    }
}

/// What a request for the current dispatcher answers.
pub open spec fn current_result(slot: Option<SdlDispatcher>) -> Result<
    SdlDispatcher,
    RegistryError,
> {
    match slot {
        Some(dispatcher) => Ok(dispatcher),
        None => Err(RegistryError::NotInstalled),
    }
}

/// The slot that holds the current dispatcher of one owner loop. It is empty
/// until a dispatcher is installed and again once the guard of that
/// installation is released on it. Registries are told apart by the
/// identity that their maker gives them.
pub struct DispatcherRegistry {
    id: u64,
    current: Option<SdlDispatcher>,
}

impl View for DispatcherRegistry {
    type V = Option<SdlDispatcher>;

    closed spec fn view(&self) -> Option<SdlDispatcher> {
        self.current
    }
}

impl DispatcherRegistry {
    /// The identity of the registry.
    pub closed spec fn id(&self) -> u64 {
        self.id
    }

    /// A registry without a current dispatcher.
    pub fn new(id: u64) -> (registry: Self)
        ensures
            registry@ is None,
            registry.id() == id,
    {
        DispatcherRegistry { id, current: None }
    }

    /// The current dispatcher. Fails when none is installed.
    pub fn current(&self) -> (r: Result<SdlDispatcher, RegistryError>)
        ensures
            r == current_result(self@),
    {
        match self.current {
            Some(dispatcher) => Ok(dispatcher),
            None => Err(RegistryError::NotInstalled),
        }
    }
}

/// The proof that a dispatcher was installed in a registry. Releasing it on
/// that registry empties the registry again; on any other registry it does
/// nothing.
#[derive(Debug)]
pub struct DispatcherGuard {
    registry: u64,
    dispatcher: SdlDispatcher,
}

impl DispatcherGuard {
    /// The identity of the registry in which the guard's dispatcher was
    /// installed.
    pub closed spec fn registry(&self) -> u64 {
        self.registry
    }

    /// The dispatcher whose installation the guard stands for.
    pub closed spec fn dispatcher(&self) -> SdlDispatcher {
        self.dispatcher
    }

    /// Whether the guard stands for what `registry` holds: it was made for
    /// this registry and its dispatcher is the current one.
    pub open spec fn belongs_to(&self, registry: &DispatcherRegistry) -> bool {
        registry.id() == self.registry() && registry@ == Some(self.dispatcher())
    }

    fn new(disp: SdlDispatcher, registry: &mut DispatcherRegistry) -> (r: Result<
        Self,
        RegistryError,
    >)
        ensures
            r is Ok <==> install_result(old(registry)@) is Ok,
            r matches Err(e) ==> install_result(old(registry)@) == Err::<(), RegistryError>(e),
            r matches Ok(guard) ==> guard.dispatcher() == disp && guard.registry() == old(
                registry
            ).id(),
            final(registry)@ == install(old(registry)@, disp),
            final(registry).id() == old(registry).id(),
    {
        match registry.current {
            None => {
                registry.current = Some(disp);
                Ok(DispatcherGuard { registry: registry.id, dispatcher: disp })
            },
            Some(_) => Err(RegistryError::AlreadyInstalled),
        }
    }

    /// Gives the guard up on the registry it belongs to, and leaves that
    /// registry without a current dispatcher. A guard that does not belong
    /// to `registry` changes nothing and comes back.
    pub fn release(self, registry: &mut DispatcherRegistry) -> (r: Result<(), DispatcherGuard>)
        ensures
            self.belongs_to(old(registry)) ==> r is Ok && final(registry)@ is None,
            !self.belongs_to(old(registry)) ==> r == Err::<(), DispatcherGuard>(self)
                && final(registry)@ == old(registry)@,
            self.registry() == old(registry).id() ==> final(registry)@ == release(
                old(registry)@,
                self.dispatcher(),
            ),
            final(registry).id() == old(registry).id(),
    {
        let held = match registry.current {
            Some(current) => current.stream == self.dispatcher.stream,
            None => false,
        };
        if held && registry.id == self.registry {
            registry.current = None;
            Ok(())
        } else {
            Err(self)
        }
    }
}

/// Dispatches a task through the current dispatcher of `registry`: fails
/// with `NoDispatcher` when none is installed, and otherwise does what
/// `SdlDispatcher::spawn` does.
pub fn spawn<TIn, TOut>(
    registry: &DispatcherRegistry,
    events: &mut EventSubsystem<SdlPumpTask<TIn, TOut>>,
    kind: u32,
    input: TIn,
) -> (r: Result<Task<TOut>, DispatchError>)
    ensures
        r is Ok <==> via_current(registry@, old(events)@, kind) is Ok,
        r matches Ok(task) ==> task@ is Waiting,
        r matches Err(e) ==> via_current(registry@, old(events)@, kind) == Err::<(), DispatchError>(
            e,
        ) && final(events)@ == old(events)@,
        r matches Ok(task) ==> exists|envelope: SdlPumpTask<TIn, TOut>|
            envelope.spec_input() == input && envelope.link() == task.link() && final(events)@
                == old(events)@.enqueue(Event::User { kind, payload: envelope }),
{
    match registry.current() {
        Ok(disp) => disp.spawn(events, kind, input),
        Err(_) => Err(DispatchError::NoDispatcher),
    }
}

/// What a dispatch through the current dispatcher answers.
pub open spec fn via_current<M>(
    slot: Option<SdlDispatcher>,
    events: EventSubsystemView<M>,
    kind: u32,
) -> Result<(), DispatchError> {
    match slot {
        Some(dispatcher) => dispatcher.send_result(events, kind),
        None => Err(DispatchError::NoDispatcher),
    }
}

/// Dispatches a message through the current dispatcher of `registry`: fails
/// with `NoDispatcher` when none is installed, and otherwise does what
/// `SdlDispatcher::send` does.
pub fn send<M>(
    registry: &DispatcherRegistry,
    events: &mut EventSubsystem<M>,
    kind: u32,
    input: M,
) -> (r: Result<(), DispatchError>)
    ensures
        r == via_current(registry@, old(events)@, kind),
        r is Ok ==> final(events)@ == old(events)@.enqueue(Event::User { kind, payload: input }),
        r is Err ==> final(events)@ == old(events)@,
{
    match registry.current() {
        Ok(disp) => disp.send(events, kind, input),
        Err(_) => Err(DispatchError::NoDispatcher),
    }
}

/// Inspects an event of the owner's stream and takes its payload out if it
/// is a custom event of `kind` and `kind` is registered with `events`. Any
/// other event comes back untouched, for the caller to try the next kind or
/// to handle it as an ordinary event.
pub fn handle_sdl_event<M>(events: &EventSubsystem<M>, event: Event<M>, kind: u32) -> (r: Result<
    M,
    Event<M>,
>)
    ensures
        event.has_kind(kind) && events@.registered.contains(kind) ==> r == Ok::<M, Event<M>>(
            event->payload,
        ),
        !(event.has_kind(kind) && events@.registered.contains(kind)) ==> r == Err::<M, Event<M>>(
            event,
        ),
{
    if !events.is_registered(kind) {
        return Err(event);
    }
    match event {
        Event::User { kind: k, payload } => {
            if k == kind {
                Ok(payload)
            } else {
                Err(Event::User { kind: k, payload })
            }
        },
        other => Err(other),
    }
}

/// Registers `kind` with the owner's stream, so that tasks and messages of
/// that kind can be dispatched. A kind can be registered once.
pub fn register_task_type<M>(events: &mut EventSubsystem<M>, kind: u32) -> (r: Result<
    (),
    RegistrationError,
>)
    ensures
        old(events)@.registered.contains(kind) ==> r == Err::<(), RegistrationError>(
            RegistrationError::AlreadyRegistered,
        ) && final(events)@ == old(events)@,
        !old(events)@.registered.contains(kind) ==> r is Ok && final(events)@ == (
        EventSubsystemView { registered: old(events)@.registered.insert(kind), ..old(events)@ }),
{
    events.register_custom_event(kind)
}

/// Installing a dispatcher twice without releasing the first guard fails the
/// second time, whatever the slot held before; and a slot in which nothing
/// was installed has no current dispatcher to give. A slot that took a
/// dispatcher stays occupied until the guard of that dispatcher is released
/// on it: the guard of another dispatcher leaves it as it is, and its own
/// guard empties it, after which a dispatcher can be installed again.
pub proof fn lemma_single_current_dispatcher(
    slot: Option<SdlDispatcher>,
    first: SdlDispatcher,
    second: SdlDispatcher,
)
    ensures
        second != first ==> release(install(None, first), second) == install(None, first),
        release(install(None, first), first) is None,
        install_result(release(install(None, first), first)) is Ok,
        install_result(install(slot, first)) == Err::<(), RegistryError>(
            RegistryError::AlreadyInstalled,
        ),
        install(install(slot, first), second) == install(slot, first),
        current_result(None) == Err::<SdlDispatcher, RegistryError>(RegistryError::NotInstalled),
        slot is None ==> current_result(install(slot, first)) == Ok::<SdlDispatcher, RegistryError>(
            first,
        ),
{
}

/// Tasks that one thread dispatches one after the other, under a kind that
/// the stream accepts, reach the owner in that order: both join the queue
/// behind the events that waited before them and leave those untouched, and
/// once those are taken the next event taken is the first task and the one
/// after it the second.
pub proof fn lemma_dispatch_order<M>(
    dispatcher: SdlDispatcher,
    events: EventSubsystemView<M>,
    kind: u32,
    first: M,
    second: M,
)
    requires
        dispatcher.send_result(events, kind) is Ok,
    ensures
        ({
            let after_first = dispatcher.after_send(events, kind, first);
            let after = dispatcher.after_send(after_first, kind, second);
            let n = events.queue.len() as int;
            &&& dispatcher.send_result(after_first, kind) is Ok
            &&& after.queue.len() == n + 2
            &&& after.queue.subrange(0, n) == events.queue
            &&& after.skip(n).queue[0] == (Event::User { kind, payload: first })
            &&& after.skip(n + 1).queue[0] == (Event::User { kind, payload: second })
        }),
{
    let after_first = dispatcher.after_send(events, kind, first);
    let after = dispatcher.after_send(after_first, kind, second);
}

} // verus!
