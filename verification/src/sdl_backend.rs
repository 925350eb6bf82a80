//! The owner's side of the bridge: the executor that recognises the tasks of
//! one registered kind among the events of the owner loop.

use vstd::prelude::*;
use crate::events::{Event, EventSubsystem, EventSubsystemView, RegistrationError};
use crate::sdl_dispatch::SdlDispatcher;

verus! {

/// Task executor that picks the tasks of one kind out of the owner's events.
/// An executor exists only for a kind that was registered.
#[derive(Clone, Copy, Debug, PartialEq, Eq, Structural)]
pub struct SdlExecutor {
    stream: u64,
    kind: u32,
}

impl SdlExecutor {
    /// The kind of custom event that the executor recognises.
    pub closed spec fn kind(&self) -> u32 {
        self.kind
    }

    /// The identity of the stream whose events the executor reads.
    pub closed spec fn stream(&self) -> u64 {
        self.stream
    }

    /// The kind of custom event that the executor recognises.
    pub fn kind_id(&self) -> (kind: u32)
        ensures
            kind == self.kind(),
    {
        self.kind
    }

    /// Inspects an event of the owner loop. A custom event of the executor's
    /// kind gives up its payload, for the caller to run the handler on the
    /// owner thread; any other event comes back untouched.
    pub fn handle_sdl_event<M>(&self, event: Event<M>) -> (r: Result<M, Event<M>>)
        ensures
            event.has_kind(self.kind()) ==> r == Ok::<M, Event<M>>(event->payload),
            !event.has_kind(self.kind()) ==> r == Err::<M, Event<M>>(event),
    {
        match event {
            Event::User { kind, payload } => {
                if kind == self.kind {
                    Ok(payload)
                } else {
                    Err(Event::User { kind, payload })
                }
            },
            other => Err(other),
        }
    }
}

/// Registers `kind` with the owner's stream and returns the executor that
/// recognises it together with a dispatcher bound to the stream. Fails, and
/// changes nothing, when the kind is registered already.
pub fn new_executor_and_dispatcher<M>(events: &mut EventSubsystem<M>, kind: u32) -> (r: Result<
    (SdlExecutor, SdlDispatcher),
    RegistrationError,
>)
    ensures
        old(events)@.registered.contains(kind) ==> r == Err::<
            (SdlExecutor, SdlDispatcher),
            RegistrationError,
        >(RegistrationError::AlreadyRegistered) && final(events)@ == old(events)@,
        !old(events)@.registered.contains(kind) ==> r is Ok && final(events)@ == (
        EventSubsystemView { registered: old(events)@.registered.insert(kind), ..old(events)@ }),
        r matches Ok(pair) ==> pair.0.kind() == kind && pair.0.stream() == old(events)@.id
            && pair.1.stream() == old(events)@.id,
{
    match events.register_custom_event(kind) {
        Ok(()) => {
            let dispatcher = SdlDispatcher::from_eventsubsystem(events);
            Ok((SdlExecutor { stream: events.id(), kind }, dispatcher))
        },
        Err(e) => Err(e),
    }
}

} // verus!
