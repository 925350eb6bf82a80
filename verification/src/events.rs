//! The owner's event stream: the events an owner loop reads, and a queue that
//! keeps them in arrival order together with the kinds of custom events that
//! were registered with it.

use vstd::prelude::*;
use std::collections::VecDeque;

verus! {

/// The keys that the owner loop and the application tell apart.
#[derive(Clone, Copy, Debug, PartialEq, Eq, Structural)]
pub enum Keycode {
    Escape,
    P,
    Other,
}

/// What happened to the window, as far as the owner loop cares.
#[derive(Clone, Copy, Debug, PartialEq, Eq, Structural)]
pub enum WindowEvent {
    Resized,
    SizeChanged,
    Other,
}

/// The mouse buttons that the application tells apart.
#[derive(Clone, Copy, Debug, PartialEq, Eq, Structural)]
pub enum MouseButton {
    Left,
    Other,
}

/// One event of the owner's stream. `User` carries a payload injected by a
/// dispatcher, tagged with the kind it was registered under; every other
/// variant comes from the windowing toolkit.
#[derive(Debug)]
pub enum Event<M> {
    Quit,
    KeyDown { keycode: Option<Keycode> },
    KeyUp { keycode: Option<Keycode> },
    Window { win_event: WindowEvent },
    MouseButtonDown { mouse_btn: MouseButton, x: i32, y: i32 },
    MouseMotion { x: i32, y: i32 },
    MouseButtonUp { mouse_btn: MouseButton, x: i32, y: i32 },
    User { kind: u32, payload: M },
    Other,
}

impl<M> Event<M> {
    /// Whether the event was injected by a dispatcher.
    pub open spec fn spec_is_user_event(&self) -> bool {
        *self is User
    }

    /// Whether the event was injected by a dispatcher.
    #[verifier::when_used_as_spec(spec_is_user_event)]
    pub fn is_user_event(&self) -> (b: bool)
        ensures
            b == self.spec_is_user_event(),
    {
        match self {
            Event::User { .. } => true,
            _ => false,
        }
    }

    /// Whether the event is a custom event of the given kind.
    pub open spec fn has_kind(&self, kind: u32) -> bool {
        *self matches Event::User { kind: k, .. } && k == kind
    }
}

/// Why a custom event kind could not be registered.
#[derive(Clone, Copy, Debug, PartialEq, Eq, Structural)]
pub enum RegistrationError {
    /// The kind is registered with this stream already.
    AlreadyRegistered,
}

/// Why a custom event could not be put on the stream.
#[derive(Clone, Copy, Debug, PartialEq, Eq, Structural)]
pub enum PushError {
    /// The owner loop has shut the stream down.
    Closed,
    /// The kind was never registered with this stream.
    Unregistered,
}

/// What an `EventSubsystem` is, to its callers.
pub struct EventSubsystemView<M> {
    /// The identity that dispatchers are bound to.
    pub id: u64,
    /// The kinds of custom events that were registered.
    pub registered: Set<u32>,
    /// The events that wait for the owner loop, oldest first.
    pub queue: Seq<Event<M>>,
    /// Whether the owner loop still accepts custom events.
    pub open: bool,
}

impl<M> EventSubsystemView<M> {
    /// What `push_custom_event` answers in this state.
    pub open spec fn push_result(self, kind: u32) -> Result<(), PushError> {
        if !self.open {
            Err(PushError::Closed)
        } else if !self.registered.contains(kind) {
            Err(PushError::Unregistered)
        } else {
            Ok(())
        }
    }

    /// The stream with one more event at the back.
    pub open spec fn enqueue(self, event: Event<M>) -> Self {
        EventSubsystemView { queue: self.queue.push(event), ..self }
    }

    /// The stream after `push_custom_event`: the payload joins the back of the
    /// queue when the push is accepted, and nothing changes otherwise.
    pub open spec fn push(self, kind: u32, payload: M) -> Self {
        if self.push_result(kind) is Ok {
            self.enqueue(Event::User { kind, payload })
        } else {
            self
        }
    }

    /// The stream with nothing waiting.
    pub open spec fn drained(self) -> Self {
        EventSubsystemView { queue: Seq::empty(), ..self }
    }

    /// The stream without its `n` oldest events.
    pub open spec fn skip(self, n: int) -> Self {
        EventSubsystemView { queue: self.queue.skip(n), ..self }
    }
}

/// The owner's event stream: a first-in, first-out queue of events and the
/// set of custom event kinds that may be pushed onto it.
///
/// The stream stands for the event queue of the windowing toolkit, of which
/// the library asks no more than this: kinds are registered before use,
/// payloads are pushed under a registered kind, and events come out in the
/// order in which they went in. A caller that runs on a toolkit passes the
/// toolkit's own events through the stream with `push_event`; what is
/// proved of the stream is proved of this queue, not of the toolkit's.
pub struct EventSubsystem<M> {
    id: u64,
    registered: Vec<u32>,
    queue: VecDeque<Event<M>>,
    open: bool,
}

impl<M> View for EventSubsystem<M> {
    type V = EventSubsystemView<M>;

    closed spec fn view(&self) -> EventSubsystemView<M> {
        EventSubsystemView {
            id: self.id,
            registered: self.registered@.to_set(),
            queue: self.queue@,
            open: self.open,
        }
    }
}

impl<M> EventSubsystem<M> {
    /// An open stream with no event waiting and no kind registered.
    pub fn new(id: u64) -> (events: Self)
        ensures
            events@.id == id,
            events@.registered == Set::<u32>::empty(),
            events@.queue == Seq::<Event<M>>::empty(),
            events@.open,
    {
        let events = EventSubsystem {
            id,
            registered: Vec::new(),
            queue: VecDeque::new(),
            open: true,
        };
        events
    }

    /// The identity that dispatchers are bound to.
    pub fn id(&self) -> (id: u64)
        ensures
            id == self@.id,
    {
        self.id
    }

    /// Whether the owner loop still accepts custom events.
    pub fn is_open(&self) -> (open: bool)
        ensures
            open == self@.open,
    {
        self.open
    }

    /// How many events wait for the owner loop.
    pub fn pending(&self) -> (n: usize)
        ensures
            n == self@.queue.len(),
    {
        self.queue.len()
    }

    /// Whether `kind` was registered with this stream.
    pub fn is_registered(&self, kind: u32) -> (found: bool)
        ensures
            found == self@.registered.contains(kind),
    {
        let mut i: usize = 0;
        while i < self.registered.len()
            invariant
                i <= self.registered.len(),
                forall|j: int| 0 <= j < i ==> self.registered@[j] != kind,
            decreases self.registered.len() - i,
        {
            if self.registered[i] == kind {
                return true;
            }
            i += 1;
        }
        false
    }

    /// Registers a kind of custom event. Each kind can be registered once;
    /// a second registration is refused and changes nothing.
    pub fn register_custom_event(&mut self, kind: u32) -> (r: Result<(), RegistrationError>)
        ensures
            old(self)@.registered.contains(kind) ==> r == Err::<(), RegistrationError>(
                RegistrationError::AlreadyRegistered,
            ) && final(self)@ == old(self)@,
            !old(self)@.registered.contains(kind) ==> r is Ok && final(self)@ == (
            EventSubsystemView { registered: old(self)@.registered.insert(kind), ..old(self)@ }),
    {
        if self.is_registered(kind) {
            Err(RegistrationError::AlreadyRegistered)
        } else {
            self.registered.push(kind);
            proof {
                old(self).registered@.lemma_push_to_set_commute(kind);
            }
            Ok(())
        }
    }

    /// Puts a custom event at the back of the queue. The push is refused when
    /// the stream is closed, and otherwise when the kind is not registered;
    /// a refused push drops the payload and changes nothing.
    pub fn push_custom_event(&mut self, kind: u32, payload: M) -> (r: Result<(), PushError>)
        ensures
            r == old(self)@.push_result(kind),
            final(self)@ == old(self)@.push(kind, payload),
    {
        if !self.open {
            Err(PushError::Closed)
        } else if !self.is_registered(kind) {
            Err(PushError::Unregistered)
        } else {
            self.queue.push_back(Event::User { kind, payload });
            Ok(())
        }
    }

    /// Puts an event of the windowing toolkit at the back of the queue.
    pub fn push_event(&mut self, event: Event<M>)
        ensures
            final(self)@ == old(self)@.enqueue(event),
    {
        self.queue.push_back(event);
    }

    /// Takes the oldest waiting event, if there is one.
    pub fn poll_event(&mut self) -> (next: Option<Event<M>>)
        ensures
            old(self)@.queue.len() == 0 ==> next is None && final(self)@ == old(self)@,
            old(self)@.queue.len() > 0 ==> next == Some(old(self)@.queue[0]) && final(self)@
                == old(self)@.skip(1),
    {
        self.queue.pop_front()
    }

    /// Takes every waiting event, oldest first, and leaves the queue empty.
    pub fn poll_iter(&mut self) -> (batch: VecDeque<Event<M>>)
        ensures
            batch@ == old(self)@.queue,
            final(self)@ == old(self)@.drained(),
    {
        let mut batch: VecDeque<Event<M>> = VecDeque::new();
        core::mem::swap(&mut self.queue, &mut batch);
        batch
    }

    /// Shuts the stream down: from now on every custom event is refused.
    /// Events that wait already stay in the queue.
    pub fn close(&mut self)
        ensures
            final(self)@ == (EventSubsystemView { open: false, ..old(self)@ }),
    {
        self.open = false;
    }
}

} // verus!
