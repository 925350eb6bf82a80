//! The application's decisions: how it supervises the one background
//! computation that may run at a time, how it debounces a burst of resizes
//! into one recomputation, and how it follows the mouse while the user
//! selects a region. Everything that touches the window is left to the
//! caller, who is told what to do.

use vstd::prelude::*;
use futures::channel::oneshot::Receiver;
use tokio::task::JoinHandle;
use tokio_util::sync::CancellationToken;
use crate::completion::{CompletionSlot, Task};
use crate::events::{
    Event,
    EventSubsystem,
    EventSubsystemView,
    Keycode,
    MouseButton,
    RegistrationError,
};
use crate::mandelbrot::{palette_slot, MandelbrotSetWithHistogram};
use crate::sdl_dispatch::{DispatchError, SdlDispatcher, SdlPumpTask};
use crate::supervision::{SystemEvent, SystemView};
use crate::time::{deadline_after, Ticker, TickerState, TickerView};
use crate::trusted::raise;

verus! {

/// How long the window must keep its size before the image is recomputed, in
/// milliseconds.
pub const RESIZE_DEBOUNCE_MS: u64 = 1000;

/// The kind under which `Message::ResizeTexture` travels.
pub const KIND_RESIZE_TEXTURE: u32 = 0;

/// The kind under which `Message::Redraw` travels.
pub const KIND_REDRAW: u32 = 1;

/// The kind under which `Message::MandelbrotReady` travels.
pub const KIND_MANDELBROT_READY: u32 = 2;

/// The kind under which `Message::PaletteChanged` travels.
pub const KIND_PALETTE_CHANGED: u32 = 3;

/// A position in the window.
#[derive(Clone, Copy, Debug, PartialEq, Eq, Structural)]
pub struct Point {
    pub x: i32,
    pub y: i32,
}

/// The result of a finished computation, on its way to the owner thread.
#[derive(Debug)]
pub struct MandelbrotReady {
    /// The number of the computation that produced the image.
    pub generation: u64,
    /// The image.
    pub mandelbrotset: MandelbrotSetWithHistogram,
}

/// A palette that was read from a file, or the reason why it could not be.
#[derive(Debug)]
pub struct PaletteChanged {
    pub palette_load_result: Result<Vec<(u8, u8, u8)>, String>,
}

/// What travels over the owner's event stream to the application.
pub enum Message {
    /// The window has kept its size for the quiet period.
    ResizeTexture,
    /// The image has to be computed anew.
    Redraw,
    /// A computation has finished; the sender waits for the outcome of
    /// showing its image.
    MandelbrotReady(SdlPumpTask<MandelbrotReady, Result<(), String>>),
    /// The user picked another palette.
    PaletteChanged(PaletteChanged),
}

impl Message {
    /// The kind under which the message travels.
    pub open spec fn spec_kind(&self) -> u32 {
        match self {
            Message::ResizeTexture => KIND_RESIZE_TEXTURE,
            Message::Redraw => KIND_REDRAW,
            Message::MandelbrotReady(_) => KIND_MANDELBROT_READY,
            Message::PaletteChanged(_) => KIND_PALETTE_CHANGED,
        }
    }

    /// The kind under which the message travels.
    #[verifier::when_used_as_spec(spec_kind)]
    pub fn kind(&self) -> (kind: u32)
        ensures
            kind == self.spec_kind(),
    {
        match self {
            Message::ResizeTexture => KIND_RESIZE_TEXTURE,
            Message::Redraw => KIND_REDRAW,
            Message::MandelbrotReady(_) => KIND_MANDELBROT_READY,
            Message::PaletteChanged(_) => KIND_PALETTE_CHANGED,
        }
    }

    /// Takes the message out of a custom event that carries it under its own
    /// kind. Any other event comes back untouched.
    pub fn from_event(event: Event<Message>) -> (r: Result<Message, Event<Message>>)
        ensures
            carries_message(event) ==> r == Ok::<Message, Event<Message>>(event->payload),
            !carries_message(event) ==> r == Err::<Message, Event<Message>>(event),
    {
        match event {
            Event::User { kind, payload } => {
                if kind == payload.kind() {
                    Ok(payload)
                } else {
                    Err(Event::User { kind, payload })
                }
            },
            other => Err(other),
        }
    }
}

/// Whether `event` is a custom event that carries a message under the
/// message's own kind.
pub open spec fn carries_message(event: Event<Message>) -> bool {
    event matches Event::User { kind, payload } && kind == payload.spec_kind()
}

/// Whether `kind` is one of the kinds under which a `Message` travels.
pub open spec fn is_message_kind(kind: u32) -> bool {
    kind == KIND_RESIZE_TEXTURE || kind == KIND_REDRAW || kind == KIND_MANDELBROT_READY || kind
        == KIND_PALETTE_CHANGED
}

/// What the application is busy with.
#[derive(Clone, Copy, Debug, PartialEq, Eq, Structural)]
pub enum Phase {
    /// Nothing is pending.
    Idle,
    /// A resize was seen and its quiet period has not passed yet.
    Debouncing,
    /// A computation is in flight.
    Computing,
}

/// What the user's gesture asks the caller to do.
#[derive(Clone, Copy, Debug, PartialEq, Eq, Structural)]
pub enum Gesture {
    /// Nothing.
    Ignore,
    /// Let the user pick a palette file.
    ChoosePalette,
    /// Show the selection that spans from `center` to `corner`.
    Preview { center: Point, corner: Point },
    /// Zoom to the selection that spans from `center` to the point `x`,
    /// `flipped_y`, which is counted from the bottom of the window; then
    /// show the image without a selection. A recomputation was requested.
    Zoom { center: Point, x: i32, flipped_y: i64 },
    /// Show the image without a selection.
    Release,
}

/// What the application did with an event that the owner loop offered to it,
/// and what is left for the caller to do.
pub enum Handled {
    /// The event carries no message: it is handed back.
    Foreign(Event<Message>),
    /// `ResizeTexture` arrived but the size of the window is not known:
    /// nothing was done.
    Unsettled,
    /// `ResizeTexture`: the new size was noted and a recomputation requested.
    /// The caller fits the region on show to the new size.
    Settled,
    /// `Redraw`: a computation was started.
    Started,
    /// `MandelbrotReady`: if the image was `taken` the caller shows it, and
    /// in any case tells the sender through `answer` how that went.
    Frame { taken: bool, answer: CompletionSlot<Result<(), String>> },
    /// `PaletteChanged`: the palette was replaced. The caller paints the
    /// image anew.
    Repaint,
    /// `PaletteChanged`, but the palette could not be loaded: nothing was
    /// done, and the reason is handed on.
    PaletteFailed(String),
}

/// What a `MainApp` is, to its callers.
pub struct MainAppView {
    /// The dispatcher through which the application talks to itself.
    pub dispatcher: SdlDispatcher,
    /// The debounce timer, if the window was ever resized.
    pub timer: Option<TickerView>,
    /// The number of the computation in flight, if there is one.
    pub running: Option<nat>,
    /// How many computations were started so far.
    pub launched: nat,
    /// The width of the window.
    pub w: u32,
    /// The height of the window.
    pub h: u32,
    /// Where the user pressed the mouse button, while it is held.
    pub selection_center: Option<Point>,
    /// The colours of the image.
    pub palette: Seq<(u8, u8, u8)>,
    /// The pixels of the image on show.
    pub frame: Seq<(bool, usize)>,
}

impl MainAppView {
    /// Whether the computations are numbered in order: the one in flight,
    /// if any, is one of those started so far. Every `MainApp` is.
    pub open spec fn numbered(self) -> bool {
        self.running matches Some(generation) ==> generation <= self.launched
    }

    /// What the application is busy with. A pending quiet period counts
    /// before a computation in flight.
    pub open spec fn phase(self) -> Phase {
        if self.timer matches Some(t) && t.state == TickerState::Armed {
            Phase::Debouncing
        } else if self.running is Some {
            Phase::Computing
        } else {
            Phase::Idle
        }
    }

    /// The application after the window changed its size at `now`: the
    /// computation in flight, if any, is abandoned, and a fresh timer waits
    /// for the quiet period in place of the old one.
    pub open spec fn resized(self, now: u64) -> MainAppView {
        MainAppView {
            timer: Some(
                TickerView {
                    deadline: deadline_after(now, RESIZE_DEBOUNCE_MS),
                    period: RESIZE_DEBOUNCE_MS,
                    looping: false,
                    state: TickerState::Armed,
                },
            ),
            running: None,
            ..self
        }
    }

    /// Whether the quiet period ends at `now`: the timer is armed and its
    /// deadline has come.
    pub open spec fn settles(self, now: u64) -> bool {
        self.timer matches Some(t) && t.due(now)
    }

    /// The application after the clock was read at `now`.
    pub open spec fn tick(self, now: u64) -> MainAppView {
        MainAppView {
            timer: match self.timer {
                Some(t) => Some(t.poll(now)),
                None => None,
            },
            ..self
        }
    }

    /// The application after a recomputation was started: the computation
    /// gets the next number and takes the place of the one in flight.
    pub open spec fn redraw(self) -> MainAppView {
        MainAppView { running: Some(self.launched + 1), launched: self.launched + 1, ..self }
    }

    /// Whether an image of computation `generation` is taken: only the
    /// computation in flight is listened to.
    pub open spec fn accepts(self, generation: nat) -> bool {
        self.running == Some(generation)
    }

    /// The application after computation `generation` delivered `frame`: a
    /// taken image goes on show and ends the computation, and any other is
    /// dropped without a trace.
    pub open spec fn mandelbrot_ready(
        self,
        generation: nat,
        frame: Seq<(bool, usize)>,
    ) -> MainAppView {
        if self.accepts(generation) {
            MainAppView { running: None, frame, ..self }
        } else {
            self
        }
    }

    /// The application after a palette was loaded: it takes the place of the
    /// old one, unless loading failed.
    pub open spec fn palette_changed(self, msg: PaletteChanged) -> MainAppView {
        match msg.palette_load_result {
            Ok(palette) => MainAppView { palette: palette@, ..self },
            Err(_) => self,
        }
    }


    /// The application after the owner thread handled `event`, knowing the
    /// window's size as `output_size`.
    pub open spec fn handled(
        self,
        event: Event<Message>,
        output_size: Option<(u32, u32)>,
    ) -> MainAppView {
        if !carries_message(event) {
            self
        } else {
            match event->payload {
                Message::ResizeTexture => match output_size {
                    Some((w, h)) => MainAppView { w, h, ..self },
                    None => self,
                },
                Message::Redraw => self.redraw(),
                Message::MandelbrotReady(task) => self.mandelbrot_ready(
                    task.spec_input().generation as nat,
                    task.spec_input().mandelbrotset@,
                ),
                Message::PaletteChanged(changed) => self.palette_changed(changed),
            }
        }
    }

    /// Whether handling `event` asks for a recomputation: it carries
    /// `ResizeTexture` and the size of the window is known.
    pub open spec fn settles_resize(
        event: Event<Message>,
        output_size: Option<(u32, u32)>,
    ) -> bool {
        carries_message(event) && event->payload is ResizeTexture && output_size is Some
    }

    /// The owner's stream after the owner thread handled `event`: a settled
    /// resize puts `Redraw` on it, and nothing else touches it.
    pub open spec fn handled_stream(
        self,
        event: Event<Message>,
        events: EventSubsystemView<Message>,
        output_size: Option<(u32, u32)>,
    ) -> EventSubsystemView<Message> {
        if Self::settles_resize(event, output_size) {
            self.dispatcher.after_send(events, KIND_REDRAW, Message::Redraw)
        } else {
            events
        }
    }

    /// Whether `r` is what `handle_dispatch` answers to `event`.
    pub open spec fn handled_result(
        self,
        event: Event<Message>,
        events: EventSubsystemView<Message>,
        output_size: Option<(u32, u32)>,
        r: Result<Handled, DispatchError>,
    ) -> bool {
        if !carries_message(event) {
            r matches Ok(Handled::Foreign(back)) && back == event
        } else {
            match event->payload {
                Message::ResizeTexture => match output_size {
                    Some(_) => match self.dispatcher.send_result(events, KIND_REDRAW) {
                        Ok(()) => r matches Ok(Handled::Settled),
                        Err(e) => r matches Err(f) && f == e,
                    },
                    None => r matches Ok(Handled::Unsettled),
                },
                Message::Redraw => r matches Ok(Handled::Started),
                Message::MandelbrotReady(task) => r matches Ok(Handled::Frame { taken, answer })
                    && taken == self.accepts(task.spec_input().generation as nat) && answer@
                    is Pending && answer.link() == task.link(),
                Message::PaletteChanged(changed) => match changed.palette_load_result {
                    Ok(_) => r matches Ok(Handled::Repaint),
                    Err(reason) => r matches Ok(Handled::PaletteFailed(told)) && told == reason,
                },
            }
        }
    }

    /// Whether `event` ends a selection: the left button was released while
    /// a centre was marked.
    pub open spec fn ends_selection(self, event: Event<Message>) -> bool {
        self.selection_center is Some && event matches Event::MouseButtonUp {
            mouse_btn: MouseButton::Left,
            ..
        }
    }

    /// What `sdl_event` answers to `event`.
    pub open spec fn gesture_result(
        self,
        event: Event<Message>,
        events: EventSubsystemView<Message>,
    ) -> Result<Gesture, DispatchError> {
        match event {
            Event::KeyUp { keycode: Some(Keycode::P) } => Ok(Gesture::ChoosePalette),
            Event::MouseMotion { x, y } => match self.selection_center {
                Some(center) => Ok(Gesture::Preview { center, corner: Point { x, y } }),
                None => Ok(Gesture::Ignore),
            },
            Event::MouseButtonUp { mouse_btn: MouseButton::Left, x, y } => {
                match self.selection_center {
                    Some(center) => match self.dispatcher.send_result(events, KIND_REDRAW) {
                        Ok(()) => Ok(Gesture::Zoom { center, x, flipped_y: (self.h - y) as i64 }),
                        Err(e) => Err(e),
                    },
                    None => Ok(Gesture::Release),
                }
            },
            _ => Ok(Gesture::Ignore),
        }
    }

    /// The application after `sdl_event`: pressing the left button marks the
    /// centre, and the release that ends a selection forgets it, unless the
    /// recomputation could not be dispatched.
    pub open spec fn gesture(
        self,
        event: Event<Message>,
        events: EventSubsystemView<Message>,
    ) -> MainAppView {
        match event {
            Event::MouseButtonDown { mouse_btn: MouseButton::Left, x, y } => MainAppView {
                selection_center: Some(Point { x, y }),
                ..self
            },
            _ => {
                let dispatched = self.dispatcher.send_result(events, KIND_REDRAW) is Ok;
                if self.ends_selection(event) && dispatched {
                    MainAppView { selection_center: None, ..self }
                } else {
                    self
                }
            },
        }
    }

    /// The owner's stream after `sdl_event`: the release that ends a
    /// selection puts `Redraw` on it, and nothing else touches it.
    pub open spec fn gesture_stream(
        self,
        event: Event<Message>,
        events: EventSubsystemView<Message>,
    ) -> EventSubsystemView<Message> {
        if self.ends_selection(event) {
            self.dispatcher.after_send(events, KIND_REDRAW, Message::Redraw)
        } else {
            events
        }
    }
}

struct Computation {
    handle: JoinHandle<Result<(), String>>,
    token: CancellationToken,
    generation: u64,
}

/// The application's state and its rules. It owns the debounce timer and the
/// one slot for a computation in flight.
pub struct MainApp {
    dispatcher: SdlDispatcher,
    resize_timer: Option<Ticker>,
    mandelbrot_task: Option<Computation>,
    launched: u64,
    w: u32,
    h: u32,
    selection_center: Option<Point>,
    palette: Vec<(u8, u8, u8)>,
    mandelbrot_set: MandelbrotSetWithHistogram,
}

impl View for MainApp {
    type V = MainAppView;

    closed spec fn view(&self) -> MainAppView {
        MainAppView {
            dispatcher: self.dispatcher,
            timer: match self.resize_timer {
                Some(t) => Some(t@),
                None => None,
            },
            running: match self.mandelbrot_task {
                Some(c) => Some(c.generation as nat),
                None => None,
            },
            launched: self.launched as nat,
            w: self.w,
            h: self.h,
            selection_center: self.selection_center,
            palette: self.palette@,
            frame: self.mandelbrot_set@,
        }
    }
}

/// Whether `launch` was called for the computation with the given number:
/// it was handed some cancellation token together with that number, and
/// gave back the handle on the work.
pub open spec fn launched_as<F: FnOnce(CancellationToken, u64) -> JoinHandle<Result<(), String>>>(
    launch: F,
    number: nat,
) -> bool {
    exists|token: CancellationToken, generation: u64, handle: JoinHandle<Result<(), String>>|
        generation == number && #[trigger] call_ensures(launch, (token, generation), handle)
}

/// Whether `event` carries the request for a recomputation.
pub open spec fn asks_redraw(event: Event<Message>) -> bool {
    carries_message(event) && event->payload is Redraw
}

/// Whether none of the kinds under which messages travel is registered with
/// `events` yet.
pub open spec fn kinds_free<M>(events: EventSubsystemView<M>) -> bool {
    forall|kind: u32| is_message_kind(kind) ==> !events.registered.contains(kind)
}

impl MainApp {
    #[verifier::type_invariant]
    spec fn numbered(self) -> bool {
        self.mandelbrot_task matches Some(c) ==> c.generation <= self.launched
    }

    /// The number of the computation in flight, if there is one. It is
    /// never higher than the number of computations started so far.
    pub fn running(&self) -> (running: Option<u64>)
        ensures
            self@.running == match running {
                Some(generation) => Some(generation as nat),
                None => None,
            },
            self@.numbered(),
    {
        proof {
            use_type_invariant(self);
        }
        match &self.mandelbrot_task {
            Some(c) => Some(c.generation),
            None => None,
        }
    }

    /// An idle application for a window of `w` by `h` that shows no image
    /// yet and paints in black and white.
    pub fn new(dispatcher: SdlDispatcher, w: u32, h: u32) -> (app: Self)
        ensures
            app@ == (MainAppView {
                dispatcher,
                timer: None,
                running: None,
                launched: 0,
                w,
                h,
                selection_center: None,
                palette: seq![(0u8, 0u8, 0u8), (255u8, 255u8, 255u8)],
                frame: Seq::empty(),
            }),
    {
        let mut palette: Vec<(u8, u8, u8)> = Vec::new();
        palette.push((0, 0, 0));
        palette.push((255, 255, 255));
        let app = MainApp {
            dispatcher,
            resize_timer: None,
            mandelbrot_task: None,
            launched: 0,
            w,
            h,
            selection_center: None,
            palette,
            mandelbrot_set: MandelbrotSetWithHistogram::empty(),
        };
        assert(app.palette@ =~= seq![(0u8, 0u8, 0u8), (255u8, 255u8, 255u8)]);
        app
    }

    /// Registers the kinds of all messages with the owner's stream. Either
    /// all four are registered or, if one of them is taken already, none.
    pub fn register_dispatch<M>(events: &mut EventSubsystem<M>) -> (r: Result<
        (),
        RegistrationError,
    >)
        ensures
            kinds_free(old(events)@) ==> r is Ok && final(events)@ == (EventSubsystemView {
                registered: old(events)@.registered.insert(KIND_RESIZE_TEXTURE).insert(
                    KIND_REDRAW,
                ).insert(KIND_MANDELBROT_READY).insert(KIND_PALETTE_CHANGED),
                ..old(events)@
            }),
            !kinds_free(old(events)@) ==> r == Err::<(), RegistrationError>(
                RegistrationError::AlreadyRegistered,
            ) && final(events)@ == old(events)@,
    {
        let taken = events.is_registered(KIND_RESIZE_TEXTURE) || events.is_registered(KIND_REDRAW)
            || events.is_registered(KIND_MANDELBROT_READY) || events.is_registered(
            KIND_PALETTE_CHANGED,
        );
        proof {
            assert(is_message_kind(KIND_RESIZE_TEXTURE) && is_message_kind(KIND_REDRAW)
                && is_message_kind(KIND_MANDELBROT_READY) && is_message_kind(KIND_PALETTE_CHANGED));
        }
        if taken {
            return Err(RegistrationError::AlreadyRegistered);
        }
        let resize = events.register_custom_event(KIND_RESIZE_TEXTURE);
        let redraw = events.register_custom_event(KIND_REDRAW);
        let ready = events.register_custom_event(KIND_MANDELBROT_READY);
        let palette = events.register_custom_event(KIND_PALETTE_CHANGED);
        assert(resize is Ok && redraw is Ok && ready is Ok && palette is Ok);
        Ok(())
    }

    /// What the application is busy with.
    pub fn phase(&self) -> (phase: Phase)
        ensures
            phase == self@.phase(),
    {
        let debouncing = match &self.resize_timer {
            Some(t) => t.state() == TickerState::Armed,
            None => false,
        };
        if debouncing {
            Phase::Debouncing
        } else if self.mandelbrot_task.is_some() {
            Phase::Computing
        } else {
            Phase::Idle
        }
    }

    /// The width and height of the window.
    pub fn size(&self) -> (size: (u32, u32))
        ensures
            size == (self@.w, self@.h),
    {
        (self.w, self.h)
    }

    /// How many computations were started so far.
    pub fn launched(&self) -> (launched: u64)
        ensures
            launched == self@.launched,
    {
        self.launched
    }

    /// The time at which the quiet period ends, while one is pending.
    pub fn deadline(&self) -> (deadline: Option<u64>)
        ensures
            deadline is Some <==> self@.phase() == Phase::Debouncing,
            deadline matches Some(d) ==> self@.timer matches Some(t) && d == t.deadline,
    {
        match &self.resize_timer {
            Some(t) => if t.state() == TickerState::Armed {
                Some(t.deadline())
            } else {
                None
            },
            None => None,
        }
    }

    /// A handle on the cancellation flag of the debounce timer, for the task
    /// that sleeps on the timer's behalf. There is none before the first
    /// resize.
    pub fn debounce_cancellation(&self) -> (token: Option<CancellationToken>)
        ensures
            token is Some <==> self@.timer is Some,
    {
        match &self.resize_timer {
            Some(t) => Some(t.cancellation()),
            None => None,
        }
    }

    /// The colours of the image.
    pub fn palette(&self) -> (palette: &Vec<(u8, u8, u8)>)
        ensures
            palette@ == self@.palette,
    {
        &self.palette
    }

    /// The image on show.
    pub fn mandelbrot_set(&self) -> (set: &MandelbrotSetWithHistogram)
        ensures
            set@ == self@.frame,
    {
        &self.mandelbrot_set
    }

    /// When the window is resized the computation in flight is cancelled and
    /// abandoned, the pending timer is cancelled, and a fresh timer starts
    /// to wait for one quiet period from `now`.
    pub fn resized(&mut self, now: u64)
        ensures
            final(self)@ == old(self)@.resized(now),
    {
        proof {
            use_type_invariant(&*self);
        }
        let mut superseded: Option<Computation> = None;
        core::mem::swap(&mut self.mandelbrot_task, &mut superseded);
        if let Some(c) = superseded {
            raise(&c.token);
            c.handle.abort();
        }
        let mut replaced: Option<Ticker> = None;
        core::mem::swap(&mut self.resize_timer, &mut replaced);
        if let Some(stale) = replaced {
            let mut stale = stale;
            stale.cancel();
        }
        self.resize_timer = Some(Ticker::once(now, RESIZE_DEBOUNCE_MS));
    }

    /// Reads the clock. When the quiet period has ended the timer fires,
    /// once, and `ResizeTexture` is put on the owner's stream so that the
    /// resize is settled on the owner thread. Answers whether the timer
    /// fired, or why the message could not be dispatched.
    pub fn tick(&mut self, now: u64, events: &mut EventSubsystem<Message>) -> (r: Result<
        bool,
        DispatchError,
    >)
        ensures
            final(self)@ == old(self)@.tick(now),
            !old(self)@.settles(now) ==> r == Ok::<bool, DispatchError>(false) && final(events)@
                == old(events)@,
            old(self)@.settles(now) ==> final(events)@ == old(self)@.dispatcher.after_send(
                old(events)@,
                KIND_RESIZE_TEXTURE,
                Message::ResizeTexture,
            ) && r == match old(self)@.dispatcher.send_result(old(events)@, KIND_RESIZE_TEXTURE) {
                Ok(()) => Ok::<bool, DispatchError>(true),
                Err(e) => Err::<bool, DispatchError>(e),
            },
    {
        proof {
            use_type_invariant(&*self);
        }
        let mut timer: Option<Ticker> = None;
        core::mem::swap(&mut self.resize_timer, &mut timer);
        let fire = match timer {
            Some(t) => {
                let mut t = t;
                let fire = t.poll(now);
                self.resize_timer = Some(t);
                fire
            },
            None => false,
        };
        if fire {
            match self.dispatcher.send(events, KIND_RESIZE_TEXTURE, Message::ResizeTexture) {
                Ok(()) => Ok(true),
                Err(e) => Err(e),
            }
        } else {
            Ok(false)
        }
    }

    /// Settles a resize on the owner thread: takes note of the size that the
    /// window has now and asks for a recomputation.
    pub fn resize_texture(&mut self, w: u32, h: u32, events: &mut EventSubsystem<Message>) -> (r:
        Result<(), DispatchError>)
        ensures
            final(self)@ == (MainAppView { w, h, ..old(self)@ }),
            r == old(self)@.dispatcher.send_result(old(events)@, KIND_REDRAW),
            final(events)@ == old(self)@.dispatcher.after_send(
                old(events)@,
                KIND_REDRAW,
                Message::Redraw,
            ),
    {
        proof {
            use_type_invariant(&*self);
        }
        self.w = w;
        self.h = h;
        self.dispatcher.send(events, KIND_REDRAW, Message::Redraw)
    }

    /// Starts a computation. The one in flight, if any, is cancelled and
    /// abandoned first. The new computation gets the next number and a
    /// cancellation token of its own; `launch` is called with both, starts
    /// the work and returns the handle on it.
    pub fn redraw<F: FnOnce(CancellationToken, u64) -> JoinHandle<Result<(), String>>>(
        &mut self,
        launch: F,
    )
        requires
            old(self)@.launched < u64::MAX,
            forall|token: CancellationToken, generation: u64|
                call_requires(launch, (token, generation)),
        ensures
            final(self)@ == old(self)@.redraw(),
            launched_as(launch, old(self)@.launched + 1),
    {
        proof {
            use_type_invariant(&*self);
        }
        let mut superseded: Option<Computation> = None;
        core::mem::swap(&mut self.mandelbrot_task, &mut superseded);
        if let Some(c) = superseded {
            raise(&c.token);
            c.handle.abort();
        }
        let cancellation_token = CancellationToken::new();
        let generation = self.launched + 1;
        let handle = launch(cancellation_token.clone(), generation);
        self.launched = generation;
        self.mandelbrot_task = Some(Computation { handle, token: cancellation_token, generation });
    }

    /// Takes in the image of a finished computation. Only the image of the
    /// computation in flight is taken: it goes on show and the computation
    /// ends. The image of a computation that was superseded is dropped and
    /// changes nothing. Answers whether the image was taken.
    pub fn mandelbrot_ready(&mut self, message: MandelbrotReady) -> (taken: bool)
        ensures
            taken == old(self)@.accepts(message.generation as nat),
            final(self)@ == old(self)@.mandelbrot_ready(
                message.generation as nat,
                message.mandelbrotset@,
            ),
    {
        proof {
            use_type_invariant(&*self);
        }
        let current = match &self.mandelbrot_task {
            Some(c) => c.generation == message.generation,
            None => false,
        };
        if current {
            self.mandelbrot_task = None;
            self.mandelbrot_set = message.mandelbrotset;
            true
        } else {
            false
        }
    }

    /// Takes over the palette that was loaded. When loading failed the
    /// palette stays as it is and the reason is handed back.
    pub fn palette_changed(&mut self, msg: PaletteChanged) -> (r: Result<(), String>)
        ensures
            final(self)@ == old(self)@.palette_changed(msg),
            r == match msg.palette_load_result {
                Ok(_) => Ok::<(), String>(()),
                Err(reason) => Err::<(), String>(reason),
            },
    {
        proof {
            use_type_invariant(&*self);
        }
        match msg.palette_load_result {
            Ok(palette) => {
                self.palette = palette;
                Ok(())
            },
            Err(reason) => Err(reason),
        }
    }

    /// The colours of the image on show, pixel by pixel.
    pub fn image(&self) -> (image: Vec<(u8, u8, u8)>)
        requires
            self@.palette.len() > 0,
        ensures
            image@.len() == self@.frame.len(),
            forall|k: int|
                0 <= k < self@.frame.len() ==> #[trigger] image@[k] == self@.palette[palette_slot(
                    self@.frame,
                    k,
                    self@.palette.len(),
                )],
    {
        self.mandelbrot_set.get_image_from_palette(&self.palette)
    }

    /// Handles an event that the owner loop offers, on the owner thread.
    ///
    /// An event that carries no message is handed back. `ResizeTexture`
    /// settles a resize with the size that the window has now, if the
    /// caller knows it; `Redraw` starts a computation through `launch`;
    /// `MandelbrotReady` takes in the image if its computation is still in
    /// flight and hands the slot for the answer to the caller;
    /// `PaletteChanged` takes over the palette if there is one. The only
    /// failure is that the recomputation after a resize cannot be
    /// dispatched.
    pub fn handle_dispatch<F: FnOnce(CancellationToken, u64) -> JoinHandle<Result<(), String>>>(
        &mut self,
        event: Event<Message>,
        output_size: Option<(u32, u32)>,
        events: &mut EventSubsystem<Message>,
        launch: F,
    ) -> (r: Result<Handled, DispatchError>)
        requires
            old(self)@.launched < u64::MAX,
            forall|token: CancellationToken, generation: u64|
                call_requires(launch, (token, generation)),
        ensures
            final(self)@ == old(self)@.handled(event, output_size),
            final(events)@ == old(self)@.handled_stream(event, old(events)@, output_size),
            old(self)@.handled_result(event, old(events)@, output_size, r),
            asks_redraw(event) ==> launched_as(launch, old(self)@.launched + 1),
    {
        match Message::from_event(event) {
            Err(foreign) => Ok(Handled::Foreign(foreign)),
            Ok(Message::ResizeTexture) => match output_size {
                Some((w, h)) => match self.resize_texture(w, h, events) {
                    Ok(()) => Ok(Handled::Settled),
                    Err(e) => Err(e),
                },
                None => Ok(Handled::Unsettled),
            },
            Ok(Message::Redraw) => {
                self.redraw(launch);
                Ok(Handled::Started)
            },
            Ok(Message::MandelbrotReady(task)) => {
                let (message, answer) = task.into_parts();
                let taken = self.mandelbrot_ready(message);
                Ok(Handled::Frame { taken, answer })
            },
            Ok(Message::PaletteChanged(msg)) => match self.palette_changed(msg) {
                Ok(()) => Ok(Handled::Repaint),
                Err(reason) => Ok(Handled::PaletteFailed(reason)),
            },
        }
    }

    /// Takes the oldest event off the owner's stream, if there is one, and
    /// handles it as `handle_dispatch` does. Answers `None` when nothing
    /// waited.
    pub fn turn<F: FnOnce(CancellationToken, u64) -> JoinHandle<Result<(), String>>>(
        &mut self,
        output_size: Option<(u32, u32)>,
        events: &mut EventSubsystem<Message>,
        launch: F,
    ) -> (r: Option<Result<Handled, DispatchError>>)
        requires
            old(self)@.launched < u64::MAX,
            forall|token: CancellationToken, generation: u64|
                call_requires(launch, (token, generation)),
        ensures
            (SystemView { app: final(self)@, events: final(events)@ }) == (SystemView {
                app: old(self)@,
                events: old(events)@,
            }).step(SystemEvent::Turn(output_size)),
            r is None <==> old(events)@.queue.len() == 0,
            r matches Some(answer) ==> old(self)@.handled_result(
                old(events)@.queue[0],
                old(events)@.skip(1),
                output_size,
                answer,
            ),
            old(events)@.queue.len() > 0 && asks_redraw(old(events)@.queue[0]) ==> launched_as(
                launch,
                old(self)@.launched + 1,
            ),
    {
        match events.poll_event() {
            Some(event) => Some(self.handle_dispatch(event, output_size, events, launch)),
            None => None,
        }
    }

    /// Follows the keyboard and the mouse.
    ///
    /// Releasing `P` asks for a palette. Pressing the left button marks the
    /// centre of a selection; moving the mouse while it is marked previews
    /// the selection; releasing the left button zooms to the selection, if
    /// a centre was marked, asks for a recomputation through the owner's
    /// stream, and forgets the centre. When the recomputation cannot be
    /// dispatched the error is returned and nothing changes.
    pub fn sdl_event(&mut self, event: &Event<Message>, events: &mut EventSubsystem<Message>) -> (r:
        Result<Gesture, DispatchError>)
        ensures
            r == old(self)@.gesture_result(*event, old(events)@),
            final(self)@ == old(self)@.gesture(*event, old(events)@),
            final(events)@ == old(self)@.gesture_stream(*event, old(events)@),
    {
        proof {
            use_type_invariant(&*self);
        }
        match event {
            Event::KeyUp { keycode: Some(Keycode::P) } => Ok(Gesture::ChoosePalette),
            Event::MouseButtonDown { mouse_btn: MouseButton::Left, x, y } => {
                self.selection_center = Some(Point { x: *x, y: *y });
                Ok(Gesture::Ignore)
            },
            Event::MouseMotion { x, y } => {
                match self.selection_center {
                    Some(center) => Ok(Gesture::Preview { center, corner: Point { x: *x, y: *y } }),
                    None => Ok(Gesture::Ignore),
                }
            },
            Event::MouseButtonUp { mouse_btn: MouseButton::Left, x, y } => {
                match self.selection_center {
                    Some(center) => {
                        match self.dispatcher.send(events, KIND_REDRAW, Message::Redraw) {
                            Ok(()) => {
                                self.selection_center = None;
                                Ok(
                                    Gesture::Zoom {
                                        center,
                                        x: *x,
                                        flipped_y: self.h as i64 - *y as i64,
                                    },
                                )
                            },
                            Err(e) => Err(e),
                        }
                    },
                    None => Ok(Gesture::Release),
                }
            },
            _ => Ok(Gesture::Ignore),
        }
    }
}

/// Whether the worker's outcome goes to the owner: there is an image and the
/// computation was not cancelled.
pub open spec fn worth_delivering(
    cancelled: bool,
    outcome: Option<MandelbrotSetWithHistogram>,
) -> bool {
    !cancelled && outcome is Some
}

/// Whether `after` is `before` with the image of computation `generation` at
/// the back of the queue, in an envelope of its own that is answered through
/// the handshake `link`.
pub open spec fn delivered(
    before: EventSubsystemView<Message>,
    after: EventSubsystemView<Message>,
    generation: u64,
    image: MandelbrotSetWithHistogram,
    link: Receiver<Result<(), String>>,
) -> bool {
    exists|envelope: SdlPumpTask<MandelbrotReady, Result<(), String>>|
        envelope.spec_input() == (MandelbrotReady { generation, mandelbrotset: image })
            && envelope.link() == link && after == before.enqueue(
            Event::User {
                kind: KIND_MANDELBROT_READY,
                payload: Message::MandelbrotReady(envelope),
            },
        )
}

/// Whether `r` and `after` are what a worker's delivery comes to when the
/// computation was found `cancelled` or not. Nothing is delivered, and that
/// is no error, when the computation was cancelled or gave up by itself.
/// Otherwise the image is put on the stream and the task that waits for the
/// owner's answer is returned, or the dispatch fails and leaves no trace.
pub open spec fn delivery(
    dispatcher: SdlDispatcher,
    before: EventSubsystemView<Message>,
    after: EventSubsystemView<Message>,
    cancelled: bool,
    generation: u64,
    outcome: Option<MandelbrotSetWithHistogram>,
    r: Result<Option<Task<Result<(), String>>>, DispatchError>,
) -> bool {
    if !worth_delivering(cancelled, outcome) {
        (r matches Ok(None)) && after == before
    } else {
        match dispatcher.send_result(before, KIND_MANDELBROT_READY) {
            Ok(()) => r is Ok && r->Ok_0 is Some && r->Ok_0->Some_0@ is Waiting && delivered(
                before,
                after,
                generation,
                outcome->Some_0,
                r->Ok_0->Some_0.link(),
            ),
            Err(e) => r == Err::<Option<Task<Result<(), String>>>, DispatchError>(e) && after
                == before,
        }
    }
}

/// What a worker does with the outcome of computation `generation`, once it
/// knows whether the computation was cancelled. An image of a computation
/// that was not cancelled is put on the owner's stream, and the task that
/// waits for the owner's answer is returned. A cancelled computation, or
/// one that gave up by itself, delivers nothing and is no error.
pub fn deliver_unless_cancelled(
    dispatcher: &SdlDispatcher,
    events: &mut EventSubsystem<Message>,
    cancelled: bool,
    generation: u64,
    outcome: Option<MandelbrotSetWithHistogram>,
) -> (r: Result<Option<Task<Result<(), String>>>, DispatchError>)
    ensures
        delivery(
            *dispatcher,
            old(events)@,
            final(events)@,
            cancelled,
            generation,
            outcome,
            r,
        ),
{
    if cancelled {
        return Ok(None);
    }
    match outcome {
        Some(mandelbrotset) => {
            let (envelope, task) = SdlPumpTask::new(MandelbrotReady { generation, mandelbrotset });
            let message = Message::MandelbrotReady(envelope);
            match dispatcher.send(events, KIND_MANDELBROT_READY, message) {
                Ok(()) => Ok(Some(task)),
                Err(e) => Err(e),
            }
        },
        None => Ok(None),
    }
}

/// What a worker does with the outcome of computation `generation`: it reads
/// the computation's cancellation token and goes on as
/// `deliver_unless_cancelled` says for what it read. Whether the token is
/// raised at that moment is up to the owner thread, so either course may be
/// taken and no other; an image that slips through is still refused by
/// `MainApp::mandelbrot_ready` if the computation was superseded.
pub fn deliver(
    dispatcher: &SdlDispatcher,
    events: &mut EventSubsystem<Message>,
    token: &CancellationToken,
    generation: u64,
    outcome: Option<MandelbrotSetWithHistogram>,
) -> (r: Result<Option<Task<Result<(), String>>>, DispatchError>)
    ensures
        delivery(*dispatcher, old(events)@, final(events)@, true, generation, outcome, r)
            || delivery(*dispatcher, old(events)@, final(events)@, false, generation, outcome, r),
{
    let cancelled = token.is_cancelled();
    deliver_unless_cancelled(dispatcher, events, cancelled, generation, outcome)
}

} // verus!
