//! What the supervision of computations guarantees: that a burst of
//! resizes settles once and leads to one computation, and that the image of
//! a computation that was superseded never goes on show. The guarantees are
//! stated over the changes that the methods of `MainApp` make to the
//! application, taken in any order.

use vstd::prelude::*;
use crate::events::{Event, EventSubsystemView};
use crate::mainapp::{
    carries_message,
    MainAppView,
    Message,
    PaletteChanged,
    Phase,
    KIND_REDRAW,
    KIND_RESIZE_TEXTURE,
    RESIZE_DEBOUNCE_MS,
};
use crate::time::{deadline_after, TickerState};

verus! {

/// One thing that the owner thread can do with the application: each stands
/// for one of the methods of `MainApp` that change it.
pub enum AppEvent {
    /// The window changed its size at the given time.
    Resized(u64),
    /// The clock was read at the given time.
    Tick(u64),
    /// A resize was settled with the given width and height.
    Settled(u32, u32),
    /// A computation was started.
    Redraw,
    /// The computation with the given number delivered an image.
    Ready(nat, Seq<(bool, usize)>),
    /// A palette was loaded, or failed to load.
    Palette(PaletteChanged),
    /// An event of the owner's stream was handled, with the window's size
    /// known or not.
    Handled(Event<Message>, Option<(u32, u32)>),
    /// The keyboard or the mouse was followed, with the owner's stream as
    /// given.
    Gesture(Event<Message>, EventSubsystemView<Message>),
}

impl MainAppView {
    /// The application after one event.
    pub open spec fn step(self, event: AppEvent) -> MainAppView {
        match event {
            AppEvent::Resized(now) => self.resized(now),
            AppEvent::Tick(now) => self.tick(now),
            AppEvent::Settled(w, h) => MainAppView { w, h, ..self },
            AppEvent::Redraw => self.redraw(),
            AppEvent::Ready(generation, frame) => self.mandelbrot_ready(generation, frame),
            AppEvent::Palette(msg) => self.palette_changed(msg),
            AppEvent::Handled(event, output_size) => self.handled(event, output_size),
            AppEvent::Gesture(event, events) => self.gesture(event, events),
        }
    }

    /// The application after all the events, one after the other.
    pub open spec fn after(self, events: Seq<AppEvent>) -> MainAppView
        decreases events.len(),
    {
        if events.len() == 0 {
            self
        } else {
            self.step(events[0]).after(events.skip(1))
        }
    }

    /// How often a quiet period ends while the events happen.
    pub open spec fn settle_count(self, events: Seq<AppEvent>) -> nat
        decreases events.len(),
    {
        if events.len() == 0 {
            0
        } else {
            let settled: nat = if events[0] matches AppEvent::Tick(now) && self.settles(now) {
                1
            } else {
                0
            };
            settled + self.step(events[0]).settle_count(events.skip(1))
        }
    }

    /// How many computations are started while the events happen.
    pub open spec fn launch_count(self, events: Seq<AppEvent>) -> int {
        self.after(events).launched - self.launched
    }
}

/// Whether the events are resizes and readings of the clock, and nothing
/// else.
pub open spec fn only_resizes_and_ticks(events: Seq<AppEvent>) -> bool {
    forall|i: int|
        0 <= i < events.len() ==> (#[trigger] events[i] is Resized) || events[i] is Tick
}

/// The time of the last resize among the events, if there is one.
pub open spec fn last_resize(events: Seq<AppEvent>) -> Option<u64>
    decreases events.len(),
{
    if events.len() == 0 {
        None
    } else if last_resize(events.skip(1)) is Some {
        last_resize(events.skip(1))
    } else {
        match events[0] {
            AppEvent::Resized(now) => Some(now),
            _ => None,
        }
    }
}

/// Whether none of the events is a resize.
pub open spec fn without_resize(events: Seq<AppEvent>) -> bool {
    forall|i: int| 0 <= i < events.len() ==> !(#[trigger] events[i] is Resized)
}

/// Whether one of the events reads the clock at or after `deadline`.
pub open spec fn reaches(events: Seq<AppEvent>, deadline: u64) -> bool {
    exists|i: int|
        0 <= i < events.len() && (#[trigger] events[i] matches AppEvent::Tick(now) && now
            >= deadline)
}

proof fn lemma_settles_at_most_once(app: MainAppView, events: Seq<AppEvent>)
    requires
        without_resize(events),
        app.timer matches Some(t) && !t.looping,
    ensures
        app.settle_count(events) <= 1,
        app.timer->0.state != TickerState::Armed ==> app.settle_count(events) == 0,
        app.timer->0.state == TickerState::Armed ==> (app.settle_count(events) == 1 <==> reaches(
            events,
            app.timer->0.deadline,
        )),
    decreases events.len(),
{
    let deadline = app.timer->0.deadline;
    if events.len() > 0 {
        let rest = events.skip(1);
        let next = app.step(events[0]);
        assert forall|i: int| 0 <= i < rest.len() implies !(#[trigger] rest[i] is Resized) by {}
        lemma_settles_at_most_once(next, rest);
        if reaches(events, deadline) {
            let i = choose|i: int|
                0 <= i < events.len() && (#[trigger] events[i] matches AppEvent::Tick(now) && now
                    >= deadline);
            if i > 0 {
                assert(rest[i - 1] == events[i]);
            }
        }
    }
}

proof fn lemma_burst_arms_once(app: MainAppView, burst: Seq<AppEvent>)
    requires
        only_resizes_and_ticks(burst),
        app.settle_count(burst) == 0,
    ensures
        app.after(burst) == match last_resize(burst) {
            Some(now) => app.resized(now),
            None => app,
        },
    decreases burst.len(),
{
    if burst.len() > 0 {
        let rest = burst.skip(1);
        assert forall|i: int| 0 <= i < rest.len() implies (#[trigger] rest[i] is Resized)
            || rest[i] is Tick by {}
        lemma_burst_arms_once(app.step(burst[0]), rest);
    }
}

/// However many resizes arrive in a burst, they end in one armed timer and
/// one settling.
///
/// A burst is any run of resizes, with readings of the clock between them,
/// during which no quiet period ends. After the burst the application is as
/// if only the last resize had happened: the quiet period is counted from
/// that resize, no computation is in flight and none was started. From then
/// on, as long as no further resize arrives, the quiet period ends exactly
/// when the clock is first read at or after the deadline, and it never ends
/// twice.
pub proof fn lemma_burst_settles_once(app: MainAppView, burst: Seq<AppEvent>, later: Seq<AppEvent>)
    requires
        only_resizes_and_ticks(burst),
        last_resize(burst) is Some,
        app.settle_count(burst) == 0,
        without_resize(later),
    ensures
        ({
            let quiet = app.after(burst);
            let deadline = deadline_after(last_resize(burst)->0, RESIZE_DEBOUNCE_MS);
            &&& quiet == app.resized(last_resize(burst)->0)
            &&& app.launch_count(burst) == 0
            &&& quiet.running is None
            &&& quiet.phase() == Phase::Debouncing
            &&& forall|now: u64| quiet.settles(now) <==> now >= deadline
            &&& quiet.settle_count(later) <= 1
            &&& quiet.settle_count(later) == 1 <==> reaches(later, deadline)
        }),
{
    lemma_burst_arms_once(app, burst);
    lemma_settles_at_most_once(app.after(burst), later);
}

/// Whatever the owner thread does with the application, its computations
/// stay numbered in order: the one in flight is never numbered higher than
/// the count of those started.
pub proof fn lemma_numbers_stay_in_order(app: MainAppView, later: Seq<AppEvent>)
    requires
        app.numbered(),
    ensures
        app.after(later).numbered(),
        app.after(later).launched >= app.launched,
    decreases later.len(),
{
    if later.len() > 0 {
        lemma_numbers_stay_in_order(app.step(later[0]), later.skip(1));
    }
}

/// An image of a computation that is not in flight is never taken, whatever
/// happens later: computations that start later get higher numbers.
pub proof fn lemma_superseded_never_taken(app: MainAppView, generation: nat, later: Seq<AppEvent>)
    requires
        generation <= app.launched,
        app.running != Some(generation),
    ensures
        !app.after(later).accepts(generation),
        generation <= app.after(later).launched,
        forall|frame: Seq<(bool, usize)>|
            #[trigger] app.after(later).mandelbrot_ready(generation, frame) == app.after(later),
    decreases later.len(),
{
    if later.len() > 0 {
        lemma_superseded_never_taken(app.step(later[0]), generation, later.skip(1));
    }
}

/// When a resize arrives while a computation is in flight, the image of that
/// computation never goes on show: whatever happens afterwards, and
/// whenever the image arrives, it is refused and changes nothing.
pub proof fn lemma_cancelled_result_never_shown(app: MainAppView, now: u64, later: Seq<AppEvent>)
    ensures
        ({
            let started = app.redraw();
            let generation = started.launched;
            let interrupted = started.resized(now);
            &&& started.accepts(generation)
            &&& !interrupted.after(later).accepts(generation)
            &&& forall|frame: Seq<(bool, usize)>|
                #[trigger] interrupted.after(later).mandelbrot_ready(generation, frame)
                    == interrupted.after(later)
        }),
{
    let started = app.redraw();
    lemma_superseded_never_taken(started.resized(now), started.launched, later);
}

/// When a new computation starts while another is in flight, the image of
/// the earlier one never goes on show either.
pub proof fn lemma_replaced_result_never_shown(app: MainAppView, later: Seq<AppEvent>)
    ensures
        ({
            let started = app.redraw();
            let generation = started.launched;
            let replaced = started.redraw();
            &&& replaced.running == Some(generation + 1)
            &&& !replaced.after(later).accepts(generation)
        }),
{
    let started = app.redraw();
    lemma_superseded_never_taken(started.redraw(), started.launched, later);
}

/// The application together with the owner's stream through which it talks
/// to itself.
pub struct SystemView {
    pub app: MainAppView,
    pub events: EventSubsystemView<Message>,
}

/// One thing that the owner thread does with the application.
pub enum SystemEvent {
    /// It tells the application that the window changed its size, at the
    /// given time.
    Resized(u64),
    /// It lets the application read the clock, at the given time.
    Tick(u64),
    /// It takes the oldest event off the stream, if there is one, and lets
    /// the application handle it, knowing the window's size as given.
    Turn(Option<(u32, u32)>),
}

impl SystemView {
    /// Whether the application can reach itself: its dispatcher is bound
    /// to the stream, the stream is open, and the kinds that settle a
    /// resize are registered.
    pub open spec fn wired(self) -> bool {
        &&& self.events.id == self.app.dispatcher.stream()
        &&& self.events.open
        &&& self.events.registered.contains(KIND_RESIZE_TEXTURE)
        &&& self.events.registered.contains(KIND_REDRAW)
    }

    /// The system after one step, as `MainApp::resized`, `MainApp::tick`
    /// and `MainApp::handle_dispatch` leave it.
    pub open spec fn step(self, event: SystemEvent) -> SystemView {
        match event {
            SystemEvent::Resized(now) => SystemView { app: self.app.resized(now), ..self },
            SystemEvent::Tick(now) => SystemView {
                app: self.app.tick(now),
                events: if self.app.settles(now) {
                    self.app.dispatcher.after_send(
                        self.events,
                        KIND_RESIZE_TEXTURE,
                        Message::ResizeTexture,
                    )
                } else {
                    self.events
                },
            },
            SystemEvent::Turn(output_size) => if self.events.queue.len() == 0 {
                self
            } else {
                SystemView {
                    app: self.app.handled(self.events.queue[0], output_size),
                    events: self.app.handled_stream(
                        self.events.queue[0],
                        self.events.skip(1),
                        output_size,
                    ),
                }
            },
        }
    }

    /// The system after all the steps, one after the other.
    pub open spec fn after(self, steps: Seq<SystemEvent>) -> SystemView
        decreases steps.len(),
    {
        if steps.len() == 0 {
            self
        } else {
            self.step(steps[0]).after(steps.skip(1))
        }
    }
}

/// Whether the owner thread only reads the clock and handles events whose
/// window size it knows.
pub open spec fn ticks_and_turns(steps: Seq<SystemEvent>) -> bool {
    forall|i: int|
        0 <= i < steps.len() ==> (#[trigger] steps[i] is Tick) || (steps[i] matches
            SystemEvent::Turn(size) && size is Some)
}

/// How far the settling of a resize has come after the steps, counted from
/// `from`: 0 while the quiet period lasts, 1 once the timer has fired, 2
/// once the resize is settled, and 3 once the computation is started. The
/// clock must reach `deadline` for the first stage, and each of the next
/// two takes one turn of the owner thread.
pub open spec fn stage(steps: Seq<SystemEvent>, deadline: u64, from: nat) -> nat
    decreases steps.len(),
{
    if steps.len() == 0 {
        from
    } else {
        let next: nat = match steps[0] {
            SystemEvent::Tick(now) => if from == 0 && now >= deadline {
                1
            } else {
                from
            },
            SystemEvent::Turn(_) => if from == 1 || from == 2 {
                from + 1
            } else {
                from
            },
            SystemEvent::Resized(_) => from,
        };
        stage(steps.skip(1), deadline, next)
    }
}

spec fn in_stage(
    system: SystemView,
    reached: nat,
    deadline: u64,
    launched: nat,
    running: Option<nat>,
) -> bool {
    &&& system.wired()
    &&& system.app.timer matches Some(t) && !t.looping && t.deadline == deadline && (t.state
        == TickerState::Armed <==> reached == 0)
    &&& reached <= 3
    &&& reached == 0 || reached == 3 ==> system.events.queue.len() == 0
    &&& reached == 1 ==> system.events.queue =~= seq![
        Event::User { kind: KIND_RESIZE_TEXTURE, payload: Message::ResizeTexture },
    ]
    &&& reached == 2 ==> system.events.queue =~= seq![
        Event::User { kind: KIND_REDRAW, payload: Message::Redraw },
    ]
    &&& reached < 3 ==> system.app.launched == launched && system.app.running == running
    &&& reached == 3 ==> system.app.launched == launched + 1 && system.app.running == Some(
        launched + 1,
    )
}

proof fn lemma_stages(
    system: SystemView,
    steps: Seq<SystemEvent>,
    reached: nat,
    deadline: u64,
    launched: nat,
    running: Option<nat>,
)
    requires
        in_stage(system, reached, deadline, launched, running),
        ticks_and_turns(steps),
    ensures
        in_stage(system.after(steps), stage(steps, deadline, reached), deadline, launched, running),
    decreases steps.len(),
{
    if steps.len() > 0 {
        let rest = steps.skip(1);
        let next = system.step(steps[0]);
        assert forall|i: int| 0 <= i < rest.len() implies (#[trigger] rest[i] is Tick) || (
        rest[i] matches SystemEvent::Turn(size) && size is Some) by {}
        let onward: nat = match steps[0] {
            SystemEvent::Tick(now) => if reached == 0 && now >= deadline {
                1
            } else {
                reached
            },
            SystemEvent::Turn(_) => if reached == 1 || reached == 2 {
                reached + 1
            } else {
                reached
            },
            SystemEvent::Resized(_) => reached,
        };
        if onward == 1 && reached == 0 {
            assert(next.events.queue =~= seq![
                Event::User { kind: KIND_RESIZE_TEXTURE, payload: Message::ResizeTexture },
            ]);
        }
        if onward == 2 {
            assert(next.events.queue =~= seq![
                Event::User { kind: KIND_REDRAW, payload: Message::Redraw },
            ]);
        }
        lemma_stages(next, rest, onward, deadline, launched, running);
    }
}

/// A quiet period that is pending leads to exactly one computation.
///
/// Take an application whose debounce timer is armed, as a burst of resizes
/// leaves it, with nothing waiting on its stream. As long as the owner
/// thread only reads the clock and handles what waits on the stream, the
/// application goes through the stages that `stage` counts and never back:
/// the timer fires once the clock reaches the deadline, the next turn
/// settles the resize, and the turn after that starts the computation. So
/// one computation is started once the third stage is reached, none before
/// and never a second one.
pub proof fn lemma_debounce_starts_one_computation(system: SystemView, later: Seq<SystemEvent>)
    requires
        system.wired(),
        system.events.queue.len() == 0,
        system.app.timer matches Some(t) && t.state == TickerState::Armed && !t.looping,
        ticks_and_turns(later),
    ensures
        ({
            let end = system.after(later);
            let reached = stage(later, system.app.timer->0.deadline, 0);
            &&& reached <= 3
            &&& reached < 3 ==> end.app.launched == system.app.launched && end.app.running
                == system.app.running
            &&& reached == 3 ==> end.app.launched == system.app.launched + 1 && end.app.running
                == Some(end.app.launched) && end.events.queue.len() == 0
        }),
{
    lemma_stages(
        system,
        later,
        0,
        system.app.timer->0.deadline,
        system.app.launched,
        system.app.running,
    );
}

/// The steps of the owner thread that make up a burst: each resize and each
/// reading of the clock, in the order of the events.
pub open spec fn as_steps(burst: Seq<AppEvent>) -> Seq<SystemEvent> {
    Seq::new(
        burst.len(),
        |i: int|
            match burst[i] {
                AppEvent::Resized(now) => SystemEvent::Resized(now),
                AppEvent::Tick(now) => SystemEvent::Tick(now),
                _ => SystemEvent::Tick(0),
            },
    )
}

proof fn lemma_burst_leaves_stream_alone(system: SystemView, burst: Seq<AppEvent>)
    requires
        only_resizes_and_ticks(burst),
        system.app.settle_count(burst) == 0,
    ensures
        system.after(as_steps(burst)) == (SystemView { app: system.app.after(burst), ..system }),
    decreases burst.len(),
{
    if burst.len() > 0 {
        let rest = burst.skip(1);
        assert(burst[0] is Resized || burst[0] is Tick);
        assert forall|i: int| 0 <= i < rest.len() implies (#[trigger] rest[i] is Resized)
            || rest[i] is Tick by {}
        assert(as_steps(burst).skip(1) =~= as_steps(rest));
        assert(system.step(as_steps(burst)[0]) == (SystemView {
            app: system.app.step(burst[0]),
            ..system
        }));
        lemma_burst_leaves_stream_alone(system.step(as_steps(burst)[0]), rest);
    }
}

/// A burst of resizes leads to exactly one computation.
///
/// Take an application that can reach itself through a stream on which
/// nothing waits, and let a burst of resizes arrive, with readings of the
/// clock between them, during which no quiet period ends. The burst starts
/// no computation and leaves none in flight. As long as the owner thread
/// then only reads the clock and handles what waits on the stream, one
/// computation is started, and no second one: it is started by the second
/// turn after the clock was first read at or after one quiet period from
/// the last resize. Whatever the steps, the computation in flight is one
/// at most, since the application has one place for it.
///
/// The stream has to be open, with the kinds registered and nothing
/// waiting: on a closed stream the settling cannot be dispatched and no
/// computation follows, and a `Redraw` that waits already starts one of
/// its own.
pub proof fn lemma_burst_leads_to_one_computation(
    system: SystemView,
    burst: Seq<AppEvent>,
    later: Seq<SystemEvent>,
)
    requires
        system.wired(),
        system.events.queue.len() == 0,
        only_resizes_and_ticks(burst),
        last_resize(burst) is Some,
        system.app.settle_count(burst) == 0,
        ticks_and_turns(later),
    ensures
        ({
            let quiet = system.after(as_steps(burst));
            let end = quiet.after(later);
            let deadline = deadline_after(last_resize(burst)->0, RESIZE_DEBOUNCE_MS);
            let reached = stage(later, deadline, 0);
            &&& quiet.app.launched == system.app.launched
            &&& quiet.app.running is None
            &&& quiet.events == system.events
            &&& reached <= 3
            &&& reached < 3 ==> end.app.launched == system.app.launched && end.app.running is None
            &&& reached == 3 ==> end.app.launched == system.app.launched + 1 && end.app.running
                == Some(end.app.launched)
        }),
{
    lemma_burst_leaves_stream_alone(system, burst);
    lemma_burst_settles_once(system.app, burst, Seq::empty());
    lemma_debounce_starts_one_computation(system.after(as_steps(burst)), later);
}

} // verus!
