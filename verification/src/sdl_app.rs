//! The owner loop: what an application has to offer to be run inside it, the
//! settings of the loop, and one turn of it over the events that wait.

use vstd::prelude::*;
use std::collections::VecDeque;
use crate::events::{Event, EventSubsystem, EventSubsystemView, Keycode, WindowEvent};
use crate::sdl_dispatch::{current_result, DispatcherRegistry, RegistryError, SdlDispatcher};

verus! {

/// What the owner loop asks of an application.
///
/// What the methods do is up to the application. Each comes with a relation
/// between the application before and after; an application that wants its
/// callers to know what a method does defines the relation, and one that
/// leaves it alone promises nothing.
pub trait App {
    /// Whether `after` is what `start` may leave of the application `self`.
    open spec fn starts(&self, after: &Self) -> bool {
        true
    }

    /// Whether `after` is what `resized` may leave of the application
    /// `self`.
    open spec fn resizes(&self, after: &Self) -> bool {
        true
    }

    /// Whether `after` is what `stop` may leave of the application `self`.
    open spec fn stops(&self, after: &Self) -> bool {
        true
    }

    /// Called once, before the first event is read.
    fn start(&mut self)
        ensures
            old(self).starts(final(self)),
    ;

    /// Called after a turn in which the window changed its size.
    fn resized(&mut self)
        ensures
            old(self).resizes(final(self)),
    ;

    /// Called once, after the loop has ended.
    fn stop(&mut self)
        ensures
            old(self).stops(final(self)),
    ;
}

/// What the owner loop asks of an application that takes dispatched work.
///
/// As in `App`, each method comes with a relation that is the application's
/// to define.
pub trait DispatchHandler<M> {
    /// Whether `after` is what `register_dispatch` may leave of the stream
    /// `before`.
    open spec fn registers(
        &self,
        before: EventSubsystemView<M>,
        after: EventSubsystemView<M>,
    ) -> bool {
        true
    }

    /// Registers the kinds of custom events that the application handles.
    fn register_dispatch(&self, events: &mut EventSubsystem<M>)
        ensures
            self.registers(old(events)@, final(events)@),
    ;

    /// Whether `handle_dispatch` may leave `after` of the application `self`
    /// and `stream` of the stream `before`, and give `answer`, when it is
    /// offered `message`.
    open spec fn handles(
        &self,
        message: Event<M>,
        before: EventSubsystemView<M>,
        after: &Self,
        stream: EventSubsystemView<M>,
        answer: bool,
    ) -> bool {
        true
    }

    /// Offers a custom event to the application, on the owner thread. The
    /// application answers whether the event was one of its own. It may put
    /// further events on the stream; they are read in a later turn.
    fn handle_dispatch(&mut self, message: Event<M>, events: &mut EventSubsystem<M>) -> (answer:
        bool)
        ensures
            old(self).handles(message, old(events)@, final(self), final(events)@, answer),
    ;
}

/// Whether offering the custom events of `batch` to the application `app`,
/// oldest first and each once, may leave `after` of the application and
/// `left` of the stream `stream`. An event of the toolkit is not offered and
/// leaves both as they are.
pub open spec fn offered<M, T: DispatchHandler<M>>(
    app: T,
    stream: EventSubsystemView<M>,
    batch: Seq<Event<M>>,
    after: T,
    left: EventSubsystemView<M>,
) -> bool
    decreases batch.len(),
{
    if batch.len() == 0 {
        after == app && left == stream
    } else if batch.last().spec_is_user_event() {
        exists|mid: T, between: EventSubsystemView<M>, answer: bool|
            offered(app, stream, batch.drop_last(), mid, between) && #[trigger] mid.handles(
                batch.last(),
                between,
                &after,
                left,
                answer,
            )
    } else {
        offered(app, stream, batch.drop_last(), after, left)
    }
}

/// The dispatcher of the owner loop that is running, as `registry` knows it.
/// Fails when no loop has installed one.
pub fn dispatcher(registry: &DispatcherRegistry) -> (r: Result<SdlDispatcher, RegistryError>)
    ensures
        r == current_result(registry@),
{
    registry.current()
}

/// What a turn of the owner loop found while it read events.
#[derive(Clone, Copy, Debug, PartialEq, Eq, Structural)]
pub struct PostPumpState {
    /// The window changed its size.
    pub resized: bool,
    /// The user asked to leave.
    pub quit: bool,
}

/// Whether the event asks the loop to end: the window was closed or Escape
/// was pressed.
pub open spec fn asks_to_quit<M>(event: Event<M>) -> bool {
    event is Quit || (event matches Event::KeyDown { keycode } && keycode == Some(Keycode::Escape))
}

/// Whether the event tells that the window has a new size.
pub open spec fn tells_resize<M>(event: Event<M>) -> bool {
    event matches Event::Window { win_event } && (win_event == WindowEvent::Resized || win_event
        == WindowEvent::SizeChanged)
}

impl Default for PostPumpState {
    /// A turn that has found nothing yet.
    fn default() -> (state: PostPumpState)
        ensures
            state == (PostPumpState { resized: false, quit: false }),
    {
        PostPumpState { resized: false, quit: false }
    }
}

impl PostPumpState {
    /// What a turn has found after it also read `event`.
    pub open spec fn observe<M>(self, event: Event<M>) -> PostPumpState {
        PostPumpState {
            resized: self.resized || tells_resize(event),
            quit: self.quit || asks_to_quit(event),
        }
    }

    /// What a turn finds in a batch of events: whether any of them asks to
    /// quit, and whether any of them tells of a new size.
    pub open spec fn scan<M>(batch: Seq<Event<M>>) -> PostPumpState {
        PostPumpState {
            resized: exists|i: int| 0 <= i < batch.len() && tells_resize(#[trigger] batch[i]),
            quit: exists|i: int| 0 <= i < batch.len() && asks_to_quit(#[trigger] batch[i]),
        }
    }

    /// A turn that has found nothing yet.
    pub fn new() -> (state: PostPumpState)
        ensures
            state == (PostPumpState { resized: false, quit: false }),
    {
        PostPumpState { resized: false, quit: false }
    }

    /// Takes note of one event.
    pub fn note<M>(&mut self, event: &Event<M>)
        ensures
            *final(self) == old(self).observe(*event),
    {
        match event {
            Event::Quit => {
                self.quit = true;
            },
            Event::KeyDown { keycode: Some(Keycode::Escape) } => {
                self.quit = true;
            },
            Event::Window { win_event: WindowEvent::Resized } => {
                self.resized = true;
            },
            Event::Window { win_event: WindowEvent::SizeChanged } => {
                self.resized = true;
            },
            _ => {},
        }
    }
}

/// The owner loop, as it was configured by an `AppBuilder`.
#[derive(Debug)]
pub struct AppRunner {
    title: String,
    window_size: (u32, u32),
    with_tokio: bool,
    with_dispatch: bool,
    with_egui: bool,
    passive: bool,
}

/// What an `AppBuilder` or an `AppRunner` holds.
pub struct AppSettings {
    pub title: Seq<char>,
    pub window_size: (u32, u32),
    pub with_tokio: bool,
    pub with_dispatch: bool,
    pub with_egui: bool,
    pub passive: bool,
}

impl View for AppRunner {
    type V = AppSettings;

    closed spec fn view(&self) -> AppSettings {
        AppSettings {
            title: self.title@,
            window_size: self.window_size,
            with_tokio: self.with_tokio,
            with_dispatch: self.with_dispatch,
            with_egui: self.with_egui,
            passive: self.passive,
        }
    }
}

impl AppRunner {
    /// The title of the window.
    pub fn title(&self) -> (title: &String)
        ensures
            title@ == self@.title,
    {
        &self.title
    }

    /// The width and height of the window when it opens.
    pub fn window_size(&self) -> (size: (u32, u32))
        ensures
            size == self@.window_size,
    {
        self.window_size
    }

    /// Whether the loop sleeps until an event arrives, rather than spinning.
    pub fn is_passive(&self) -> (passive: bool)
        ensures
            passive == self@.passive,
    {
        self.passive
    }

    /// Whether the application's custom event kinds are registered at start.
    pub fn uses_dispatch(&self) -> (with_dispatch: bool)
        ensures
            with_dispatch == self@.with_dispatch,
    {
        self.with_dispatch
    }

    /// Whether the application asked for an async runtime.
    pub fn uses_tokio(&self) -> (with_tokio: bool)
        ensures
            with_tokio == self@.with_tokio,
    {
        self.with_tokio
    }

    /// Whether the application asked for an immediate-mode interface.
    pub fn uses_egui(&self) -> (with_egui: bool)
        ensures
            with_egui == self@.with_egui,
    {
        self.with_egui
    }

    /// Prepares an application for the loop: lets it register its custom
    /// event kinds, if the loop was built with dispatch, and then starts it.
    /// A loop that was built without dispatch leaves the stream alone.
    pub fn start<M, T: App + DispatchHandler<M>>(
        &self,
        app: &mut T,
        events: &mut EventSubsystem<M>,
    )
        ensures
            self@.with_dispatch ==> old(app).registers(old(events)@, final(events)@),
            !self@.with_dispatch ==> final(events)@ == old(events)@,
            old(app).starts(final(app)),
    {
        if self.with_dispatch {
            app.register_dispatch(events);
        }
        app.start();
    }

    /// Runs one turn of the event loop.
    ///
    /// The turn takes every event that waits on the stream, oldest first.
    /// Custom events are offered to the application; all other events are
    /// only noted. Once the whole batch is read, and not before, the turn
    /// acts on what it found: if nothing asked to quit and the window changed
    /// its size, however often, the application is told so once. The caller
    /// ends the loop when the returned state says `quit`.
    ///
    /// The application and the stream end up as `offered` says: every
    /// custom event of the batch was offered to `handle_dispatch`, oldest
    /// first and once, on a stream that held nothing but what earlier
    /// handlers had put there, and no other event was offered. Then
    /// `resized` ran once if the turn found a resize and no request to
    /// quit, and not at all otherwise. A turn that offered nothing leaves
    /// the stream empty and otherwise as it was.
    pub fn run<M, T: App + DispatchHandler<M>>(
        &self,
        app: &mut T,
        events: &mut EventSubsystem<M>,
    ) -> (found: PostPumpState)
        ensures
            found == PostPumpState::scan(old(events)@.queue),
            without_user_events(old(events)@.queue) ==> final(events)@ == old(events)@.drained(),
            exists|mid: T|
                #[trigger] offered(
                    *old(app),
                    old(events)@.drained(),
                    old(events)@.queue,
                    mid,
                    final(events)@,
                ) && if found.resized && !found.quit {
                    mid.resizes(final(app))
                } else {
                    mid == *final(app)
                },
    {
        let ghost first = *app;
        let mut batch: VecDeque<Event<M>> = events.poll_iter();
        let ghost all = batch@;
        let ghost drained = events@;
        let mut postpumpstate = PostPumpState::new();
        assert(all.take(0).len() == 0);
        loop
            invariant
                batch@.len() <= all.len(),
                batch@ == all.skip(all.len() - batch@.len()),
                postpumpstate == PostPumpState::scan(all.take(all.len() - batch@.len())),
                without_user_events(all.take(all.len() - batch@.len())) ==> events@ == drained,
                offered(first, drained, all.take(all.len() - batch@.len()), *app, events@),
            ensures
                postpumpstate == PostPumpState::scan(all),
                without_user_events(all) ==> events@ == drained,
                offered(first, drained, all, *app, events@),
            decreases batch@.len(),
        {
            let ghost done = all.len() - batch@.len();
            match batch.pop_front() {
                Some(event) => {
                    let ghost mid = *app;
                    let ghost between = events@;
                    let ghost user = event.spec_is_user_event();
                    let answer = if event.is_user_event() {
                        app.handle_dispatch(event, events)
                    } else {
                        postpumpstate.note(&event);
                        false
                    };
                    proof {
                        let longer = all.take(done + 1);
                        assert(longer.drop_last() =~= all.take(done));
                        assert(longer.last() == all[done]);
                        if user {
                            assert(mid.handles(all[done], between, &*app, events@, answer));
                        }
                        assert(offered(first, drained, longer, *app, events@));
                        lemma_scan_step(all.take(done + 1));
                        if without_user_events(all.take(done + 1)) {
                            assert forall|i: int| 0 <= i < done implies !(#[trigger] all.take(
                                done,
                            )[i]).spec_is_user_event() by {}
                        }
                    }
                },
                None => {
                    assert(all.take(all.len() as int) =~= all);
                    break ;
                },
            }
        }
        if !postpumpstate.quit && postpumpstate.resized {
            app.resized();
        }
        postpumpstate
    }

    /// Ends the loop: stops the application.
    pub fn finish<T: App>(&self, app: &mut T)
        ensures
            old(app).stops(final(app)),
    {
        app.stop();
    }
}

/// Whether none of the events was injected by a dispatcher.
pub open spec fn without_user_events<M>(batch: Seq<Event<M>>) -> bool {
    forall|i: int| 0 <= i < batch.len() ==> !(#[trigger] batch[i]).spec_is_user_event()
}

/// A batch with one more event is scanned by scanning the batch without it
/// and then noting the event.
pub proof fn lemma_scan_step<M>(batch: Seq<Event<M>>)
    requires
        batch.len() > 0,
    ensures
        PostPumpState::scan(batch) == PostPumpState::scan(batch.drop_last()).observe(batch.last()),
{
    let shorter = batch.drop_last();
    let whole = PostPumpState::scan(batch);
    if whole.quit {
        let i = choose|i: int| 0 <= i < batch.len() && asks_to_quit(#[trigger] batch[i]);
        if i < shorter.len() {
            assert(asks_to_quit(shorter[i]));
        }
    }
    if whole.resized {
        let i = choose|i: int| 0 <= i < batch.len() && tells_resize(#[trigger] batch[i]);
        if i < shorter.len() {
            assert(tells_resize(shorter[i]));
        }
    }
}

/// Collects the settings of an owner loop.
#[derive(Debug)]
pub struct AppBuilder {
    title: String,
    window_size: (u32, u32),
    with_tokio: bool,
    with_dispatch: bool,
    with_egui: bool,
    passive: bool,
}

impl View for AppBuilder {
    type V = AppSettings;

    closed spec fn view(&self) -> AppSettings {
        AppSettings {
            title: self.title@,
            window_size: self.window_size,
            with_tokio: self.with_tokio,
            with_dispatch: self.with_dispatch,
            with_egui: self.with_egui,
            passive: self.passive,
        }
    }
}

impl AppBuilder {
    /// A builder for a window of 800 by 600 with the given title and every
    /// option switched off.
    pub fn new(title: &str) -> (builder: Self)
        ensures
            builder@ == (AppSettings {
                title: title@,
                window_size: (800u32, 600u32),
                with_tokio: false,
                with_dispatch: false,
                with_egui: false,
                passive: false,
            }),
    {
        Self {
            title: title.to_string(),
            window_size: (800, 600),
            with_tokio: false,
            with_dispatch: false,
            with_egui: false,
            passive: false,
        }
    }

    /// Sets the size of the window.
    pub fn window_size(&mut self, w: u32, h: u32) -> (ret: &mut Self)
        ensures
            ret@ == (AppSettings { window_size: (w, h), ..old(self)@ }),
            *final(self) == *final(ret),
    {
        self.window_size = (w, h);
        self
    }

    /// Asks for an async runtime.
    pub fn with_tokio(&mut self) -> (ret: &mut Self)
        ensures
            ret@ == (AppSettings { with_tokio: true, ..old(self)@ }),
            *final(self) == *final(ret),
    {
        self.with_tokio = true;
        self
    }

    /// Asks for the application's custom event kinds to be registered.
    pub fn with_dispatch(&mut self) -> (ret: &mut Self)
        ensures
            ret@ == (AppSettings { with_dispatch: true, ..old(self)@ }),
            *final(self) == *final(ret),
    {
        self.with_dispatch = true;
        self
    }

    /// Makes the loop sleep until an event arrives.
    pub fn passive_event_loop(&mut self) -> (ret: &mut Self)
        ensures
            ret@ == (AppSettings { passive: true, ..old(self)@ }),
            *final(self) == *final(ret),
    {
        self.passive = true;
        self
    }

    /// Asks for an immediate-mode interface.
    pub fn with_egui(&mut self) -> (ret: &mut Self)
        ensures
            ret@ == (AppSettings { with_egui: true, ..old(self)@ }),
            *final(self) == *final(ret),
    {
        self.with_egui = true;
        self
    }

    /// The owner loop with the settings collected so far.
    pub fn build(&self) -> (runner: AppRunner)
        ensures
            runner@ == self@,
    {
        AppRunner {
            title: self.title.clone(),
            window_size: self.window_size,
            with_tokio: self.with_tokio,
            with_dispatch: self.with_dispatch,
            with_egui: self.with_egui,
            passive: self.passive,
        }
    }
}

} // verus!
