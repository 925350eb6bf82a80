use std::cell::RefCell;
use std::rc::Rc;
use std::sync::{Arc, Mutex};

use mandelbrot_explorer::events::{
    Event, EventSubsystem, Keycode, MouseButton, RegistrationError,
};
use mandelbrot_explorer::mainapp::{
    deliver, deliver_unless_cancelled, Gesture, Handled, MainApp, MandelbrotReady, Message,
    PaletteChanged, Phase, Point, KIND_MANDELBROT_READY, KIND_PALETTE_CHANGED, KIND_REDRAW,
    KIND_RESIZE_TEXTURE, RESIZE_DEBOUNCE_MS,
};
use mandelbrot_explorer::mandelbrot::{compute_set_inner, MandelbrotSetWithHistogram};
use mandelbrot_explorer::sdl_dispatch::{DispatchError, SdlDispatcher};
use tokio::runtime::Runtime;
use tokio_util::sync::CancellationToken;

type Launches = Rc<RefCell<Vec<(u64, CancellationToken)>>>;

struct Harness {
    rt: Runtime,
    events: EventSubsystem<Message>,
    dispatcher: SdlDispatcher,
    app: MainApp,
    launches: Launches,
}

impl Harness {
    fn new() -> Self {
        let rt = tokio::runtime::Builder::new_current_thread().build().unwrap();
        let mut events = EventSubsystem::new(1);
        MainApp::register_dispatch(&mut events).unwrap();
        let dispatcher = SdlDispatcher::from_eventsubsystem(&events);
        let app = MainApp::new(dispatcher, 800, 600);
        Harness { rt, events, dispatcher, app, launches: Rc::new(RefCell::new(Vec::new())) }
    }

    fn redraw(&mut self) -> (u64, CancellationToken) {
        let launches = self.launches.clone();
        let rt = &self.rt;
        self.app.redraw(|token, generation| {
            launches.borrow_mut().push((generation, token));
            rt.spawn(async { Ok(()) })
        });
        self.launches.borrow().last().cloned().unwrap()
    }

    fn next_message(&mut self) -> Message {
        Message::from_event(self.events.poll_event().unwrap()).ok().unwrap()
    }

    fn turn(&mut self, output_size: Option<(u32, u32)>) -> Option<Result<Handled, DispatchError>> {
        let launches = self.launches.clone();
        let rt = &self.rt;
        self.app.turn(output_size, &mut self.events, |token, generation| {
            launches.borrow_mut().push((generation, token));
            rt.spawn(async { Ok(()) })
        })
    }

    fn handle(&mut self, event: Event<Message>) -> Result<Handled, DispatchError> {
        let launches = self.launches.clone();
        let rt = &self.rt;
        self.app.handle_dispatch(event, Some((320, 200)), &mut self.events, |token, generation| {
            launches.borrow_mut().push((generation, token));
            rt.spawn(async { Ok(()) })
        })
    }
}

fn image(pixels: usize) -> MandelbrotSetWithHistogram {
    MandelbrotSetWithHistogram::from_results(vec![(false, 1); pixels], 4).unwrap()
}

#[test]
fn computation_in_flight_is_numbered_by_the_count_of_launches() {
    let mut h = Harness::new();
    assert_eq!(h.app.running(), None);
    let (first, _) = h.redraw();
    assert_eq!(h.app.running(), Some(first));
    let (second, _) = h.redraw();
    assert_eq!(h.app.running(), Some(second));
    assert_eq!(h.app.launched(), second);
    h.app.resized(0);
    assert_eq!(h.app.running(), None);
    assert_eq!(h.app.launched(), 2);
}

#[test]
fn launch_is_handed_the_next_number_and_a_fresh_token() {
    let mut h = Harness::new();
    h.redraw();
    h.redraw();
    h.app.resized(0);
    h.redraw();
    let launches = h.launches.borrow();
    let numbers: Vec<u64> = launches.iter().map(|(generation, _)| *generation).collect();
    assert_eq!(numbers, vec![1, 2, 3]);
    assert!(launches[0].1.is_cancelled());
    assert!(launches[1].1.is_cancelled());
    assert!(!launches[2].1.is_cancelled());
}

#[test]
fn new_application_is_idle() {
    let h = Harness::new();
    assert_eq!(h.app.phase(), Phase::Idle);
    assert_eq!(h.app.size(), (800, 600));
    assert_eq!(h.app.launched(), 0);
    assert_eq!(h.app.deadline(), None);
    assert_eq!(h.app.palette(), &vec![(0, 0, 0), (255, 255, 255)]);
    assert_eq!(h.app.mandelbrot_set().len(), 0);
    assert!(h.app.image().is_empty());
}

#[test]
fn message_kinds_are_registered_together_or_not_at_all() {
    let mut events = EventSubsystem::<Message>::new(1);
    assert_eq!(MainApp::register_dispatch(&mut events), Ok(()));
    for kind in [KIND_RESIZE_TEXTURE, KIND_REDRAW, KIND_MANDELBROT_READY, KIND_PALETTE_CHANGED] {
        assert!(events.is_registered(kind));
    }
    assert_eq!(
        MainApp::register_dispatch(&mut events),
        Err(RegistrationError::AlreadyRegistered)
    );

    let mut taken = EventSubsystem::<Message>::new(2);
    taken.register_custom_event(KIND_MANDELBROT_READY).unwrap();
    assert_eq!(MainApp::register_dispatch(&mut taken), Err(RegistrationError::AlreadyRegistered));
    assert!(!taken.is_registered(KIND_RESIZE_TEXTURE));
    assert!(!taken.is_registered(KIND_REDRAW));
    assert!(!taken.is_registered(KIND_PALETTE_CHANGED));
}

#[test]
fn messages_travel_under_their_own_kind() {
    assert_eq!(Message::ResizeTexture.kind(), KIND_RESIZE_TEXTURE);
    assert_eq!(Message::Redraw.kind(), KIND_REDRAW);
    let changed = PaletteChanged { palette_load_result: Err("no file".to_string()) };
    assert_eq!(Message::PaletteChanged(changed).kind(), KIND_PALETTE_CHANGED);

    let own = Message::from_event(Event::User { kind: KIND_REDRAW, payload: Message::Redraw });
    assert!(matches!(own, Ok(Message::Redraw)));
    let mislabelled =
        Message::from_event(Event::User { kind: KIND_RESIZE_TEXTURE, payload: Message::Redraw });
    assert!(matches!(
        mislabelled,
        Err(Event::User { kind: KIND_RESIZE_TEXTURE, payload: Message::Redraw })
    ));
    assert!(matches!(Message::from_event(Event::Quit), Err(Event::Quit)));
}

#[test]
fn three_resizes_settle_once_a_second_after_the_last() {
    let mut h = Harness::new();
    h.app.resized(0);
    h.app.resized(10);
    h.app.resized(20);
    assert_eq!(h.app.phase(), Phase::Debouncing);
    assert_eq!(h.app.deadline(), Some(20 + RESIZE_DEBOUNCE_MS));

    assert_eq!(h.app.tick(1000, &mut h.events), Ok(false));
    assert_eq!(h.app.tick(1010, &mut h.events), Ok(false));
    assert_eq!(h.app.tick(1019, &mut h.events), Ok(false));
    assert_eq!(h.events.pending(), 0);

    assert_eq!(h.app.tick(1020, &mut h.events), Ok(true));
    assert_eq!(h.events.pending(), 1);
    assert_eq!(h.app.phase(), Phase::Idle);
    assert_eq!(h.app.deadline(), None);

    assert_eq!(h.app.tick(1020, &mut h.events), Ok(false));
    assert_eq!(h.app.tick(1021, &mut h.events), Ok(false));
    assert_eq!(h.app.tick(5000, &mut h.events), Ok(false));
    assert_eq!(h.events.pending(), 1);
    assert!(matches!(h.next_message(), Message::ResizeTexture));
}

#[test]
fn burst_of_triggers_starts_exactly_one_computation() {
    let mut h = Harness::new();
    for now in 0..25u64 {
        h.app.resized(now * 7);
        assert_eq!(h.app.tick(now * 7 + 6, &mut h.events), Ok(false));
    }
    assert_eq!(h.app.launched(), 0);
    assert_eq!(h.events.pending(), 0);

    let mut settles = 0;
    for now in (0..4000u64).step_by(50) {
        if h.app.tick(now, &mut h.events).unwrap() {
            settles += 1;
            assert!(now >= 24 * 7 + RESIZE_DEBOUNCE_MS);
            assert!(now < 24 * 7 + RESIZE_DEBOUNCE_MS + 50);
        }
    }
    assert_eq!(settles, 1);
    assert_eq!(h.events.pending(), 1);

    assert!(matches!(h.next_message(), Message::ResizeTexture));
    assert_eq!(h.app.resize_texture(640, 480, &mut h.events), Ok(()));
    assert_eq!(h.app.size(), (640, 480));
    assert!(matches!(h.next_message(), Message::Redraw));
    assert_eq!(h.events.pending(), 0);
    let (generation, token) = h.redraw();
    assert_eq!(generation, 1);
    assert!(!token.is_cancelled());
    assert_eq!(h.app.launched(), 1);
    assert_eq!(h.app.phase(), Phase::Computing);
}

#[test]
fn trigger_cancels_the_computation_in_flight() {
    let mut h = Harness::new();
    let (first, token) = h.redraw();
    assert_eq!(h.app.phase(), Phase::Computing);
    assert!(!token.is_cancelled());

    h.app.resized(500);
    assert!(token.is_cancelled());
    assert_eq!(h.app.phase(), Phase::Debouncing);

    // the worker notices the cancellation and delivers nothing
    let sent = deliver(&h.dispatcher, &mut h.events, &token, first, Some(image(4)));
    assert!(matches!(sent, Ok(None)));
    assert_eq!(h.events.pending(), 0);
}

#[test]
fn aborted_task_never_runs() {
    let rt = tokio::runtime::Builder::new_current_thread().build().unwrap();
    let events = EventSubsystem::<Message>::new(1);
    let mut app = MainApp::new(SdlDispatcher::from_eventsubsystem(&events), 1, 1);
    let ran = Arc::new(Mutex::new(false));
    let flag = ran.clone();
    app.redraw(|_token, _generation| {
        rt.spawn(async move {
            *flag.lock().unwrap() = true;
            Ok(())
        })
    });
    app.resized(0);
    rt.block_on(async { tokio::task::yield_now().await });
    assert!(!*ran.lock().unwrap());
}

#[test]
fn stale_frame_that_raced_the_cancellation_is_refused() {
    let mut h = Harness::new();
    let (first, _token) = h.redraw();

    // the worker finished just before the trigger: its frame is on the stream
    let mut waiting =
        deliver_unless_cancelled(&h.dispatcher, &mut h.events, false, first, Some(image(4)))
            .unwrap()
            .unwrap();
    h.app.resized(100);

    let Message::MandelbrotReady(envelope) = h.next_message() else {
        panic!("expected a finished computation");
    };
    let (message, mut slot) = envelope.into_parts();
    assert_eq!(message.generation, first);
    assert!(!h.app.mandelbrot_ready(message));
    assert_eq!(h.app.mandelbrot_set().len(), 0);
    assert_eq!(h.app.phase(), Phase::Debouncing);
    assert_eq!(slot.fulfill(Ok(())), Ok(()));
    assert_eq!(waiting.poll(), Ok(Some(Ok(()))));
}

#[test]
fn cancelled_halfway_shows_nothing_and_the_next_computation_is_shown() {
    let mut h = Harness::new();
    let (first, token) = h.redraw();

    // the worker reads its token before every pixel; the resize arrives when
    // half of them are done
    let app = RefCell::new(&mut h.app);
    let done = RefCell::new(0);
    let outcome = compute_set_inner(4, 2, 4, &token, |_, _| {
        *done.borrow_mut() += 1;
        if *done.borrow() == 4 {
            app.borrow_mut().resized(10);
        }
        (false, 1)
    });
    assert_eq!(*done.borrow(), 4);
    assert!(outcome.is_none());
    let sent = deliver(&h.dispatcher, &mut h.events, &token, first, outcome);
    assert!(matches!(sent, Ok(None)));
    assert_eq!(h.events.pending(), 0);
    assert_eq!(h.app.mandelbrot_set().len(), 0);

    assert_eq!(h.app.tick(10 + RESIZE_DEBOUNCE_MS, &mut h.events), Ok(true));
    assert!(matches!(h.next_message(), Message::ResizeTexture));
    h.app.resize_texture(2, 4, &mut h.events).unwrap();
    assert!(matches!(h.next_message(), Message::Redraw));
    let (second, fresh) = h.redraw();
    assert_eq!(second, first + 1);

    let outcome = compute_set_inner(2, 4, 4, &fresh, |_, _| (false, 1));
    assert!(outcome.is_some());
    let mut waiting =
        deliver(&h.dispatcher, &mut h.events, &fresh, second, outcome).unwrap().unwrap();
    let Message::MandelbrotReady(envelope) = h.next_message() else {
        panic!("expected a finished computation");
    };
    let (message, mut slot) = envelope.into_parts();
    assert!(h.app.mandelbrot_ready(message));
    assert_eq!(h.app.mandelbrot_set().len(), 8);
    assert_eq!(h.app.image(), vec![(255, 255, 255); 8]);
    assert_eq!(h.app.phase(), Phase::Idle);
    slot.fulfill(Ok(())).unwrap();
    assert_eq!(waiting.poll(), Ok(Some(Ok(()))));
}

#[test]
fn new_computation_replaces_the_one_in_flight() {
    let mut h = Harness::new();
    let (first, old_token) = h.redraw();
    let (second, new_token) = h.redraw();
    assert_eq!((first, second), (1, 2));
    assert!(old_token.is_cancelled());
    assert!(!new_token.is_cancelled());
    assert_eq!(h.app.launched(), 2);

    let stale = MandelbrotReady { generation: first, mandelbrotset: image(3) };
    assert!(!h.app.mandelbrot_ready(stale));
    assert_eq!(h.app.phase(), Phase::Computing);
    let fresh = MandelbrotReady { generation: second, mandelbrotset: image(5) };
    assert!(h.app.mandelbrot_ready(fresh));
    assert_eq!(h.app.mandelbrot_set().len(), 5);

    // a finished computation is over: its frame is not taken twice
    let again = MandelbrotReady { generation: second, mandelbrotset: image(6) };
    assert!(!h.app.mandelbrot_ready(again));
    assert_eq!(h.app.mandelbrot_set().len(), 5);
    assert!(!new_token.is_cancelled());
}

#[test]
fn frame_without_a_computation_is_refused() {
    let mut h = Harness::new();
    assert!(!h.app.mandelbrot_ready(MandelbrotReady { generation: 0, mandelbrotset: image(1) }));
    assert!(!h.app.mandelbrot_ready(MandelbrotReady { generation: 1, mandelbrotset: image(1) }));
    assert_eq!(h.app.mandelbrot_set().len(), 0);
}

#[test]
fn worker_that_gave_up_delivers_nothing() {
    let mut h = Harness::new();
    let (generation, token) = h.redraw();
    assert!(matches!(deliver(&h.dispatcher, &mut h.events, &token, generation, None), Ok(None)));
    assert!(matches!(
        deliver_unless_cancelled(&h.dispatcher, &mut h.events, true, generation, Some(image(1))),
        Ok(None)
    ));
    assert!(matches!(
        deliver_unless_cancelled(&h.dispatcher, &mut h.events, false, generation, None),
        Ok(None)
    ));
    assert_eq!(h.events.pending(), 0);
}

#[test]
fn delivery_after_shutdown_fails() {
    let mut h = Harness::new();
    let (generation, token) = h.redraw();
    h.events.close();
    let sent = deliver(&h.dispatcher, &mut h.events, &token, generation, Some(image(1)));
    assert!(matches!(sent, Err(DispatchError::Unreachable)));
    assert_eq!(h.events.pending(), 0);
}

#[test]
fn settling_after_shutdown_fails_but_the_timer_has_fired() {
    let mut h = Harness::new();
    h.app.resized(0);
    h.events.close();
    assert_eq!(h.app.tick(RESIZE_DEBOUNCE_MS, &mut h.events), Err(DispatchError::Unreachable));
    assert_eq!(h.app.phase(), Phase::Idle);
    assert_eq!(h.app.tick(RESIZE_DEBOUNCE_MS + 1, &mut h.events), Ok(false));
    assert_eq!(h.app.resize_texture(1, 1, &mut h.events), Err(DispatchError::Unreachable));
    assert_eq!(h.app.size(), (1, 1));
}

#[test]
fn tick_without_a_timer_does_nothing() {
    let mut h = Harness::new();
    assert_eq!(h.app.tick(u64::MAX, &mut h.events), Ok(false));
    assert_eq!(h.events.pending(), 0);
}

#[test]
fn palette_is_replaced_unless_loading_failed() {
    let mut h = Harness::new();
    let loaded = PaletteChanged { palette_load_result: Ok(vec![(1, 2, 3)]) };
    assert_eq!(h.app.palette_changed(loaded), Ok(()));
    assert_eq!(h.app.palette(), &vec![(1, 2, 3)]);
    let failed = PaletteChanged { palette_load_result: Err("no such file".to_string()) };
    assert_eq!(h.app.palette_changed(failed), Err("no such file".to_string()));
    assert_eq!(h.app.palette(), &vec![(1, 2, 3)]);
}

#[test]
fn quiet_period_leads_to_one_computation_turn_by_turn() {
    let mut h = Harness::new();
    for now in [0, 300, 600] {
        h.app.resized(now);
        assert!(h.turn(Some((640, 480))).is_none());
    }
    assert_eq!(h.app.tick(1599, &mut h.events), Ok(false));
    assert!(h.turn(Some((640, 480))).is_none());
    assert_eq!(h.app.launched(), 0);

    assert_eq!(h.app.tick(1600, &mut h.events), Ok(true));
    assert_eq!(h.app.launched(), 0);
    assert!(matches!(h.turn(Some((640, 480))), Some(Ok(Handled::Settled))));
    assert_eq!(h.app.size(), (640, 480));
    assert_eq!(h.app.launched(), 0);
    assert!(matches!(h.turn(Some((640, 480))), Some(Ok(Handled::Started))));
    assert_eq!(h.app.launched(), 1);
    assert_eq!(h.app.phase(), Phase::Computing);

    for now in [1601, 2600, 9000] {
        assert_eq!(h.app.tick(now, &mut h.events), Ok(false));
        assert!(h.turn(Some((640, 480))).is_none());
    }
    assert_eq!(h.app.launched(), 1);
    assert_eq!(h.launches.borrow().len(), 1);
}

#[test]
fn resize_of_unknown_size_is_not_settled() {
    let mut h = Harness::new();
    h.app.resized(0);
    assert_eq!(h.app.tick(1000, &mut h.events), Ok(true));
    assert!(matches!(h.turn(None), Some(Ok(Handled::Unsettled))));
    assert_eq!(h.app.size(), (800, 600));
    assert_eq!(h.events.pending(), 0);
    assert_eq!(h.app.launched(), 0);
}

#[test]
fn every_message_is_handled_in_its_own_way() {
    let mut h = Harness::new();

    let foreign = h.handle(Event::KeyDown { keycode: Some(Keycode::P) });
    assert!(matches!(
        foreign,
        Ok(Handled::Foreign(Event::KeyDown { keycode: Some(Keycode::P) }))
    ));
    let mislabelled = h.handle(Event::User { kind: KIND_REDRAW, payload: Message::ResizeTexture });
    assert!(matches!(mislabelled, Ok(Handled::Foreign(Event::User { kind: KIND_REDRAW, .. }))));
    assert_eq!(h.app.size(), (800, 600));
    assert_eq!(h.app.launched(), 0);

    let settled =
        h.handle(Event::User { kind: KIND_RESIZE_TEXTURE, payload: Message::ResizeTexture });
    assert!(matches!(settled, Ok(Handled::Settled)));
    assert_eq!(h.app.size(), (320, 200));
    assert!(matches!(h.next_message(), Message::Redraw));

    let started = h.handle(Event::User { kind: KIND_REDRAW, payload: Message::Redraw });
    assert!(matches!(started, Ok(Handled::Started)));
    assert_eq!(h.app.launched(), 1);

    let failed = PaletteChanged { palette_load_result: Err("broken".to_string()) };
    let told = h.handle(Event::User {
        kind: KIND_PALETTE_CHANGED,
        payload: Message::PaletteChanged(failed),
    });
    assert!(matches!(told, Ok(Handled::PaletteFailed(reason)) if reason == "broken"));
    let loaded = PaletteChanged { palette_load_result: Ok(vec![(9, 9, 9)]) };
    let repaint = h.handle(Event::User {
        kind: KIND_PALETTE_CHANGED,
        payload: Message::PaletteChanged(loaded),
    });
    assert!(matches!(repaint, Ok(Handled::Repaint)));
    assert_eq!(h.app.palette(), &vec![(9, 9, 9)]);

    let mut stale =
        deliver_unless_cancelled(&h.dispatcher, &mut h.events, false, 7, Some(image(2)))
            .unwrap()
            .unwrap();
    let Some(Ok(Handled::Frame { taken, mut answer })) = h.turn(Some((320, 200))) else {
        panic!("expected a frame");
    };
    assert!(!taken);
    answer.fulfill(Ok(())).unwrap();
    assert_eq!(stale.poll(), Ok(Some(Ok(()))));

    let mut fresh =
        deliver_unless_cancelled(&h.dispatcher, &mut h.events, false, 1, Some(image(3)))
            .unwrap()
            .unwrap();
    let Some(Ok(Handled::Frame { taken, mut answer })) = h.turn(Some((320, 200))) else {
        panic!("expected a frame");
    };
    assert!(taken);
    assert_eq!(h.app.image(), vec![(9, 9, 9); 3]);
    answer.fulfill(Err("no texture".to_string())).unwrap();
    assert_eq!(fresh.poll(), Ok(Some(Err("no texture".to_string()))));
}

#[test]
fn settling_fails_when_the_stream_is_closed() {
    let mut h = Harness::new();
    h.events.close();
    let settled =
        h.handle(Event::User { kind: KIND_RESIZE_TEXTURE, payload: Message::ResizeTexture });
    assert!(matches!(settled, Err(DispatchError::Unreachable)));
    assert_eq!(h.app.size(), (320, 200));
    assert_eq!(h.events.pending(), 0);
}

#[test]
fn selection_follows_the_mouse() {
    let mut h = Harness::new();
    let motion = Event::MouseMotion { x: 5, y: 6 };
    assert_eq!(h.app.sdl_event(&motion, &mut h.events), Ok(Gesture::Ignore));

    let press = Event::MouseButtonDown { mouse_btn: MouseButton::Left, x: 100, y: 200 };
    assert_eq!(h.app.sdl_event(&press, &mut h.events), Ok(Gesture::Ignore));
    let center = Point { x: 100, y: 200 };
    let motion = Event::MouseMotion { x: 150, y: 260 };
    assert_eq!(
        h.app.sdl_event(&motion, &mut h.events),
        Ok(Gesture::Preview { center, corner: Point { x: 150, y: 260 } })
    );
    assert_eq!(h.events.pending(), 0);

    let release = Event::MouseButtonUp { mouse_btn: MouseButton::Left, x: 160, y: 250 };
    assert_eq!(
        h.app.sdl_event(&release, &mut h.events),
        Ok(Gesture::Zoom { center, x: 160, flipped_y: 350 })
    );
    assert!(matches!(h.next_message(), Message::Redraw));
    assert_eq!(h.events.pending(), 0);

    let motion = Event::MouseMotion { x: 1, y: 1 };
    assert_eq!(h.app.sdl_event(&motion, &mut h.events), Ok(Gesture::Ignore));
    assert_eq!(h.app.sdl_event(&release, &mut h.events), Ok(Gesture::Release));
    assert_eq!(h.events.pending(), 0);
}

#[test]
fn other_buttons_and_keys_are_ignored() {
    let mut h = Harness::new();
    let press = Event::MouseButtonDown { mouse_btn: MouseButton::Other, x: 1, y: 2 };
    assert_eq!(h.app.sdl_event(&press, &mut h.events), Ok(Gesture::Ignore));
    let motion = Event::MouseMotion { x: 5, y: 6 };
    assert_eq!(h.app.sdl_event(&motion, &mut h.events), Ok(Gesture::Ignore));
    let release = Event::MouseButtonUp { mouse_btn: MouseButton::Other, x: 1, y: 2 };
    assert_eq!(h.app.sdl_event(&release, &mut h.events), Ok(Gesture::Ignore));

    let p = Event::KeyUp { keycode: Some(Keycode::P) };
    assert_eq!(h.app.sdl_event(&p, &mut h.events), Ok(Gesture::ChoosePalette));
    let p_down = Event::KeyDown { keycode: Some(Keycode::P) };
    assert_eq!(h.app.sdl_event(&p_down, &mut h.events), Ok(Gesture::Ignore));
    let escape = Event::KeyUp { keycode: Some(Keycode::Escape) };
    assert_eq!(h.app.sdl_event(&escape, &mut h.events), Ok(Gesture::Ignore));
    assert_eq!(h.app.sdl_event(&Event::Quit, &mut h.events), Ok(Gesture::Ignore));
    assert_eq!(h.events.pending(), 0);
}

#[test]
fn zoom_that_cannot_be_dispatched_keeps_the_selection() {
    let mut h = Harness::new();
    let press = Event::MouseButtonDown { mouse_btn: MouseButton::Left, x: 1, y: 2 };
    h.app.sdl_event(&press, &mut h.events).unwrap();
    h.events.close();
    let release = Event::MouseButtonUp { mouse_btn: MouseButton::Left, x: 3, y: 4 };
    assert_eq!(h.app.sdl_event(&release, &mut h.events), Err(DispatchError::Unreachable));
    let motion = Event::MouseMotion { x: 9, y: 9 };
    assert_eq!(
        h.app.sdl_event(&motion, &mut h.events),
        Ok(Gesture::Preview { center: Point { x: 1, y: 2 }, corner: Point { x: 9, y: 9 } })
    );
}

#[test]
fn flipped_coordinate_cannot_overflow() {
    let events = EventSubsystem::<Message>::new(1);
    let mut events = events;
    MainApp::register_dispatch(&mut events).unwrap();
    let mut app = MainApp::new(SdlDispatcher::from_eventsubsystem(&events), 10, u32::MAX);
    let press = Event::MouseButtonDown { mouse_btn: MouseButton::Left, x: 0, y: 0 };
    app.sdl_event(&press, &mut events).unwrap();
    let release = Event::MouseButtonUp { mouse_btn: MouseButton::Left, x: 0, y: i32::MIN };
    assert_eq!(
        app.sdl_event(&release, &mut events),
        Ok(Gesture::Zoom {
            center: Point { x: 0, y: 0 },
            x: 0,
            flipped_y: u32::MAX as i64 + 2147483648,
        })
    );
}
