use mandelbrot_explorer::completion::FulfillError;
use mandelbrot_explorer::events::{
    Event, EventSubsystem, Keycode, PushError, RegistrationError, WindowEvent,
};
use mandelbrot_explorer::sdl_backend::{new_executor_and_dispatcher, SdlExecutor};
use mandelbrot_explorer::sdl_dispatch::{
    handle_sdl_event, register_task_type, send, spawn, DispatchError, DispatcherRegistry,
    RegistryError, SdlDispatcher, SdlPumpTask,
};

const DOUBLE: u32 = 7;

fn doubling_stream() -> (EventSubsystem<SdlPumpTask<u32, u32>>, SdlExecutor, SdlDispatcher) {
    let mut events = EventSubsystem::new(1);
    let (executor, dispatcher) = new_executor_and_dispatcher(&mut events, DOUBLE).unwrap();
    (events, executor, dispatcher)
}

#[test]
fn submitted_task_is_doubled_on_the_owner_thread() {
    let (mut events, executor, dispatcher) = doubling_stream();
    let mut task = dispatcher.spawn(&mut events, DOUBLE, 10).unwrap();
    assert_eq!(task.poll(), Ok(None));
    assert_eq!(events.pending(), 1);

    let event = events.poll_event().unwrap();
    let envelope = executor.handle_sdl_event(event).ok().unwrap();
    let result = *envelope.input() * 2;
    assert_eq!(envelope.complete(result), Ok(()));

    assert_eq!(task.poll(), Ok(Some(20)));
    assert_eq!(events.pending(), 0);
}

#[test]
fn submitted_task_is_answered_across_threads() {
    let (mut events, executor, dispatcher) = doubling_stream();
    let workers = tokio::runtime::Builder::new_multi_thread().worker_threads(1).build().unwrap();
    let task = dispatcher.spawn(&mut events, DOUBLE, 10).unwrap();
    let waiter = workers.spawn(task.into_receiver());
    let event = events.poll_event().unwrap();
    let envelope = executor.handle_sdl_event(event).ok().unwrap();
    let result = *envelope.input() * 2;
    envelope.complete(result).unwrap();
    assert_eq!(workers.block_on(waiter).unwrap(), Ok(20));
}

#[test]
fn tasks_of_one_thread_arrive_in_submission_order() {
    let (mut events, executor, dispatcher) = doubling_stream();
    events.push_event(Event::Other);
    let mut first = dispatcher.spawn(&mut events, DOUBLE, 1).unwrap();
    let mut second = dispatcher.spawn(&mut events, DOUBLE, 2).unwrap();
    assert_eq!(events.pending(), 3);

    assert!(matches!(events.poll_event(), Some(Event::Other)));
    let t1 = executor.handle_sdl_event(events.poll_event().unwrap()).ok().unwrap();
    assert_eq!(*t1.input(), 1);
    let t2 = executor.handle_sdl_event(events.poll_event().unwrap()).ok().unwrap();
    assert_eq!(*t2.input(), 2);
    assert!(events.poll_event().is_none());

    t2.complete(200).unwrap();
    t1.complete(100).unwrap();
    assert_eq!(first.poll(), Ok(Some(100)));
    assert_eq!(second.poll(), Ok(Some(200)));
}

#[test]
fn poll_iter_takes_the_whole_batch_in_order() {
    let (mut events, _executor, dispatcher) = doubling_stream();
    let _a = dispatcher.spawn(&mut events, DOUBLE, 1).unwrap();
    events.push_event(Event::Quit);
    let _b = dispatcher.spawn(&mut events, DOUBLE, 2).unwrap();
    let batch: Vec<_> = events.poll_iter().into_iter().collect();
    assert_eq!(events.pending(), 0);
    assert_eq!(batch.len(), 3);
    assert!(matches!(&batch[0], Event::User { kind: DOUBLE, payload } if *payload.input() == 1));
    assert!(matches!(&batch[1], Event::Quit));
    assert!(matches!(&batch[2], Event::User { kind: DOUBLE, payload } if *payload.input() == 2));
}

#[test]
fn envelope_completed_after_the_task_was_dropped_reports_receiver_gone() {
    let (mut events, executor, dispatcher) = doubling_stream();
    let task = dispatcher.spawn(&mut events, DOUBLE, 10).unwrap();
    drop(task);
    let envelope = executor.handle_sdl_event(events.poll_event().unwrap()).ok().unwrap();
    assert_eq!(envelope.complete(20), Err(FulfillError::ReceiverGone));
}

#[test]
fn envelope_can_be_opened_and_answered_through_its_slot() {
    let (envelope, mut task) = SdlPumpTask::<&str, usize>::new("four");
    assert_eq!(*envelope.input(), "four");
    let (input, mut slot) = envelope.into_parts();
    assert!(slot.is_pending());
    assert_eq!(slot.fulfill(input.len()), Ok(()));
    assert_eq!(slot.fulfill(0), Err(FulfillError::AlreadyFulfilled));
    assert_eq!(task.poll(), Ok(Some(4)));
}

#[test]
fn kind_can_be_registered_once() {
    let mut events = EventSubsystem::<u32>::new(1);
    assert!(!events.is_registered(3));
    assert_eq!(register_task_type(&mut events, 3), Ok(()));
    assert!(events.is_registered(3));
    assert_eq!(register_task_type(&mut events, 3), Err(RegistrationError::AlreadyRegistered));
    assert_eq!(events.register_custom_event(3), Err(RegistrationError::AlreadyRegistered));
    assert_eq!(events.register_custom_event(4), Ok(()));
    assert!(events.is_registered(3));
    assert!(events.is_registered(4));
}

#[test]
fn second_executor_for_a_kind_is_refused() {
    let mut events = EventSubsystem::<u32>::new(9);
    let (executor, dispatcher) = new_executor_and_dispatcher(&mut events, 5).unwrap();
    assert_eq!(executor.kind_id(), 5);
    assert_eq!(dispatcher.stream_id(), 9);
    assert_eq!(
        new_executor_and_dispatcher(&mut events, 5).err(),
        Some(RegistrationError::AlreadyRegistered)
    );
}

#[test]
fn push_is_refused_for_unregistered_kinds_and_closed_streams() {
    let mut events = EventSubsystem::<u32>::new(1);
    assert_eq!(events.push_custom_event(1, 10), Err(PushError::Unregistered));
    events.register_custom_event(1).unwrap();
    assert_eq!(events.push_custom_event(1, 10), Ok(()));
    assert!(events.is_open());
    events.close();
    assert!(!events.is_open());
    assert_eq!(events.push_custom_event(1, 11), Err(PushError::Closed));
    assert_eq!(events.push_custom_event(2, 11), Err(PushError::Closed));
    assert_eq!(events.pending(), 1);
    assert!(matches!(events.poll_event(), Some(Event::User { kind: 1, payload: 10 })));
}

#[test]
fn dispatch_fails_when_the_stream_is_closed() {
    let (mut events, _executor, dispatcher) = doubling_stream();
    events.close();
    assert_eq!(dispatcher.spawn(&mut events, DOUBLE, 1).err(), Some(DispatchError::Unreachable));
    assert_eq!(events.pending(), 0);
}

#[test]
fn dispatch_fails_on_a_foreign_stream() {
    let (_events, _executor, dispatcher) = doubling_stream();
    let mut other = EventSubsystem::<SdlPumpTask<u32, u32>>::new(2);
    other.register_custom_event(DOUBLE).unwrap();
    assert_eq!(dispatcher.spawn(&mut other, DOUBLE, 1).err(), Some(DispatchError::Unreachable));
    assert_eq!(other.pending(), 0);
}

#[test]
fn dispatch_fails_for_an_unregistered_kind() {
    let (mut events, _executor, dispatcher) = doubling_stream();
    assert_eq!(dispatcher.spawn(&mut events, 8, 1).err(), Some(DispatchError::Unregistered));
    assert_eq!(events.pending(), 0);
}

#[test]
fn send_posts_a_message_without_a_slot() {
    let mut events = EventSubsystem::<&str>::new(4);
    events.register_custom_event(1).unwrap();
    let dispatcher = SdlDispatcher::from_eventsubsystem(&events);
    assert_eq!(dispatcher.send(&mut events, 1, "settled"), Ok(()));
    assert_eq!(dispatcher.send(&mut events, 2, "lost"), Err(DispatchError::Unregistered));
    assert_eq!(events.pending(), 1);
    assert!(matches!(events.poll_event(), Some(Event::User { kind: 1, payload: "settled" })));
}

#[test]
fn executor_leaves_other_events_alone() {
    let (_events, executor, _dispatcher) = doubling_stream();
    let (envelope, _task) = SdlPumpTask::<u32, u32>::new(3);
    let foreign = executor.handle_sdl_event(Event::User { kind: 99, payload: envelope });
    assert!(matches!(foreign, Err(Event::User { kind: 99, .. })));
    let quit = executor.handle_sdl_event::<SdlPumpTask<u32, u32>>(Event::Quit);
    assert!(matches!(quit, Err(Event::Quit)));
    let key = executor
        .handle_sdl_event::<SdlPumpTask<u32, u32>>(Event::KeyDown { keycode: Some(Keycode::P) });
    assert!(matches!(key, Err(Event::KeyDown { keycode: Some(Keycode::P) })));
}

#[test]
fn unregistered_kind_is_treated_as_a_foreign_event() {
    let mut events = EventSubsystem::<u32>::new(1);
    events.register_custom_event(1).unwrap();
    let known = handle_sdl_event(&events, Event::User { kind: 1, payload: 5 }, 1);
    assert!(matches!(known, Ok(5)));
    let other_kind = handle_sdl_event(&events, Event::User { kind: 1, payload: 5 }, 2);
    assert!(matches!(other_kind, Err(Event::User { kind: 1, payload: 5 })));
    let unregistered = handle_sdl_event(&events, Event::User { kind: 2, payload: 5 }, 2);
    assert!(matches!(unregistered, Err(Event::User { kind: 2, payload: 5 })));
    let window = handle_sdl_event(&events, Event::Window { win_event: WindowEvent::Resized }, 1);
    assert!(matches!(window, Err(Event::Window { win_event: WindowEvent::Resized })));
}

#[test]
fn user_events_are_told_from_toolkit_events() {
    assert!(Event::User { kind: 1, payload: 0u8 }.is_user_event());
    assert!(!Event::<u8>::Quit.is_user_event());
    assert!(!Event::<u8>::MouseMotion { x: 1, y: 2 }.is_user_event());
}

#[test]
fn make_current_twice_fails_the_second_time() {
    let events = EventSubsystem::<u32>::new(3);
    let dispatcher = SdlDispatcher::from_eventsubsystem(&events);
    let mut registry = DispatcherRegistry::new(0);
    let guard = dispatcher.make_current(&mut registry).unwrap();
    assert_eq!(dispatcher.make_current(&mut registry).err(), Some(RegistryError::AlreadyInstalled));
    assert_eq!(registry.current(), Ok(dispatcher));
    guard.release(&mut registry).unwrap();
    assert_eq!(registry.current(), Err(RegistryError::NotInstalled));
    assert!(dispatcher.make_current(&mut registry).is_ok());
}

#[test]
fn current_before_make_current_fails() {
    let registry = DispatcherRegistry::new(0);
    assert_eq!(registry.current(), Err(RegistryError::NotInstalled));
}

#[test]
fn failed_install_keeps_the_first_dispatcher() {
    let first = SdlDispatcher::from_eventsubsystem(&EventSubsystem::<u32>::new(1));
    let second = SdlDispatcher::from_eventsubsystem(&EventSubsystem::<u32>::new(2));
    let mut registry = DispatcherRegistry::new(0);
    let _guard = first.make_current(&mut registry).unwrap();
    assert!(second.make_current(&mut registry).is_err());
    assert_eq!(registry.current().map(|d| d.stream_id()), Ok(1));
}

#[test]
fn ambient_dispatch_needs_a_current_dispatcher() {
    let (mut events, executor, dispatcher) = doubling_stream();
    let mut registry = DispatcherRegistry::new(0);
    assert_eq!(spawn(&registry, &mut events, DOUBLE, 1).err(), Some(DispatchError::NoDispatcher));
    assert_eq!(events.pending(), 0);

    let guard = dispatcher.make_current(&mut registry).unwrap();
    let mut task = spawn(&registry, &mut events, DOUBLE, 21).unwrap();
    let envelope = executor.handle_sdl_event(events.poll_event().unwrap()).ok().unwrap();
    let doubled = *envelope.input() * 2;
    envelope.complete(doubled).unwrap();
    assert_eq!(task.poll(), Ok(Some(42)));

    guard.release(&mut registry).unwrap();
    assert_eq!(spawn(&registry, &mut events, DOUBLE, 1).err(), Some(DispatchError::NoDispatcher));
}

#[test]
fn ambient_send_goes_through_the_current_dispatcher() {
    let mut events = EventSubsystem::<u8>::new(6);
    events.register_custom_event(1).unwrap();
    let mut registry = DispatcherRegistry::new(0);
    assert_eq!(send(&registry, &mut events, 1, 9), Err(DispatchError::NoDispatcher));
    let _guard = SdlDispatcher::from_eventsubsystem(&events).make_current(&mut registry).unwrap();
    assert_eq!(send(&registry, &mut events, 1, 9), Ok(()));
    assert_eq!(send(&registry, &mut events, 2, 9), Err(DispatchError::Unregistered));
    events.close();
    assert_eq!(send(&registry, &mut events, 1, 9), Err(DispatchError::Unreachable));
    assert_eq!(events.pending(), 1);
}

#[test]
fn guard_releases_only_the_registry_it_belongs_to() {
    let dispatcher = SdlDispatcher::from_eventsubsystem(&EventSubsystem::<u32>::new(1));
    let mut ours = DispatcherRegistry::new(1);
    let mut theirs = DispatcherRegistry::new(2);
    let our_guard = dispatcher.make_current(&mut ours).unwrap();
    let their_guard = dispatcher.make_current(&mut theirs).unwrap();

    // a guard of another registry changes nothing and comes back
    let our_guard = our_guard.release(&mut theirs).unwrap_err();
    assert_eq!(theirs.current(), Ok(dispatcher));
    assert_eq!(dispatcher.make_current(&mut theirs).err(), Some(RegistryError::AlreadyInstalled));

    assert!(their_guard.release(&mut theirs).is_ok());
    assert_eq!(theirs.current(), Err(RegistryError::NotInstalled));
    assert_eq!(ours.current(), Ok(dispatcher));
    assert!(our_guard.release(&mut ours).is_ok());
    assert_eq!(ours.current(), Err(RegistryError::NotInstalled));
}

#[test]
fn stale_guard_does_not_release_a_later_installation() {
    let first = SdlDispatcher::from_eventsubsystem(&EventSubsystem::<u32>::new(1));
    let second = SdlDispatcher::from_eventsubsystem(&EventSubsystem::<u32>::new(2));
    let mut registry = DispatcherRegistry::new(7);
    let mut twin = DispatcherRegistry::new(7);
    let stale = first.make_current(&mut twin).unwrap();
    let guard = second.make_current(&mut registry).unwrap();
    let stale = stale.release(&mut registry).unwrap_err();
    assert_eq!(registry.current(), Ok(second));
    assert!(guard.release(&mut registry).is_ok());
    assert!(stale.release(&mut registry).is_err());
    assert_eq!(registry.current(), Err(RegistryError::NotInstalled));
}
