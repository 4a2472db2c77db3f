use nexus_rt::handler::{into_handler, BoxedHandler};
use nexus_rt::mio::{MioInstaller, MioPoller, MioToken};
use nexus_rt::step::res_mut;
use nexus_rt::world::{World, WorldBuilder};
use std::time::Duration;

const K_FLAG: u64 = 1;

// The event loop's share of a poll: wait on the OS, then hand the
// readiness to the poller.
fn poll(poller: &mut MioPoller<u64>, world: &mut World<u64>, timeout: Option<Duration>) -> std::io::Result<usize> {
    let mut events = mio::Events::with_capacity(poller.events_capacity());
    poller.driver_mut().poll_mut().poll(&mut events, timeout)?;
    let ready: Vec<(MioToken, mio::event::Event)> =
        events.iter().map(|e| (MioToken(e.token().0), e.clone())).collect();
    Ok(poller.dispatch(world, ready))
}

fn installer() -> MioInstaller<u64> {
    MioInstaller::new(mio::Poll::new().expect("failed to create mio Poll"))
}

fn on_wake_set(id: nexus_rt::world::ResourceId) -> BoxedHandler<u64, mio::event::Event> {
    BoxedHandler::new(into_handler(res_mut(id, |_flag: &u64, _event: mio::event::Event| (1u64, ()))))
}

fn on_wake_count(id: nexus_rt::world::ResourceId) -> BoxedHandler<u64, mio::event::Event> {
    BoxedHandler::new(into_handler(res_mut(id, |c: &u64, _event: mio::event::Event| (*c + 1, ()))))
}

#[test]
fn install_registers_driver() {
    let mut builder = WorldBuilder::<u64>::new();
    let poller: MioPoller<u64> = builder.install_driver(installer());
    let _world = builder.build();
    // The poller owns the driver, which starts with no handlers.
    assert!(poller.driver().is_empty());
}

#[test]
fn poll_empty_returns_zero() {
    let mut builder = WorldBuilder::<u64>::new();
    let mut poller: MioPoller<u64> = builder.install_driver(installer());
    let mut world = builder.build();
    let fired = poll(&mut poller, &mut world, Some(Duration::from_millis(0))).unwrap();
    assert_eq!(fired, 0);
}

#[test]
fn waker_fires_handler() {
    let mut builder = WorldBuilder::<u64>::new();
    let flag = builder.register(K_FLAG, 0);
    let mut poller: MioPoller<u64> = builder.install_driver(installer());
    let mut world = builder.build();
    let driver = poller.driver_mut();
    let token = driver.insert(on_wake_set(flag));
    let waker = mio::Waker::new(driver.poll().registry(), mio::Token(token.0)).unwrap();
    waker.wake().unwrap();
    let fired = poll(&mut poller, &mut world, Some(Duration::from_millis(100))).unwrap();
    assert_eq!(fired, 1);
    assert_eq!(*world.resource(K_FLAG), 1);
}

#[test]
fn handler_fires_twice_with_waker() {
    let mut builder = WorldBuilder::<u64>::new();
    let counter = builder.register(K_FLAG, 0);
    let mut poller: MioPoller<u64> = builder.install_driver(installer());
    let mut world = builder.build();
    let driver = poller.driver_mut();
    let token = driver.insert(on_wake_count(counter));
    let waker = mio::Waker::new(driver.poll().registry(), mio::Token(token.0)).unwrap();
    waker.wake().unwrap();
    let fired = poll(&mut poller, &mut world, Some(Duration::from_millis(100))).unwrap();
    assert_eq!(fired, 1);
    assert_eq!(*world.resource(K_FLAG), 1);
    let token2 = poller.driver_mut().insert(on_wake_count(counter));
    assert_eq!(token, token2, "slab must reuse freed slot");
    waker.wake().unwrap();
    let fired = poll(&mut poller, &mut world, Some(Duration::from_millis(100))).unwrap();
    assert_eq!(fired, 1);
    assert_eq!(*world.resource(K_FLAG), 2);
}

#[test]
fn cancel_before_fire() {
    let mut builder = WorldBuilder::<u64>::new();
    let flag = builder.register(K_FLAG, 0);
    let mut poller: MioPoller<u64> = builder.install_driver(installer());
    let mut world = builder.build();
    let driver = poller.driver_mut();
    let token = driver.insert(on_wake_set(flag));
    let waker = mio::Waker::new(driver.poll().registry(), mio::Token(token.0)).unwrap();
    let _removed = poller.driver_mut().remove(token);
    waker.wake().unwrap();
    let fired = poll(&mut poller, &mut world, Some(Duration::from_millis(100))).unwrap();
    assert_eq!(fired, 0);
    assert_eq!(*world.resource(K_FLAG), 0);
}

#[test]
fn poll_advances_sequence() {
    let mut builder = WorldBuilder::<u64>::new();
    let counter = builder.register(K_FLAG, 0);
    let mut poller: MioPoller<u64> = builder.install_driver(installer());
    let mut world = builder.build();
    let driver = poller.driver_mut();
    let token = driver.insert(on_wake_count(counter));
    let waker = mio::Waker::new(driver.poll().registry(), mio::Token(token.0)).unwrap();
    waker.wake().unwrap();
    let seq_before = world.current_sequence();
    poll(&mut poller, &mut world, Some(Duration::from_millis(100))).unwrap();
    assert_eq!(world.current_sequence().0, seq_before.0 + 1);
}

#[test]
fn stale_token_skipped() {
    let mut builder = WorldBuilder::<u64>::new();
    let mut poller: MioPoller<u64> = builder.install_driver(installer());
    let mut world = builder.build();
    let fired = poll(&mut poller, &mut world, Some(Duration::from_millis(0))).unwrap();
    assert_eq!(fired, 0);
}

#[test]
fn custom_capacities() {
    let mut builder = WorldBuilder::<u64>::new();
    let poller: MioPoller<u64> = builder.install_driver(installer().event_capacity(256).handler_capacity(32));
    let _world = builder.build();
    assert!(poller.driver().is_empty());
    assert_eq!(poller.events_capacity(), 256);
}

// -- Own checks: dispatch without the OS ---------------------------------------

#[test]
fn dispatch_skips_unknown_and_repeated_tokens() {
    let mut builder = WorldBuilder::<u64>::new();
    let counter = builder.register(K_FLAG, 0);
    let mut poller: MioPoller<u64> = builder.install_driver(installer());
    let mut world = builder.build();
    let token = poller.driver_mut().insert(on_wake_count(counter));
    // Produce one real event to reuse as the payload.
    let waker = mio::Waker::new(poller.driver().poll().registry(), mio::Token(token.0)).unwrap();
    waker.wake().unwrap();
    let mut events = mio::Events::with_capacity(8);
    poller.driver_mut().poll_mut().poll(&mut events, Some(Duration::from_millis(100))).unwrap();
    let ev = events.iter().next().unwrap().clone();
    let ready = vec![(MioToken(token.0 + 7), ev.clone()), (token, ev.clone()), (token, ev)];
    let seq_before = world.current_sequence();
    let fired = poller.dispatch(&mut world, ready);
    assert_eq!(fired, 1);
    assert_eq!(*world.resource(K_FLAG), 1);
    assert!(!poller.driver().contains(token));
    assert_eq!(world.current_sequence().0, seq_before.0 + 1);
}

#[test]
fn driver_insert_remove_len() {
    let mut poller: MioPoller<u64> = installer().into_poller();
    let mut builder = WorldBuilder::<u64>::new();
    let counter = builder.register(K_FLAG, 0);
    let a = poller.driver_mut().insert(on_wake_count(counter));
    let b = poller.driver_mut().insert(on_wake_count(counter));
    assert_ne!(a, b);
    assert_eq!(poller.driver().len(), 2);
    let _h = poller.driver_mut().remove(a);
    assert_eq!(poller.driver().len(), 1);
    assert!(!poller.driver().contains(a));
    assert!(poller.driver().contains(b));
}

#[test]
fn driver_slots_grow_with_inserts_and_stay_on_remove() {
    let mut builder = WorldBuilder::<u64>::new();
    let flag = builder.register(K_FLAG, 0);
    let mut poller: MioPoller<u64> = builder.install_driver(installer());
    let driver = poller.driver_mut();
    assert_eq!(driver.slots(), 0);
    let t0 = driver.insert(on_wake_set(flag));
    let _t1 = driver.insert(on_wake_set(flag));
    assert_eq!(driver.slots(), 2);
    driver.remove(t0);
    assert_eq!(driver.slots(), 2);
    let t2 = driver.insert(on_wake_set(flag));
    assert_eq!(t2.0, t0.0);
    assert_eq!(driver.slots(), 2);
}
