use nexus_rt::handler::{into_handler, Handler};
use nexus_rt::shutdown::Shutdown;
use nexus_rt::step::read;
use nexus_rt::world::{World, WorldBuilder};

#[test]
fn handle_not_shutdown_by_default() {
    let world = WorldBuilder::<u64>::new().build();
    let handle = world.shutdown_handle();
    assert!(!handle.is_shutdown());
}

#[test]
fn shutdown_param_triggers() {
    let world = WorldBuilder::<u64>::new().build();
    let handle = world.shutdown_handle();
    let shutdown = Shutdown(world.shutdown_flag());
    assert!(!handle.is_shutdown());
    shutdown.trigger();
    assert!(handle.is_shutdown());
    assert!(shutdown.is_shutdown());
}

#[test]
fn handle_can_trigger_shutdown() {
    let world = WorldBuilder::<u64>::new().build();
    let handle = world.shutdown_handle();
    assert!(!handle.is_shutdown());
    handle.shutdown();
    assert!(handle.is_shutdown());
}

#[test]
fn shutdown_in_handler() {
    let mut world = WorldBuilder::<u64>::new().build();
    let handle = world.shutdown_handle();
    let mut handler = into_handler(read(|w: &World<u64>, _event: ()| {
        Shutdown(w.shutdown_flag()).trigger();
    }));
    assert!(!handle.is_shutdown());
    handler.run(&mut world, ());
    assert!(handle.is_shutdown());
}

#[test]
fn handles_share_one_flag() {
    let world = WorldBuilder::<u64>::new().build();
    let a = world.shutdown_handle();
    let b = world.shutdown_handle();
    a.shutdown();
    assert!(b.is_shutdown());
    assert!(b.flag().load(std::sync::atomic::Ordering::Relaxed));
}
