use nexus_rt::handler::into_handler;
use nexus_rt::step::res_mut;
use nexus_rt::testing::TestHarness;
use nexus_rt::world::WorldBuilder;

const K_U64: u64 = 1;

fn accumulate(counter: &u64, event: u64) -> (u64, ()) {
    (*counter + event, ())
}

#[test]
fn dispatch_advances_sequence() {
    let mut builder = WorldBuilder::<u64>::new();
    let c = builder.register(K_U64, 0);
    let mut harness = TestHarness::new(builder);
    let seq_before = harness.world().current_sequence();
    let mut handler = into_handler(res_mut(c, accumulate));
    harness.dispatch(&mut handler, 1u64);
    assert_eq!(harness.world().current_sequence().0, seq_before.0 + 1);
}

#[test]
fn dispatch_runs_handler() {
    let mut builder = WorldBuilder::<u64>::new();
    let c = builder.register(K_U64, 0);
    let mut harness = TestHarness::new(builder);
    let mut handler = into_handler(res_mut(c, accumulate));
    harness.dispatch(&mut handler, 10u64);
    assert_eq!(*harness.world().resource(K_U64), 10);
}

#[test]
fn dispatch_many_sequential() {
    let mut builder = WorldBuilder::<u64>::new();
    let c = builder.register(K_U64, 0);
    let mut harness = TestHarness::new(builder);
    let seq_before = harness.world().current_sequence();
    let mut handler = into_handler(res_mut(c, accumulate));
    harness.dispatch_many(&mut handler, vec![10u64, 5, 3]);
    assert_eq!(*harness.world().resource(K_U64), 18);
    assert_eq!(harness.world().current_sequence().0, seq_before.0 + 3);
}

#[test]
fn world_access() {
    let mut builder = WorldBuilder::<u64>::new();
    builder.register(K_U64, 42);
    let mut harness = TestHarness::new(builder);
    assert_eq!(*harness.world().resource(K_U64), 42);
    *harness.world_mut().resource_mut(K_U64) = 99;
    assert_eq!(*harness.world().resource(K_U64), 99);
}

#[test]
fn dispatch_stamps_written_resource_with_new_sequence() {
    let mut builder = WorldBuilder::<u64>::new();
    let c = builder.register(K_U64, 0);
    let mut harness = TestHarness::new(builder);
    let mut handler = into_handler(res_mut(c, accumulate));
    harness.dispatch(&mut handler, 1u64);
    harness.dispatch(&mut handler, 1u64);
    let id = harness.world().id(K_U64);
    assert_eq!(harness.world().changed_at(id).get(), 2);
    assert!(harness.world().is_changed(id));
}
