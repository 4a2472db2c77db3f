use nexus_rt::scheduler::{SchedulerInstaller, SchedulerTick, SCHEDULER_TICK_KEY};
use nexus_rt::step::{pure, res_mut, write_with};
use nexus_rt::system::into_system;
use nexus_rt::world::{Sequence, World, WorldBuilder};

// Resources of several types share one world through this enum.
#[derive(Clone, Debug, PartialEq)]
enum R {
    U(u64),
    B(bool),
    Tick(SchedulerTick),
}

impl From<SchedulerTick> for R {
    fn from(t: SchedulerTick) -> R {
        R::Tick(t)
    }
}

fn u(r: &R) -> u64 {
    match r {
        R::U(v) => *v,
        _ => panic!("not a u64"),
    }
}
fn b(r: &R) -> bool {
    match r {
        R::B(v) => *v,
        _ => panic!("not a bool"),
    }
}
fn tick(r: &R) -> SchedulerTick {
    match r {
        R::Tick(t) => *t,
        _ => panic!("not a tick"),
    }
}

const K_U64: u64 = 1;
const K_BOOL: u64 = 2;

fn increment(v: &R, _u: ()) -> (R, bool) {
    (R::U(u(v) + 1), true)
}

// -- Empty scheduler --------------------------------------------------

#[test]
fn empty_scheduler() {
    let mut builder = WorldBuilder::<R>::new();
    let installer = SchedulerInstaller::<R>::new();
    let mut scheduler = builder.install_driver(installer);
    let mut world = builder.build();
    assert_eq!(scheduler.run(&mut world), 0);
    assert!(scheduler.is_empty());
}

// -- Single root ------------------------------------------------------

#[test]
fn single_root_always_runs() {
    let mut builder = WorldBuilder::<R>::new();
    let v = builder.register(K_U64, R::U(0));
    let mut installer = SchedulerInstaller::<R>::new();
    installer.add(into_system(res_mut(v, increment)));
    let mut scheduler = builder.install_driver(installer);
    let mut world = builder.build();
    assert_eq!(scheduler.run(&mut world), 1);
    assert_eq!(u(world.resource(K_U64)), 1);
}

// -- Linear chain: A → B → C -----------------------------------------

#[test]
fn linear_chain_propagation() {
    let mut builder = WorldBuilder::<R>::new();
    let v = builder.register(K_U64, R::U(0));
    let mut installer = SchedulerInstaller::<R>::new();
    let a = installer.add(into_system(res_mut(v, |val: &R, _u: ()| (R::U(u(val) + 1), u(val) + 1 <= 2))));
    let bb = installer.add(into_system(res_mut(v, |val: &R, _u: ()| (R::U(u(val) + 10), true))));
    let c = installer.add(into_system(res_mut(v, |val: &R, _u: ()| (R::U(u(val) + 100), true))));
    installer.after(bb, a);
    installer.after(c, bb);
    let mut scheduler = builder.install_driver(installer);
    let mut world = builder.build();
    assert_eq!(scheduler.run(&mut world), 3);
    assert_eq!(u(world.resource(K_U64)), 111);
}

// -- Propagation stops ------------------------------------------------

#[test]
fn propagation_stops_on_false() {
    let mut builder = WorldBuilder::<R>::new();
    let v = builder.register(K_U64, R::U(0));
    let mut installer = SchedulerInstaller::<R>::new();
    let a = installer.add(into_system(pure(|_u: ()| false)));
    let bb = installer.add(into_system(res_mut(v, |_val: &R, _u: ()| (R::U(999), true))));
    installer.after(bb, a);
    let mut scheduler = builder.install_driver(installer);
    let mut world = builder.build();
    assert_eq!(scheduler.run(&mut world), 1);
    assert_eq!(u(world.resource(K_U64)), 0);
}

// -- Diamond DAG: A → B, A → C, B → D, C → D -------------------------

#[test]
fn diamond_dag() {
    let mut builder = WorldBuilder::<R>::new();
    let v = builder.register(K_U64, R::U(0));
    let f = builder.register(K_BOOL, R::B(false));
    let mut installer = SchedulerInstaller::<R>::new();
    let a = installer.add(into_system(res_mut(v, increment)));
    let bb = installer.add(into_system(res_mut(v, increment)));
    let c = installer.add(into_system(res_mut(f, |_flag: &R, _u: ()| (R::B(true), true))));
    let d = installer.add(into_system(res_mut(v, increment)));
    installer.after(bb, a);
    installer.after(c, a);
    installer.after(d, bb);
    installer.after(d, c);
    let mut scheduler = builder.install_driver(installer);
    let mut world = builder.build();
    assert_eq!(scheduler.run(&mut world), 4);
    assert!(b(world.resource(K_BOOL)));
    assert_eq!(u(world.resource(K_U64)), 3);
}

// -- Multiple roots ---------------------------------------------------

#[test]
fn multiple_roots() {
    let mut builder = WorldBuilder::<R>::new();
    let v = builder.register(K_U64, R::U(0));
    let mut installer = SchedulerInstaller::<R>::new();
    installer.add(into_system(res_mut(v, increment)));
    installer.add(into_system(res_mut(v, increment)));
    installer.add(into_system(res_mut(v, increment)));
    let mut scheduler = builder.install_driver(installer);
    let mut world = builder.build();
    assert_eq!(scheduler.run(&mut world), 3);
    assert_eq!(u(world.resource(K_U64)), 3);
}

// -- SchedulerTick updated --------------------------------------------

#[test]
fn scheduler_tick_updated() {
    let mut builder = WorldBuilder::<R>::new();
    let mut installer = SchedulerInstaller::<R>::new();
    installer.add(into_system(pure(|_u: ()| -> bool { true })));
    let mut scheduler = builder.install_driver(installer);
    let mut world = builder.build();
    world.next_sequence();
    world.next_sequence();
    scheduler.run(&mut world);
    assert_eq!(tick(world.resource(SCHEDULER_TICK_KEY)).last(), Sequence(2));
}

// -- changed_after integration ----------------------------------------

#[test]
fn changed_after_integration() {
    let mut builder = WorldBuilder::<R>::new();
    let v = builder.register(K_U64, R::U(0));
    let seen = builder.register(K_BOOL, R::B(false));
    builder.ensure(SCHEDULER_TICK_KEY, R::from(SchedulerTick::new()));
    let mut installer = SchedulerInstaller::<R>::new();
    installer.add(into_system(write_with(seen, move |w: &World<R>, _u: ()| {
        let last = tick(w.resource(SCHEDULER_TICK_KEY)).last();
        (R::B(w.changed_after(v, last)), true)
    })));
    let mut scheduler = builder.install_driver(installer);
    let mut world = builder.build();
    scheduler.run(&mut world);
    assert!(!b(world.resource(K_BOOL)));
    world.next_sequence();
    *world.resource_mut(K_U64) = R::U(42);
    scheduler.run(&mut world);
    assert!(b(world.resource(K_BOOL)));
    scheduler.run(&mut world);
    assert!(!b(world.resource(K_BOOL)));
}

// -- Sequence not bumped by scheduler ---------------------------------

#[test]
fn scheduler_does_not_bump_sequence() {
    let mut builder = WorldBuilder::<R>::new();
    let v = builder.register(K_U64, R::U(0));
    let mut installer = SchedulerInstaller::<R>::new();
    installer.add(into_system(res_mut(v, increment)));
    let mut scheduler = builder.install_driver(installer);
    let mut world = builder.build();
    let before = world.current_sequence();
    scheduler.run(&mut world);
    assert_eq!(world.current_sequence(), before);
}

// -- System mutations visible to later systems ------------------------

#[test]
fn mutations_visible_downstream() {
    let mut builder = WorldBuilder::<R>::new();
    let v = builder.register(K_U64, R::U(1));
    let mut installer = SchedulerInstaller::<R>::new();
    let a = installer.add(into_system(res_mut(v, |val: &R, _u: ()| (R::U(u(val) * 2), true))));
    let bb = installer.add(into_system(res_mut(v, |val: &R, _u: ()| (R::U(u(val) * 2), true))));
    installer.after(bb, a);
    let mut scheduler = builder.install_driver(installer);
    let mut world = builder.build();
    scheduler.run(&mut world);
    assert_eq!(u(world.resource(K_U64)), 4);
}

// -- Own checks --------------------------------------------------------

#[test]
fn downstream_added_first_still_runs_after_upstream() {
    // The downstream system is added before its upstream; the pass runs
    // them in dependency order, so the doubling sees the increment.
    let mut builder = WorldBuilder::<R>::new();
    let v = builder.register(K_U64, R::U(1));
    let mut installer = SchedulerInstaller::<R>::new();
    let down = installer.add(into_system(res_mut(v, |val: &R, _u: ()| (R::U(u(val) * 2), true))));
    let up = installer.add(into_system(res_mut(v, |val: &R, _u: ()| (R::U(u(val) + 1), true))));
    installer.before(up, down);
    let mut scheduler = builder.install_driver(installer);
    let mut world = builder.build();
    assert_eq!(scheduler.run(&mut world), 2);
    assert_eq!(u(world.resource(K_U64)), 4);
}

#[test]
fn system_runs_when_any_upstream_is_true() {
    // A system runs when any upstream that ran returned true.
    let mut builder = WorldBuilder::<R>::new();
    let v = builder.register(K_U64, R::U(0));
    let mut installer = SchedulerInstaller::<R>::new();
    let a = installer.add(into_system(pure(|_u: ()| false)));
    let c = installer.add(into_system(pure(|_u: ()| true)));
    let d = installer.add(into_system(res_mut(v, increment)));
    installer.after(d, a);
    installer.after(d, c);
    let mut scheduler = builder.install_driver(installer);
    let mut world = builder.build();
    assert_eq!(scheduler.run(&mut world), 3);
    assert_eq!(u(world.resource(K_U64)), 1);
}

#[test]
fn installability_check_follows_the_edges() {
    let mut installer = SchedulerInstaller::<R>::new();
    let a = installer.add(into_system(pure(|_u: ()| true)));
    let b = installer.add(into_system(pure(|_u: ()| true)));
    assert!(installer.is_installable());
    installer.after(b, a);
    assert!(installer.is_installable());
    installer.after(a, b);
    assert!(!installer.is_installable());
}
