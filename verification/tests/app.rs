use nexus_rt::app::{App, Plugin};
use nexus_rt::scheduler::{SchedulerInstaller, SchedulerTick, SCHEDULER_TICK_KEY};
use nexus_rt::step::res_mut;
use nexus_rt::system::into_void_system;
use nexus_rt::world::WorldBuilder;

// The execution log and the scheduler tick share one world.
#[derive(Clone, Debug, PartialEq)]
enum R {
    Log(Vec<u64>),
    Tick(SchedulerTick),
}

impl From<SchedulerTick> for R {
    fn from(t: SchedulerTick) -> R {
        R::Tick(t)
    }
}

fn log(r: &R) -> Vec<u64> {
    match r {
        R::Log(v) => v.clone(),
        _ => panic!("not the log"),
    }
}

const K_LOG: u64 = 1;

fn push(entry: u64) -> impl Fn(&R, ()) -> (R, ()) {
    move |l: &R, _u: ()| {
        let mut v = log(l);
        v.push(entry);
        (R::Log(v), ())
    }
}

struct TestPlugin;

impl Plugin<R> for TestPlugin {
    fn build(&self, world: &mut WorldBuilder<R>, scheduler: &mut SchedulerInstaller<R>) {
        let id = world.ensure(K_LOG, R::Log(Vec::new()));
        scheduler.add(into_void_system(res_mut(id, push(0))));
    }
}

struct PluginB;

impl Plugin<R> for PluginB {
    fn build(&self, world: &mut WorldBuilder<R>, scheduler: &mut SchedulerInstaller<R>) {
        let id = world.ensure(K_LOG, R::Log(Vec::new()));
        scheduler.add(into_void_system(res_mut(id, push(1))));
    }
}

#[test]
fn plugin_registers_resources_and_systems() {
    let mut app = App::<R>::new();
    app.add_plugin(&TestPlugin);
    let (mut world, mut scheduler) = app.build();
    scheduler.run(&mut world);
    assert_eq!(log(world.resource(K_LOG)), vec![0]);
}

#[test]
fn app_build_produces_working_world() {
    let mut app = App::<R>::new();
    app.add_plugin(&TestPlugin);
    let (world, _scheduler) = app.build();
    assert!(world.contains(K_LOG));
    assert!(world.contains(SCHEDULER_TICK_KEY));
}

#[test]
fn multiple_plugins_compose() {
    let mut app = App::<R>::new();
    app.add_plugin(&TestPlugin);
    app.add_plugin(&PluginB);
    let (mut world, mut scheduler) = app.build();
    scheduler.run(&mut world);
    assert_eq!(log(world.resource(K_LOG)), vec![0, 1]);
}

#[test]
fn plugin_ordering_across_plugins() {
    let mut app = App::<R>::new();
    app.add_plugin(&TestPlugin);
    app.add_plugin(&PluginB);
    let (mut world, mut scheduler) = app.build();
    scheduler.run(&mut world);
    assert_eq!(log(world.resource(K_LOG)), vec![0, 1]);
}

#[test]
fn default_app_is_empty() {
    let app = App::<R>::default();
    let (world, scheduler) = app.build();
    assert_eq!(scheduler.len(), 0);
    assert!(world.contains(SCHEDULER_TICK_KEY));
}
