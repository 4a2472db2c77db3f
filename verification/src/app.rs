//! Application assembly from plugins: each plugin registers resources
//! and reconciliation systems; building installs the scheduler and
//! freezes the world.
use vstd::prelude::*;
use crate::world::{World, WorldBuilder};
use crate::scheduler::{SchedulerInstaller, SystemScheduler, SchedulerTick, SCHEDULER_TICK_KEY, scheduled};
use crate::world::Sequence;
use vstd::std_specs::convert::FromSpec;
use crate::driver::Installer;
use crate::topo::{is_topo_order, sources_below, in_release_order};

verus! {

/// A unit of setup: registers resources into the world builder and
/// systems into the scheduler.
pub trait Plugin<V> {
    /// What the plugin registers: how the world builder and the scheduler
    /// installer before (`w0`, `s0`) relate to them after (`w1`, `s1`). A
    /// plugin that does not state it promises nothing more than a
    /// well-formed builder.
    open spec fn registers(&self, w0: WorldBuilder<V>, s0: SchedulerInstaller<V>, w1: WorldBuilder<V>, s1: SchedulerInstaller<V>) -> bool {
        true
    }

    /// Register this plugin's resources and systems.
    fn build(&self, world: &mut WorldBuilder<V>, scheduler: &mut SchedulerInstaller<V>)
        requires old(world).wf(),
        ensures
            final(world).wf(),
            self.registers(*old(world), *old(scheduler), *final(world), *final(scheduler));
}

/// An application under assembly.
#[verifier::reject_recursive_types(V)]
pub struct App<V> {
    world: WorldBuilder<V>,
    scheduler: SchedulerInstaller<V>,
}

impl<V> App<V> {
    /// The world builder.
    pub closed spec fn world_spec(&self) -> WorldBuilder<V> {
        self.world
    }

    /// The scheduler installer.
    pub closed spec fn scheduler_spec(&self) -> SchedulerInstaller<V> {
        self.scheduler
    }

    /// An empty application.
    pub fn new() -> (r: App<V>)
        ensures
            r.world_spec().wf(),
            r.world_spec().registry()@.len() == 0,
            r.scheduler_spec().systems_view().len() == 0,
            r.scheduler_spec().edges_view().len() == 0,
    {
        App { world: WorldBuilder::new(), scheduler: SchedulerInstaller::new() }
    }

    /// Run a plugin's setup.
    pub fn add_plugin<P: Plugin<V>>(&mut self, plugin: &P) -> (r: &mut App<V>)
        requires old(self).world_spec().wf(),
        ensures
            *final(self) == *final(r),
            r.world_spec().wf(),
            plugin.registers(old(self).world_spec(), old(self).scheduler_spec(), r.world_spec(), r.scheduler_spec()),
    {
        plugin.build(&mut self.world, &mut self.scheduler);
        self
    }

    /// The world builder, for direct registration.
    pub fn world_mut(&mut self) -> (r: &mut WorldBuilder<V>)
        ensures
            *r == old(self).world_spec(),
            final(self).world_spec() == *final(r),
            final(self).scheduler_spec() == old(self).scheduler_spec(),
    {
        &mut self.world
    }

    /// The scheduler installer, for direct registration.
    pub fn scheduler_mut(&mut self) -> (r: &mut SchedulerInstaller<V>)
        ensures
            *r == old(self).scheduler_spec(),
            final(self).scheduler_spec() == *final(r),
            final(self).world_spec() == old(self).world_spec(),
    {
        &mut self.scheduler
    }

    /// Install the scheduler (registering its tick) and freeze the world.
    pub fn build(self) -> (r: (World<V>, SystemScheduler<V>))
        where V: From<SchedulerTick>,
        requires self.world_spec().wf(), self.scheduler_spec().installable(),
        ensures
            r.1.systems@.len() == self.scheduler_spec().systems_view().len(),
            r.1.tick_id.0 < r.0@.keys.len(),
            is_topo_order(r.1.order@, self.scheduler_spec().systems_view().len(), self.scheduler_spec().edges_view()),
            r.1.order@.subrange(0, sources_below(self.scheduler_spec().systems_view().len(), self.scheduler_spec().edges_view()).len() as int)
                == sources_below(self.scheduler_spec().systems_view().len(), self.scheduler_spec().edges_view()),
            in_release_order(r.1.order@, self.scheduler_spec().edges_view(), sources_below(self.scheduler_spec().systems_view().len(), self.scheduler_spec().edges_view()).len() as int),
            forall|k: int| 0 <= k < r.1.systems@.len() ==> r.1.systems@[k] == self.scheduler_spec().systems_view()[r.1.order@[k] as int],
            scheduled(self.scheduler_spec(), r.1),
            r.0@.seq == 0,
            r.0@.keys[r.1.tick_id.0 as int] == SCHEDULER_TICK_KEY,
            self.world_spec().registry()@.contains(SCHEDULER_TICK_KEY) ==>
                r.0@.keys == self.world_spec().registry()@ && r.0@.values == self.world_spec().values_view(),
            !self.world_spec().registry()@.contains(SCHEDULER_TICK_KEY) ==> {
                &&& r.0@.keys == self.world_spec().registry()@.push(SCHEDULER_TICK_KEY)
                &&& r.0@.values.len() == self.world_spec().values_view().len() + 1
                &&& r.0@.values.take(self.world_spec().values_view().len() as int) == self.world_spec().values_view()
                &&& <V as FromSpec<SchedulerTick>>::obeys_from_spec() ==> r.0@.values.last()
                    == <V as FromSpec<SchedulerTick>>::from_spec(SchedulerTick(Sequence(0)))
            },
    {
        let App { world, scheduler } = self;
        let mut world = world;
        let sched = scheduler.install(&mut world);
        let w = world.build();
        (w, sched)
    }
}

impl<V> Default for App<V> {
    /// An empty application, as [`App::new`].
    fn default() -> (r: App<V>)
        ensures
            r.world_spec().wf(),
            r.world_spec().registry()@.len() == 0,
            r.scheduler_spec().systems_view().len() == 0,
            r.scheduler_spec().edges_view().len() == 0,
    {
        App::new()
    }
}

} // verus!
