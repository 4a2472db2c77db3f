use nexus_rt::adapt::Cloned;
use nexus_rt::combinator::{Broadcast, FanOut};
use nexus_rt::handler::{into_handler, into_ref_handler, Handler};
use nexus_rt::step::{ref_res_mut, res_mut};
use nexus_rt::world::{ResourceId, WorldBuilder};

// Resources of several types share one world through this enum.
#[derive(Clone, Debug, PartialEq)]
enum R {
    U(u64),
    I(i64),
    F(f64),
}

fn u(r: &R) -> u64 {
    match r {
        R::U(v) => *v,
        _ => panic!("not a u64"),
    }
}
fn i(r: &R) -> i64 {
    match r {
        R::I(v) => *v,
        _ => panic!("not an i64"),
    }
}
fn f(r: &R) -> f64 {
    match r {
        R::F(v) => *v,
        _ => panic!("not an f64"),
    }
}

const K_U64: u64 = 1;
const K_I64: u64 = 2;
const K_F64: u64 = 3;

fn write_u64(id: ResourceId) -> impl nexus_rt::handler::RefHandler<R, u32> {
    into_ref_handler(ref_res_mut(id, |sink: &R, event: &u32| (R::U(u(sink) + *event as u64), ())))
}

fn write_i64(id: ResourceId) -> impl nexus_rt::handler::RefHandler<R, u32> {
    into_ref_handler(ref_res_mut(id, |sink: &R, event: &u32| (R::I(i(sink) + *event as i64 * 2), ())))
}

fn owned_handler(id: ResourceId) -> impl Handler<R, u32> {
    into_handler(res_mut(id, |sink: &R, event: u32| (R::U(u(sink) + event as u64 * 10), ())))
}

// -- FanOut ---------------------------------------------------------------

#[test]
fn fanout_two_way() {
    let mut builder = WorldBuilder::<R>::new();
    let a = builder.register(K_U64, R::U(0));
    let c = builder.register(K_I64, R::I(0));
    let mut world = builder.build();
    let mut fan = FanOut((write_u64(a), write_i64(c)));
    fan.run(&mut world, 5u32);
    assert_eq!(u(world.resource(K_U64)), 5);
    assert_eq!(i(world.resource(K_I64)), 10);
}

#[test]
fn fanout_three_way() {
    let mut builder = WorldBuilder::<R>::new();
    let a = builder.register(K_U64, R::U(0));
    let c = builder.register(K_I64, R::I(0));
    let d = builder.register(K_F64, R::F(0.0));
    let mut world = builder.build();
    let h3 = into_ref_handler(ref_res_mut(d, |sink: &R, event: &u32| (R::F(f(sink) + *event as f64 * 0.5), ())));
    let mut fan = FanOut((write_u64(a), write_i64(c), h3));
    fan.run(&mut world, 10u32);
    assert_eq!(u(world.resource(K_U64)), 10);
    assert_eq!(i(world.resource(K_I64)), 20);
    assert_eq!(f(world.resource(K_F64)), 5.0);
}

#[test]
fn fanout_with_cloned_adapter() {
    let mut builder = WorldBuilder::<R>::new();
    let a = builder.register(K_U64, R::U(0));
    let mut world = builder.build();
    let mut fan = FanOut((write_u64(a), Cloned(owned_handler(a))));
    fan.run(&mut world, 3u32);
    assert_eq!(u(world.resource(K_U64)), 33);
}

#[test]
fn fanout_boxable() {
    let mut builder = WorldBuilder::<R>::new();
    let a = builder.register(K_U64, R::U(0));
    let c = builder.register(K_I64, R::I(0));
    let mut world = builder.build();
    let mut boxed: Box<dyn Handler<R, u32>> = Box::new(FanOut((write_u64(a), write_i64(c))));
    boxed.run(&mut world, 7u32);
    assert_eq!(u(world.resource(K_U64)), 7);
    assert_eq!(i(world.resource(K_I64)), 14);
}

// -- Broadcast ------------------------------------------------------------

#[test]
fn broadcast_dispatch() {
    let mut builder = WorldBuilder::<R>::new();
    let a = builder.register(K_U64, R::U(0));
    let mut world = builder.build();
    let mut broadcast: Broadcast<R, u32> = Broadcast::new();
    broadcast.add(write_u64(a));
    broadcast.add(write_u64(a));
    broadcast.add(write_u64(a));
    broadcast.run(&mut world, 4u32);
    assert_eq!(u(world.resource(K_U64)), 12);
}

#[test]
fn broadcast_empty() {
    let mut builder = WorldBuilder::<R>::new();
    builder.register(K_U64, R::U(0));
    let mut world = builder.build();
    let mut broadcast: Broadcast<R, u32> = Broadcast::new();
    assert!(broadcast.is_empty());
    broadcast.run(&mut world, 1u32);
    assert_eq!(u(world.resource(K_U64)), 0);
}

#[test]
fn broadcast_len() {
    let mut builder = WorldBuilder::<R>::new();
    let a = builder.register(K_U64, R::U(0));
    let mut broadcast: Broadcast<R, u32> = Broadcast::new();
    assert_eq!(broadcast.len(), 0);
    broadcast.add(write_u64(a));
    assert_eq!(broadcast.len(), 1);
    broadcast.add(write_u64(a));
    assert_eq!(broadcast.len(), 2);
}

#[test]
fn broadcast_with_cloned_adapter() {
    let mut builder = WorldBuilder::<R>::new();
    let a = builder.register(K_U64, R::U(0));
    let mut world = builder.build();
    let mut broadcast: Broadcast<R, u32> = Broadcast::new();
    broadcast.add(write_u64(a));
    broadcast.add(Cloned(owned_handler(a)));
    broadcast.run(&mut world, 2u32);
    assert_eq!(u(world.resource(K_U64)), 22);
}

// -- Own checks -----------------------------------------------------------

#[test]
fn fanout_runs_handlers_in_order() {
    // The second handler sees what the first wrote.
    let mut builder = WorldBuilder::<R>::new();
    let a = builder.register(K_U64, R::U(1));
    let mut world = builder.build();
    let double = into_ref_handler(ref_res_mut(a, |sink: &R, _e: &u32| (R::U(u(sink) * 2), ())));
    let mut fan = FanOut((write_u64(a), double));
    fan.run(&mut world, 3u32);
    assert_eq!(u(world.resource(K_U64)), 8);
}
