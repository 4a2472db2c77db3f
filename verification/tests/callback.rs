use nexus_rt::callback::{ctx_only, ctx_res, ctx_res_mut, ctx_res_res_mut, ctx_write, IntoCallback};
use nexus_rt::handler::{into_handler, Handler};
use nexus_rt::step::res_mut;
use nexus_rt::world::{Sequence, World, WorldBuilder};

#[derive(Clone, Debug, PartialEq)]
struct TimerCtx {
    order_id: u64,
    call_count: u64,
}

// Resources of several types share one world through this enum.
#[derive(Clone, Debug, PartialEq)]
enum R {
    U(u64),
    B(bool),
    Cache(Vec<u64>),
}

fn u(r: &R) -> u64 {
    match r {
        R::U(v) => *v,
        _ => panic!("not a u64"),
    }
}
fn b(r: &R) -> bool {
    match r {
        R::B(v) => *v,
        _ => panic!("not a bool"),
    }
}
fn expired(r: &R) -> Vec<u64> {
    match r {
        R::Cache(v) => v.clone(),
        _ => panic!("not a cache"),
    }
}

const K_U64: u64 = 1;
const K_BOOL: u64 = 2;
const K_CACHE: u64 = 3;

fn ctx_only_handler(ctx: &TimerCtx, _event: u32) -> TimerCtx {
    TimerCtx { order_id: ctx.order_id, call_count: ctx.call_count + 1 }
}

// -- Core dispatch --------------------------------------------------------

#[test]
fn ctx_only_no_params() {
    let mut world = WorldBuilder::<R>::new().build();
    let mut cb = ctx_only(ctx_only_handler).into_callback(TimerCtx { order_id: 1, call_count: 0 });
    cb.run(&mut world, 42u32);
    assert_eq!(cb.ctx.call_count, 1);
}

#[test]
fn ctx_one_res() {
    let mut builder = WorldBuilder::<R>::new();
    let cache = builder.register(K_CACHE, R::Cache(vec![1, 2, 3]));
    let mut world = builder.build();
    let mut cb = ctx_res(cache, |ctx: &TimerCtx, cache: &R, _event: u32| TimerCtx {
        order_id: ctx.order_id,
        call_count: ctx.call_count + expired(cache).len() as u64,
    })
    .into_callback(TimerCtx { order_id: 1, call_count: 0 });
    cb.run(&mut world, 0u32);
    assert_eq!(cb.ctx.call_count, 3);
}

#[test]
fn ctx_one_res_mut() {
    let mut builder = WorldBuilder::<R>::new();
    let cache = builder.register(K_CACHE, R::Cache(vec![]));
    let mut world = builder.build();
    let mut cb = ctx_res_mut(cache, |ctx: &TimerCtx, cache: &R, _event: u32| {
        let mut e = expired(cache);
        e.push(ctx.order_id);
        (TimerCtx { order_id: ctx.order_id, call_count: ctx.call_count + 1 }, R::Cache(e))
    })
    .into_callback(TimerCtx { order_id: 42, call_count: 0 });
    cb.run(&mut world, 0u32);
    assert_eq!(cb.ctx.call_count, 1);
    assert_eq!(expired(world.resource(K_CACHE)), vec![42]);
}

#[test]
fn ctx_two_params() {
    let mut builder = WorldBuilder::<R>::new();
    let counter = builder.register(K_U64, R::U(99));
    let cache = builder.register(K_CACHE, R::Cache(vec![]));
    let mut world = builder.build();
    let mut cb = ctx_res_res_mut(counter, cache, |ctx: &TimerCtx, counter: &R, cache: &R, _event: u32| {
        let mut e = expired(cache);
        e.push(u(counter));
        (TimerCtx { order_id: ctx.order_id, call_count: ctx.call_count + 1 }, R::Cache(e))
    })
    .into_callback(TimerCtx { order_id: 0, call_count: 0 });
    cb.run(&mut world, 0u32);
    assert_eq!(cb.ctx.call_count, 1);
    assert_eq!(expired(world.resource(K_CACHE)), vec![99]);
}

#[test]
fn ctx_three_params() {
    let mut builder = WorldBuilder::<R>::new();
    builder.register(K_U64, R::U(7));
    builder.register(K_BOOL, R::B(true));
    let cache = builder.register(K_CACHE, R::Cache(vec![]));
    let mut world = builder.build();
    let mut cb = ctx_write(cache, |ctx: &TimerCtx, w: &World<R>, _event: u32| {
        let mut e = expired(w.resource(K_CACHE));
        if b(w.resource(K_BOOL)) {
            e.push(u(w.resource(K_U64)));
        }
        (TimerCtx { order_id: ctx.order_id, call_count: ctx.call_count + 1 }, R::Cache(e))
    })
    .into_callback(TimerCtx { order_id: 0, call_count: 0 });
    cb.run(&mut world, 0u32);
    assert_eq!(cb.ctx.call_count, 1);
    assert_eq!(expired(world.resource(K_CACHE)), vec![7]);
}

// -- Context ownership ----------------------------------------------------

#[test]
fn ctx_mutated_persists() {
    let mut world = WorldBuilder::<R>::new().build();
    let mut cb = ctx_only(ctx_only_handler).into_callback(TimerCtx { order_id: 1, call_count: 0 });
    cb.run(&mut world, 0u32);
    cb.run(&mut world, 0u32);
    cb.run(&mut world, 0u32);
    assert_eq!(cb.ctx.call_count, 3);
}

#[test]
fn ctx_accessible_outside_dispatch() {
    let mut world = WorldBuilder::<R>::new().build();
    let mut cb = ctx_only(ctx_only_handler).into_callback(TimerCtx { order_id: 42, call_count: 0 });
    assert_eq!(cb.ctx.order_id, 42);
    assert_eq!(cb.ctx.call_count, 0);
    cb.run(&mut world, 0u32);
    assert_eq!(cb.ctx.call_count, 1);
}

#[test]
fn ctx_mutated_outside_dispatch() {
    let mut world = WorldBuilder::<R>::new().build();
    let mut cb = ctx_only(ctx_only_handler).into_callback(TimerCtx { order_id: 1, call_count: 0 });
    cb.ctx.order_id = 99;
    cb.run(&mut world, 0u32);
    assert_eq!(cb.ctx.order_id, 99);
    assert_eq!(cb.ctx.call_count, 1);
}

// -- Change detection -----------------------------------------------------

#[test]
fn mut_stamps_changed_at() {
    let mut builder = WorldBuilder::<u64>::new();
    let v = builder.register(K_U64, 0);
    let mut world = builder.build();
    let mut cb = ctx_res_mut(v, |ctx: &u64, _val: &u64, _e: ()| (*ctx, 99u64)).into_callback(0u64);
    world.next_sequence();
    let id = world.id(K_U64);
    assert_eq!(world.changed_at(id), Sequence(0));
    cb.run(&mut world, ());
    assert_eq!(world.changed_at(id), Sequence(1));
}

// -- Handler<E> interface -------------------------------------------------

#[test]
fn box_dyn_handler() {
    let mut builder = WorldBuilder::<u64>::new();
    let v = builder.register(K_U64, 0);
    let mut world = builder.build();
    let cb = ctx_res_mut(v, |ctx: &u64, val: &u64, event: u64| (*ctx, *val + event + *ctx)).into_callback(10u64);
    let mut boxed: Box<dyn Handler<u64, u64>> = Box::new(cb);
    boxed.run(&mut world, 5u64);
    assert_eq!(*world.resource(K_U64), 15);
}

#[test]
fn callback_in_vec_dyn() {
    let mut builder = WorldBuilder::<u64>::new();
    let v = builder.register(K_U64, 0);
    let mut world = builder.build();
    let cb_add = ctx_res_mut(v, |ctx: &u64, val: &u64, _e: ()| (*ctx, *val + *ctx)).into_callback(3u64);
    let cb_mul = ctx_res_mut(v, |ctx: &u64, val: &u64, _e: ()| (*ctx, *val * *ctx)).into_callback(2u64);
    let mut handlers: Vec<Box<dyn Handler<u64, ()>>> = vec![Box::new(cb_add), Box::new(cb_mul)];
    for h in &mut handlers {
        h.run(&mut world, ());
    }
    assert_eq!(*world.resource(K_U64), 6);
}

#[test]
fn callback_with_local() {
    let mut builder = WorldBuilder::<u64>::new();
    let v = builder.register(K_U64, 0);
    let mut world = builder.build();
    // The callback-local counter is carried in the context, next to the
    // user's value.
    let mut cb = ctx_res_mut(v, |ctx: &(u64, u64), _val: &u64, _e: ()| ((ctx.0, ctx.1 + 1), ctx.1 + 1))
        .into_callback((0u64, 0u64));
    cb.run(&mut world, ());
    cb.run(&mut world, ());
    cb.run(&mut world, ());
    assert_eq!(*world.resource(K_U64), 3);
}

// -- Integration ----------------------------------------------------------

#[test]
fn callback_interop_with_handler() {
    let mut builder = WorldBuilder::<u64>::new();
    let v = builder.register(K_U64, 0);
    let mut world = builder.build();
    let sys = into_handler(res_mut(v, |val: &u64, event: u64| (*val + event, ())));
    let cb = ctx_res_mut(v, |ctx: &u64, val: &u64, _e: u64| (*ctx, *val * *ctx)).into_callback(3u64);
    let mut handlers: Vec<Box<dyn Handler<u64, u64>>> = vec![Box::new(sys), Box::new(cb)];
    for h in &mut handlers {
        h.run(&mut world, 5u64);
    }
    assert_eq!(*world.resource(K_U64), 15);
}

#[test]
fn callback_name_is_default() {
    let cb = ctx_only(ctx_only_handler).into_callback(TimerCtx { order_id: 0, call_count: 0 });
    assert_eq!(Handler::<R, u32>::name(&cb), "callback");
}
