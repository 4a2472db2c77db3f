use nexus_rt::combinator::{Broadcast, FanOut};
use nexus_rt::handler::{into_ref_handler, Handler};
use nexus_rt::pipeline::{resolve_step, splat2, splat3, splat4, splat5, PipelineStart};
use nexus_rt::step::{pure, ref_pure, ref_res, ref_res_mut, res, res2, res_mut, write_with};
use nexus_rt::world::{World, WorldBuilder};

// Resources of several types share one world through this enum.
#[derive(Clone, Debug, PartialEq)]
enum R {
    U(u64),
    I(i64),
    N(u32),
    B(bool),
    S(String),
    L(Vec<u64>),
}

fn u(r: &R) -> u64 {
    match r {
        R::U(v) => *v,
        _ => panic!("not a u64"),
    }
}
fn i(r: &R) -> i64 {
    match r {
        R::I(v) => *v,
        _ => panic!("not an i64"),
    }
}
fn n(r: &R) -> u32 {
    match r {
        R::N(v) => *v,
        _ => panic!("not a u32"),
    }
}
fn b(r: &R) -> bool {
    match r {
        R::B(v) => *v,
        _ => panic!("not a bool"),
    }
}
fn s(r: &R) -> String {
    match r {
        R::S(v) => v.clone(),
        _ => panic!("not a string"),
    }
}
fn l(r: &R) -> Vec<u64> {
    match r {
        R::L(v) => v.clone(),
        _ => panic!("not a list"),
    }
}

const K_U64: u64 = 1;
const K_BOOL: u64 = 2;
const K_STR: u64 = 3;
const K_I64: u64 = 4;
const K_U32: u64 = 5;
const K_LIST: u64 = 6;

// =========================================================================
// Core dispatch
// =========================================================================

#[test]
fn step_pure_transform() {
    let mut world = WorldBuilder::<u64>::new().build();
    let mut p = PipelineStart::<u64, u32>::new().then_step(pure(|x: u32| x as u64 * 2));
    assert_eq!(p.run(&mut world, 5), 10u64);
}

#[test]
fn step_one_res() {
    let mut wb = WorldBuilder::<u64>::new();
    let f = wb.register(K_U64, 10);
    let mut world = wb.build();
    let mut p = PipelineStart::<u64, u32>::new().then_step(res(f, |factor: &u64, x: u32| *factor * x as u64));
    assert_eq!(p.run(&mut world, 5), 50);
}

#[test]
fn step_one_res_mut() {
    let mut wb = WorldBuilder::<u64>::new();
    let t = wb.register(K_U64, 0);
    let mut world = wb.build();
    let mut p = PipelineStart::<u64, u32>::new().then_step(res_mut(t, |total: &u64, x: u32| (*total + x as u64, ())));
    p.run(&mut world, 10);
    p.run(&mut world, 5);
    assert_eq!(*world.resource(K_U64), 15);
}

#[test]
fn step_two_params() {
    let mut wb = WorldBuilder::<R>::new();
    let f = wb.register(K_U64, R::U(10));
    let g = wb.register(K_BOOL, R::B(true));
    let mut world = wb.build();
    let mut p = PipelineStart::<R, u32>::new().then_step(res2(f, g, |factor: &R, flag: &R, x: u32| {
        if b(flag) { u(factor) * x as u64 } else { 0 }
    }));
    assert_eq!(p.run(&mut world, 5), 50);
}

#[test]
fn step_chain_two() {
    let mut wb = WorldBuilder::<u64>::new();
    let f = wb.register(K_U64, 2);
    let mut world = wb.build();
    let mut p = PipelineStart::<u64, u32>::new()
        .then_step(res(f, |factor: &u64, x: u32| *factor * x as u64))
        .then_step(pure(|val: u64| val + 1));
    assert_eq!(p.run(&mut world, 5), 11);
}

// =========================================================================
// Option combinators
// =========================================================================

#[test]
fn option_map_on_some() {
    let mut wb = WorldBuilder::<u64>::new();
    let f = wb.register(K_U64, 10);
    let mut world = wb.build();
    let mut p = PipelineStart::<u64, u32>::new()
        .then_step(pure(|x: u32| -> Option<u32> { Some(x) }))
        .map(res(f, |factor: &u64, x: u32| *factor + x as u64));
    assert_eq!(p.run(&mut world, 5), Some(15));
}

#[test]
fn option_map_skips_none() {
    let mut wb = WorldBuilder::<bool>::new();
    let flag = wb.register(K_BOOL, false);
    let mut world = wb.build();
    let mut p = PipelineStart::<bool, u32>::new()
        .then_step(pure(|_x: u32| -> Option<u32> { None }))
        .map(res_mut(flag, |_f: &bool, _x: u32| (true, 0u32)));
    assert_eq!(p.run(&mut world, 5), None);
    assert!(!*world.resource(K_BOOL));
}

#[test]
fn option_and_then_chains() {
    let mut wb = WorldBuilder::<u64>::new();
    let m = wb.register(K_U64, 10);
    let mut world = wb.build();
    let mut p = PipelineStart::<u64, u32>::new()
        .then_step(pure(|x: u32| Some(x)))
        .and_then(res(m, |min: &u64, x: u32| {
            let val = x as u64;
            if val > *min { Some(val) } else { None }
        }));
    assert_eq!(p.run(&mut world, 20), Some(20));
}

#[test]
fn option_and_then_short_circuits() {
    let mut wb = WorldBuilder::<u64>::new();
    let m = wb.register(K_U64, 10);
    let mut world = wb.build();
    let mut p = PipelineStart::<u64, u32>::new()
        .then_step(pure(|x: u32| Some(x)))
        .and_then(res(m, |min: &u64, x: u32| {
            let val = x as u64;
            if val > *min { Some(val) } else { None }
        }));
    assert_eq!(p.run(&mut world, 5), None);
}

#[test]
fn option_on_none_fires() {
    let mut wb = WorldBuilder::<bool>::new();
    let flag = wb.register(K_BOOL, false);
    let mut world = wb.build();
    let mut p = PipelineStart::<bool, u32>::new()
        .then_step(pure(|_x: u32| -> Option<u32> { None }))
        .on_none(res_mut(flag, |_f: &bool, _u: ()| (true, ())));
    p.run(&mut world, 0);
    assert!(*world.resource(K_BOOL));
}

#[test]
fn option_filter_keeps() {
    let mut world = WorldBuilder::<u64>::new().build();
    let mut p = PipelineStart::<u64, u32>::new()
        .then_step(pure(|x: u32| Some(x)))
        .filter(ref_pure(|x: &u32| *x > 3));
    assert_eq!(p.run(&mut world, 5), Some(5));
}

#[test]
fn option_filter_drops() {
    let mut world = WorldBuilder::<u64>::new().build();
    let mut p = PipelineStart::<u64, u32>::new()
        .then_step(pure(|x: u32| Some(x)))
        .filter(ref_pure(|x: &u32| *x > 10));
    assert_eq!(p.run(&mut world, 5), None);
}

// =========================================================================
// Result combinators
// =========================================================================

#[test]
fn result_map_on_ok() {
    let mut wb = WorldBuilder::<u64>::new();
    let f = wb.register(K_U64, 10);
    let mut world = wb.build();
    let mut p = PipelineStart::<u64, u32>::new()
        .then_step(pure(|x: u32| -> Result<u32, String> { Ok(x) }))
        .map(res(f, |factor: &u64, x: u32| *factor + x as u64));
    assert_eq!(p.run(&mut world, 5), Ok(15));
}

#[test]
fn result_map_skips_err() {
    let mut wb = WorldBuilder::<bool>::new();
    let flag = wb.register(K_BOOL, false);
    let mut world = wb.build();
    let mut p = PipelineStart::<bool, u32>::new()
        .then_step(pure(|_x: u32| -> Result<u32, String> { Err("fail".into()) }))
        .map(res_mut(flag, |_f: &bool, _x: u32| (true, 0u32)));
    assert!(p.run(&mut world, 5).is_err());
    assert!(!*world.resource(K_BOOL));
}

#[test]
fn result_catch_handles_error() {
    let mut wb = WorldBuilder::<String>::new();
    let log = wb.register(K_STR, String::new());
    let mut world = wb.build();
    let mut p = PipelineStart::<String, u32>::new()
        .then_step(pure(|_x: u32| -> Result<u32, String> { Err("caught".into()) }))
        .catch(res_mut(log, |_old: &String, err: String| (err, ())));
    assert_eq!(p.run(&mut world, 0), None);
    assert_eq!(world.resource(K_STR).as_str(), "caught");
}

#[test]
fn result_catch_passes_ok() {
    let mut wb = WorldBuilder::<String>::new();
    let log = wb.register(K_STR, String::new());
    let mut world = wb.build();
    let mut p = PipelineStart::<String, u32>::new()
        .then_step(pure(|x: u32| -> Result<u32, String> { Ok(x) }))
        .catch(res_mut(log, |_old: &String, err: String| (err, ())));
    assert_eq!(p.run(&mut world, 5), Some(5));
    assert!(world.resource(K_STR).is_empty());
}

// =========================================================================
// Build + Handler
// =========================================================================

#[test]
fn build_produces_handler() {
    let mut wb = WorldBuilder::<u64>::new();
    let t = wb.register(K_U64, 0);
    let mut world = wb.build();
    let mut pipeline = PipelineStart::<u64, u32>::new()
        .then_step(res_mut(t, |total: &u64, x: u32| (*total + x as u64, ())))
        .build();
    pipeline.run(&mut world, 10);
    pipeline.run(&mut world, 5);
    assert_eq!(*world.resource(K_U64), 15);
}

#[test]
fn run_returns_output() {
    let mut wb = WorldBuilder::<u64>::new();
    let f = wb.register(K_U64, 3);
    let mut world = wb.build();
    let mut p = PipelineStart::<u64, u32>::new().then_step(res(f, |factor: &u64, x: u32| *factor * x as u64));
    let result: u64 = p.run(&mut world, 7);
    assert_eq!(result, 21);
}

#[test]
fn local_in_step() {
    let mut wb = WorldBuilder::<u64>::new();
    let t = wb.register(K_U64, 0);
    let mut world = wb.build();
    // The step-local counter is the scan state.
    let mut p = PipelineStart::<u64, u32>::new()
        .scan(0u64, |count: &u64, _x: u32| (*count + 1, *count + 1))
        .then_step(res_mut(t, |_total: &u64, count: u64| (count, ())));
    p.run(&mut world, 0);
    p.run(&mut world, 0);
    p.run(&mut world, 0);
    assert_eq!(*world.resource(K_U64), 3);
}

// =========================================================================
// Option combinators (extended)
// =========================================================================

#[test]
fn option_unwrap_or_some() {
    let mut world = WorldBuilder::<u64>::new().build();
    let mut p = PipelineStart::<u64, u32>::new()
        .then_step(pure(|x: u32| -> Option<u32> { Some(x) }))
        .unwrap_or(99);
    assert_eq!(p.run(&mut world, 5), 5);
}

#[test]
fn option_unwrap_or_none() {
    let mut world = WorldBuilder::<u64>::new().build();
    let mut p = PipelineStart::<u64, u32>::new()
        .then_step(pure(|_x: u32| -> Option<u32> { None }))
        .unwrap_or(99);
    assert_eq!(p.run(&mut world, 5), 99);
}

#[test]
fn option_unwrap_or_else() {
    let mut world = WorldBuilder::<u64>::new().build();
    let mut p = PipelineStart::<u64, u32>::new()
        .then_step(pure(|_x: u32| -> Option<u32> { None }))
        .unwrap_or_else(pure(|_u: ()| 42u32));
    assert_eq!(p.run(&mut world, 0), 42);
}

#[test]
fn option_ok_or() {
    let mut world = WorldBuilder::<u64>::new().build();
    let mut p = PipelineStart::<u64, u32>::new()
        .then_step(pure(|_x: u32| -> Option<u32> { None }))
        .ok_or("missing");
    assert_eq!(p.run(&mut world, 0), Err("missing"));
}

#[test]
fn option_ok_or_some() {
    let mut world = WorldBuilder::<u64>::new().build();
    let mut p = PipelineStart::<u64, u32>::new()
        .then_step(pure(|x: u32| -> Option<u32> { Some(x) }))
        .ok_or("missing");
    assert_eq!(p.run(&mut world, 7), Ok(7));
}

#[test]
fn option_ok_or_else() {
    let mut world = WorldBuilder::<u64>::new().build();
    let mut p = PipelineStart::<u64, u32>::new()
        .then_step(pure(|_x: u32| -> Option<u32> { None }))
        .ok_or_else(pure(|_u: ()| "computed"));
    assert_eq!(p.run(&mut world, 0), Err("computed"));
}

#[test]
fn option_inspect_passes_through() {
    let mut wb = WorldBuilder::<u64>::new();
    wb.register(K_U64, 0);
    let mut world = wb.build();
    let mut p = PipelineStart::<u64, u32>::new()
        .then_step(pure(|x: u32| -> Option<u32> { Some(x) }))
        .inspect(ref_pure(|_val: &u32| ()));
    assert_eq!(p.run(&mut world, 10), Some(10));
}

// =========================================================================
// Result combinators (extended)
// =========================================================================

#[test]
fn result_map_err() {
    let mut world = WorldBuilder::<u64>::new().build();
    let mut p = PipelineStart::<u64, u32>::new()
        .then_step(pure(|_x: u32| -> Result<u32, i32> { Err(-1) }))
        .map_err(pure(|e: i32| e.to_string()));
    assert_eq!(p.run(&mut world, 0), Err("-1".to_string()));
}

#[test]
fn result_map_err_ok_passthrough() {
    let mut world = WorldBuilder::<u64>::new().build();
    let mut p = PipelineStart::<u64, u32>::new()
        .then_step(pure(|x: u32| -> Result<u32, i32> { Ok(x) }))
        .map_err(pure(|e: i32| e.to_string()));
    assert_eq!(p.run(&mut world, 5), Ok(5));
}

#[test]
fn result_or_else() {
    let mut world = WorldBuilder::<u64>::new().build();
    let mut p = PipelineStart::<u64, u32>::new()
        .then_step(pure(|_x: u32| -> Result<u32, &str> { Err("fail") }))
        .or_else(pure(|_e: &str| Ok::<u32, &str>(42)));
    assert_eq!(p.run(&mut world, 0), Ok(42));
}

#[test]
fn result_inspect_passes_through() {
    let mut world = WorldBuilder::<u64>::new().build();
    let mut p = PipelineStart::<u64, u32>::new()
        .then_step(pure(|x: u32| -> Result<u32, &str> { Ok(x) }))
        .inspect(ref_pure(|_val: &u32| ()));
    assert_eq!(p.run(&mut world, 7), Ok(7));
}

#[test]
fn result_inspect_err_passes_through() {
    let mut world = WorldBuilder::<u64>::new().build();
    let mut p = PipelineStart::<u64, u32>::new()
        .then_step(pure(|_x: u32| -> Result<u32, &str> { Err("bad") }))
        .inspect_err(ref_pure(|_e: &&str| ()));
    assert_eq!(p.run(&mut world, 0), Err("bad"));
}

#[test]
fn result_ok_converts() {
    let mut world = WorldBuilder::<u64>::new().build();
    let mut p = PipelineStart::<u64, u32>::new()
        .then_step(pure(|x: u32| -> Result<u32, &str> { Ok(x) }))
        .ok();
    assert_eq!(p.run(&mut world, 5), Some(5));
}

#[test]
fn result_ok_drops_err() {
    let mut world = WorldBuilder::<u64>::new().build();
    let mut p = PipelineStart::<u64, u32>::new()
        .then_step(pure(|_x: u32| -> Result<u32, &str> { Err("gone") }))
        .ok();
    assert_eq!(p.run(&mut world, 0), None);
}

#[test]
fn result_unwrap_or() {
    let mut world = WorldBuilder::<u64>::new().build();
    let mut p = PipelineStart::<u64, u32>::new()
        .then_step(pure(|_x: u32| -> Result<u32, &str> { Err("x") }))
        .unwrap_or(99);
    assert_eq!(p.run(&mut world, 0), 99);
}

#[test]
fn result_unwrap_or_else() {
    let mut world = WorldBuilder::<u64>::new().build();
    let mut p = PipelineStart::<u64, u32>::new()
        .then_step(pure(|_x: u32| -> Result<u32, i32> { Err(-5) }))
        .unwrap_or_else(pure(|e: i32| e.unsigned_abs()));
    assert_eq!(p.run(&mut world, 0), 5);
}

// =========================================================================
// Batch pipeline
// =========================================================================

#[test]
fn batch_accumulates() {
    let mut wb = WorldBuilder::<u64>::new();
    let sum = wb.register(K_U64, 0);
    let mut world = wb.build();
    let mut batch = PipelineStart::<u64, u32>::new()
        .then_step(res_mut(sum, |s: &u64, x: u32| (*s + x as u64, ())))
        .build_batch(16);
    batch.input_mut().extend_from_slice(&[1, 2, 3, 4, 5]);
    batch.run(&mut world);
    assert_eq!(*world.resource(K_U64), 15);
    assert!(batch.input().is_empty());
}

#[test]
fn batch_retains_allocation() {
    let mut world = WorldBuilder::<u64>::new().build();
    let mut batch = PipelineStart::<u64, u32>::new()
        .then_step(pure(|_x: u32| ()))
        .build_batch(64);
    batch.input_mut().extend_from_slice(&[1, 2, 3]);
    batch.run(&mut world);
    assert!(batch.input().is_empty());
    assert!(batch.input_mut().capacity() >= 64);
}

#[test]
fn batch_empty_is_noop() {
    let mut wb = WorldBuilder::<u64>::new();
    let sum = wb.register(K_U64, 0);
    let mut world = wb.build();
    let mut batch = PipelineStart::<u64, u32>::new()
        .then_step(res_mut(sum, |s: &u64, x: u32| (*s + x as u64, ())))
        .build_batch(16);
    batch.run(&mut world);
    assert_eq!(*world.resource(K_U64), 0);
}

fn validate(x: u32) -> Result<u32, &'static str> {
    if x > 0 { Ok(x) } else { Err("zero") }
}

#[test]
fn batch_catch_continues_on_error() {
    let mut wb = WorldBuilder::<R>::new();
    let sum = wb.register(K_U64, R::U(0));
    let errs = wb.register(K_U32, R::N(0));
    let mut world = wb.build();
    let mut batch = PipelineStart::<R, u32>::new()
        .then_step(pure(validate))
        .catch(res_mut(errs, |e: &R, _err: &'static str| (R::N(n(e) + 1), ())))
        .map(res_mut(sum, |s: &R, x: u32| (R::U(u(s) + x as u64), ())))
        .build_batch(16);
    batch.input_mut().extend_from_slice(&[1, 0, 2, 0, 3]);
    batch.run(&mut world);
    assert_eq!(u(world.resource(K_U64)), 6);
    assert_eq!(n(world.resource(K_U32)), 2);
}

#[test]
fn batch_filter_skips_items() {
    let mut wb = WorldBuilder::<u64>::new();
    let sum = wb.register(K_U64, 0);
    let mut world = wb.build();
    let mut batch = PipelineStart::<u64, u32>::new()
        .then_step(pure(|x: u32| -> Option<u32> { if x > 2 { Some(x) } else { None } }))
        .map(res_mut(sum, |s: &u64, x: u32| (*s + x as u64, ())))
        .build_batch(16);
    batch.input_mut().extend_from_slice(&[1, 2, 3, 4, 5]);
    batch.run(&mut world);
    assert_eq!(*world.resource(K_U64), 12);
}

#[test]
fn batch_multiple_runs_accumulate() {
    let mut wb = WorldBuilder::<u64>::new();
    let sum = wb.register(K_U64, 0);
    let mut world = wb.build();
    let mut batch = PipelineStart::<u64, u32>::new()
        .then_step(res_mut(sum, |s: &u64, x: u32| (*s + x as u64, ())))
        .build_batch(16);
    batch.input_mut().extend_from_slice(&[1, 2, 3]);
    batch.run(&mut world);
    assert_eq!(*world.resource(K_U64), 6);
    batch.input_mut().extend_from_slice(&[4, 5]);
    batch.run(&mut world);
    assert_eq!(*world.resource(K_U64), 15);
}

#[test]
fn batch_with_world_access() {
    let mut wb = WorldBuilder::<R>::new();
    wb.register(K_U64, R::U(10));
    let out = wb.register(K_LIST, R::L(Vec::new()));
    let mut world = wb.build();
    let mut batch = PipelineStart::<R, u32>::new()
        .then_step(write_with(out, |w: &World<R>, x: u32| {
            let factor = u(w.resource(K_U64));
            let mut list = l(w.resource(K_LIST));
            list.push(x as u64 * factor);
            (R::L(list), ())
        }))
        .build_batch(16);
    batch.input_mut().extend_from_slice(&[1, 2, 3]);
    batch.run(&mut world);
    assert_eq!(l(world.resource(K_LIST)).as_slice(), &[10, 20, 30]);
}

// =========================================================================
// Dispatch combinator
// =========================================================================

#[test]
fn dispatch_to_handler() {
    let mut wb = WorldBuilder::<u64>::new();
    let o = wb.register(K_U64, 0);
    let mut world = wb.build();
    let handler = PipelineStart::<u64, u32>::new()
        .then_step(res_mut(o, |_out: &u64, val: u32| (val as u64, ())))
        .build();
    let mut p = PipelineStart::<u64, u32>::new()
        .then_step(pure(|x: u32| x * 2))
        .dispatch(handler)
        .build();
    p.run(&mut world, 5);
    assert_eq!(*world.resource(K_U64), 10);
}

#[test]
fn dispatch_to_fanout() {
    let mut wb = WorldBuilder::<R>::new();
    let a = wb.register(K_U64, R::U(0));
    let c = wb.register(K_I64, R::I(0));
    let mut world = wb.build();
    let h1 = into_ref_handler(ref_res_mut(a, |sink: &R, event: &u32| (R::U(u(sink) + *event as u64), ())));
    let h2 = into_ref_handler(ref_res_mut(c, |sink: &R, event: &u32| (R::I(i(sink) + *event as i64), ())));
    let fan = FanOut((h1, h2));
    let mut p = PipelineStart::<R, u32>::new()
        .then_step(pure(|x: u32| x * 2))
        .dispatch(fan)
        .build();
    p.run(&mut world, 5);
    assert_eq!(u(world.resource(K_U64)), 10);
    assert_eq!(i(world.resource(K_I64)), 10);
}

#[test]
fn dispatch_to_broadcast() {
    let mut wb = WorldBuilder::<u64>::new();
    let a = wb.register(K_U64, 0);
    let mut world = wb.build();
    let mut broadcast = Broadcast::<u64, u32>::new();
    broadcast.add(into_ref_handler(ref_res_mut(a, |sink: &u64, event: &u32| (*sink + *event as u64, ()))));
    broadcast.add(into_ref_handler(ref_res_mut(a, |sink: &u64, event: &u32| (*sink + *event as u64, ()))));
    let mut p = PipelineStart::<u64, u32>::new()
        .then_step(pure(|x: u32| x + 1))
        .dispatch(broadcast)
        .build();
    p.run(&mut world, 4);
    assert_eq!(*world.resource(K_U64), 10);
}

#[test]
fn dispatch_build_produces_handler() {
    let mut wb = WorldBuilder::<u64>::new();
    let o = wb.register(K_U64, 0);
    let mut world = wb.build();
    let inner = PipelineStart::<u64, u32>::new()
        .then_step(res_mut(o, |_out: &u64, val: u32| (val as u64, ())))
        .build();
    let mut pipeline: Box<dyn Handler<u64, u32>> = Box::new(
        PipelineStart::<u64, u32>::new()
            .then_step(pure(|x: u32| x + 1))
            .dispatch(inner)
            .build(),
    );
    pipeline.run(&mut world, 9);
    assert_eq!(*world.resource(K_U64), 10);
}

// -- Guard combinator --

#[test]
fn pipeline_guard_keeps() {
    let mut wb = WorldBuilder::<u64>::new();
    let o = wb.register(K_U64, 0);
    let mut world = wb.build();
    let mut p = PipelineStart::<u64, u32>::new()
        .then_step(pure(|x: u32| x as u64))
        .guard(ref_pure(|v: &u64| *v > 3))
        .then_step(res_mut(o, |_out: &u64, val: Option<u64>| (val.unwrap_or(0), ())));
    p.run(&mut world, 5u32);
    assert_eq!(*world.resource(K_U64), 5);
}

#[test]
fn pipeline_guard_drops() {
    let mut wb = WorldBuilder::<u64>::new();
    let o = wb.register(K_U64, 0);
    let mut world = wb.build();
    let mut p = PipelineStart::<u64, u32>::new()
        .then_step(pure(|x: u32| x as u64))
        .guard(ref_pure(|v: &u64| *v > 10))
        .then_step(res_mut(o, |_out: &u64, val: Option<u64>| (val.unwrap_or(999), ())));
    p.run(&mut world, 5u32);
    assert_eq!(*world.resource(K_U64), 999);
}

// -- Tap combinator --

#[test]
fn pipeline_tap_observes_without_changing() {
    let mut wb = WorldBuilder::<R>::new();
    let o = wb.register(K_U64, R::U(0));
    let flag = wb.register(K_BOOL, R::B(false));
    let mut world = wb.build();
    let mut p = PipelineStart::<R, u32>::new()
        .then_step(pure(|x: u32| x as u64 * 2))
        .tap(ref_res_mut(flag, |_f: &R, val: &u64| (R::B(*val == 10), ())))
        .then_step(res_mut(o, |_out: &R, val: u64| (R::U(val), ())));
    p.run(&mut world, 5u32);
    assert_eq!(u(world.resource(K_U64)), 10);
    assert!(b(world.resource(K_BOOL)));
}

// -- Route combinator --

#[test]
fn pipeline_route_true_arm() {
    let mut wb = WorldBuilder::<u64>::new();
    let o = wb.register(K_U64, 0);
    let mut world = wb.build();
    let mut p = PipelineStart::<u64, u32>::new()
        .then_step(pure(|x: u32| x as u64))
        .route(ref_pure(|v: &u64| *v > 3), pure(|x: u64| x * 2), pure(|x: u64| x * 3))
        .then_step(res_mut(o, |_out: &u64, val: u64| (val, ())));
    p.run(&mut world, 5u32);
    assert_eq!(*world.resource(K_U64), 10);
}

#[test]
fn pipeline_route_false_arm() {
    let mut wb = WorldBuilder::<u64>::new();
    let o = wb.register(K_U64, 0);
    let mut world = wb.build();
    let mut p = PipelineStart::<u64, u32>::new()
        .then_step(pure(|x: u32| x as u64))
        .route(ref_pure(|v: &u64| *v > 10), pure(|x: u64| x * 2), pure(|x: u64| x * 3))
        .then_step(res_mut(o, |_out: &u64, val: u64| (val, ())));
    p.run(&mut world, 5u32);
    assert_eq!(*world.resource(K_U64), 15);
}

#[test]
fn pipeline_route_nested() {
    let mut wb = WorldBuilder::<u64>::new();
    let o = wb.register(K_U64, 0);
    let mut world = wb.build();
    let outer_f = PipelineStart::<u64, u64>::new()
        .then_step(pure(|x: u64| x))
        .route(ref_pure(|v: &u64| *v < 10), pure(|x: u64| x + 200), pure(|x: u64| x + 300))
        .chain;
    let mut p = PipelineStart::<u64, u32>::new()
        .then_step(pure(|x: u32| x as u64))
        .route(ref_pure(|v: &u64| *v < 5), pure(|x: u64| x + 100), outer_f)
        .then_step(res_mut(o, |_out: &u64, val: u64| (val, ())));
    p.run(&mut world, 3u32);
    assert_eq!(*world.resource(K_U64), 103);
    p.run(&mut world, 7u32);
    assert_eq!(*world.resource(K_U64), 207);
    p.run(&mut world, 15u32);
    assert_eq!(*world.resource(K_U64), 315);
}

// -- Tee combinator --

#[test]
fn pipeline_tee_side_effect_chain() {
    let mut wb = WorldBuilder::<R>::new();
    let o = wb.register(K_U64, R::U(0));
    let c = wb.register(K_U32, R::N(0));
    let mut world = wb.build();
    let mut p = PipelineStart::<R, u32>::new()
        .then_step(pure(|x: u32| x as u64 * 2))
        .tee(ref_res_mut(c, |counter: &R, _val: &u64| (R::N(n(counter) + 1), ())))
        .then_step(res_mut(o, |_out: &R, val: u64| (R::U(val), ())));
    p.run(&mut world, 5u32);
    assert_eq!(u(world.resource(K_U64)), 10);
    assert_eq!(n(world.resource(K_U32)), 1);
    p.run(&mut world, 7u32);
    assert_eq!(u(world.resource(K_U64)), 14);
    assert_eq!(n(world.resource(K_U32)), 2);
}

// -- Dedup combinator --

#[test]
fn pipeline_dedup_suppresses_unchanged() {
    let mut wb = WorldBuilder::<u32>::new();
    let o = wb.register(K_U32, 0);
    let mut world = wb.build();
    let mut p = PipelineStart::<u32, u32>::new()
        .then_step(pure(|x: u32| x as u64 / 2))
        .dedup()
        .then_step(res_mut(o, |out: &u32, val: Option<u64>| (if val.is_some() { *out + 1 } else { *out }, ())));
    p.run(&mut world, 4u32);
    assert_eq!(*world.resource(K_U32), 1);
    p.run(&mut world, 5u32);
    assert_eq!(*world.resource(K_U32), 1);
    p.run(&mut world, 6u32);
    assert_eq!(*world.resource(K_U32), 2);
}

// -- Bool combinators --

#[test]
fn pipeline_not() {
    let mut wb = WorldBuilder::<bool>::new();
    let o = wb.register(K_BOOL, false);
    let mut world = wb.build();
    let mut p = PipelineStart::<bool, u32>::new()
        .then_step(pure(|x: u32| x > 5))
        .not()
        .then_step(res_mut(o, |_out: &bool, val: bool| (val, ())));
    p.run(&mut world, 3u32);
    assert!(*world.resource(K_BOOL));
    p.run(&mut world, 10u32);
    assert!(!*world.resource(K_BOOL));
}

#[test]
fn pipeline_and() {
    let mut wb = WorldBuilder::<bool>::new();
    let o = wb.register(K_BOOL, true);
    let mut world = wb.build();
    let mut p = PipelineStart::<bool, u32>::new()
        .then_step(pure(|x: u32| x > 5))
        .and(res(o, |f: &bool, _u: ()| *f))
        .then_step(res_mut(o, |_out: &bool, val: bool| (val, ())));
    p.run(&mut world, 10u32);
    assert!(*world.resource(K_BOOL));
    *world.resource_mut(K_BOOL) = false;
    p.run(&mut world, 10u32);
    assert!(!*world.resource(K_BOOL));
}

#[test]
fn pipeline_or() {
    let mut wb = WorldBuilder::<bool>::new();
    let o = wb.register(K_BOOL, false);
    let mut world = wb.build();
    let mut p = PipelineStart::<bool, u32>::new()
        .then_step(pure(|x: u32| x > 5))
        .or(res(o, |f: &bool, _u: ()| *f))
        .then_step(res_mut(o, |_out: &bool, val: bool| (val, ())));
    p.run(&mut world, 3u32);
    assert!(!*world.resource(K_BOOL));
    *world.resource_mut(K_BOOL) = true;
    p.run(&mut world, 3u32);
    assert!(*world.resource(K_BOOL));
}

#[test]
fn pipeline_xor() {
    let mut wb = WorldBuilder::<bool>::new();
    let o = wb.register(K_BOOL, true);
    let mut world = wb.build();
    let mut p = PipelineStart::<bool, u32>::new()
        .then_step(pure(|x: u32| x > 5))
        .xor(res(o, |f: &bool, _u: ()| *f))
        .then_step(res_mut(o, |_out: &bool, val: bool| (val, ())));
    p.run(&mut world, 10u32);
    assert!(!*world.resource(K_BOOL));
}

// =========================================================================
// Splat — tuple destructuring
// =========================================================================

#[test]
fn splat2_closure_on_start() {
    let mut world = WorldBuilder::<u64>::new().build();
    let mut p = PipelineStart::<u64, (u32, u64)>::new().then_step(splat2(|a: u32, b: u64| a as u64 + b));
    assert_eq!(p.run(&mut world, (3, 7)), 10);
}

#[test]
fn splat2_named_fn_with_param() {
    let mut wb = WorldBuilder::<u64>::new();
    let base = wb.register(K_U64, 100);
    let mut world = wb.build();
    let mut p = PipelineStart::<u64, (u32, u32)>::new()
        .then_step(res(base, |base: &u64, (a, b): (u32, u32)| *base + a as u64 + b as u64));
    assert_eq!(p.run(&mut world, (3, 7)), 110);
}

#[test]
fn splat2_mid_chain() {
    let mut world = WorldBuilder::<u64>::new().build();
    let mut p = PipelineStart::<u64, u32>::new()
        .then_step(pure(|x: u32| (x, x * 2)))
        .then_step(splat2(|a: u32, b: u32| a as u64 + b as u64));
    assert_eq!(p.run(&mut world, 5), 15);
}

#[test]
fn splat3_closure_on_start() {
    let mut world = WorldBuilder::<u64>::new().build();
    let mut p = PipelineStart::<u64, (u32, u32, u32)>::new().then_step(splat3(|a: u32, b: u32, c: u32| a + b + c));
    assert_eq!(p.run(&mut world, (1, 2, 3)), 6);
}

#[test]
fn splat3_named_fn_with_param() {
    let mut wb = WorldBuilder::<u64>::new();
    let f = wb.register(K_U64, 10);
    let mut world = wb.build();
    let mut p = PipelineStart::<u64, (u32, u32, u32)>::new()
        .then_step(res(f, |factor: &u64, (a, b, c): (u32, u32, u32)| *factor * (a + b + c) as u64));
    assert_eq!(p.run(&mut world, (1, 2, 3)), 60);
}

#[test]
fn splat4_mid_chain() {
    let mut world = WorldBuilder::<u64>::new().build();
    let mut p = PipelineStart::<u64, u32>::new()
        .then_step(pure(|x: u32| (x, x + 1, x + 2, x + 3)))
        .then_step(splat4(|a: u32, b: u32, c: u32, d: u32| (a + b + c + d) as u64));
    assert_eq!(p.run(&mut world, 10), 46);
}

#[test]
fn splat5_closure_on_start() {
    let mut world = WorldBuilder::<u64>::new().build();
    let mut p = PipelineStart::<u64, (u8, u8, u8, u8, u8)>::new().then_step(splat5(
        |a: u8, b: u8, c: u8, d: u8, e: u8| (a as u64) + (b as u64) + (c as u64) + (d as u64) + (e as u64),
    ));
    assert_eq!(p.run(&mut world, (1, 2, 3, 4, 5)), 15);
}

#[test]
fn splat_build_into_handler() {
    let mut wb = WorldBuilder::<u64>::new();
    let o = wb.register(K_U64, 0);
    let mut world = wb.build();
    let mut pipeline = PipelineStart::<u64, (u32, u32)>::new()
        .then_step(res_mut(o, |_out: &u64, (a, b): (u32, u32)| (a as u64 + b as u64, ())))
        .build();
    pipeline.run(&mut world, (3, 7));
    assert_eq!(*world.resource(K_U64), 10);
}

#[test]
fn splat_build_batch() {
    let mut wb = WorldBuilder::<u64>::new();
    let sum = wb.register(K_U64, 0);
    let mut world = wb.build();
    let mut batch = PipelineStart::<u64, (u32, u32)>::new()
        .then_step(res_mut(sum, |s: &u64, (a, b): (u32, u32)| (*s + a as u64 + b as u64, ())))
        .build_batch(8);
    batch.input_mut().extend_from_slice(&[(1, 2), (3, 4), (5, 6)]);
    batch.run(&mut world);
    assert_eq!(*world.resource(K_U64), 21);
}

// -- Then (branching inside a step) --

#[test]
fn pipeline_then_branching() {
    fn double(x: u32) -> u64 {
        x as u64 * 2
    }
    let mut wb = WorldBuilder::<u64>::new();
    let o = wb.register(K_U64, 0);
    let mut world = wb.build();
    let mut pipeline = PipelineStart::<u64, u32>::new()
        .then_step(pure(double))
        .then_step(pure(|val: u64| if val > 10 { val * 100 } else { val + 1 }))
        .then_step(res_mut(o, |_out: &u64, val: u64| (val, ())))
        .build();
    pipeline.run(&mut world, 10u32);
    assert_eq!(*world.resource(K_U64), 2000);
    pipeline.run(&mut world, 3u32);
    assert_eq!(*world.resource(K_U64), 7);
}

#[test]
fn pipeline_then_3_way() {
    let mut wb = WorldBuilder::<u64>::new();
    let o = wb.register(K_U64, 0);
    let mut world = wb.build();
    let mut pipeline = PipelineStart::<u64, u32>::new()
        .then_step(pure(|val: u32| match val % 3 {
            0 => val as u64 + 100,
            1 => val as u64 + 200,
            _ => val as u64 + 300,
        }))
        .then_step(res_mut(o, |_out: &u64, val: u64| (val, ())))
        .build();
    pipeline.run(&mut world, 6u32);
    assert_eq!(*world.resource(K_U64), 106);
    pipeline.run(&mut world, 7u32);
    assert_eq!(*world.resource(K_U64), 207);
    pipeline.run(&mut world, 8u32);
    assert_eq!(*world.resource(K_U64), 308);
}

#[test]
fn pipeline_then_with_resolve_step() {
    let mut wb = WorldBuilder::<R>::new();
    let o = wb.register(K_U64, R::U(0));
    let off = wb.register(K_I64, R::I(100));
    let mut world = wb.build();
    let arm_offset = resolve_step::<R, u32, u64, _>(res(off, |offset: &R, val: u32| (i(offset) + val as i64) as u64));
    let arm_double = resolve_step::<R, u32, u64, _>(pure(|val: u32| val as u64 * 2));
    let mut pipeline = PipelineStart::<R, u32>::new()
        .route(ref_pure(|val: &u32| *val > 10), arm_offset, arm_double)
        .then_step(res_mut(o, |_out: &R, val: u64| (R::U(val), ())))
        .build();
    pipeline.run(&mut world, 20u32);
    assert_eq!(u(world.resource(K_U64)), 120);
    pipeline.run(&mut world, 5u32);
    assert_eq!(u(world.resource(K_U64)), 10);
}

#[test]
fn batch_pipeline_then_branching() {
    let mut wb = WorldBuilder::<u64>::new();
    let o = wb.register(K_U64, 0);
    let mut world = wb.build();
    let mut batch = PipelineStart::<u64, u32>::new()
        .then_step(pure(|val: u32| if val % 2 == 0 { val as u64 * 10 } else { val as u64 }))
        .then_step(res_mut(o, |out: &u64, val: u64| (*out + val, ())))
        .build_batch(8);
    batch.input_mut().extend([1, 2, 3, 4]);
    batch.run(&mut world);
    assert_eq!(*world.resource(K_U64), 64);
}

// -- Reference steps that read resources --

#[test]
fn guard_named_fn_with_param() {
    let mut wb = WorldBuilder::<R>::new();
    let th = wb.register(K_U64, R::U(5));
    let o = wb.register(K_I64, R::I(0));
    let mut world = wb.build();
    let mut p = PipelineStart::<R, u32>::new()
        .then_step(pure(|x: u32| x as u64))
        .guard(ref_res(th, |threshold: &R, val: &u64| *val > u(threshold)))
        .then_step(res_mut(o, |_out: &R, val: Option<u64>| (R::I(val.map(|v| v as i64).unwrap_or(-1)), ())));
    p.run(&mut world, 10u32);
    assert_eq!(i(world.resource(K_I64)), 10);
    p.run(&mut world, 3u32);
    assert_eq!(i(world.resource(K_I64)), -1);
}

#[test]
fn filter_named_fn_with_param() {
    let mut wb = WorldBuilder::<R>::new();
    let blocked = wb.register(K_U64, R::U(42));
    let ctr = wb.register(K_I64, R::I(0));
    let mut world = wb.build();
    let mut p = PipelineStart::<R, u32>::new()
        .then_step(pure(|x: u32| -> Option<u64> { Some(x as u64) }))
        .filter(ref_res(blocked, |allowed: &R, val: &u64| *val != u(allowed)))
        .map(res_mut(ctr, |c: &R, _val: u64| (R::I(i(c) + 1), ())))
        .unwrap_or(());
    for v in [1u32, 42, 5, 42, 10] {
        p.run(&mut world, v);
    }
    assert_eq!(i(world.resource(K_I64)), 3);
}

#[test]
fn inspect_named_fn_with_param() {
    let mut wb = WorldBuilder::<Vec<u64>>::new();
    let log = wb.register(K_LIST, Vec::new());
    let mut world = wb.build();
    let mut p = PipelineStart::<Vec<u64>, u32>::new()
        .then_step(pure(|x: u32| -> Option<u64> { Some(x as u64) }))
        .inspect(ref_res_mut(log, |log: &Vec<u64>, val: &u64| {
            let mut next = log.clone();
            next.push(*val);
            (next, ())
        }))
        .unwrap_or(0);
    for v in [1u32, 2, 3] {
        p.run(&mut world, v);
    }
    assert_eq!(world.resource(K_LIST).as_slice(), &[1, 2, 3]);
}

#[test]
fn tap_named_fn_with_param() {
    let mut wb = WorldBuilder::<R>::new();
    let o = wb.register(K_U64, R::U(0));
    let log = wb.register(K_LIST, R::L(Vec::new()));
    let mut world = wb.build();
    let mut p = PipelineStart::<R, u32>::new()
        .then_step(pure(|x: u32| x as u64))
        .tap(ref_res_mut(log, |log: &R, val: &u64| {
            let mut next = l(log);
            next.push(*val);
            (R::L(next), ())
        }))
        .then_step(res_mut(o, |_out: &R, val: u64| (R::U(val), ())));
    p.run(&mut world, 7u32);
    assert_eq!(u(world.resource(K_U64)), 7);
    assert_eq!(l(world.resource(K_LIST)).as_slice(), &[7]);
}

#[test]
fn and_named_fn_with_param() {
    let mut wb = WorldBuilder::<bool>::new();
    let flag = wb.register(K_BOOL, true);
    let mut world = wb.build();
    let mut p = PipelineStart::<bool, u32>::new()
        .then_step(pure(|_x: u32| true))
        .and(res(flag, |f: &bool, _u: ()| *f));
    assert!(p.run(&mut world, 0u32));
    *world.resource_mut(K_BOOL) = false;
    assert!(!p.run(&mut world, 0u32));
}

#[test]
fn or_named_fn_with_param() {
    let mut wb = WorldBuilder::<bool>::new();
    let flag = wb.register(K_BOOL, true);
    let mut world = wb.build();
    let mut p = PipelineStart::<bool, u32>::new()
        .then_step(pure(|_x: u32| false))
        .or(res(flag, |f: &bool, _u: ()| *f));
    assert!(p.run(&mut world, 0u32));
    *world.resource_mut(K_BOOL) = false;
    assert!(!p.run(&mut world, 0u32));
}

#[test]
fn on_none_named_fn_with_param() {
    let mut wb = WorldBuilder::<u64>::new();
    let ctr = wb.register(K_U64, 0);
    let mut world = wb.build();
    let mut p = PipelineStart::<u64, u32>::new()
        .then_step(pure(|x: u32| -> Option<u32> { if x > 5 { Some(x) } else { None } }))
        .on_none(res_mut(ctr, |c: &u64, _u: ()| (*c + 1, ())))
        .unwrap_or(0);
    for v in [1u32, 10, 3, 20] {
        p.run(&mut world, v);
    }
    assert_eq!(*world.resource(K_U64), 2);
}

#[test]
fn ok_or_else_named_fn_with_param() {
    let mut wb = WorldBuilder::<String>::new();
    let msg = wb.register(K_STR, "not found".into());
    let mut world = wb.build();
    let mut p = PipelineStart::<String, u32>::new()
        .then_step(pure(|x: u32| -> Option<u32> { if x > 0 { Some(x) } else { None } }))
        .ok_or_else(res(msg, |m: &String, _u: ()| m.clone()));
    let r: Result<u32, String> = p.run(&mut world, 5u32);
    assert_eq!(r, Ok(5));
    let r: Result<u32, String> = p.run(&mut world, 0u32);
    assert_eq!(r, Err("not found".into()));
}

#[test]
fn unwrap_or_else_option_named_fn_with_param() {
    let mut wb = WorldBuilder::<u64>::new();
    let d = wb.register(K_U64, 42);
    let mut world = wb.build();
    let mut p = PipelineStart::<u64, u32>::new()
        .then_step(pure(|x: u32| -> Option<u64> { if x > 0 { Some(x as u64) } else { None } }))
        .unwrap_or_else(res(d, |default: &u64, _u: ()| *default));
    assert_eq!(p.run(&mut world, 5u32), 5);
    assert_eq!(p.run(&mut world, 0u32), 42);
}

#[test]
fn map_err_named_fn_with_param() {
    let mut wb = WorldBuilder::<String>::new();
    let prefix = wb.register(K_STR, "ERR".into());
    let mut world = wb.build();
    let mut p = PipelineStart::<String, u32>::new()
        .then_step(pure(|x: u32| -> Result<u32, String> { if x > 0 { Ok(x) } else { Err("zero".into()) } }))
        .map_err(res(prefix, |prefix: &String, err: String| format!("{}: {err}", prefix)))
        .then_step(res_mut(prefix, |_out: &String, val: Result<u32, String>| {
            let text = match val {
                Ok(v) => format!("ok:{v}"),
                Err(e) => e,
            };
            (text, ())
        }));
    p.run(&mut world, 0u32);
    assert_eq!(world.resource(K_STR).as_str(), "ERR: zero");
    p.run(&mut world, 5u32);
    assert_eq!(world.resource(K_STR).as_str(), "ok:5");
}

// =========================================================================
// Scan combinator
// =========================================================================

#[test]
fn scan_arity0_closure_running_sum() {
    let mut world = WorldBuilder::<u64>::new().build();
    let mut p = PipelineStart::<u64, u64>::new()
        .then_step(pure(|x: u64| x))
        .scan(0u64, |acc: &u64, val: u64| (*acc + val, Some(*acc + val)));
    assert_eq!(p.run(&mut world, 10), Some(10));
    assert_eq!(p.run(&mut world, 20), Some(30));
    assert_eq!(p.run(&mut world, 5), Some(35));
}

#[test]
fn scan_named_fn_with_param() {
    let mut wb = WorldBuilder::<u64>::new();
    let limit = wb.register(K_U64, 100);
    let mut world = wb.build();
    let mut p = PipelineStart::<u64, u64>::new()
        .then_step(res(limit, |limit: &u64, x: u64| (x, *limit)))
        .scan(0u64, |acc: &u64, (val, limit): (u64, u64)| {
            let next = *acc + val;
            (next, if next > limit { Some(next) } else { None })
        });
    assert_eq!(p.run(&mut world, 50), None);
    assert_eq!(p.run(&mut world, 30), None);
    assert_eq!(p.run(&mut world, 25), Some(105));
}

#[test]
fn scan_opaque_closure() {
    let mut wb = WorldBuilder::<u64>::new();
    let f = wb.register(K_U64, 10);
    let mut world = wb.build();
    let mut p = PipelineStart::<u64, u64>::new()
        .then_step(res(f, |factor: &u64, x: u64| x * *factor))
        .scan(0u64, |acc: &u64, scaled: u64| (*acc + scaled, Some(*acc + scaled)));
    assert_eq!(p.run(&mut world, 1), Some(10));
    assert_eq!(p.run(&mut world, 2), Some(30));
}

#[test]
fn scan_suppression_returns_none() {
    let mut world = WorldBuilder::<u64>::new().build();
    let mut p = PipelineStart::<u64, u64>::new()
        .then_step(pure(|x: u64| x))
        .scan(0u64, |acc: &u64, val: u64| -> (u64, Option<u64>) {
            let next = *acc + val;
            (next, if next > 50 { Some(next) } else { None })
        });
    assert_eq!(p.run(&mut world, 20), None);
    assert_eq!(p.run(&mut world, 20), None);
    assert_eq!(p.run(&mut world, 20), Some(60));
}

#[test]
fn scan_on_pipeline_start() {
    let mut world = WorldBuilder::<u64>::new().build();
    let mut p = PipelineStart::<u64, u64>::new().scan(0u64, |acc: &u64, val: u64| (*acc + val, *acc + val));
    assert_eq!(p.run(&mut world, 5), 5);
    assert_eq!(p.run(&mut world, 3), 8);
    assert_eq!(p.run(&mut world, 2), 10);
}

#[test]
fn scan_persistence_across_batch() {
    let mut wb = WorldBuilder::<u64>::new();
    let o = wb.register(K_U64, 0);
    let mut world = wb.build();
    let mut p = PipelineStart::<u64, u64>::new()
        .then_step(pure(|x: u64| x))
        .scan(0u64, |acc: &u64, val: u64| (*acc + val, *acc + val))
        .then_step(res_mut(o, |_out: &u64, val: u64| (val, ())))
        .build_batch(4);
    p.input_mut().extend([1, 2, 3]);
    p.run(&mut world);
    assert_eq!(*world.resource(K_U64), 6);
    p.input_mut().push(4);
    p.run(&mut world);
    assert_eq!(*world.resource(K_U64), 10);
}

// =========================================================================
// Build — Option<()> terminal
// =========================================================================

#[test]
fn build_option_unit_terminal() {
    fn check(x: u32) -> Option<u32> {
        if x > 5 { Some(x) } else { None }
    }
    let mut wb = WorldBuilder::<u64>::new();
    let o = wb.register(K_U64, 0);
    let mut world = wb.build();
    let mut p = PipelineStart::<u64, u32>::new()
        .then_step(pure(check))
        .map(res_mut(o, |out: &u64, val: u32| (*out + val as u64, ())))
        .build();
    p.run(&mut world, 3);
    assert_eq!(*world.resource(K_U64), 0);
    p.run(&mut world, 7);
    assert_eq!(*world.resource(K_U64), 7);
    p.run(&mut world, 10);
    assert_eq!(*world.resource(K_U64), 17);
}

#[test]
fn build_option_unit_boxes_into_handler() {
    fn double(x: u32) -> Option<u64> {
        if x > 0 { Some(x as u64 * 2) } else { None }
    }
    let mut wb = WorldBuilder::<u64>::new();
    let o = wb.register(K_U64, 0);
    let mut world = wb.build();
    let mut h: Box<dyn Handler<u64, u32>> = Box::new(
        PipelineStart::<u64, u32>::new()
            .then_step(pure(double))
            .map(res_mut(o, |out: &u64, val: u64| (*out + val, ())))
            .build(),
    );
    h.run(&mut world, 0);
    assert_eq!(*world.resource(K_U64), 0);
    h.run(&mut world, 5);
    assert_eq!(*world.resource(K_U64), 10);
}

// =========================================================================
// Build — borrowed event type
// =========================================================================

fn decode_len(msg: &[u8]) -> u64 {
    msg.len() as u64
}

fn decode_nonempty(msg: &[u8]) -> Option<u64> {
    if msg.is_empty() { None } else { Some(msg.len() as u64) }
}

#[test]
fn build_borrowed_event_direct() {
    let mut wb = WorldBuilder::<u64>::new();
    let o = wb.register(K_U64, 0);
    let mut world = wb.build();
    let msg = vec![1u8, 2, 3];
    let mut p = PipelineStart::<u64, &[u8]>::new()
        .then_step(pure(decode_len))
        .then_step(res_mut(o, |_out: &u64, val: u64| (val, ())))
        .build();
    p.run(&mut world, &msg);
    assert_eq!(*world.resource(K_U64), 3);
}

#[test]
fn build_borrowed_event_option_unit() {
    let mut wb = WorldBuilder::<u64>::new();
    let o = wb.register(K_U64, 0);
    let mut world = wb.build();
    let empty: Vec<u8> = vec![];
    let data = vec![1u8, 2, 3];
    let mut p = PipelineStart::<u64, &[u8]>::new()
        .then_step(pure(decode_nonempty))
        .map(res_mut(o, |_out: &u64, val: u64| (val, ())))
        .build();
    p.run(&mut world, &empty);
    assert_eq!(*world.resource(K_U64), 0);
    p.run(&mut world, &data);
    assert_eq!(*world.resource(K_U64), 3);
}

// =========================================================================
// Laws, on concrete values
// =========================================================================

#[test]
fn handler_run_keeps_keys_and_sequence() {
    let mut wb = WorldBuilder::<u64>::new();
    let o = wb.register(K_U64, 0);
    let mut world = wb.build();
    let before_keys = world.registry();
    let before_seq = world.current_sequence().get();
    let mut p = PipelineStart::<u64, u32>::new()
        .then_step(res_mut(o, |out: &u64, v: u32| (*out + v as u64, ())))
        .build();
    p.run(&mut world, 3);
    assert_eq!(world.current_sequence().get(), before_seq);
    assert_eq!(world.registry().len(), before_keys.len());
    assert!(world.contains(K_U64));
}

// =========================================================================
// Cloned combinator
// =========================================================================

fn ref_identity(x: &u32) -> &u32 {
    x
}
fn ref_wrap_some(x: &u32) -> Option<&u32> {
    Some(x)
}
fn ref_wrap_none(_x: &u32) -> Option<&u32> {
    None
}
fn ref_wrap_ok(x: &u32) -> Result<&u32, String> {
    Ok(x)
}
fn ref_wrap_err(_x: &u32) -> Result<&u32, String> {
    Err("fail".into())
}

#[test]
fn cloned_bare() {
    let mut world = WorldBuilder::<u64>::new().build();
    let val = 42u32;
    let mut p = PipelineStart::<u64, &u32>::new().then_step(pure(ref_identity)).cloned();
    assert_eq!(p.run(&mut world, &val), 42u32);
}

#[test]
fn cloned_option_some() {
    let mut world = WorldBuilder::<u64>::new().build();
    let val = 42u32;
    let mut p = PipelineStart::<u64, &u32>::new().then_step(pure(ref_wrap_some)).cloned();
    assert_eq!(p.run(&mut world, &val), Some(42u32));
}

#[test]
fn cloned_option_none() {
    let mut world = WorldBuilder::<u64>::new().build();
    let val = 42u32;
    let mut p = PipelineStart::<u64, &u32>::new().then_step(pure(ref_wrap_none)).cloned();
    assert_eq!(p.run(&mut world, &val), None);
}

#[test]
fn cloned_result_ok() {
    let mut world = WorldBuilder::<u64>::new().build();
    let val = 42u32;
    let mut p = PipelineStart::<u64, &u32>::new().then_step(pure(ref_wrap_ok)).cloned();
    assert_eq!(p.run(&mut world, &val), Ok(42u32));
}

#[test]
fn cloned_result_err() {
    let mut world = WorldBuilder::<u64>::new().build();
    let val = 42u32;
    let mut p = PipelineStart::<u64, &u32>::new().then_step(pure(ref_wrap_err)).cloned();
    assert_eq!(p.run(&mut world, &val), Err("fail".into()));
}
