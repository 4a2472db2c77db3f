use nexus_rt::dag::{merge2, merge3, DagArmStart, DagStart};
use nexus_rt::handler::{into_handler, Handler};
use nexus_rt::step::{pure, ref_pure, ref_res, ref_res_mut, res_mut};
use nexus_rt::world::WorldBuilder;

// Resources of several types share one world through this enum.
#[derive(Clone, Debug, PartialEq)]
enum R {
    U(u64),
    I(i64),
    B(bool),
    S(String),
}

fn u(r: &R) -> u64 {
    match r {
        R::U(v) => *v,
        _ => panic!("not a u64"),
    }
}
fn i(r: &R) -> i64 {
    match r {
        R::I(v) => *v,
        _ => panic!("not an i64"),
    }
}
fn b(r: &R) -> bool {
    match r {
        R::B(v) => *v,
        _ => panic!("not a bool"),
    }
}
fn s(r: &R) -> String {
    match r {
        R::S(v) => v.clone(),
        _ => panic!("not a string"),
    }
}

const K_U64: u64 = 1;
const K_BOOL: u64 = 2;
const K_STR: u64 = 3;
const K_I64: u64 = 4;

// -- Linear chains --

#[test]
fn dag_linear_2() {
    let mut wb = WorldBuilder::<u64>::new();
    let o = wb.register(K_U64, 0);
    let mut world = wb.build();
    let mut dag = DagStart::<u64, u32>::new()
        .root(pure(|x: u32| x as u64 * 2))
        .then_step(ref_res_mut(o, |_out: &u64, val: &u64| (*val, ())))
        .build();
    dag.run(&mut world, 5u32);
    assert_eq!(*world.resource(K_U64), 10);
}

#[test]
fn dag_linear_3() {
    let mut wb = WorldBuilder::<u64>::new();
    let o = wb.register(K_U64, 0);
    let mut world = wb.build();
    let mut dag = DagStart::<u64, u32>::new()
        .root(pure(|x: u32| x as u64 * 2))
        .then_step(ref_pure(|val: &u64| *val + 1))
        .then_step(ref_res_mut(o, |_out: &u64, val: &u64| (*val, ())))
        .build();
    dag.run(&mut world, 5u32);
    assert_eq!(*world.resource(K_U64), 11);
}

#[test]
fn dag_linear_5() {
    let mut wb = WorldBuilder::<u64>::new();
    let o = wb.register(K_U64, 0);
    let mut world = wb.build();
    let mut dag = DagStart::<u64, u32>::new()
        .root(pure(|x: u32| x as u64))
        .then_step(ref_pure(|val: &u64| *val + 1))
        .then_step(ref_pure(|val: &u64| *val + 1))
        .then_step(ref_pure(|val: &u64| *val + 1))
        .then_step(ref_res_mut(o, |_out: &u64, val: &u64| (*val, ())))
        .build();
    dag.run(&mut world, 0u32);
    assert_eq!(*world.resource(K_U64), 3);
}

// -- Diamond: root → [a, b] → merge → sink --

#[test]
fn dag_diamond() {
    let mut wb = WorldBuilder::<u64>::new();
    let o = wb.register(K_U64, 0);
    let mut world = wb.build();
    let mut dag = DagStart::<u64, u32>::new()
        .root(pure(|x: u32| x.wrapping_mul(2)))
        .fork()
        .arm(DagArmStart::<u64, u32>::new().then_step(ref_pure(|v: &u32| v.wrapping_add(1))))
        .arm(DagArmStart::<u64, u32>::new().then_step(ref_pure(|v: &u32| v.wrapping_mul(3))))
        .merge(merge2(|a: &u32, b: &u32| a.wrapping_add(*b)))
        .then_step(ref_res_mut(o, |_out: &u64, val: &u32| (*val as u64, ())))
        .build();
    dag.run(&mut world, 5u32);
    assert_eq!(*world.resource(K_U64), 41);
}

// -- Fan-out to sinks (.join()) --

#[test]
fn dag_fan_out_join() {
    let mut wb = WorldBuilder::<R>::new();
    let a = wb.register(K_U64, R::U(0));
    let c = wb.register(K_I64, R::I(0));
    let mut world = wb.build();
    let mut dag = DagStart::<R, u32>::new()
        .root(pure(|x: u32| x as u64))
        .fork()
        .arm(DagArmStart::<R, u64>::new().then_step(ref_res_mut(a, |_o: &R, v: &u64| (R::U(*v * 2), ()))))
        .arm(DagArmStart::<R, u64>::new().then_step(ref_res_mut(c, |_o: &R, v: &u64| (R::I(*v as i64 * 3), ()))))
        .join()
        .build();
    dag.run(&mut world, 5u32);
    assert_eq!(u(world.resource(K_U64)), 10);
    assert_eq!(i(world.resource(K_I64)), 15);
}

// -- Nested fork within an arm --

#[test]
fn dag_nested_fork() {
    let mut wb = WorldBuilder::<u64>::new();
    let o = wb.register(K_U64, 0);
    let mut world = wb.build();
    let arm_a = DagArmStart::<u64, u32>::new()
        .then_step(ref_pure(|v: &u32| v.wrapping_add(10)))
        .fork()
        .arm(DagArmStart::<u64, u32>::new().then_step(ref_pure(|v: &u32| v.wrapping_mul(2))))
        .arm(DagArmStart::<u64, u32>::new().then_step(ref_pure(|v: &u32| v.wrapping_mul(3))))
        .merge(merge2(|a: &u32, b: &u32| a.wrapping_add(*b)));
    let mut dag = DagStart::<u64, u32>::new()
        .root(pure(|x: u32| x))
        .fork()
        .arm(arm_a)
        .arm(DagArmStart::<u64, u32>::new().then_step(ref_pure(|v: &u32| v.wrapping_mul(3))))
        .merge(merge2(|a: &u32, b: &u32| a.wrapping_add(*b)))
        .then_step(ref_res_mut(o, |_out: &u64, val: &u32| (*val as u64, ())))
        .build();
    dag.run(&mut world, 5u32);
    assert_eq!(*world.resource(K_U64), 90);
}

// -- Complex topology: asymmetric arm lengths --

#[test]
fn dag_complex_topology() {
    let mut wb = WorldBuilder::<u64>::new();
    let o = wb.register(K_U64, 0);
    let mut world = wb.build();
    let mut dag = DagStart::<u64, u32>::new()
        .root(pure(|x: u32| x.wrapping_mul(2)))
        .fork()
        .arm(
            DagArmStart::<u64, u32>::new()
                .then_step(ref_pure(|v: &u32| v.wrapping_add(1)))
                .then_step(ref_pure(|v: &u32| v.wrapping_add(1).wrapping_mul(2))),
        )
        .arm(DagArmStart::<u64, u32>::new().then_step(ref_pure(|v: &u32| v.wrapping_mul(3))))
        .merge(merge2(|a: &u32, b: &u32| a.wrapping_add(*b)))
        .then_step(ref_res_mut(o, |_out: &u64, val: &u32| (*val as u64, ())))
        .build();
    dag.run(&mut world, 5u32);
    assert_eq!(*world.resource(K_U64), 54);
}

// -- Boxable into Box<dyn Handler<E>> --

#[test]
fn dag_boxable() {
    let mut wb = WorldBuilder::<u64>::new();
    let o = wb.register(K_U64, 0);
    let mut world = wb.build();
    let mut boxed: Box<dyn Handler<u64, u32>> = Box::new(
        DagStart::<u64, u32>::new()
            .root(pure(|x: u32| x as u64))
            .then_step(ref_res_mut(o, |_out: &u64, val: &u64| (*val, ())))
            .build(),
    );
    boxed.run(&mut world, 77u32);
    assert_eq!(*world.resource(K_U64), 77);
}

// -- World access in nodes --

#[test]
fn dag_world_access() {
    let mut wb = WorldBuilder::<R>::new();
    let f = wb.register(K_U64, R::U(10));
    let o = wb.register(K_STR, R::S(String::new()));
    let mut world = wb.build();
    let mut dag = DagStart::<R, u32>::new()
        .root(pure(|x: u32| x))
        .then_step(ref_res(f, |factor: &R, val: &u32| u(factor) * (*val as u64)))
        .then_step(ref_res_mut(o, |_out: &R, val: &u64| (R::S(val.to_string()), ())))
        .build();
    dag.run(&mut world, 7u32);
    assert_eq!(s(world.resource(K_STR)).as_str(), "70");
}

// -- Root-only (terminal root outputting ()) --

#[test]
fn dag_root_only() {
    let mut wb = WorldBuilder::<u64>::new();
    let o = wb.register(K_U64, 0);
    let mut world = wb.build();
    let mut dag = DagStart::<u64, u32>::new()
        .root(res_mut(o, |_out: &u64, x: u32| (x as u64, ())))
        .build();
    dag.run(&mut world, 42u32);
    assert_eq!(*world.resource(K_U64), 42);
}

// -- Multiple dispatches reuse state --

#[test]
fn dag_multiple_dispatches() {
    let mut wb = WorldBuilder::<u64>::new();
    let o = wb.register(K_U64, 0);
    let mut world = wb.build();
    let mut dag = DagStart::<u64, u32>::new()
        .root(pure(|x: u32| x as u64))
        .then_step(ref_res_mut(o, |_out: &u64, val: &u64| (*val, ())))
        .build();
    dag.run(&mut world, 1u32);
    assert_eq!(*world.resource(K_U64), 1);
    dag.run(&mut world, 2u32);
    assert_eq!(*world.resource(K_U64), 2);
    dag.run(&mut world, 3u32);
    assert_eq!(*world.resource(K_U64), 3);
}

// -- 3-way merge --

#[test]
fn dag_3way_merge() {
    let mut wb = WorldBuilder::<String>::new();
    let o = wb.register(K_STR, String::new());
    let mut world = wb.build();
    let mut dag = DagStart::<String, u32>::new()
        .root(pure(|x: u32| x as u64))
        .fork()
        .arm(DagArmStart::<String, u64>::new().then_step(ref_pure(|v: &u64| *v)))
        .arm(DagArmStart::<String, u64>::new().then_step(ref_pure(|v: &u64| *v * 2)))
        .arm(DagArmStart::<String, u64>::new().then_step(ref_pure(|v: &u64| *v * 3)))
        .merge(ref_res_mut(o, |_out: &String, x: &(u64, u64, u64)| (format!("{},{},{}", x.0, x.1, x.2), ())))
        .build();
    dag.run(&mut world, 10u32);
    assert_eq!(world.resource(K_STR).as_str(), "10,20,30");
}

// -- DAG combinators --

#[test]
fn dag_dispatch() {
    let mut wb = WorldBuilder::<u64>::new();
    let o = wb.register(K_U64, 0);
    let mut world = wb.build();
    let mut dag = DagStart::<u64, u32>::new()
        .root(pure(|x: u32| x as u64 + 42))
        .dispatch(into_handler(res_mut(o, |_out: &u64, event: u64| (event, ()))))
        .build();
    dag.run(&mut world, 0u32);
    assert_eq!(*world.resource(K_U64), 42);
}

#[test]
fn dag_option_map() {
    let mut wb = WorldBuilder::<u64>::new();
    let o = wb.register(K_U64, 0);
    let mut world = wb.build();
    let mut dag = DagStart::<u64, u32>::new()
        .root(pure(|_x: u32| -> Option<u64> { Some(10) }))
        .map(ref_pure(|v: &u64| *v * 2))
        .then_step(ref_res_mut(o, |_out: &u64, val: &Option<u64>| (val.unwrap_or(0), ())))
        .build();
    dag.run(&mut world, 0u32);
    assert_eq!(*world.resource(K_U64), 20);
}

#[test]
fn dag_option_map_none() {
    let mut wb = WorldBuilder::<u64>::new();
    let o = wb.register(K_U64, 0);
    let mut world = wb.build();
    let mut dag = DagStart::<u64, u32>::new()
        .root(pure(|_x: u32| -> Option<u64> { None }))
        .map(ref_pure(|v: &u64| *v * 2))
        .then_step(ref_res_mut(o, |_out: &u64, val: &Option<u64>| (val.unwrap_or(999), ())))
        .build();
    dag.run(&mut world, 0u32);
    assert_eq!(*world.resource(K_U64), 999);
}

#[test]
fn dag_option_and_then() {
    let mut wb = WorldBuilder::<u64>::new();
    let o = wb.register(K_U64, 0);
    let mut world = wb.build();
    let mut dag = DagStart::<u64, u32>::new()
        .root(pure(|_x: u32| -> Option<u64> { Some(5) }))
        .and_then(ref_pure(|v: &u64| if *v > 3 { Some(*v * 10) } else { None }))
        .then_step(ref_res_mut(o, |_out: &u64, val: &Option<u64>| (val.unwrap_or(0), ())))
        .build();
    dag.run(&mut world, 0u32);
    assert_eq!(*world.resource(K_U64), 50);
}

#[test]
fn dag_option_filter_keeps() {
    let mut wb = WorldBuilder::<u64>::new();
    let o = wb.register(K_U64, 0);
    let mut world = wb.build();
    let mut dag = DagStart::<u64, u32>::new()
        .root(pure(|_x: u32| -> Option<u64> { Some(5) }))
        .filter(ref_pure(|v: &u64| *v > 3))
        .then_step(ref_res_mut(o, |_out: &u64, val: &Option<u64>| (val.unwrap_or(0), ())))
        .build();
    dag.run(&mut world, 0u32);
    assert_eq!(*world.resource(K_U64), 5);
}

#[test]
fn dag_option_filter_drops() {
    let mut wb = WorldBuilder::<u64>::new();
    let o = wb.register(K_U64, 0);
    let mut world = wb.build();
    let mut dag = DagStart::<u64, u32>::new()
        .root(pure(|_x: u32| -> Option<u64> { Some(5) }))
        .filter(ref_pure(|v: &u64| *v > 10))
        .then_step(ref_res_mut(o, |_out: &u64, val: &Option<u64>| (val.unwrap_or(0), ())))
        .build();
    dag.run(&mut world, 0u32);
    assert_eq!(*world.resource(K_U64), 0);
}

#[test]
fn dag_option_on_none() {
    let mut wb = WorldBuilder::<bool>::new();
    let flag = wb.register(K_BOOL, false);
    let mut world = wb.build();
    let mut dag = DagStart::<bool, u32>::new()
        .root(pure(|_x: u32| -> Option<u64> { None }))
        .on_none(res_mut(flag, |_f: &bool, _u: ()| (true, ())))
        .then_step(ref_pure(|_val: &Option<u64>| ()))
        .build();
    dag.run(&mut world, 0u32);
    assert!(*world.resource(K_BOOL));
}

#[test]
fn dag_option_unwrap_or() {
    let mut wb = WorldBuilder::<u64>::new();
    let o = wb.register(K_U64, 0);
    let mut world = wb.build();
    let mut dag = DagStart::<u64, u32>::new()
        .root(pure(|_x: u32| -> Option<u64> { None }))
        .unwrap_or(42u64)
        .then_step(ref_res_mut(o, |_out: &u64, val: &u64| (*val, ())))
        .build();
    dag.run(&mut world, 0u32);
    assert_eq!(*world.resource(K_U64), 42);
}

#[test]
fn dag_option_ok_or() {
    let mut wb = WorldBuilder::<u64>::new();
    let o = wb.register(K_U64, 0);
    let mut world = wb.build();
    let mut dag = DagStart::<u64, u32>::new()
        .root(pure(|_x: u32| -> Option<u64> { None }))
        .ok_or("missing")
        .then_step(ref_res_mut(o, |_out: &u64, val: &Result<u64, &str>| {
            let v = match val {
                Ok(v) => *v,
                Err(_) => 999,
            };
            (v, ())
        }))
        .build();
    dag.run(&mut world, 0u32);
    assert_eq!(*world.resource(K_U64), 999);
}

#[test]
fn dag_result_map() {
    let mut wb = WorldBuilder::<u64>::new();
    let o = wb.register(K_U64, 0);
    let mut world = wb.build();
    let mut dag = DagStart::<u64, u32>::new()
        .root(pure(|_x: u32| -> Result<u64, &'static str> { Ok(10) }))
        .map(ref_pure(|v: &u64| *v * 2))
        .then_step(ref_res_mut(o, |_out: &u64, val: &Result<u64, &'static str>| (val.as_ref().copied().unwrap_or(0), ())))
        .build();
    dag.run(&mut world, 0u32);
    assert_eq!(*world.resource(K_U64), 20);
}

#[test]
fn dag_result_and_then() {
    let mut wb = WorldBuilder::<u64>::new();
    let o = wb.register(K_U64, 0);
    let mut world = wb.build();
    let mut dag = DagStart::<u64, u32>::new()
        .root(pure(|_x: u32| -> Result<u64, &'static str> { Ok(5) }))
        .and_then(ref_pure(|v: &u64| -> Result<u64, &'static str> {
            if *v > 3 { Ok(*v * 10) } else { Err("too small") }
        }))
        .then_step(ref_res_mut(o, |_out: &u64, val: &Result<u64, &'static str>| (val.as_ref().copied().unwrap_or(0), ())))
        .build();
    dag.run(&mut world, 0u32);
    assert_eq!(*world.resource(K_U64), 50);
}

#[test]
fn dag_result_catch() {
    let mut wb = WorldBuilder::<R>::new();
    let o = wb.register(K_U64, R::U(0));
    let log = wb.register(K_STR, R::S(String::new()));
    let mut world = wb.build();
    let mut dag = DagStart::<R, u32>::new()
        .root(pure(|_x: u32| -> Result<u64, String> { Err("oops".into()) }))
        .catch(ref_res_mut(log, |_old: &R, err: &String| (R::S(err.clone()), ())))
        .then_step(ref_res_mut(o, |_out: &R, val: &Option<u64>| (R::U(val.unwrap_or(0)), ())))
        .build();
    dag.run(&mut world, 0u32);
    assert_eq!(u(world.resource(K_U64)), 0);
    assert_eq!(s(world.resource(K_STR)).as_str(), "oops");
}

#[test]
fn dag_result_ok() {
    let mut wb = WorldBuilder::<u64>::new();
    let o = wb.register(K_U64, 0);
    let mut world = wb.build();
    let mut dag = DagStart::<u64, u32>::new()
        .root(pure(|_x: u32| -> Result<u64, &'static str> { Err("fail") }))
        .ok()
        .then_step(ref_res_mut(o, |_out: &u64, val: &Option<u64>| (val.unwrap_or(0), ())))
        .build();
    dag.run(&mut world, 0u32);
    assert_eq!(*world.resource(K_U64), 0);
}

#[test]
fn dag_result_unwrap_or_else() {
    let mut wb = WorldBuilder::<u64>::new();
    let o = wb.register(K_U64, 0);
    let mut world = wb.build();
    let mut dag = DagStart::<u64, u32>::new()
        .root(pure(|_x: u32| -> Result<u64, &'static str> { Err("fail") }))
        .unwrap_or_else(pure(|_err: &'static str| 42u64))
        .then_step(ref_res_mut(o, |_out: &u64, val: &u64| (*val, ())))
        .build();
    dag.run(&mut world, 0u32);
    assert_eq!(*world.resource(K_U64), 42);
}

#[test]
fn dag_result_map_err() {
    let mut wb = WorldBuilder::<u64>::new();
    let o = wb.register(K_U64, 0);
    let mut world = wb.build();
    let mut dag = DagStart::<u64, u32>::new()
        .root(pure(|_x: u32| -> Result<u64, u32> { Err(5) }))
        .map_err(pure(|e: u32| format!("err:{e}")))
        .then_step(ref_res_mut(o, |_out: &u64, val: &Result<u64, String>| {
            let v = match val {
                Ok(v) => *v,
                Err(e) => e.len() as u64,
            };
            (v, ())
        }))
        .build();
    dag.run(&mut world, 0u32);
    assert_eq!(*world.resource(K_U64), 5);
}

#[test]
fn dag_arm_combinators() {
    let mut wb = WorldBuilder::<String>::new();
    let o = wb.register(K_STR, String::new());
    let mut world = wb.build();
    let mut dag = DagStart::<String, u32>::new()
        .root(pure(|x: u32| x as u64 + 10))
        .fork()
        .arm(
            DagArmStart::<String, u64>::new()
                .then_step(ref_pure(|v: &u64| if *v > 5 { Some(*v * 3) } else { None }))
                .unwrap_or(0u64),
        )
        .arm(DagArmStart::<String, u64>::new().then_step(ref_pure(|v: &u64| *v * 2)))
        .merge(merge2(|a: &u64, b: &u64| format!("{a},{b}")))
        .then_step(ref_res_mut(o, |_out: &String, val: &String| (val.clone(), ())))
        .build();
    dag.run(&mut world, 0u32);
    assert_eq!(world.resource(K_STR).as_str(), "30,20");
}

#[test]
fn dag_option_inspect() {
    let mut wb = WorldBuilder::<R>::new();
    let o = wb.register(K_U64, R::U(0));
    let flag = wb.register(K_BOOL, R::B(false));
    let mut world = wb.build();
    let mut dag = DagStart::<R, u32>::new()
        .root(pure(|_x: u32| -> Option<u64> { Some(42) }))
        .inspect(ref_res_mut(flag, |_f: &R, _val: &u64| (R::B(true), ())))
        .then_step(ref_res_mut(o, |_out: &R, val: &Option<u64>| (R::U(val.unwrap_or(0)), ())))
        .build();
    dag.run(&mut world, 0u32);
    assert_eq!(u(world.resource(K_U64)), 42);
    assert!(b(world.resource(K_BOOL)));
}

// -- Guard combinator --

#[test]
fn dag_guard_keeps() {
    let mut wb = WorldBuilder::<u64>::new();
    let o = wb.register(K_U64, 0);
    let mut world = wb.build();
    let mut dag = DagStart::<u64, u32>::new()
        .root(pure(|x: u32| x as u64))
        .guard(ref_pure(|v: &u64| *v > 3))
        .then_step(ref_res_mut(o, |_out: &u64, val: &Option<u64>| (val.unwrap_or(0), ())))
        .build();
    dag.run(&mut world, 5u32);
    assert_eq!(*world.resource(K_U64), 5);
}

#[test]
fn dag_guard_drops() {
    let mut wb = WorldBuilder::<u64>::new();
    let o = wb.register(K_U64, 0);
    let mut world = wb.build();
    let mut dag = DagStart::<u64, u32>::new()
        .root(pure(|x: u32| x as u64))
        .guard(ref_pure(|v: &u64| *v > 10))
        .then_step(ref_res_mut(o, |_out: &u64, val: &Option<u64>| (val.unwrap_or(999), ())))
        .build();
    dag.run(&mut world, 5u32);
    assert_eq!(*world.resource(K_U64), 999);
}

#[test]
fn dag_arm_guard() {
    let mut wb = WorldBuilder::<String>::new();
    let o = wb.register(K_STR, String::new());
    let mut world = wb.build();
    let mut dag = DagStart::<String, u32>::new()
        .root(pure(|x: u32| x as u64))
        .fork()
        .arm(
            DagArmStart::<String, u64>::new()
                .then_step(ref_pure(|v: &u64| *v * 2))
                .guard(ref_pure(|v: &u64| *v > 100)),
        )
        .arm(DagArmStart::<String, u64>::new().then_step(ref_pure(|v: &u64| *v * 2)))
        .merge(merge2(|a: &Option<u64>, b: &u64| format!("{:?},{}", a, b)))
        .then_step(ref_res_mut(o, |_out: &String, val: &String| (val.clone(), ())))
        .build();
    dag.run(&mut world, 5u32);
    assert_eq!(world.resource(K_STR).as_str(), "None,10");
}

// -- Own checks --

#[test]
fn dag_three_arms_with_merge3() {
    let mut wb = WorldBuilder::<u64>::new();
    let o = wb.register(K_U64, 0);
    let mut world = wb.build();
    let mut dag = DagStart::<u64, u32>::new()
        .root(pure(|x: u32| x as u64))
        .fork()
        .arm(DagArmStart::<u64, u64>::new().then_step(ref_pure(|v: &u64| *v + 1)))
        .arm(DagArmStart::<u64, u64>::new().then_step(ref_pure(|v: &u64| *v + 2)))
        .arm(DagArmStart::<u64, u64>::new().then_step(ref_pure(|v: &u64| *v + 3)))
        .merge(merge3(|a: &u64, b: &u64, c: &u64| a * b * c))
        .then_step(ref_res_mut(o, |_out: &u64, val: &u64| (*val, ())))
        .build();
    dag.run(&mut world, 1u32);
    assert_eq!(*world.resource(K_U64), 2 * 3 * 4);
}

#[test]
fn dag_run_does_not_advance_sequence() {
    let mut wb = WorldBuilder::<u64>::new();
    let o = wb.register(K_U64, 0);
    let mut world = wb.build();
    let before = world.current_sequence().get();
    let mut dag = DagStart::<u64, u32>::new()
        .root(pure(|x: u32| x as u64))
        .then_step(ref_res_mut(o, |_out: &u64, val: &u64| (*val, ())))
        .build();
    dag.run(&mut world, 9u32);
    assert_eq!(world.current_sequence().get(), before);
    assert_eq!(*world.resource(K_U64), 9);
}

fn ref_identity(x: &u32) -> &u32 {
    x
}

fn ref_some(x: &u32) -> Option<&u32> {
    Some(x)
}

#[test]
fn dag_cloned_root_output() {
    let mut wb = WorldBuilder::<u64>::new();
    let o = wb.register(K_U64, 0);
    let mut world = wb.build();
    let val = 9u32;
    let mut dag = DagStart::<u64, &u32>::new()
        .root(pure(ref_identity))
        .cloned()
        .then_step(ref_res_mut(o, |_out: &u64, v: &u32| (*v as u64, ())))
        .build();
    dag.run(&mut world, &val);
    assert_eq!(*world.resource(K_U64), 9);
}

#[test]
fn dag_cloned_option_output() {
    let mut wb = WorldBuilder::<u64>::new();
    let o = wb.register(K_U64, 0);
    let mut world = wb.build();
    let val = 4u32;
    let mut dag = DagStart::<u64, &u32>::new()
        .root(pure(ref_some))
        .cloned()
        .then_step(ref_res_mut(o, |_out: &u64, v: &Option<u32>| (v.map(|x| x as u64).unwrap_or(0), ())))
        .build();
    dag.run(&mut world, &val);
    assert_eq!(*world.resource(K_U64), 4);
}
