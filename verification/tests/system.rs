use nexus_rt::pipeline::PipelineStart;
use nexus_rt::step::{pure, res, res2, res_mut, write_with};
use nexus_rt::system::{IntoSystem, into_system, into_system_named, into_void_system, into_void_system_named, BoxedSystem, System};
use nexus_rt::world::{World, WorldBuilder};

// Resources of several types share one world through this enum.
#[derive(Clone, Debug, PartialEq)]
enum R {
    U(u64),
    B(bool),
}

fn u(r: &R) -> u64 {
    match r {
        R::U(v) => *v,
        _ => panic!("not a u64"),
    }
}
fn b(r: &R) -> bool {
    match r {
        R::B(v) => *v,
        _ => panic!("not a bool"),
    }
}

const K_U64: u64 = 1;
const K_BOOL: u64 = 2;

fn always_true(_u: ()) -> bool {
    true
}

// -- Arity 0 ----------------------------------------------------------

#[test]
fn arity_0_system() {
    let mut world = WorldBuilder::<u64>::new().build();
    let mut sys = into_system(pure(always_true));
    assert!(sys.run(&mut world));
}

// -- Single param -----------------------------------------------------

#[test]
fn single_param_system() {
    let mut builder = WorldBuilder::<u64>::new();
    let v = builder.register(K_U64, 42);
    let mut world = builder.build();
    let mut sys = into_system(res(v, |val: &u64, _u: ()| *val > 10));
    assert!(sys.run(&mut world));
}

#[test]
fn single_param_system_false() {
    let mut builder = WorldBuilder::<u64>::new();
    let v = builder.register(K_U64, 5);
    let mut world = builder.build();
    let mut sys = into_system(res(v, |val: &u64, _u: ()| *val > 10));
    assert!(!sys.run(&mut world));
}

// -- Two params -------------------------------------------------------

#[test]
fn two_param_system() {
    let mut builder = WorldBuilder::<R>::new();
    builder.register(K_U64, R::U(42));
    let flag = builder.register(K_BOOL, R::B(false));
    let mut world = builder.build();
    let mut sys = into_system(write_with(flag, |w: &World<R>, _u: ()| {
        let val = u(w.resource(K_U64));
        let old = w.resource(K_BOOL).clone();
        if val > 10 { (R::B(true), true) } else { (old, false) }
    }));
    assert!(sys.run(&mut world));
    assert!(b(world.resource(K_BOOL)));
}

// -- Boxed systems ------------------------------------------------------

#[test]
fn box_dyn_system() {
    let mut builder = WorldBuilder::<u64>::new();
    let v = builder.register(K_U64, 42);
    let mut world = builder.build();
    let mut boxed: Box<dyn System<u64>> = Box::new(into_system(res(v, |val: &u64, _u: ()| *val > 10)));
    assert!(boxed.run(&mut world));
}

// -- Step-local state in systems ----------------------------------------

#[test]
fn local_in_system() {
    let mut builder = WorldBuilder::<u64>::new();
    let v = builder.register(K_U64, 0);
    let mut world = builder.build();
    let chain = PipelineStart::<u64, ()>::new()
        .scan(0u64, |count: &u64, _u: ()| (*count + 1, *count + 1))
        .then_step(res_mut(v, |_val: &u64, count: u64| (count, count < 3)))
        .chain;
    let mut sys = into_system(chain);
    assert!(sys.run(&mut world));
    assert!(sys.run(&mut world));
    assert!(!sys.run(&mut world));
    assert_eq!(*world.resource(K_U64), 3);
}

// -- Name -------------------------------------------------------------

#[test]
fn system_has_name() {
    let sys = into_system_named(pure(always_true), "always_true");
    assert!(System::<u64>::name(&sys).contains("always_true"));
}

// -- Void-returning systems -----------------------------------------------

#[test]
fn arity_0_void_system() {
    let mut world = WorldBuilder::<u64>::new().build();
    let mut sys = into_void_system(pure(|_u: ()| ()));
    assert!(sys.run(&mut world));
}

#[test]
fn arity_n_void_system() {
    let mut builder = WorldBuilder::<u64>::new();
    let v = builder.register(K_U64, 0);
    let mut world = builder.build();
    let mut sys = into_void_system(res_mut(v, |_v: &u64, _u: ()| (99, ())));
    assert!(sys.run(&mut world));
    assert_eq!(*world.resource(K_U64), 99);
}

#[test]
fn box_dyn_void_system() {
    let mut builder = WorldBuilder::<u64>::new();
    let v = builder.register(K_U64, 0);
    let mut world = builder.build();
    let mut boxed: Box<dyn System<u64>> = Box::new(into_void_system(res_mut(v, |_v: &u64, _u: ()| (99, ()))));
    assert!(boxed.run(&mut world));
    assert_eq!(*world.resource(K_U64), 99);
}

#[test]
fn void_two_params_read_only() {
    let mut builder = WorldBuilder::<R>::new();
    let a = builder.register(K_U64, R::U(42));
    let c = builder.register(K_BOOL, R::B(true));
    let mut world = builder.build();
    let mut sys = into_void_system(res2(a, c, |val: &R, flag: &R, _u: ()| {
        let _ = (u(val), b(flag));
    }));
    assert!(sys.run(&mut world));
}

#[test]
fn void_two_params_mixed() {
    let mut builder = WorldBuilder::<R>::new();
    let a = builder.register(K_U64, R::U(0));
    let c = builder.register(K_BOOL, R::B(false));
    let mut world = builder.build();
    let chain = PipelineStart::<R, ()>::new()
        .then_step(res_mut(a, |_v: &R, _u: ()| (R::U(77), ())))
        .then_step(res_mut(c, |_v: &R, _u: ()| (R::B(true), ())))
        .chain;
    let mut sys = into_void_system(chain);
    assert!(sys.run(&mut world));
    assert_eq!(u(world.resource(K_U64)), 77);
    assert!(b(world.resource(K_BOOL)));
}

#[test]
fn void_local_persists() {
    let mut builder = WorldBuilder::<u64>::new();
    let v = builder.register(K_U64, 0);
    let mut world = builder.build();
    let chain = PipelineStart::<u64, ()>::new()
        .scan(0u64, |count: &u64, _u: ()| (*count + 1, *count + 1))
        .then_step(res_mut(v, |_out: &u64, count: u64| (count, ())))
        .chain;
    let mut sys = into_void_system(chain);
    assert!(sys.run(&mut world));
    assert_eq!(*world.resource(K_U64), 1);
    assert!(sys.run(&mut world));
    assert_eq!(*world.resource(K_U64), 2);
    assert!(sys.run(&mut world));
    assert_eq!(*world.resource(K_U64), 3);
}

#[test]
fn void_system_has_name() {
    let mut builder = WorldBuilder::<u64>::new();
    let v = builder.register(K_U64, 0);
    let sys = into_void_system_named(res_mut(v, |_v: &u64, _u: ()| (99u64, ())), "write_val");
    assert!(System::<u64>::name(&sys).contains("write_val"));
}

// -- Own checks --------------------------------------------------------------

#[test]
fn boxed_system_runs_through_wrapper() {
    let mut builder = WorldBuilder::<u64>::new();
    let v = builder.register(K_U64, 1);
    let mut world = builder.build();
    let mut boxed = BoxedSystem::new(into_system(res_mut(v, |x: &u64, _u: ()| (*x * 5, *x > 0))));
    assert!(boxed.0.run(&mut world));
    assert_eq!(*world.resource(K_U64), 5);
}

#[test]
fn default_system_name() {
    let sys = into_system(pure(always_true));
    assert_eq!(System::<u64>::name(&sys), "system");
}

#[test]
fn into_system_trait_builds_both_kinds() {
    let mut builder = WorldBuilder::<u64>::new();
    let v = builder.register(K_U64, 5);
    let mut world = builder.build();
    let mut decides = IntoSystem::<u64, bool>::into_system(res(v, |val: &u64, _u: ()| *val > 10));
    assert!(!decides.run(&mut world));
    assert_eq!(decides.name(), "system");
    let mut always = IntoSystem::<u64, ()>::into_system(pure(|_u: ()| ()));
    assert!(always.run(&mut world));
}
