use nexus_rt::codegen_audit::adapters::{adapt_cloned_string, adapt_owned_str, callback_dispatch, CountTick, CounterCtx};
use nexus_rt::callback::{named_ctx_res_mut, IntoCallback};
use nexus_rt::handler::Handler;
use nexus_rt::world::ResourceId;
use nexus_rt::codegen_audit::helpers::{CountCalls, KEY_A, KEY_B, KEY_C, KEY_D};
use nexus_rt::step::named_local;
use nexus_rt::codegen_audit::helpers::make_world;
use nexus_rt::codegen_audit::pipeline::{pipe_world_local, pipe_splat2_start, pipe_dispatch_fanout2, pipe_dispatch_fanout4, pipe_guard_large_type, pipe_splat_large_types, pipe_cloned_bare, pipe_cloned_copy_type, pipe_cloned_option, pipe_cloned_result};
use nexus_rt::codegen_audit::stress::{stress_pipe_dedup_in_batch, stress_pipe_large_type, stress_pipe_30_steps, stress_pipe_50_steps};
use nexus_rt::codegen_audit::dag::{dag_route_nested, dag_dispatch_fanout, dag_cloned_bare, dag_cloned_option, dag_cloned_result, dag_filter_in_arm, dag_route_in_arm, dag_transition_guard_ok_or};
use nexus_rt::pipeline::{resolve_producer, resolve_ref_scan_step, resolve_ref_step, resolve_scan_step, PipelineStart};
use nexus_rt::step::{pure, ref_pure, res, Step, RefStep};
use nexus_rt::world::WorldBuilder;

// The ten steps of one block of the long chains.
fn lin10(x: u64) -> u64 {
    let x = x.wrapping_add(1);
    let x = x.wrapping_mul(2);
    let x = x.wrapping_add(3);
    let x = x.wrapping_mul(x);
    let x = x.wrapping_sub(10);
    let x = x >> 1;
    let x = x ^ 0xDEAD_BEEF;
    let x = x.wrapping_add(7);
    let x = x.wrapping_mul(3);
    x.wrapping_add(42)
}

#[test]
fn fifty_step_chain_composes_five_blocks() {
    let mut world = make_world();
    for input in [0u64, 1, 7, 12345, u64::MAX] {
        let expected = lin10(lin10(lin10(lin10(lin10(input)))));
        assert_eq!(stress_pipe_50_steps(&mut world, input), expected);
    }
}

#[test]
fn thirty_step_chain_composes_three_blocks() {
    let mut world = make_world();
    assert_eq!(stress_pipe_30_steps(&mut world, 5), lin10(lin10(lin10(5))));
}

#[test]
fn dag_guard_and_filter_inside_arm() {
    // A = 100 initially; the merged value is added into A.
    let mut world = make_world();
    dag_filter_in_arm(&mut world, 20);
    // root 21; arm one: 22 > 10 and < 1000 → 22; arm two: 42; merged 64.
    assert_eq!(*world.resource(nexus_rt::codegen_audit::helpers::KEY_A), 164);
}

#[test]
fn dag_route_inside_arm() {
    let mut world = make_world();
    dag_route_in_arm(&mut world, 60);
    // root 61; arm one: 62 > 50 → 124; arm two: 68; merged 192.
    assert_eq!(*world.resource(nexus_rt::codegen_audit::helpers::KEY_A), 292);
}

#[test]
fn dag_guard_to_result_and_back() {
    let mut world = make_world();
    dag_transition_guard_ok_or(&mut world, 4);
    assert_eq!(*world.resource(nexus_rt::codegen_audit::helpers::KEY_A), 105);
}

#[test]
fn resolved_steps_run_as_given() {
    let mut wb = WorldBuilder::<u64>::new();
    let a = wb.register(1, 10);
    let mut world = wb.build();
    let mut r = resolve_ref_step::<u64, u64, u64, _>(ref_pure(|x: &u64| *x + 1));
    assert_eq!(RefStep::call(&mut r, &mut world, &4), 5);
    let mut p = resolve_producer::<u64, u64, _>(res(a, |v: &u64, _u: ()| *v));
    assert_eq!(Step::call(&mut p, &mut world, ()), 10);
    let mut s = resolve_scan_step(0u64, |acc: &u64, x: u64| (*acc + x, *acc + x));
    assert_eq!(Step::<u64, u64, u64>::call(&mut s, &mut world, 3), 3);
    assert_eq!(Step::<u64, u64, u64>::call(&mut s, &mut world, 4), 7);
    let mut q = PipelineStart::<u64, u64>::new().then_step(pure(|x: u64| x * 2));
    assert_eq!(q.run(&mut world, 21), 42);
}

#[test]
fn audit_pipe_cloned_values() {
    let mut world = make_world();
    assert_eq!(pipe_cloned_bare(&mut world, 21), 42);
    assert_eq!(pipe_cloned_copy_type(&mut world, 5), 10);
    assert_eq!(pipe_cloned_option(&mut world, 9), 9);
    assert_eq!(pipe_cloned_option(&mut world, 0), 0);
    assert_eq!(pipe_cloned_result(&mut world, 9_999), 9_999);
    assert_eq!(pipe_cloned_result(&mut world, 10_000), 0);
}

#[test]
fn audit_dag_cloned_writes_sink() {
    let key = nexus_rt::codegen_audit::helpers::KEY_A;
    let mut world = make_world();
    dag_cloned_bare(&mut world, 4);
    assert_eq!(*world.resource(key), 105);
    dag_cloned_option(&mut world, 0);
    assert_eq!(*world.resource(key), 105);
    dag_cloned_option(&mut world, 5);
    assert_eq!(*world.resource(key), 110);
    dag_cloned_result(&mut world, 20_000);
    assert_eq!(*world.resource(key), 110);
    dag_cloned_result(&mut world, 10);
    assert_eq!(*world.resource(key), 120);
}

#[test]
fn resolved_ref_scan_keeps_running_total() {
    let mut world = WorldBuilder::<u64>::new().build();
    let mut s = resolve_ref_scan_step(100u64, |acc: &u64, x: &u64| (*acc + *x, *acc + *x));
    assert_eq!(RefStep::<u64, u64, u64>::call(&mut s, &mut world, &10), 110);
    assert_eq!(RefStep::<u64, u64, u64>::call(&mut s, &mut world, &20), 130);
    assert_eq!(s.acc, 130);
}

#[test]
fn audit_large_values() {
    let mut world = make_world();
    let mut bytes = [0u8; 256];
    assert_eq!(pipe_guard_large_type(&mut world, bytes), None);
    bytes[0] = 3;
    bytes[255] = 9;
    assert_eq!(pipe_guard_large_type(&mut world, bytes), Some(bytes));
    assert_eq!(pipe_splat_large_types(&mut world, 0x0203), 5);
    assert_eq!(pipe_splat_large_types(&mut world, 0xFFFF), 510);
    let big = stress_pipe_large_type(&mut world, 0x1FF);
    assert_eq!(big[0], 0xFF);
    assert_eq!(big[1], 0);
    assert!(big[2..].iter().all(|b| *b == 0));
}

#[test]
fn audit_fanout_dispatch_reaches_every_sink() {
    let mut world = make_world();
    pipe_dispatch_fanout2(&mut world, 4);
    assert_eq!(*world.resource(KEY_A), 105);
    assert_eq!(*world.resource(KEY_B), 55);
    assert_eq!(*world.resource(KEY_C), 25);

    let mut world = make_world();
    pipe_dispatch_fanout4(&mut world, 299);
    assert_eq!(*world.resource(KEY_A), 400);
    assert_eq!(*world.resource(KEY_B), 350);
    assert_eq!(*world.resource(KEY_C), 325);
    assert_eq!(*world.resource(KEY_D), 54);

    let mut world = make_world();
    dag_dispatch_fanout(&mut world, 4);
    assert_eq!(*world.resource(KEY_A), 110);
    assert_eq!(*world.resource(KEY_B), 60);
}

#[test]
fn audit_nested_route_three_ways() {
    for (input, expected) in [(120u64, 342u64), (60, 283), (10, 112)] {
        let mut world = make_world();
        dag_route_nested(&mut world, input);
        assert_eq!(*world.resource(KEY_A), expected);
    }
}

#[test]
fn audit_splat_of_start_pair() {
    let mut world = make_world();
    assert_eq!(pipe_splat2_start(&mut world, (3, 4)), 7);
    assert_eq!(pipe_splat2_start(&mut world, (u32::MAX, u32::MAX)), 2 * u32::MAX as u64);
}

#[test]
fn audit_dedup_in_batch_keeps_distinct_values() {
    let mut world = make_world();
    stress_pipe_dedup_in_batch(&mut world);
    // 100 + sum over 0..64 of 2 * (x + 1)
    assert_eq!(*world.resource(KEY_A), 100 + 64 * 65);
}

#[test]
fn audit_local_counter_counts_calls() {
    let mut world = make_world();
    assert_eq!(pipe_world_local(&mut world, 41), 42);
    assert_eq!(pipe_world_local(&mut world, 41), 42);
    let mut p = PipelineStart::<u64, u64>::new().then_step(named_local::<u64, CountCalls>(0));
    assert_eq!(p.run(&mut world, 10), 11);
    assert_eq!(p.run(&mut world, 10), 12);
    assert_eq!(p.run(&mut world, 10), 13);
}

#[test]
fn audit_string_adapters_store_byte_length() {
    let mut world = make_world();
    adapt_cloned_string(&mut world, &String::from("héllo"));
    assert_eq!(*world.resource(KEY_A), 6);
    adapt_owned_str(&mut world, "abc");
    assert_eq!(*world.resource(KEY_A), 3);
    assert_eq!(*world.resource(KEY_B), 50);
}

#[test]
fn audit_callback_counts_events() {
    let mut world = make_world();
    callback_dispatch(&mut world, 5);
    assert_eq!(*world.resource(KEY_A), 106);

    let mut world = make_world();
    let mut h = named_ctx_res_mut::<CountTick>(ResourceId(0)).into_callback(CounterCtx { count: 0 });
    h.run(&mut world, 0);
    h.run(&mut world, 0);
    h.run(&mut world, 0);
    assert_eq!(h.ctx.count, 3);
    assert_eq!(*world.resource(KEY_A), 106);
}
