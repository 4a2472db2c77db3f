use nexus_rt::adapt::{slice_to_owned, Adapt, ByRef, Cloned, Owned};
use nexus_rt::handler::{into_handler, into_handler_named, into_ref_handler, Handler, RefHandler};
use nexus_rt::step::{ref_res_mut, res_mut};
use nexus_rt::world::WorldBuilder;

struct WireMsg(u32);

fn decode_wire(wire: &WireMsg) -> Option<u64> {
    Some(wire.0 as u64)
}

fn decode_filter(wire: &WireMsg) -> Option<u64> {
    if wire.0 > 0 { Some(wire.0 as u64) } else { None }
}

fn accumulate(counter: &u64, event: u64) -> (u64, ()) {
    (*counter + event, ())
}

fn ref_accumulate(counter: &u64, event: &u64) -> (u64, ()) {
    (*counter + *event, ())
}

const K_U64: u64 = 1;

#[test]
fn dispatch_decodes_and_forwards() {
    let mut builder = WorldBuilder::<u64>::new();
    let c = builder.register(K_U64, 0);
    let mut world = builder.build();
    let handler = into_handler(res_mut(c, accumulate));
    let mut adapted = Adapt::new(decode_wire, handler);
    adapted.run(&mut world, &WireMsg(10));
    adapted.run(&mut world, &WireMsg(5));
    assert_eq!(*world.resource(K_U64), 15);
}

#[test]
fn none_skips_dispatch() {
    let mut builder = WorldBuilder::<u64>::new();
    let c = builder.register(K_U64, 0);
    let mut world = builder.build();
    let handler = into_handler(res_mut(c, accumulate));
    let mut adapted = Adapt::new(decode_filter, handler);
    adapted.run(&mut world, &WireMsg(10));
    adapted.run(&mut world, &WireMsg(0));
    adapted.run(&mut world, &WireMsg(3));
    assert_eq!(*world.resource(K_U64), 13);
}

#[test]
fn delegates_name() {
    let mut builder = WorldBuilder::<u64>::new();
    let c = builder.register(K_U64, 0);
    let handler = into_handler_named(res_mut(c, accumulate), "accumulate");
    let expected = Handler::<u64, u64>::name(&handler);
    let adapted = Adapt::new(decode_wire, handler);
    assert_eq!(Handler::<u64, &WireMsg>::name(&adapted), expected);
}

// -- ByRef ----------------------------------------------------------------

#[test]
fn by_ref_dispatch() {
    let mut builder = WorldBuilder::<u64>::new();
    let c = builder.register(K_U64, 0);
    let mut world = builder.build();
    let h = into_ref_handler(ref_res_mut(c, ref_accumulate));
    let mut adapted = ByRef(h);
    adapted.run(&mut world, 10u64);
    adapted.run(&mut world, 5u64);
    assert_eq!(*world.resource(K_U64), 15);
}

#[test]
fn by_ref_delegates_name() {
    let mut builder = WorldBuilder::<u64>::new();
    let c = builder.register(K_U64, 0);
    let handler = into_ref_handler(ref_res_mut(c, ref_accumulate));
    let expected = RefHandler::<u64, u64>::name(&handler);
    let adapted = ByRef(handler);
    assert_eq!(Handler::<u64, u64>::name(&adapted), expected);
}

// -- Cloned ---------------------------------------------------------------

#[test]
fn cloned_dispatch() {
    let mut builder = WorldBuilder::<u64>::new();
    let c = builder.register(K_U64, 0);
    let mut world = builder.build();
    let h = into_handler(res_mut(c, accumulate));
    let mut adapted = Cloned(h);
    adapted.run(&mut world, &10u64);
    adapted.run(&mut world, &5u64);
    assert_eq!(*world.resource(K_U64), 15);
}

#[test]
fn cloned_delegates_name() {
    let mut builder = WorldBuilder::<u64>::new();
    let c = builder.register(K_U64, 0);
    let handler = into_handler_named(res_mut(c, accumulate), "accumulate");
    let expected = Handler::<u64, u64>::name(&handler);
    let adapted = Cloned(handler);
    assert_eq!(RefHandler::<u64, u64>::name(&adapted), expected);
}

#[test]
fn cloned_copy_type() {
    let mut builder = WorldBuilder::<u64>::new();
    let c = builder.register(K_U64, 0);
    let mut world = builder.build();
    let h = into_handler(res_mut(c, |counter: &u64, event: u32| (*counter + event as u64, ())));
    let mut adapted = Cloned(h);
    adapted.run(&mut world, &42u32);
    assert_eq!(*world.resource(K_U64), 42);
}

// -- Owned ----------------------------------------------------------------

fn append_string(buf: &String, event: String) -> (String, ()) {
    let mut next = buf.clone();
    next.push_str(&event);
    (next, ())
}

#[test]
fn owned_str_to_string() {
    let mut builder = WorldBuilder::<String>::new();
    let b = builder.register(K_U64, String::new());
    let mut world = builder.build();
    let h = into_handler(res_mut(b, append_string));
    let mut adapted = Owned::<_, str>::new(h);
    adapted.run(&mut world, "hello");
    adapted.run(&mut world, " world");
    assert_eq!(world.resource(K_U64).as_str(), "hello world");
}

#[test]
fn owned_delegates_name() {
    let mut builder = WorldBuilder::<String>::new();
    let b = builder.register(K_U64, String::new());
    let handler = into_handler_named(res_mut(b, append_string), "append_string");
    let expected = Handler::<String, String>::name(&handler);
    let adapted = Owned::<_, str>::new(handler);
    assert_eq!(Handler::<String, &str>::name(&adapted), expected);
}

#[test]
fn owned_clone_type() {
    let mut builder = WorldBuilder::<u64>::new();
    let c = builder.register(K_U64, 0);
    let mut world = builder.build();
    let h = into_handler(res_mut(c, accumulate));
    let mut adapted = Owned::<_, u64>::new(h);
    adapted.run(&mut world, &10u64);
    adapted.run(&mut world, &5u64);
    assert_eq!(*world.resource(K_U64), 15);
}

#[test]
fn owned_slice_to_vec() {
    let mut builder = WorldBuilder::<u64>::new();
    let c = builder.register(K_U64, 0);
    let mut world = builder.build();
    let h = into_handler(res_mut(c, |acc: &u64, v: Vec<u64>| (*acc + v.iter().sum::<u64>() + v.len() as u64 * 100, ())));
    let mut adapted = Owned::<_, [u64]>::new(h);
    adapted.run(&mut world, &[1u64, 2, 3][..]);
    assert_eq!(*world.resource(K_U64), 306);
}

#[test]
fn slice_to_owned_clones_in_order() {
    assert_eq!(slice_to_owned(&[3u8, 1, 2][..]), vec![3u8, 1, 2]);
    assert_eq!(slice_to_owned::<u8>(&[][..]), Vec::<u8>::new());
}
