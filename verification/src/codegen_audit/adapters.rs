//! Handler and adapter audit cases.
use vstd::prelude::*;
use crate::world::{World, ResourceId};
use crate::step::{named_res, named_res_mut, named_read, named_ref_res};
use crate::handler::{Handler, RefHandler, into_handler, into_ref_handler};
use crate::adapt::{ByRef, Cloned, Owned};
use crate::combinator::FanOut;
use crate::callback::{IntoCallback, named_ctx_res_mut};
use super::helpers::{ConsumeVal, StringLen, wadd, audit_shape};
use super::preds::{PeekA, RefPeekA, PeekAB, PeekABC};

verus! {

/// By-reference handler reading `ResA` behind an owned-event adapter.
pub fn adapt_by_ref(world: &mut World<u64>, input: u64)
    requires audit_shape(*old(world)),
    ensures *final(world) == *old(world),
{
    let inner = into_ref_handler(named_ref_res::<RefPeekA>(ResourceId(0)));
    let mut h = ByRef(inner);
    h.run(world, input);
}

/// Handler adding into `ResA`, given a clone of a borrowed event.
pub fn adapt_cloned(world: &mut World<u64>, input: &u64)
    requires audit_shape(*old(world)),
    ensures final(world)@ == old(world)@.write(ResourceId(0), wadd(old(world)@.values[0], *input)),
{
    let inner = into_handler(named_res_mut::<ConsumeVal>(ResourceId(0)));
    let mut h = Cloned(inner);
    h.run(world, input);
}


/// Two read-only by-reference handlers.
pub fn fanout_2(world: &mut World<u64>, input: u64)
    requires audit_shape(*old(world)),
    ensures *final(world) == *old(world),
{
    let h1 = into_ref_handler(named_ref_res::<RefPeekA>(ResourceId(0)));
    let h2 = into_ref_handler(named_ref_res::<RefPeekA>(ResourceId(0)));
    let mut fan = FanOut((h1, h2));
    fan.run(world, input);
}

/// Four read-only by-reference handlers.
pub fn fanout_4(world: &mut World<u64>, input: u64)
    requires audit_shape(*old(world)),
    ensures *final(world) == *old(world),
{
    let h1 = into_ref_handler(named_ref_res::<RefPeekA>(ResourceId(0)));
    let h2 = into_ref_handler(named_ref_res::<RefPeekA>(ResourceId(0)));
    let h3 = into_ref_handler(named_ref_res::<RefPeekA>(ResourceId(0)));
    let h4 = into_ref_handler(named_ref_res::<RefPeekA>(ResourceId(0)));
    let mut fan = FanOut((h1, h2, h3, h4));
    fan.run(world, input);
}

/// Eight read-only by-reference handlers.
pub fn fanout_8(world: &mut World<u64>, input: u64)
    requires audit_shape(*old(world)),
    ensures *final(world) == *old(world),
{
    let h1 = into_ref_handler(named_ref_res::<RefPeekA>(ResourceId(0)));
    let h2 = into_ref_handler(named_ref_res::<RefPeekA>(ResourceId(0)));
    let h3 = into_ref_handler(named_ref_res::<RefPeekA>(ResourceId(0)));
    let h4 = into_ref_handler(named_ref_res::<RefPeekA>(ResourceId(0)));
    let h5 = into_ref_handler(named_ref_res::<RefPeekA>(ResourceId(0)));
    let h6 = into_ref_handler(named_ref_res::<RefPeekA>(ResourceId(0)));
    let h7 = into_ref_handler(named_ref_res::<RefPeekA>(ResourceId(0)));
    let h8 = into_ref_handler(named_ref_res::<RefPeekA>(ResourceId(0)));
    let mut fan = FanOut((h1, h2, h3, h4, h5, h6, h7, h8));
    fan.run(world, input);
}

/// A handler adding the event into `ResA`.
pub fn handler_0_param_dispatch(world: &mut World<u64>, input: u64)
    requires audit_shape(*old(world)),
    ensures final(world)@ == old(world)@.write(ResourceId(0), wadd(old(world)@.values[0], input)),
{
    let mut h = into_handler(named_res_mut::<ConsumeVal>(ResourceId(0)));
    h.run(world, input);
}

/// A handler reading one resource.
pub fn handler_1_param_dispatch(world: &mut World<u64>, input: u64)
    requires audit_shape(*old(world)),
    ensures *final(world) == *old(world),
{
    let mut h = into_handler(named_res::<PeekA>(ResourceId(0)));
    h.run(world, input);
}

/// A handler reading two resources.
pub fn handler_2_param_dispatch(world: &mut World<u64>, input: u64)
    requires audit_shape(*old(world)),
    ensures *final(world) == *old(world),
{
    let mut h = into_handler(named_read::<PeekAB>());
    h.run(world, input);
}

/// A handler reading three resources.
pub fn handler_3_param_dispatch(world: &mut World<u64>, input: u64)
    requires audit_shape(*old(world)),
    ensures *final(world) == *old(world),
{
    let mut h = into_handler(named_read::<PeekABC>());
    h.run(world, input);
}

/// Clone of an owned-event adapter around a by-reference handler.
pub fn adapt_nested(world: &mut World<u64>, input: &u64)
    requires audit_shape(*old(world)),
    ensures *final(world) == *old(world),
{
    let inner = into_ref_handler(named_ref_res::<RefPeekA>(ResourceId(0)));
    let mut h = Cloned(ByRef(inner));
    h.run(world, input);
}

/// A fan-out mixing a cloned owned-event handler with two readers.
pub fn adapt_in_fanout(world: &mut World<u64>, input: u64)
    requires audit_shape(*old(world)),
    ensures final(world)@ == old(world)@.write(ResourceId(0), wadd(old(world)@.values[0], input)),
{
    let h1 = into_ref_handler(named_ref_res::<RefPeekA>(ResourceId(0)));
    let h2 = into_handler(named_res_mut::<ConsumeVal>(ResourceId(0)));
    let h3 = into_ref_handler(named_ref_res::<RefPeekA>(ResourceId(0)));
    let mut fan = FanOut((Cloned(h2), h1, h3));
    fan.run(world, input);
}


/// A string handler storing the byte length in `ResA`, given a clone of a
/// borrowed `String`.
pub fn adapt_cloned_string(world: &mut World<u64>, input: &String)
    requires audit_shape(*old(world)),
    ensures
        final(world)@ == old(world)@.write(ResourceId(0), (vstd::utf8::encode_utf8(input@).len() as usize) as u64),
{
    let inner = into_handler(named_res_mut::<StringLen>(ResourceId(0)));
    let mut h = Cloned(inner);
    h.run(world, input);
}

/// A string handler storing the byte length in `ResA`, given an owned copy
/// of a borrowed `str` (`ToOwned`).
pub fn adapt_owned_str(world: &mut World<u64>, input: &str)
    requires audit_shape(*old(world)),
    ensures
        final(world)@ == old(world)@.write(ResourceId(0), (vstd::utf8::encode_utf8(input@).len() as usize) as u64),
{
    let inner = into_handler(named_res_mut::<StringLen>(ResourceId(0)));
    let mut h = Owned::<_, str>::new(inner);
    h.run(world, input);
}

/// The context of [`callback_dispatch`]: a count of the events seen.
pub struct CounterCtx {
    /// Events seen.
    pub count: u64,
}

/// Count the event, then add the event and the new count into `ResA`.
pub fn callback_handler(ctx: &CounterCtx, a: &u64, x: u64) -> (r: (CounterCtx, u64))
    requires ctx.count < u64::MAX,
    ensures r.0.count == ctx.count + 1, r.1 == wadd(wadd(*a, x), (ctx.count + 1) as u64),
{
    let c = ctx.count + 1;
    (CounterCtx { count: c }, a.wrapping_add(x).wrapping_add(c))
}

/// [`callback_handler`] as a callback step.
pub struct CountTick;

impl crate::callback::CtxResMutFn<u64, CounterCtx, u64> for CountTick {
    open spec fn ctx_res_mut_pre(c: CounterCtx, v: u64, e: u64) -> bool {
        c.count < u64::MAX
    }

    open spec fn ctx_res_mut_spec(c: CounterCtx, v: u64, e: u64) -> (CounterCtx, u64) {
        (CounterCtx { count: (c.count + 1) as u64 }, wadd(wadd(v, e), (c.count + 1) as u64))
    }

    fn ctx_res_mut_call(c: &CounterCtx, v: &u64, e: u64) -> (r: (CounterCtx, u64)) {
        callback_handler(c, v, e)
    }
}

/// A callback owning a fresh counter: the first event counts one.
pub fn callback_dispatch(world: &mut World<u64>, input: u64)
    requires audit_shape(*old(world)),
    ensures final(world)@ == old(world)@.write(ResourceId(0), wadd(wadd(old(world)@.values[0], input), 1)),
{
    let mut h = named_ctx_res_mut::<CountTick>(ResourceId(0)).into_callback(CounterCtx { count: 0 });
    h.run(world, input);
}

} // verus!
