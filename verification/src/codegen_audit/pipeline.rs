//! Pipeline audit cases.
use vstd::prelude::*;
use crate::world::{World, ResourceId};
use crate::step::{named_local, named, named_ref, named_res, named_res_mut, named_read, named_ref_res_mut, Step};
use crate::pipeline::{PipelineStart, PipelineBuilder, Ident};
use crate::dag::DagArmStart;
use crate::handler::{into_handler, into_ref_handler};
use crate::combinator::FanOut;
use super::helpers::{CountCalls, RefSinkB, RefSinkC, RefSinkD, PassRef, MaybeBorrowed, TryBorrowed, SameBytes, FirstByteSet, MakePair, CombinePair, AddBoth, AddFortyTwo, AddOne, AddResA, AddSeven, AddThree, CheckedDouble, ConsumeVal, Double, IsEven, MaybePositive, RefAddOne, RefAddThree, RefConsume, RefDouble, RefSquare, ShrOne, Split3, Split4, Split5, SplitU64, Square, SubTen, ThreeParams, Triple, TryParse, WriteResA, XorMask, wadd, wmul, wsub, lin10, audit_shape};
use super::preds::{BoolToU64, CheckChanged, CheckSince, FortyTwo, GtFifty, GtFive, GtHundred, GtTen, GtTwentyFive, GtZero, IsTrue, LogError, LowBitClear, LtFifty, LtTenThousand, LtThousand, No, Nothing, Observe, ObserveErr, RecoverWide, Splat3, Splat4, Splat5, SplatAdd, SplatWithRes, StampAndPass, SwitchBasic, SwitchThreeWay, TwiceAndOne, UnitToFortyTwo, Widen, WidenErr, Yes, Zero};

verus! {

/// One step: `add_one`.
pub fn pipe_linear_1(world: &mut World<u64>, input: u64) -> (r: u64)
    ensures r == wadd(input, 1), *final(world) == *old(world),
{
    let mut p = PipelineStart::new().then_step(named::<AddOne>());
    p.run(world, input)
}

/// Twenty pure steps.
pub fn pipe_linear_20(world: &mut World<u64>, input: u64) -> (r: u64)
    ensures *final(world) == *old(world), r == lin10(lin10(input)),
{
    let mut p = PipelineStart::new()
        .then_step(named::<AddOne>())
        .then_step(named::<Double>())
        .then_step(named::<AddThree>())
        .then_step(named::<Square>())
        .then_step(named::<SubTen>())
        .then_step(named::<ShrOne>())
        .then_step(named::<XorMask>())
        .then_step(named::<AddSeven>())
        .then_step(named::<Triple>())
        .then_step(named::<AddFortyTwo>())
        .then_step(named::<AddOne>())
        .then_step(named::<Double>())
        .then_step(named::<AddThree>())
        .then_step(named::<Square>())
        .then_step(named::<SubTen>())
        .then_step(named::<ShrOne>())
        .then_step(named::<XorMask>())
        .then_step(named::<AddSeven>())
        .then_step(named::<Triple>())
        .then_step(named::<AddFortyTwo>());
    p.run(world, input)
}


/// Two steps.
pub fn pipe_linear_2(world: &mut World<u64>, input: u64) -> (r: u64)
    requires audit_shape(*old(world)),
    ensures
        ({
            let w0 = old(world)@;
            let v1 = wadd((input), 1);
            let v2 = wmul((v1), 2);
            r == v2 && final(world)@ == w0
        }),
{
    let mut p = PipelineStart::new()
        .then_step(named::<AddOne>())
        .then_step(named::<Double>());
    p.run(world, input)
}

/// Three steps.
pub fn pipe_linear_3(world: &mut World<u64>, input: u64) -> (r: u64)
    requires audit_shape(*old(world)),
    ensures
        ({
            let w0 = old(world)@;
            let v1 = wadd((input), 1);
            let v2 = wmul((v1), 2);
            let v3 = wadd((v2), 3);
            r == v3 && final(world)@ == w0
        }),
{
    let mut p = PipelineStart::new()
        .then_step(named::<AddOne>())
        .then_step(named::<Double>())
        .then_step(named::<AddThree>());
    p.run(world, input)
}

/// Five steps.
pub fn pipe_linear_5(world: &mut World<u64>, input: u64) -> (r: u64)
    requires audit_shape(*old(world)),
    ensures
        ({
            let w0 = old(world)@;
            let v1 = wadd((input), 1);
            let v2 = wmul((v1), 2);
            let v3 = wadd((v2), 3);
            let v4 = wmul((v3), (v3));
            let v5 = wsub((v4), 10);
            r == v5 && final(world)@ == w0
        }),
{
    let mut p = PipelineStart::new()
        .then_step(named::<AddOne>())
        .then_step(named::<Double>())
        .then_step(named::<AddThree>())
        .then_step(named::<Square>())
        .then_step(named::<SubTen>());
    p.run(world, input)
}

/// Ten steps.
pub fn pipe_linear_10(world: &mut World<u64>, input: u64) -> (r: u64)
    requires audit_shape(*old(world)),
    ensures
        ({
            let w0 = old(world)@;
            let v1 = wadd((input), 1);
            let v2 = wmul((v1), 2);
            let v3 = wadd((v2), 3);
            let v4 = wmul((v3), (v3));
            let v5 = wsub((v4), 10);
            let v6 = (v5) / 2;
            let v7 = (v6) ^ 0xDEAD_BEEF;
            let v8 = wadd((v7), 7);
            let v9 = wmul((v8), 3);
            let v10 = wadd((v9), 42);
            r == v10 && final(world)@ == w0
        }),
{
    let mut p = PipelineStart::new()
        .then_step(named::<AddOne>())
        .then_step(named::<Double>())
        .then_step(named::<AddThree>())
        .then_step(named::<Square>())
        .then_step(named::<SubTen>())
        .then_step(named::<ShrOne>())
        .then_step(named::<XorMask>())
        .then_step(named::<AddSeven>())
        .then_step(named::<Triple>())
        .then_step(named::<AddFortyTwo>());
    p.run(world, input)
}

/// Three steps without resource parameters.
pub fn pipe_linear_0_params(world: &mut World<u64>, input: u64) -> (r: u64)
    requires audit_shape(*old(world)),
    ensures
        ({
            let w0 = old(world)@;
            let v1 = wadd((input), 1);
            let v2 = wmul((v1), 2);
            let v3 = wadd((v2), 3);
            r == v3 && final(world)@ == w0
        }),
{
    let mut p = PipelineStart::new()
        .then_step(named::<AddOne>())
        .then_step(named::<Double>())
        .then_step(named::<AddThree>());
    p.run(world, input)
}

/// Steps with zero to three resource parameters.
pub fn pipe_linear_mixed_arity(world: &mut World<u64>, input: u64) -> (r: u64)
    requires audit_shape(*old(world)),
    ensures
        ({
            let w0 = old(world)@;
            let v1 = wadd((input), 1);
            let v2 = wadd((v1), (w0.values[0]));
            let t3 = (wadd((w0.values[0]), (v2)), (v2));
            let w4 = w0.write(ResourceId(0), t3.0);
            let v5 = t3.1;
            let v6 = wadd(wadd((v5), (w4).values[0]), (w4).values[1]);
            let v7 = wadd(wadd(wadd((v6), (w4).values[0]), (w4).values[1]), (w4).values[2]);
            r == v7 && final(world)@ == w4
        }),
{
    let mut p = PipelineStart::new()
        .then_step(named::<AddOne>())
        .then_step(named_res::<AddResA>(ResourceId(0)))
        .then_step(named_res_mut::<WriteResA>(ResourceId(0)))
        .then_step(named_read::<AddBoth>())
        .then_step(named_read::<ThreeParams>());
    p.run(world, input)
}

/// Guard and a no-op inspect.
pub fn pipe_guard_basic(world: &mut World<u64>, input: u64) -> (r: Option<u64>)
    requires audit_shape(*old(world)),
    ensures
        ({
            let w0 = old(world)@;
            let v1 = wadd((input), 1);
            let v2 = if (v1) > 10 { Some(v1) } else { Option::<u64>::None };
            r == v2 && final(world)@ == w0
        }),
{
    let mut p = PipelineStart::new()
        .then_step(named::<AddOne>())
        .guard(named_ref::<GtTen>())
        .inspect(named_ref::<Observe>());
    p.run(world, input)
}

/// Guard, map, default.
pub fn pipe_guard_then(world: &mut World<u64>, input: u64) -> (r: u64)
    requires audit_shape(*old(world)),
    ensures
        ({
            let w0 = old(world)@;
            let v1 = wadd((input), 1);
            let v2 = if (v1) > 10 { Some(v1) } else { Option::<u64>::None };
            let v3 = match v2 { Some(t) => Some(wmul((t), 2)), None => Option::<u64>::None };
            let v4 = match v3 { Some(t) => t, None => 0u64 };
            r == v4 && final(world)@ == w0
        }),
{
    let mut p = PipelineStart::new()
        .then_step(named::<AddOne>())
        .guard(named_ref::<GtTen>())
        .map(named::<Double>())
        .unwrap_or(0);
    p.run(world, input)
}

/// Guard, filter, default.
pub fn pipe_filter_basic(world: &mut World<u64>, input: u64) -> (r: u64)
    requires audit_shape(*old(world)),
    ensures
        ({
            let w0 = old(world)@;
            let v1 = wadd((input), 1);
            let v2 = if (v1) > 10 { Some(v1) } else { Option::<u64>::None };
            let v3 = match v2 { Some(t) => if (t) < 1000 { Some(t) } else { Option::<u64>::None }, None => Option::<u64>::None };
            let v4 = match v3 { Some(t) => t, None => 0u64 };
            r == v4 && final(world)@ == w0
        }),
{
    let mut p = PipelineStart::new()
        .then_step(named::<AddOne>())
        .guard(named_ref::<GtTen>())
        .filter(named_ref::<LtThousand>())
        .unwrap_or(0);
    p.run(world, input)
}

/// Dedup of a fresh pipeline and a no-op inspect.
pub fn pipe_dedup(world: &mut World<u64>, input: u64) -> (r: Option<u64>)
    requires audit_shape(*old(world)),
    ensures
        ({
            let w0 = old(world)@;
            let v1 = wadd((input), 1);
            let v2 = Some(v1);
            r == v2 && final(world)@ == w0
        }),
{
    let mut p = PipelineStart::new()
        .then_step(named::<AddOne>())
        .dedup()
        .inspect(named_ref::<Observe>());
    p.run(world, input)
}

/// Dedup, map, default.
pub fn pipe_dedup_chain(world: &mut World<u64>, input: u64) -> (r: u64)
    requires audit_shape(*old(world)),
    ensures
        ({
            let w0 = old(world)@;
            let v1 = wadd((input), 1);
            let v2 = Some(v1);
            let v3 = match v2 { Some(t) => Some(wmul((t), 2)), None => Option::<u64>::None };
            let v4 = match v3 { Some(t) => t, None => 0u64 };
            r == v4 && final(world)@ == w0
        }),
{
    let mut p = PipelineStart::new()
        .then_step(named::<AddOne>())
        .dedup()
        .map(named::<Double>())
        .unwrap_or_else(named::<Zero>());
    p.run(world, input)
}

/// Map over an option.
pub fn pipe_opt_map(world: &mut World<u64>, input: u64) -> (r: Option<u64>)
    requires audit_shape(*old(world)),
    ensures
        ({
            let w0 = old(world)@;
            let v1 = if (input) > 0 { Some((input)) } else { Option::<u64>::None };
            let v2 = match v1 { Some(t) => Some(wmul((t), 2)), None => Option::<u64>::None };
            r == v2 && final(world)@ == w0
        }),
{
    let mut p = PipelineStart::new()
        .then_step(named::<MaybePositive>())
        .map(named::<Double>());
    p.run(world, input)
}

/// Option and-then.
pub fn pipe_opt_and_then(world: &mut World<u64>, input: u64) -> (r: Option<u64>)
    requires audit_shape(*old(world)),
    ensures
        ({
            let w0 = old(world)@;
            let v1 = if (input) > 0 { Some((input)) } else { Option::<u64>::None };
            let v2 = match v1 { Some(t) => if (t) * 2 <= u64::MAX { Some(((t) * 2) as u64) } else { Option::<u64>::None }, None => Option::<u64>::None };
            r == v2 && final(world)@ == w0
        }),
{
    let mut p = PipelineStart::new()
        .then_step(named::<MaybePositive>())
        .and_then(named::<CheckedDouble>());
    p.run(world, input)
}

/// Option filter.
pub fn pipe_opt_filter(world: &mut World<u64>, input: u64) -> (r: Option<u64>)
    requires audit_shape(*old(world)),
    ensures
        ({
            let w0 = old(world)@;
            let v1 = if (input) > 0 { Some((input)) } else { Option::<u64>::None };
            let v2 = match v1 { Some(t) => if (t) < 1000 { Some(t) } else { Option::<u64>::None }, None => Option::<u64>::None };
            r == v2 && final(world)@ == w0
        }),
{
    let mut p = PipelineStart::new()
        .then_step(named::<MaybePositive>())
        .filter(named_ref::<LtThousand>());
    p.run(world, input)
}

/// Option inspect.
pub fn pipe_opt_inspect(world: &mut World<u64>, input: u64) -> (r: Option<u64>)
    requires audit_shape(*old(world)),
    ensures
        ({
            let w0 = old(world)@;
            let v1 = if (input) > 0 { Some((input)) } else { Option::<u64>::None };
            r == v1 && final(world)@ == w0
        }),
{
    let mut p = PipelineStart::new()
        .then_step(named::<MaybePositive>())
        .inspect(named_ref::<Observe>());
    p.run(world, input)
}

/// Option on-none.
pub fn pipe_opt_on_none(world: &mut World<u64>, input: u64) -> (r: Option<u64>)
    requires audit_shape(*old(world)),
    ensures
        ({
            let w0 = old(world)@;
            let v1 = if (input) > 0 { Some((input)) } else { Option::<u64>::None };
            r == v1 && final(world)@ == w0
        }),
{
    let mut p = PipelineStart::new()
        .then_step(named::<MaybePositive>())
        .on_none(named::<Nothing>());
    p.run(world, input)
}

/// Option to result with a fixed error.
pub fn pipe_opt_ok_or(world: &mut World<u64>, input: u64) -> (r: Result<u64, u32>)
    requires audit_shape(*old(world)),
    ensures
        ({
            let w0 = old(world)@;
            let v1 = if (input) > 0 { Some((input)) } else { Option::<u64>::None };
            let v2 = match v1 { Some(t) => Ok::<u64, u32>(t), None => Err::<u64, u32>(42u32) };
            r == v2 && final(world)@ == w0
        }),
{
    let mut p = PipelineStart::new()
        .then_step(named::<MaybePositive>())
        .ok_or(42u32);
    p.run(world, input)
}

/// Option to result with a produced error.
pub fn pipe_opt_ok_or_else(world: &mut World<u64>, input: u64) -> (r: Result<u64, u32>)
    requires audit_shape(*old(world)),
    ensures
        ({
            let w0 = old(world)@;
            let v1 = if (input) > 0 { Some((input)) } else { Option::<u64>::None };
            let v2 = match v1 { Some(t) => Ok::<u64, u32>(t), None => Err::<u64, u32>(42u32) };
            r == v2 && final(world)@ == w0
        }),
{
    let mut p = PipelineStart::new()
        .then_step(named::<MaybePositive>())
        .ok_or_else(named::<FortyTwo>());
    p.run(world, input)
}

/// Option default.
pub fn pipe_opt_unwrap_or(world: &mut World<u64>, input: u64) -> (r: u64)
    requires audit_shape(*old(world)),
    ensures
        ({
            let w0 = old(world)@;
            let v1 = if (input) > 0 { Some((input)) } else { Option::<u64>::None };
            let v2 = match v1 { Some(t) => t, None => 0u64 };
            r == v2 && final(world)@ == w0
        }),
{
    let mut p = PipelineStart::new()
        .then_step(named::<MaybePositive>())
        .unwrap_or(0);
    p.run(world, input)
}

/// Option produced default.
pub fn pipe_opt_unwrap_or_else(world: &mut World<u64>, input: u64) -> (r: u64)
    requires audit_shape(*old(world)),
    ensures
        ({
            let w0 = old(world)@;
            let v1 = if (input) > 0 { Some((input)) } else { Option::<u64>::None };
            let v2 = match v1 { Some(t) => t, None => 0u64 };
            r == v2 && final(world)@ == w0
        }),
{
    let mut p = PipelineStart::new()
        .then_step(named::<MaybePositive>())
        .unwrap_or_else(named::<Zero>());
    p.run(world, input)
}

/// Guard, map, filter, default.
pub fn pipe_opt_map_filter(world: &mut World<u64>, input: u64) -> (r: u64)
    requires audit_shape(*old(world)),
    ensures
        ({
            let w0 = old(world)@;
            let v1 = if (input) > 0 { Some(input) } else { Option::<u64>::None };
            let v2 = match v1 { Some(t) => Some(wmul((t), 2)), None => Option::<u64>::None };
            let v3 = match v2 { Some(t) => if (t) < 1000 { Some(t) } else { Option::<u64>::None }, None => Option::<u64>::None };
            let v4 = match v3 { Some(t) => t, None => 0u64 };
            r == v4 && final(world)@ == w0
        }),
{
    let mut p = PipelineStart::new()
        .then_step(Ident)
        .guard(named_ref::<GtZero>())
        .map(named::<Double>())
        .filter(named_ref::<LtThousand>())
        .unwrap_or(0);
    p.run(world, input)
}

/// Guard, map, and-then, default.
pub fn pipe_opt_map_and_then(world: &mut World<u64>, input: u64) -> (r: u64)
    requires audit_shape(*old(world)),
    ensures
        ({
            let w0 = old(world)@;
            let v1 = if (input) > 0 { Some(input) } else { Option::<u64>::None };
            let v2 = match v1 { Some(t) => Some(wmul((t), 2)), None => Option::<u64>::None };
            let v3 = match v2 { Some(t) => if (t) * 2 <= u64::MAX { Some(((t) * 2) as u64) } else { Option::<u64>::None }, None => Option::<u64>::None };
            let v4 = match v3 { Some(t) => t, None => 0u64 };
            r == v4 && final(world)@ == w0
        }),
{
    let mut p = PipelineStart::new()
        .then_step(Ident)
        .guard(named_ref::<GtZero>())
        .map(named::<Double>())
        .and_then(named::<CheckedDouble>())
        .unwrap_or_else(named::<Zero>());
    p.run(world, input)
}

/// Guard, filter, inspect, default.
pub fn pipe_opt_filter_inspect_unwrap(world: &mut World<u64>, input: u64) -> (r: u64)
    requires audit_shape(*old(world)),
    ensures
        ({
            let w0 = old(world)@;
            let v1 = if (input) > 0 { Some(input) } else { Option::<u64>::None };
            let v2 = match v1 { Some(t) => if (t) < 1000 { Some(t) } else { Option::<u64>::None }, None => Option::<u64>::None };
            let v3 = match v2 { Some(t) => t, None => 0u64 };
            r == v3 && final(world)@ == w0
        }),
{
    let mut p = PipelineStart::new()
        .then_step(Ident)
        .guard(named_ref::<GtZero>())
        .filter(named_ref::<LtThousand>())
        .inspect(named_ref::<Observe>())
        .unwrap_or(0);
    p.run(world, input)
}

/// Guard and three filters.
pub fn pipe_opt_triple_filter(world: &mut World<u64>, input: u64) -> (r: u64)
    requires audit_shape(*old(world)),
    ensures
        ({
            let w0 = old(world)@;
            let v1 = if (input) > 0 { Some(input) } else { Option::<u64>::None };
            let v2 = match v1 { Some(t) => if (t) < 10000 { Some(t) } else { Option::<u64>::None }, None => Option::<u64>::None };
            let v3 = match v2 { Some(t) => if (t) > 5 { Some(t) } else { Option::<u64>::None }, None => Option::<u64>::None };
            let v4 = match v3 { Some(t) => if (t) & 1 == 0 { Some(t) } else { Option::<u64>::None }, None => Option::<u64>::None };
            let v5 = match v4 { Some(t) => t, None => 0u64 };
            r == v5 && final(world)@ == w0
        }),
{
    let mut p = PipelineStart::new()
        .then_step(Ident)
        .guard(named_ref::<GtZero>())
        .filter(named_ref::<LtTenThousand>())
        .filter(named_ref::<GtFive>())
        .filter(named_ref::<LowBitClear>())
        .unwrap_or(0);
    p.run(world, input)
}

/// Guard and five maps.
pub fn pipe_opt_map_5x(world: &mut World<u64>, input: u64) -> (r: u64)
    requires audit_shape(*old(world)),
    ensures
        ({
            let w0 = old(world)@;
            let v1 = if (input) > 0 { Some(input) } else { Option::<u64>::None };
            let v2 = match v1 { Some(t) => Some(wadd((t), 1)), None => Option::<u64>::None };
            let v3 = match v2 { Some(t) => Some(wmul((t), 2)), None => Option::<u64>::None };
            let v4 = match v3 { Some(t) => Some(wadd((t), 3)), None => Option::<u64>::None };
            let v5 = match v4 { Some(t) => Some(wmul((t), (t))), None => Option::<u64>::None };
            let v6 = match v5 { Some(t) => Some(wsub((t), 10)), None => Option::<u64>::None };
            let v7 = match v6 { Some(t) => t, None => 0u64 };
            r == v7 && final(world)@ == w0
        }),
{
    let mut p = PipelineStart::new()
        .then_step(Ident)
        .guard(named_ref::<GtZero>())
        .map(named::<AddOne>())
        .map(named::<Double>())
        .map(named::<AddThree>())
        .map(named::<Square>())
        .map(named::<SubTen>())
        .unwrap_or(0);
    p.run(world, input)
}

/// Guard and ten maps.
pub fn pipe_opt_guard_skip_10(world: &mut World<u64>, input: u64) -> (r: u64)
    requires audit_shape(*old(world)),
    ensures
        ({
            let w0 = old(world)@;
            let v1 = if (input) > 100 { Some(input) } else { Option::<u64>::None };
            let v2 = match v1 { Some(t) => Some(wadd((t), 1)), None => Option::<u64>::None };
            let v3 = match v2 { Some(t) => Some(wmul((t), 2)), None => Option::<u64>::None };
            let v4 = match v3 { Some(t) => Some(wadd((t), 3)), None => Option::<u64>::None };
            let v5 = match v4 { Some(t) => Some(wmul((t), (t))), None => Option::<u64>::None };
            let v6 = match v5 { Some(t) => Some(wsub((t), 10)), None => Option::<u64>::None };
            let v7 = match v6 { Some(t) => Some((t) / 2), None => Option::<u64>::None };
            let v8 = match v7 { Some(t) => Some((t) ^ 0xDEAD_BEEF), None => Option::<u64>::None };
            let v9 = match v8 { Some(t) => Some(wadd((t), 7)), None => Option::<u64>::None };
            let v10 = match v9 { Some(t) => Some(wmul((t), 3)), None => Option::<u64>::None };
            let v11 = match v10 { Some(t) => Some(wadd((t), 42)), None => Option::<u64>::None };
            let v12 = match v11 { Some(t) => t, None => 0u64 };
            r == v12 && final(world)@ == w0
        }),
{
    let mut p = PipelineStart::new()
        .then_step(Ident)
        .guard(named_ref::<GtHundred>())
        .map(named::<AddOne>())
        .map(named::<Double>())
        .map(named::<AddThree>())
        .map(named::<Square>())
        .map(named::<SubTen>())
        .map(named::<ShrOne>())
        .map(named::<XorMask>())
        .map(named::<AddSeven>())
        .map(named::<Triple>())
        .map(named::<AddFortyTwo>())
        .unwrap_or(0);
    p.run(world, input)
}

/// Guard, filter and eight maps.
pub fn pipe_opt_filter_skip_chain(world: &mut World<u64>, input: u64) -> (r: u64)
    requires audit_shape(*old(world)),
    ensures
        ({
            let w0 = old(world)@;
            let v1 = if (input) > 0 { Some(input) } else { Option::<u64>::None };
            let v2 = match v1 { Some(t) => if (t) < 50 { Some(t) } else { Option::<u64>::None }, None => Option::<u64>::None };
            let v3 = match v2 { Some(t) => Some(wadd((t), 1)), None => Option::<u64>::None };
            let v4 = match v3 { Some(t) => Some(wmul((t), 2)), None => Option::<u64>::None };
            let v5 = match v4 { Some(t) => Some(wadd((t), 3)), None => Option::<u64>::None };
            let v6 = match v5 { Some(t) => Some(wmul((t), (t))), None => Option::<u64>::None };
            let v7 = match v6 { Some(t) => Some(wsub((t), 10)), None => Option::<u64>::None };
            let v8 = match v7 { Some(t) => Some((t) / 2), None => Option::<u64>::None };
            let v9 = match v8 { Some(t) => Some((t) ^ 0xDEAD_BEEF), None => Option::<u64>::None };
            let v10 = match v9 { Some(t) => Some(wadd((t), 7)), None => Option::<u64>::None };
            let v11 = match v10 { Some(t) => t, None => 0u64 };
            r == v11 && final(world)@ == w0
        }),
{
    let mut p = PipelineStart::new()
        .then_step(Ident)
        .guard(named_ref::<GtZero>())
        .filter(named_ref::<LtFifty>())
        .map(named::<AddOne>())
        .map(named::<Double>())
        .map(named::<AddThree>())
        .map(named::<Square>())
        .map(named::<SubTen>())
        .map(named::<ShrOne>())
        .map(named::<XorMask>())
        .map(named::<AddSeven>())
        .unwrap_or(0);
    p.run(world, input)
}

/// Map over a result.
pub fn pipe_res_map(world: &mut World<u64>, input: u64) -> (r: Result<u64, u32>)
    requires audit_shape(*old(world)),
    ensures
        ({
            let w0 = old(world)@;
            let v1 = if (input) < 10_000 { Ok::<u64, u32>(wmul((input), 2)) } else { Err::<u64, u32>((input) as u32) };
            let v2 = match v1 { Ok(t) => Ok::<u64, u32>(wmul((t), 2)), Err(e) => Err::<u64, u32>(e) };
            r == v2 && final(world)@ == w0
        }),
{
    let mut p = PipelineStart::new()
        .then_step(named::<TryParse>())
        .map(named::<Double>());
    p.run(world, input)
}

/// Result and-then.
pub fn pipe_res_and_then(world: &mut World<u64>, input: u64) -> (r: Result<u64, u32>)
    requires audit_shape(*old(world)),
    ensures
        ({
            let w0 = old(world)@;
            let v1 = if (input) < 10_000 { Ok::<u64, u32>(wmul((input), 2)) } else { Err::<u64, u32>((input) as u32) };
            let v2 = match v1 { Ok(t) => if (t) < 10_000 { Ok::<u64, u32>(wmul((t), 2)) } else { Err::<u64, u32>((t) as u32) }, Err(e) => Err::<u64, u32>(e) };
            r == v2 && final(world)@ == w0
        }),
{
    let mut p = PipelineStart::new()
        .then_step(named::<TryParse>())
        .and_then(named::<TryParse>());
    p.run(world, input)
}

/// Result catch.
pub fn pipe_res_catch(world: &mut World<u64>, input: u64) -> (r: Option<u64>)
    requires audit_shape(*old(world)),
    ensures
        ({
            let w0 = old(world)@;
            let v1 = if (input) < 10_000 { Ok::<u64, u32>(wmul((input), 2)) } else { Err::<u64, u32>((input) as u32) };
            let v2 = match v1 { Ok(t) => Some(t), Err(e) => Option::<u64>::None };
            r == v2 && final(world)@ == w0
        }),
{
    let mut p = PipelineStart::new()
        .then_step(named::<TryParse>())
        .catch(named::<LogError>());
    p.run(world, input)
}

/// Result map-err.
pub fn pipe_res_map_err(world: &mut World<u64>, input: u64) -> (r: Result<u64, u64>)
    requires audit_shape(*old(world)),
    ensures
        ({
            let w0 = old(world)@;
            let v1 = if (input) < 10_000 { Ok::<u64, u32>(wmul((input), 2)) } else { Err::<u64, u32>((input) as u32) };
            let v2 = match v1 { Ok(t) => Ok::<u64, u64>(t), Err(e) => Err::<u64, u64>((e) as u64) };
            r == v2 && final(world)@ == w0
        }),
{
    let mut p = PipelineStart::new()
        .then_step(named::<TryParse>())
        .map_err(named::<Widen>());
    p.run(world, input)
}

/// Result or-else.
pub fn pipe_res_or_else(world: &mut World<u64>, input: u64) -> (r: Result<u64, u64>)
    requires audit_shape(*old(world)),
    ensures
        ({
            let w0 = old(world)@;
            let v1 = if (input) < 10_000 { Ok::<u64, u32>(wmul((input), 2)) } else { Err::<u64, u32>((input) as u32) };
            let v2 = match v1 { Ok(t) => Ok::<u64, u64>(t), Err(e) => Err::<u64, u64>((e) as u64) };
            r == v2 && final(world)@ == w0
        }),
{
    let mut p = PipelineStart::new()
        .then_step(named::<TryParse>())
        .or_else(named::<WidenErr>());
    p.run(world, input)
}

/// Result inspect.
pub fn pipe_res_inspect(world: &mut World<u64>, input: u64) -> (r: Result<u64, u32>)
    requires audit_shape(*old(world)),
    ensures
        ({
            let w0 = old(world)@;
            let v1 = if (input) < 10_000 { Ok::<u64, u32>(wmul((input), 2)) } else { Err::<u64, u32>((input) as u32) };
            r == v1 && final(world)@ == w0
        }),
{
    let mut p = PipelineStart::new()
        .then_step(named::<TryParse>())
        .inspect(named_ref::<Observe>());
    p.run(world, input)
}

/// Result inspect-err.
pub fn pipe_res_inspect_err(world: &mut World<u64>, input: u64) -> (r: Result<u64, u32>)
    requires audit_shape(*old(world)),
    ensures
        ({
            let w0 = old(world)@;
            let v1 = if (input) < 10_000 { Ok::<u64, u32>(wmul((input), 2)) } else { Err::<u64, u32>((input) as u32) };
            r == v1 && final(world)@ == w0
        }),
{
    let mut p = PipelineStart::new()
        .then_step(named::<TryParse>())
        .inspect_err(named_ref::<ObserveErr>());
    p.run(world, input)
}

/// Result to option.
pub fn pipe_res_ok(world: &mut World<u64>, input: u64) -> (r: Option<u64>)
    requires audit_shape(*old(world)),
    ensures
        ({
            let w0 = old(world)@;
            let v1 = if (input) < 10_000 { Ok::<u64, u32>(wmul((input), 2)) } else { Err::<u64, u32>((input) as u32) };
            let v2 = match v1 { Ok(t) => Some(t), Err(e) => Option::<u64>::None };
            r == v2 && final(world)@ == w0
        }),
{
    let mut p = PipelineStart::new()
        .then_step(named::<TryParse>())
        .ok();
    p.run(world, input)
}

/// Result default.
pub fn pipe_res_unwrap_or(world: &mut World<u64>, input: u64) -> (r: u64)
    requires audit_shape(*old(world)),
    ensures
        ({
            let w0 = old(world)@;
            let v1 = if (input) < 10_000 { Ok::<u64, u32>(wmul((input), 2)) } else { Err::<u64, u32>((input) as u32) };
            let v2 = match v1 { Ok(t) => t, Err(e) => 0u64 };
            r == v2 && final(world)@ == w0
        }),
{
    let mut p = PipelineStart::new()
        .then_step(named::<TryParse>())
        .unwrap_or(0);
    p.run(world, input)
}

/// Result default from the error.
pub fn pipe_res_unwrap_or_else(world: &mut World<u64>, input: u64) -> (r: u64)
    requires audit_shape(*old(world)),
    ensures
        ({
            let w0 = old(world)@;
            let v1 = if (input) < 10_000 { Ok::<u64, u32>(wmul((input), 2)) } else { Err::<u64, u32>((input) as u32) };
            let v2 = match v1 { Ok(t) => t, Err(e) => (e) as u64 };
            r == v2 && final(world)@ == w0
        }),
{
    let mut p = PipelineStart::new()
        .then_step(named::<TryParse>())
        .unwrap_or_else(named::<Widen>());
    p.run(world, input)
}

/// Result map, and-then, default from the error.
pub fn pipe_res_map_and_then(world: &mut World<u64>, input: u64) -> (r: u64)
    requires audit_shape(*old(world)),
    ensures
        ({
            let w0 = old(world)@;
            let v1 = if (input) < 10_000 { Ok::<u64, u32>(wmul((input), 2)) } else { Err::<u64, u32>((input) as u32) };
            let v2 = match v1 { Ok(t) => Ok::<u64, u32>(wmul((t), 2)), Err(e) => Err::<u64, u32>(e) };
            let v3 = match v2 { Ok(t) => if (t) < 10_000 { Ok::<u64, u32>(wmul((t), 2)) } else { Err::<u64, u32>((t) as u32) }, Err(e) => Err::<u64, u32>(e) };
            let v4 = match v3 { Ok(t) => t, Err(e) => (e) as u64 };
            r == v4 && final(world)@ == w0
        }),
{
    let mut p = PipelineStart::new()
        .then_step(named::<TryParse>())
        .map(named::<Double>())
        .and_then(named::<TryParse>())
        .unwrap_or_else(named::<Widen>());
    p.run(world, input)
}

/// Result map-err, or-else, default.
pub fn pipe_res_map_err_or_else(world: &mut World<u64>, input: u64) -> (r: u64)
    requires audit_shape(*old(world)),
    ensures
        ({
            let w0 = old(world)@;
            let v1 = if (input) < 10_000 { Ok::<u64, u32>(wmul((input), 2)) } else { Err::<u64, u32>((input) as u32) };
            let v2 = match v1 { Ok(t) => Ok::<u64, u64>(t), Err(e) => Err::<u64, u64>((e) as u64) };
            let v3 = match v2 { Ok(t) => Ok::<u64, u64>(t), Err(e) => Ok::<u64, u64>((e)) };
            let v4 = match v3 { Ok(t) => t, Err(e) => 0u64 };
            r == v4 && final(world)@ == w0
        }),
{
    let mut p = PipelineStart::new()
        .then_step(named::<TryParse>())
        .map_err(named::<Widen>())
        .or_else(named::<RecoverWide>())
        .unwrap_or(0);
    p.run(world, input)
}

/// Result inspect both sides, then to option.
pub fn pipe_res_inspect_both(world: &mut World<u64>, input: u64) -> (r: Option<u64>)
    requires audit_shape(*old(world)),
    ensures
        ({
            let w0 = old(world)@;
            let v1 = if (input) < 10_000 { Ok::<u64, u32>(wmul((input), 2)) } else { Err::<u64, u32>((input) as u32) };
            let v2 = match v1 { Ok(t) => Some(t), Err(e) => Option::<u64>::None };
            r == v2 && final(world)@ == w0
        }),
{
    let mut p = PipelineStart::new()
        .then_step(named::<TryParse>())
        .inspect(named_ref::<Observe>())
        .inspect_err(named_ref::<ObserveErr>())
        .ok();
    p.run(world, input)
}

/// Result catch, map, default.
pub fn pipe_res_catch_then_option(world: &mut World<u64>, input: u64) -> (r: u64)
    requires audit_shape(*old(world)),
    ensures
        ({
            let w0 = old(world)@;
            let v1 = if (input) < 10_000 { Ok::<u64, u32>(wmul((input), 2)) } else { Err::<u64, u32>((input) as u32) };
            let v2 = match v1 { Ok(t) => Some(t), Err(e) => Option::<u64>::None };
            let v3 = match v2 { Some(t) => Some(wmul((t), 2)), None => Option::<u64>::None };
            let v4 = match v3 { Some(t) => t, None => 0u64 };
            r == v4 && final(world)@ == w0
        }),
{
    let mut p = PipelineStart::new()
        .then_step(named::<TryParse>())
        .catch(named::<LogError>())
        .map(named::<Double>())
        .unwrap_or(0);
    p.run(world, input)
}

/// Result and five maps.
pub fn pipe_res_map_5x(world: &mut World<u64>, input: u64) -> (r: u64)
    requires audit_shape(*old(world)),
    ensures
        ({
            let w0 = old(world)@;
            let v1 = if (input) < 10_000 { Ok::<u64, u32>(wmul((input), 2)) } else { Err::<u64, u32>((input) as u32) };
            let v2 = match v1 { Ok(t) => Ok::<u64, u32>(wadd((t), 1)), Err(e) => Err::<u64, u32>(e) };
            let v3 = match v2 { Ok(t) => Ok::<u64, u32>(wmul((t), 2)), Err(e) => Err::<u64, u32>(e) };
            let v4 = match v3 { Ok(t) => Ok::<u64, u32>(wadd((t), 3)), Err(e) => Err::<u64, u32>(e) };
            let v5 = match v4 { Ok(t) => Ok::<u64, u32>(wmul((t), (t))), Err(e) => Err::<u64, u32>(e) };
            let v6 = match v5 { Ok(t) => Ok::<u64, u32>(wsub((t), 10)), Err(e) => Err::<u64, u32>(e) };
            let v7 = match v6 { Ok(t) => t, Err(e) => 0u64 };
            r == v7 && final(world)@ == w0
        }),
{
    let mut p = PipelineStart::new()
        .then_step(named::<TryParse>())
        .map(named::<AddOne>())
        .map(named::<Double>())
        .map(named::<AddThree>())
        .map(named::<Square>())
        .map(named::<SubTen>())
        .unwrap_or(0);
    p.run(world, input)
}

/// Result and ten maps.
pub fn pipe_res_err_skip_10(world: &mut World<u64>, input: u64) -> (r: u64)
    requires audit_shape(*old(world)),
    ensures
        ({
            let w0 = old(world)@;
            let v1 = if (input) < 10_000 { Ok::<u64, u32>(wmul((input), 2)) } else { Err::<u64, u32>((input) as u32) };
            let v2 = match v1 { Ok(t) => Ok::<u64, u32>(wadd((t), 1)), Err(e) => Err::<u64, u32>(e) };
            let v3 = match v2 { Ok(t) => Ok::<u64, u32>(wmul((t), 2)), Err(e) => Err::<u64, u32>(e) };
            let v4 = match v3 { Ok(t) => Ok::<u64, u32>(wadd((t), 3)), Err(e) => Err::<u64, u32>(e) };
            let v5 = match v4 { Ok(t) => Ok::<u64, u32>(wmul((t), (t))), Err(e) => Err::<u64, u32>(e) };
            let v6 = match v5 { Ok(t) => Ok::<u64, u32>(wsub((t), 10)), Err(e) => Err::<u64, u32>(e) };
            let v7 = match v6 { Ok(t) => Ok::<u64, u32>((t) / 2), Err(e) => Err::<u64, u32>(e) };
            let v8 = match v7 { Ok(t) => Ok::<u64, u32>((t) ^ 0xDEAD_BEEF), Err(e) => Err::<u64, u32>(e) };
            let v9 = match v8 { Ok(t) => Ok::<u64, u32>(wadd((t), 7)), Err(e) => Err::<u64, u32>(e) };
            let v10 = match v9 { Ok(t) => Ok::<u64, u32>(wmul((t), 3)), Err(e) => Err::<u64, u32>(e) };
            let v11 = match v10 { Ok(t) => Ok::<u64, u32>(wadd((t), 42)), Err(e) => Err::<u64, u32>(e) };
            let v12 = match v11 { Ok(t) => t, Err(e) => 0u64 };
            r == v12 && final(world)@ == w0
        }),
{
    let mut p = PipelineStart::new()
        .then_step(named::<TryParse>())
        .map(named::<AddOne>())
        .map(named::<Double>())
        .map(named::<AddThree>())
        .map(named::<Square>())
        .map(named::<SubTen>())
        .map(named::<ShrOne>())
        .map(named::<XorMask>())
        .map(named::<AddSeven>())
        .map(named::<Triple>())
        .map(named::<AddFortyTwo>())
        .unwrap_or(0);
    p.run(world, input)
}

/// Result catch and eight maps.
pub fn pipe_res_catch_skip_chain(world: &mut World<u64>, input: u64) -> (r: u64)
    requires audit_shape(*old(world)),
    ensures
        ({
            let w0 = old(world)@;
            let v1 = if (input) < 10_000 { Ok::<u64, u32>(wmul((input), 2)) } else { Err::<u64, u32>((input) as u32) };
            let v2 = match v1 { Ok(t) => Some(t), Err(e) => Option::<u64>::None };
            let v3 = match v2 { Some(t) => Some(wadd((t), 1)), None => Option::<u64>::None };
            let v4 = match v3 { Some(t) => Some(wmul((t), 2)), None => Option::<u64>::None };
            let v5 = match v4 { Some(t) => Some(wadd((t), 3)), None => Option::<u64>::None };
            let v6 = match v5 { Some(t) => Some(wmul((t), (t))), None => Option::<u64>::None };
            let v7 = match v6 { Some(t) => Some(wsub((t), 10)), None => Option::<u64>::None };
            let v8 = match v7 { Some(t) => Some((t) / 2), None => Option::<u64>::None };
            let v9 = match v8 { Some(t) => Some((t) ^ 0xDEAD_BEEF), None => Option::<u64>::None };
            let v10 = match v9 { Some(t) => Some(wadd((t), 7)), None => Option::<u64>::None };
            let v11 = match v10 { Some(t) => t, None => 0u64 };
            r == v11 && final(world)@ == w0
        }),
{
    let mut p = PipelineStart::new()
        .then_step(named::<TryParse>())
        .catch(named::<LogError>())
        .map(named::<AddOne>())
        .map(named::<Double>())
        .map(named::<AddThree>())
        .map(named::<Square>())
        .map(named::<SubTen>())
        .map(named::<ShrOne>())
        .map(named::<XorMask>())
        .map(named::<AddSeven>())
        .unwrap_or(0);
    p.run(world, input)
}

/// Guard, default, then a step.
pub fn pipe_trans_guard_unwrap(world: &mut World<u64>, input: u64) -> (r: u64)
    requires audit_shape(*old(world)),
    ensures
        ({
            let w0 = old(world)@;
            let v1 = wadd((input), 1);
            let v2 = if (v1) > 10 { Some(v1) } else { Option::<u64>::None };
            let v3 = match v2 { Some(t) => t, None => 0u64 };
            let v4 = wmul((v3), 2);
            r == v4 && final(world)@ == w0
        }),
{
    let mut p = PipelineStart::new()
        .then_step(named::<AddOne>())
        .guard(named_ref::<GtTen>())
        .unwrap_or(0)
        .then_step(named::<Double>());
    p.run(world, input)
}

/// Guard, to result, default.
pub fn pipe_trans_guard_ok_or_unwrap(world: &mut World<u64>, input: u64) -> (r: u64)
    requires audit_shape(*old(world)),
    ensures
        ({
            let w0 = old(world)@;
            let v1 = if (input) > 0 { Some(input) } else { Option::<u64>::None };
            let v2 = match v1 { Some(t) => Ok::<u64, u32>(t), None => Err::<u64, u32>(0u32) };
            let v3 = match v2 { Ok(t) => t, Err(e) => 0u64 };
            r == v3 && final(world)@ == w0
        }),
{
    let mut p = PipelineStart::new()
        .then_step(Ident)
        .guard(named_ref::<GtZero>())
        .ok_or(0u32)
        .unwrap_or(0);
    p.run(world, input)
}

/// Result to option, default.
pub fn pipe_trans_result_ok_unwrap(world: &mut World<u64>, input: u64) -> (r: u64)
    requires audit_shape(*old(world)),
    ensures
        ({
            let w0 = old(world)@;
            let v1 = if (input) < 10_000 { Ok::<u64, u32>(wmul((input), 2)) } else { Err::<u64, u32>((input) as u32) };
            let v2 = match v1 { Ok(t) => Some(t), Err(e) => Option::<u64>::None };
            let v3 = match v2 { Some(t) => t, None => 0u64 };
            r == v3 && final(world)@ == w0
        }),
{
    let mut p = PipelineStart::new()
        .then_step(named::<TryParse>())
        .ok()
        .unwrap_or(0);
    p.run(world, input)
}

/// Result catch, default.
pub fn pipe_trans_result_catch_unwrap(world: &mut World<u64>, input: u64) -> (r: u64)
    requires audit_shape(*old(world)),
    ensures
        ({
            let w0 = old(world)@;
            let v1 = if (input) < 10_000 { Ok::<u64, u32>(wmul((input), 2)) } else { Err::<u64, u32>((input) as u32) };
            let v2 = match v1 { Ok(t) => Some(t), Err(e) => Option::<u64>::None };
            let v3 = match v2 { Some(t) => t, None => 0u64 };
            r == v3 && final(world)@ == w0
        }),
{
    let mut p = PipelineStart::new()
        .then_step(named::<TryParse>())
        .catch(named::<LogError>())
        .unwrap_or(0);
    p.run(world, input)
}

/// Guard, to result, catch, default.
pub fn pipe_trans_guard_ok_or_catch_unwrap(world: &mut World<u64>, input: u64) -> (r: u64)
    requires audit_shape(*old(world)),
    ensures
        ({
            let w0 = old(world)@;
            let v1 = if (input) > 0 { Some(input) } else { Option::<u64>::None };
            let v2 = match v1 { Some(t) => Ok::<u64, u32>(t), None => Err::<u64, u32>(0u32) };
            let v3 = match v2 { Ok(t) => Some(t), Err(e) => Option::<u64>::None };
            let v4 = match v3 { Some(t) => t, None => 0u64 };
            r == v4 && final(world)@ == w0
        }),
{
    let mut p = PipelineStart::new()
        .then_step(Ident)
        .guard(named_ref::<GtZero>())
        .ok_or(0u32)
        .catch(named::<LogError>())
        .unwrap_or(0);
    p.run(world, input)
}

/// Guard, to result, map, catch, default, step.
pub fn pipe_trans_full_lifecycle(world: &mut World<u64>, input: u64) -> (r: u64)
    requires audit_shape(*old(world)),
    ensures
        ({
            let w0 = old(world)@;
            let v1 = wadd((input), 1);
            let v2 = if (v1) > 0 { Some(v1) } else { Option::<u64>::None };
            let v3 = match v2 { Some(t) => Ok::<u64, u32>(t), None => Err::<u64, u32>(0u32) };
            let v4 = match v3 { Ok(t) => Ok::<u64, u32>(wmul((t), 2)), Err(e) => Err::<u64, u32>(e) };
            let v5 = match v4 { Ok(t) => Some(t), Err(e) => Option::<u64>::None };
            let v6 = match v5 { Some(t) => t, None => 0u64 };
            let v7 = wadd((v6), 3);
            r == v7 && final(world)@ == w0
        }),
{
    let mut p = PipelineStart::new()
        .then_step(named::<AddOne>())
        .guard(named_ref::<GtZero>())
        .ok_or(0u32)
        .map(named::<Double>())
        .catch(named::<LogError>())
        .unwrap_or(0)
        .then_step(named::<AddThree>());
    p.run(world, input)
}

/// Binary route.
pub fn pipe_route_basic(world: &mut World<u64>, input: u64) -> (r: u64)
    requires audit_shape(*old(world)),
    ensures
        ({
            let w0 = old(world)@;
            let v1 = wadd((input), 1);
            let v2 = wmul((v1), 2);
            let v3 = wadd((v1), 1);
            let v4 = if (v1) > 100 { v2 } else { v3 };
            let v5 = wadd((v4), 3);
            r == v5 && final(world)@ == w0
        }),
{
    let mut p = PipelineStart::new()
        .then_step(named::<AddOne>())
        .route(named_ref::<GtHundred>(), PipelineStart::<u64, u64>::new().then_step(named::<Double>()).chain, PipelineStart::<u64, u64>::new().then_step(named::<AddOne>()).chain)
        .then_step(named::<AddThree>());
    p.run(world, input)
}

/// Two nested routes.
pub fn pipe_route_nested_2(world: &mut World<u64>, input: u64) -> (r: u64)
    requires audit_shape(*old(world)),
    ensures
        ({
            let w0 = old(world)@;
            let v1 = wmul((input), 2);
            let v2 = wmul((input), 3);
            let v3 = wadd((input), 1);
            let v4 = if (input) > 50 { v2 } else { v3 };
            let v5 = if (input) > 100 { v1 } else { v4 };
            r == v5 && final(world)@ == w0
        }),
{
    let mut p = PipelineStart::new()
        .then_step(Ident)
        .route(named_ref::<GtHundred>(), PipelineStart::<u64, u64>::new().then_step(named::<Double>()).chain, PipelineStart::<u64, u64>::new().then_step(Ident).route(named_ref::<GtFifty>(), PipelineStart::<u64, u64>::new().then_step(named::<Triple>()).chain, PipelineStart::<u64, u64>::new().then_step(named::<AddOne>()).chain).chain);
    p.run(world, input)
}

/// Route with five-step arms.
pub fn pipe_route_heavy_arms(world: &mut World<u64>, input: u64) -> (r: u64)
    requires audit_shape(*old(world)),
    ensures
        ({
            let w0 = old(world)@;
            let v1 = wadd((input), 1);
            let v2 = wmul((v1), 2);
            let v3 = wadd((v2), 3);
            let v4 = wmul((v3), (v3));
            let v5 = wsub((v4), 10);
            let v6 = (v5) / 2;
            let v7 = wadd((v1), 1);
            let v8 = wmul((v7), 3);
            let v9 = (v8) ^ 0xDEAD_BEEF;
            let v10 = wadd((v9), 7);
            let v11 = wadd((v10), 42);
            let v12 = if (v1) > 100 { v6 } else { v11 };
            r == v12 && final(world)@ == w0
        }),
{
    let mut p = PipelineStart::new()
        .then_step(named::<AddOne>())
        .route(named_ref::<GtHundred>(), PipelineStart::<u64, u64>::new().then_step(named::<Double>()).then_step(named::<AddThree>()).then_step(named::<Square>()).then_step(named::<SubTen>()).then_step(named::<ShrOne>()).chain, PipelineStart::<u64, u64>::new().then_step(named::<AddOne>()).then_step(named::<Triple>()).then_step(named::<XorMask>()).then_step(named::<AddSeven>()).then_step(named::<AddFortyTwo>()).chain);
    p.run(world, input)
}

/// Two-way switch.
pub fn pipe_switch_basic(world: &mut World<u64>, input: u64) -> (r: u64)
    requires audit_shape(*old(world)),
    ensures
        ({
            let w0 = old(world)@;
            let v1 = wadd((input), 1);
            let v2 = if (v1) > 100 { wmul((v1), 2) } else { wadd((v1), 1) };
            r == v2 && final(world)@ == w0
        }),
{
    let mut p = PipelineStart::new()
        .then_step(named::<AddOne>())
        .then_step(named::<SwitchBasic>());
    p.run(world, input)
}

/// Three-way switch.
pub fn pipe_switch_3way(world: &mut World<u64>, input: u64) -> (r: u64)
    requires audit_shape(*old(world)),
    ensures
        ({
            let w0 = old(world)@;
            let v1 = if (input) % 3 == 0 { wmul((input), 2) } else if (input) % 3 == 1 { wadd((input), 10) } else { wsub((input), 5) };
            r == v1 && final(world)@ == w0
        }),
{
    let mut p = PipelineStart::new()
        .then_step(named::<SwitchThreeWay>());
    p.run(world, input)
}

/// Switch between two resolved steps.
pub fn pipe_switch_resolve_step(world: &mut World<u64>, input: u64) -> (r: u64)
    requires audit_shape(*old(world)),
    ensures
        ({
            let w0 = old(world)@;
            let v1 = if (input) > 100 { wmul((input), 2) } else { wadd((input), 1) };
            r == v1 && final(world)@ == w0
        }),
{
    let mut p = PipelineStart::new()
        .then_step(named::<SwitchBasic>());
    p.run(world, input)
}

/// Switch as the first step.
pub fn pipe_start_switch(world: &mut World<u64>, input: u64) -> (r: u64)
    requires audit_shape(*old(world)),
    ensures
        ({
            let w0 = old(world)@;
            let v1 = wadd(wmul((input), 2), 1);
            r == v1 && final(world)@ == w0
        }),
{
    let mut p = PipelineStart::new()
        .then_step(named::<TwiceAndOne>());
    p.run(world, input)
}

/// Split into a pair, then add the halves.
pub fn pipe_splat2_mid(world: &mut World<u64>, input: u64) -> (r: u64)
    requires audit_shape(*old(world)),
    ensures
        ({
            let w0 = old(world)@;
            let v1 = ((input) as u32, ((input) >> 32) as u32);
            let v2 = ((v1).0 + (v1).1) as u64;
            r == v2 && final(world)@ == w0
        }),
{
    let mut p = PipelineStart::new()
        .then_step(named::<SplitU64>())
        .then_step(named::<SplatAdd>());
    p.run(world, input)
}

/// Split into three, then add.
pub fn pipe_splat3(world: &mut World<u64>, input: u64) -> (r: u64)
    requires audit_shape(*old(world)),
    ensures
        ({
            let w0 = old(world)@;
            let v1 = ((input) as u32, ((input) >> 32) as u16, ((input) >> 48) as u8);
            let v2 = ((v1).0 + (v1).1 + (v1).2) as u64;
            r == v2 && final(world)@ == w0
        }),
{
    let mut p = PipelineStart::new()
        .then_step(named::<Split3>())
        .then_step(named::<Splat3>());
    p.run(world, input)
}

/// Split into four, then add.
pub fn pipe_splat4(world: &mut World<u64>, input: u64) -> (r: u64)
    requires audit_shape(*old(world)),
    ensures
        ({
            let w0 = old(world)@;
            let v1 = ((input) as u32, ((input) >> 32) as u16, ((input) >> 48) as u8, ((input) >> 56) as u8);
            let v2 = ((v1).0 + (v1).1 + (v1).2 + (v1).3) as u64;
            r == v2 && final(world)@ == w0
        }),
{
    let mut p = PipelineStart::new()
        .then_step(named::<Split4>())
        .then_step(named::<Splat4>());
    p.run(world, input)
}

/// Split into five, then add.
pub fn pipe_splat5(world: &mut World<u64>, input: u64) -> (r: u64)
    requires audit_shape(*old(world)),
    ensures
        ({
            let w0 = old(world)@;
            let v1 = ((input) as u32, ((input) >> 32) as u16, ((input) >> 48) as u8, ((input) >> 52) as u8, ((input) >> 56) as u8);
            let v2 = ((v1).0 + (v1).1 + (v1).2 + (v1).3 + (v1).4) as u64;
            r == v2 && final(world)@ == w0
        }),
{
    let mut p = PipelineStart::new()
        .then_step(named::<Split5>())
        .then_step(named::<Splat5>());
    p.run(world, input)
}

/// Split, then add with a resource.
pub fn pipe_splat_with_params(world: &mut World<u64>, input: u64) -> (r: u64)
    requires audit_shape(*old(world)),
    ensures
        ({
            let w0 = old(world)@;
            let v1 = ((input) as u32, ((input) >> 32) as u32);
            let v2 = wadd(((v1).0 + (v1).1) as u64, (w0.values[0]));
            r == v2 && final(world)@ == w0
        }),
{
    let mut p = PipelineStart::new()
        .then_step(named::<SplitU64>())
        .then_step(named_res::<SplatWithRes>(ResourceId(0)));
    p.run(world, input)
}

/// Split, add, guard, default.
pub fn pipe_splat_then_guard(world: &mut World<u64>, input: u64) -> (r: u64)
    requires audit_shape(*old(world)),
    ensures
        ({
            let w0 = old(world)@;
            let v1 = ((input) as u32, ((input) >> 32) as u32);
            let v2 = ((v1).0 + (v1).1) as u64;
            let v3 = if (v2) > 10 { Some(v2) } else { Option::<u64>::None };
            let v4 = match v3 { Some(t) => t, None => 0u64 };
            r == v4 && final(world)@ == w0
        }),
{
    let mut p = PipelineStart::new()
        .then_step(named::<SplitU64>())
        .then_step(named::<SplatAdd>())
        .guard(named_ref::<GtTen>())
        .unwrap_or(0);
    p.run(world, input)
}

/// Negation.
pub fn pipe_bool_not(world: &mut World<u64>, input: u64) -> (r: bool)
    requires audit_shape(*old(world)),
    ensures
        ({
            let w0 = old(world)@;
            let v1 = (input) % 2 == 0;
            let v2 = !v1;
            r == v2 && final(world)@ == w0
        }),
{
    let mut p = PipelineStart::new()
        .then_step(named::<IsEven>())
        .not();
    p.run(world, input)
}

/// AND with `true`.
pub fn pipe_bool_and(world: &mut World<u64>, input: u64) -> (r: bool)
    requires audit_shape(*old(world)),
    ensures
        ({
            let w0 = old(world)@;
            let v1 = (input) % 2 == 0;
            let v2 = v1 && true;
            r == v2 && final(world)@ == w0
        }),
{
    let mut p = PipelineStart::new()
        .then_step(named::<IsEven>())
        .and(named::<Yes>());
    p.run(world, input)
}

/// OR with `false`.
pub fn pipe_bool_or(world: &mut World<u64>, input: u64) -> (r: bool)
    requires audit_shape(*old(world)),
    ensures
        ({
            let w0 = old(world)@;
            let v1 = (input) % 2 == 0;
            let v2 = v1 || false;
            r == v2 && final(world)@ == w0
        }),
{
    let mut p = PipelineStart::new()
        .then_step(named::<IsEven>())
        .or(named::<No>());
    p.run(world, input)
}

/// XOR with `true`.
pub fn pipe_bool_xor(world: &mut World<u64>, input: u64) -> (r: bool)
    requires audit_shape(*old(world)),
    ensures
        ({
            let w0 = old(world)@;
            let v1 = (input) % 2 == 0;
            let v2 = v1 != true;
            r == v2 && final(world)@ == w0
        }),
{
    let mut p = PipelineStart::new()
        .then_step(named::<IsEven>())
        .xor(named::<Yes>());
    p.run(world, input)
}

/// AND, OR, NOT, XOR.
pub fn pipe_bool_chain(world: &mut World<u64>, input: u64) -> (r: bool)
    requires audit_shape(*old(world)),
    ensures
        ({
            let w0 = old(world)@;
            let v1 = (input) % 2 == 0;
            let v2 = v1 && true;
            let v3 = v2 || false;
            let v4 = !v3;
            let v5 = v4 != true;
            r == v5 && final(world)@ == w0
        }),
{
    let mut p = PipelineStart::new()
        .then_step(named::<IsEven>())
        .and(named::<Yes>())
        .or(named::<No>())
        .not()
        .xor(named::<Yes>());
    p.run(world, input)
}

/// Bool guard, default, to integer.
pub fn pipe_bool_guard_integration(world: &mut World<u64>, input: u64) -> (r: u64)
    requires audit_shape(*old(world)),
    ensures
        ({
            let w0 = old(world)@;
            let v1 = (input) % 2 == 0;
            let v2 = v1 && true;
            let v3 = if (v2) { Some(v2) } else { Option::<bool>::None };
            let v4 = match v3 { Some(t) => t, None => false };
            let v5 = if (v4) { 1u64 } else { 0u64 };
            r == v5 && final(world)@ == w0
        }),
{
    let mut p = PipelineStart::new()
        .then_step(named::<IsEven>())
        .and(named::<Yes>())
        .guard(named_ref::<IsTrue>())
        .unwrap_or(false)
        .then_step(named::<BoolToU64>());
    p.run(world, input)
}

/// A no-op tap between steps.
pub fn pipe_tap_basic(world: &mut World<u64>, input: u64) -> (r: u64)
    requires audit_shape(*old(world)),
    ensures
        ({
            let w0 = old(world)@;
            let v1 = wadd((input), 1);
            let v2 = wmul((v1), 2);
            r == v2 && final(world)@ == w0
        }),
{
    let mut p = PipelineStart::new()
        .then_step(named::<AddOne>())
        .tap(named_ref::<Observe>())
        .then_step(named::<Double>());
    p.run(world, input)
}

/// Two no-op taps.
pub fn pipe_tap_multiple(world: &mut World<u64>, input: u64) -> (r: u64)
    requires audit_shape(*old(world)),
    ensures
        ({
            let w0 = old(world)@;
            let v1 = wadd((input), 1);
            let v2 = wmul((v1), 2);
            r == v2 && final(world)@ == w0
        }),
{
    let mut p = PipelineStart::new()
        .then_step(Ident)
        .tap(named_ref::<Observe>())
        .then_step(named::<AddOne>())
        .tap(named_ref::<Observe>())
        .then_step(named::<Double>());
    p.run(world, input)
}

/// A side arm that adds the value into `ResA`.
pub fn pipe_tee_basic(world: &mut World<u64>, input: u64) -> (r: u64)
    requires audit_shape(*old(world)),
    ensures
        ({
            let w0 = old(world)@;
            let v1 = wadd((input), 1);
            let t2 = (wadd((w0.values[0]), (v1)), ());
            let w3 = w0.write(ResourceId(0), t2.0);
            let v4 = t2.1;
            let v5 = wmul((v1), 2);
            r == v5 && final(world)@ == w3
        }),
{
    let mut p = PipelineStart::new()
        .then_step(named::<AddOne>())
        .tee(DagArmStart::<u64, u64>::new().then_step(named_ref_res_mut::<RefConsume>(ResourceId(0))).chain)
        .then_step(named::<Double>());
    p.run(world, input)
}

/// A five-step side arm.
pub fn pipe_tee_heavy(world: &mut World<u64>, input: u64) -> (r: u64)
    requires audit_shape(*old(world)),
    ensures
        ({
            let w0 = old(world)@;
            let v1 = wadd((input), 1);
            let v2 = wadd((v1), 1);
            let v3 = wmul((v2), 2);
            let v4 = wadd((v3), 3);
            let v5 = wmul((v4), (v4));
            let t6 = (wadd((w0.values[0]), (v5)), ());
            let w7 = w0.write(ResourceId(0), t6.0);
            let v8 = t6.1;
            let v9 = wmul((v1), 2);
            r == v9 && final(world)@ == w7
        }),
{
    let mut p = PipelineStart::new()
        .then_step(named::<AddOne>())
        .tee(DagArmStart::<u64, u64>::new().then_step(named_ref::<RefAddOne>()).then_step(named_ref::<RefDouble>()).then_step(named_ref::<RefAddThree>()).then_step(named_ref::<RefSquare>()).then_step(named_ref_res_mut::<RefConsume>(ResourceId(0))).chain)
        .then_step(named::<Double>());
    p.run(world, input)
}

/// A tap between steps.
pub fn pipe_tap_with_world(world: &mut World<u64>, input: u64) -> (r: u64)
    requires audit_shape(*old(world)),
    ensures
        ({
            let w0 = old(world)@;
            let v1 = wadd((input), 1);
            let v2 = wmul((v1), 2);
            r == v2 && final(world)@ == w0
        }),
{
    let mut p = PipelineStart::new()
        .then_step(named::<AddOne>())
        .tap(named_ref::<Observe>())
        .then_step(named::<Double>());
    p.run(world, input)
}

/// Dispatch to a handler that adds into `ResA`.
pub fn pipe_dispatch_handler(world: &mut World<u64>, input: u64) -> (r: ())
    requires audit_shape(*old(world)),
    ensures
        ({
            let w0 = old(world)@;
            let v1 = wadd((input), 1);
            let t2 = (wadd(w0.values[0], v1), ());
            let w3 = w0.write(ResourceId(0), t2.0);
            let v4 = ();
            true && final(world)@ == w3
        }),
{
    let mut p = PipelineStart::new()
        .then_step(named::<AddOne>())
        .dispatch(into_handler(named_res_mut::<ConsumeVal>(ResourceId(0))));
    p.run(world, input)
}

/// Dispatch, then continue from unit.
pub fn pipe_dispatch_mid_then_continue(world: &mut World<u64>, input: u64) -> (r: u64)
    requires audit_shape(*old(world)),
    ensures
        ({
            let w0 = old(world)@;
            let v1 = wadd((input), 1);
            let t2 = (wadd(w0.values[0], v1), ());
            let w3 = w0.write(ResourceId(0), t2.0);
            let v4 = ();
            let v5 = 42u64;
            r == v5 && final(world)@ == w3
        }),
{
    let mut p = PipelineStart::new()
        .then_step(named::<AddOne>())
        .dispatch(into_handler(named_res_mut::<ConsumeVal>(ResourceId(0))))
        .then_step(named::<UnitToFortyTwo>());
    p.run(world, input)
}

/// Read `ResA`.
pub fn pipe_world_res(world: &mut World<u64>, input: u64) -> (r: u64)
    requires audit_shape(*old(world)),
    ensures
        ({
            let w0 = old(world)@;
            let v1 = wadd((input), (w0.values[0]));
            r == v1 && final(world)@ == w0
        }),
{
    let mut p = PipelineStart::new()
        .then_step(named_res::<AddResA>(ResourceId(0)));
    p.run(world, input)
}

/// Write `ResA`.
pub fn pipe_world_res_mut(world: &mut World<u64>, input: u64) -> (r: u64)
    requires audit_shape(*old(world)),
    ensures
        ({
            let w0 = old(world)@;
            let t1 = (wadd((w0.values[0]), (input)), (input));
            let w2 = w0.write(ResourceId(0), t1.0);
            let v3 = t1.1;
            r == v3 && final(world)@ == w2
        }),
{
    let mut p = PipelineStart::new()
        .then_step(named_res_mut::<WriteResA>(ResourceId(0)));
    p.run(world, input)
}

/// Read, then write `ResA`.
pub fn pipe_world_res_res_mut(world: &mut World<u64>, input: u64) -> (r: u64)
    requires audit_shape(*old(world)),
    ensures
        ({
            let w0 = old(world)@;
            let v1 = wadd((input), (w0.values[0]));
            let t2 = (wadd((w0.values[0]), (v1)), (v1));
            let w3 = w0.write(ResourceId(0), t2.0);
            let v4 = t2.1;
            r == v4 && final(world)@ == w3
        }),
{
    let mut p = PipelineStart::new()
        .then_step(named_res::<AddResA>(ResourceId(0)))
        .then_step(named_res_mut::<WriteResA>(ResourceId(0)));
    p.run(world, input)
}

/// Read three resources.
pub fn pipe_world_3_params(world: &mut World<u64>, input: u64) -> (r: u64)
    requires audit_shape(*old(world)),
    ensures
        ({
            let w0 = old(world)@;
            let v1 = wadd(wadd(wadd((input), (w0).values[0]), (w0).values[1]), (w0).values[2]);
            r == v1 && final(world)@ == w0
        }),
{
    let mut p = PipelineStart::new()
        .then_step(named_read::<ThreeParams>());
    p.run(world, input)
}

/// Reads and a write in one chain.
pub fn pipe_world_mixed_chain(world: &mut World<u64>, input: u64) -> (r: u64)
    requires audit_shape(*old(world)),
    ensures
        ({
            let w0 = old(world)@;
            let v1 = wadd((input), 1);
            let v2 = wadd((v1), (w0.values[0]));
            let t3 = (wadd((w0.values[0]), (v2)), (v2));
            let w4 = w0.write(ResourceId(0), t3.0);
            let v5 = t3.1;
            let v6 = wmul((v5), 2);
            let v7 = wadd(wadd((v6), (w4).values[0]), (w4).values[1]);
            r == v7 && final(world)@ == w4
        }),
{
    let mut p = PipelineStart::new()
        .then_step(named::<AddOne>())
        .then_step(named_res::<AddResA>(ResourceId(0)))
        .then_step(named_res_mut::<WriteResA>(ResourceId(0)))
        .then_step(named::<Double>())
        .then_step(named_read::<AddBoth>());
    p.run(world, input)
}

/// Write, then check the change stamp.
pub fn pipe_world_change_detection(world: &mut World<u64>, input: u64) -> (r: u64)
    requires audit_shape(*old(world)),
    ensures
        ({
            let w0 = old(world)@;
            let t1 = (wadd((w0.values[0]), (input)), (input));
            let w2 = w0.write(ResourceId(0), t1.0);
            let v3 = t1.1;
            let v4 = if (w2).changed[0] == (w2).seq { wmul((v3), 2) } else { (v3) };
            r == v4 && final(world)@ == w2
        }),
{
    let mut p = PipelineStart::new()
        .then_step(named_res_mut::<WriteResA>(ResourceId(0)))
        .then_step(named_read::<CheckChanged>());
    p.run(world, input)
}

/// Store the input into `ResA`.
pub fn pipe_world_res_mut_stamp(world: &mut World<u64>, input: u64) -> (r: u64)
    requires audit_shape(*old(world)),
    ensures
        ({
            let w0 = old(world)@;
            let t1 = ((input), (input));
            let w2 = w0.write(ResourceId(0), t1.0);
            let v3 = t1.1;
            r == v3 && final(world)@ == w2
        }),
{
    let mut p = PipelineStart::new()
        .then_step(named_res_mut::<StampAndPass>(ResourceId(0)));
    p.run(world, input)
}

/// Guard, to result, map, and-then, default from the error.
pub fn pipe_opt_ok_or_chain(world: &mut World<u64>, input: u64) -> (r: u64)
    requires audit_shape(*old(world)),
    ensures
        ({
            let w0 = old(world)@;
            let v1 = if (input) > 0 { Some(input) } else { Option::<u64>::None };
            let v2 = match v1 { Some(t) => Ok::<u64, u32>(t), None => Err::<u64, u32>(0u32) };
            let v3 = match v2 { Ok(t) => Ok::<u64, u32>(wmul((t), 2)), Err(e) => Err::<u64, u32>(e) };
            let v4 = match v3 { Ok(t) => if (t) < 10_000 { Ok::<u64, u32>(wmul((t), 2)) } else { Err::<u64, u32>((t) as u32) }, Err(e) => Err::<u64, u32>(e) };
            let v5 = match v4 { Ok(t) => t, Err(e) => (e) as u64 };
            r == v5 && final(world)@ == w0
        }),
{
    let mut p = PipelineStart::new()
        .then_step(Ident)
        .guard(named_ref::<GtZero>())
        .ok_or(0u32)
        .map(named::<Double>())
        .and_then(named::<TryParse>())
        .unwrap_or_else(named::<Widen>());
    p.run(world, input)
}

/// Option of option.
pub fn pipe_trans_nested_option(world: &mut World<u64>, input: u64) -> (r: Option<Option<u64>>)
    requires audit_shape(*old(world)),
    ensures
        ({
            let w0 = old(world)@;
            let v1 = if (input) > 0 { Some((input)) } else { Option::<u64>::None };
            let v2 = match v1 { Some(t) => Some(if (t) * 2 <= u64::MAX { Some(((t) * 2) as u64) } else { Option::<u64>::None }), None => Option::<Option<u64>>::None };
            r == v2 && final(world)@ == w0
        }),
{
    let mut p = PipelineStart::new()
        .then_step(named::<MaybePositive>())
        .map(named::<CheckedDouble>());
    p.run(world, input)
}

/// Option of result.
pub fn pipe_trans_result_in_option(world: &mut World<u64>, input: u64) -> (r: Option<Result<u64, u32>>)
    requires audit_shape(*old(world)),
    ensures
        ({
            let w0 = old(world)@;
            let v1 = if (input) > 0 { Some((input)) } else { Option::<u64>::None };
            let v2 = match v1 { Some(t) => Some(if (t) < 10_000 { Ok::<u64, u32>(wmul((t), 2)) } else { Err::<u64, u32>((t) as u32) }), None => Option::<Result<u64, u32>>::None };
            r == v2 && final(world)@ == w0
        }),
{
    let mut p = PipelineStart::new()
        .then_step(named::<MaybePositive>())
        .map(named::<TryParse>());
    p.run(world, input)
}

/// Three nested routes.
pub fn pipe_route_nested_3(world: &mut World<u64>, input: u64) -> (r: u64)
    requires audit_shape(*old(world)),
    ensures
        ({
            let w0 = old(world)@;
            let v1 = wmul((input), 2);
            let v2 = wmul((input), 3);
            let v3 = wadd((input), 1);
            let v4 = wadd((input), 7);
            let v5 = if (input) > 25 { v3 } else { v4 };
            let v6 = if (input) > 50 { v2 } else { v5 };
            let v7 = if (input) > 100 { v1 } else { v6 };
            r == v7 && final(world)@ == w0
        }),
{
    let mut p = PipelineStart::new()
        .then_step(Ident)
        .route(named_ref::<GtHundred>(), PipelineStart::<u64, u64>::new().then_step(named::<Double>()).chain, PipelineStart::<u64, u64>::new().then_step(Ident).route(named_ref::<GtFifty>(), PipelineStart::<u64, u64>::new().then_step(named::<Triple>()).chain, PipelineStart::<u64, u64>::new().then_step(Ident).route(named_ref::<GtTwentyFive>(), PipelineStart::<u64, u64>::new().then_step(named::<AddOne>()).chain, PipelineStart::<u64, u64>::new().then_step(named::<AddSeven>()).chain).chain).chain);
    p.run(world, input)
}

/// Write, then check the change stamp against sequence 0.
pub fn pipe_world_changed_after(world: &mut World<u64>, input: u64) -> (r: u64)
    requires audit_shape(*old(world)),
    ensures
        ({
            let w0 = old(world)@;
            let t1 = (wadd((w0.values[0]), (input)), (input));
            let w2 = w0.write(ResourceId(0), t1.0);
            let v3 = t1.1;
            let v4 = if (w2).changed[0] > 0 { wmul((v3), 2) } else { (v3) };
            r == v4 && final(world)@ == w2
        }),
{
    let mut p = PipelineStart::new()
        .then_step(named_res_mut::<WriteResA>(ResourceId(0)))
        .then_step(named_read::<CheckSince>());
    p.run(world, input)
}

/// A borrowed `u64` cloned, then `double`.
pub fn pipe_cloned_copy_type(world: &mut World<u64>, input: u64) -> (r: u64)
    ensures r == wmul(input, 2), *final(world) == *old(world),
{
    let mut p = PipelineStart::<u64, &u64>::new()
        .then_step(named::<PassRef>())
        .cloned()
        .then_step(named::<Double>());
    p.run(world, &input)
}

/// `&u64` to `u64` by `cloned`, then `double`.
pub fn pipe_cloned_bare(world: &mut World<u64>, input: u64) -> (r: u64)
    ensures r == wmul(input, 2), *final(world) == *old(world),
{
    let mut p = PipelineStart::<u64, &u64>::new()
        .then_step(named::<PassRef>())
        .cloned()
        .then_step(named::<Double>());
    p.run(world, &input)
}

/// `Option<&u64>` to `Option<u64>` by `cloned`, then `unwrap_or(0)`.
pub fn pipe_cloned_option(world: &mut World<u64>, input: u64) -> (r: u64)
    ensures r == (if input > 0 { input } else { 0 }), *final(world) == *old(world),
{
    let mut p = PipelineStart::<u64, &u64>::new()
        .then_step(named::<MaybeBorrowed>())
        .cloned()
        .unwrap_or(0);
    p.run(world, &input)
}

/// `Result<&u64, u32>` to `Result<u64, u32>` by `cloned`, then `unwrap_or(0)`.
pub fn pipe_cloned_result(world: &mut World<u64>, input: u64) -> (r: u64)
    ensures r == (if input < 10_000 { input } else { 0 }), *final(world) == *old(world),
{
    let mut p = PipelineStart::<u64, &u64>::new()
        .then_step(named::<TryBorrowed>())
        .cloned()
        .unwrap_or(0);
    p.run(world, &input)
}

/// A 256-byte value through a step and a guard on its front byte.
pub fn pipe_guard_large_type(world: &mut World<u64>, input: [u8; 256]) -> (r: Option<[u8; 256]>)
    ensures r == (if input@[0] > 0 { Some(input) } else { None }), *final(world) == *old(world),
{
    let mut p = PipelineStart::new()
        .then_step(named::<SameBytes>())
        .guard(named_ref::<FirstByteSet>());
    p.run(world, input)
}

/// A pair of 64-byte arrays split into the next step's two arguments.
pub fn pipe_splat_large_types(world: &mut World<u64>, input: u64) -> (r: u64)
    ensures r == (input as u8) + ((input >> 8) as u8), *final(world) == *old(world),
{
    let mut p = PipelineStart::new()
        .then_step(named::<MakePair>())
        .then_step(named::<CombinePair>());
    p.run(world, input)
}

/// `add_one`, then a fan-out adding the result into `ResA` and `ResB`.
pub fn pipe_dispatch_fanout2(world: &mut World<u64>, input: u64)
    requires audit_shape(*old(world)),
    ensures
        ({
            let w0 = old(world)@;
            let v = wadd(input, 1);
            let w1 = w0.write(ResourceId(0), wadd(w0.values[0], v));
            let w2 = w1.write(ResourceId(1), vstd::wrapping::u32_specs::wrapping_add(w1.values[1] as u32, v as u32) as u64);
            final(world)@ == w2
        }),
{
    let h1 = into_ref_handler(named_ref_res_mut::<RefConsume>(ResourceId(0)));
    let h2 = into_ref_handler(named_ref_res_mut::<RefSinkB>(ResourceId(1)));
    let mut p = PipelineStart::new()
        .then_step(named::<AddOne>())
        .dispatch(FanOut((h1, h2)));
    p.run(world, input);
}

/// `add_one`, then a fan-out adding the result into `ResA`, `ResB`, `ResC`
/// and `ResD`, each in its own width.
pub fn pipe_dispatch_fanout4(world: &mut World<u64>, input: u64)
    requires audit_shape(*old(world)),
    ensures
        ({
            let w0 = old(world)@;
            let v = wadd(input, 1);
            let w1 = w0.write(ResourceId(0), wadd(w0.values[0], v));
            let w2 = w1.write(ResourceId(1), vstd::wrapping::u32_specs::wrapping_add(w1.values[1] as u32, v as u32) as u64);
            let w3 = w2.write(ResourceId(2), vstd::wrapping::u16_specs::wrapping_add(w2.values[2] as u16, v as u16) as u64);
            let w4 = w3.write(ResourceId(3), vstd::wrapping::u8_specs::wrapping_add(w3.values[3] as u8, v as u8) as u64);
            final(world)@ == w4
        }),
{
    let h1 = into_ref_handler(named_ref_res_mut::<RefConsume>(ResourceId(0)));
    let h2 = into_ref_handler(named_ref_res_mut::<RefSinkB>(ResourceId(1)));
    let h3 = into_ref_handler(named_ref_res_mut::<RefSinkC>(ResourceId(2)));
    let h4 = into_ref_handler(named_ref_res_mut::<RefSinkD>(ResourceId(3)));
    let mut p = PipelineStart::new()
        .then_step(named::<AddOne>())
        .dispatch(FanOut((h1, h2, h3, h4)));
    p.run(world, input);
}

/// A pair as the first input, split into `splat_add`'s two arguments.
pub fn pipe_splat2_start(world: &mut World<u64>, input: (u32, u32)) -> (r: u64)
    ensures r == (input.0 + input.1) as u64, *final(world) == *old(world),
{
    let mut p = PipelineStart::new()
        .then_step(named::<SplatAdd>());
    p.run(world, input)
}

/// A step with a private call counter, on a fresh pipeline: the first
/// call counts one.
pub fn pipe_world_local(world: &mut World<u64>, input: u64) -> (r: u64)
    ensures r == wadd(input, 1), *final(world) == *old(world),
{
    let mut p = PipelineStart::new()
        .then_step(named_local::<u64, CountCalls>(0));
    p.run(world, input)
}

} // verus!
