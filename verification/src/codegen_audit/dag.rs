//! DAG audit cases.
use vstd::prelude::*;
use crate::world::{World, ResourceId};
use crate::step::{named, named_ref, named_res, named_res_mut, named_read, named_ref_res, named_ref_res_mut, named_ref_read, Step};
use crate::dag::{DagStart, DagArmStart};
use crate::handler::{into_handler, into_ref_handler};
use crate::combinator::FanOut;
use super::helpers::{RefIdentity, RefSinkB, PassRef, MaybeBorrowed, TryBorrowed, add_one, AddOne, AddResA, ConsumeVal, IsEven, MaybePositive, RefAddBoth, RefAddFortyTwo, RefAddOne, RefAddResA, RefAddSeven, RefAddThree, RefConsume, RefDouble, RefMaybePositive, RefShrOne, RefSplitU64, RefSquare, RefSubTen, RefThreeParams, RefTriple, RefTryParse, RefWriteResA, RefXorMask, Split3, Split5, SplitU64, ThreeParams, TryParse, WriteResA, wadd, wmul, wsub, audit_shape};
use super::preds::{GtFifty, GtFive, GtHundred, GtTen, GtZero, LtFiveHundred, LtThousand, MergeAdd, MergeConsume, MergeFour, MergeMul, MergeThree, MergeThreeConsume, No, Nothing, Observe, ObserveErr, RecoverCode, RefBoolToU64, RefLogError, RefSplat3, RefSplat5, RefSplatAdd, RefSwitchBasic, RefSwitchThreeWay, Widen, Yes, Zero};

verus! {


/// Root, then the sink.
pub fn dag_linear_1(world: &mut World<u64>, input: u64)
    requires audit_shape(*old(world)),
    ensures
        ({
            let w0 = old(world)@;
            let v1 = wadd((input), 1);
            let t2 = (wadd((w0.values[0]), (v1)), ());
            let w3 = w0.write(ResourceId(0), t2.0);
            let v4 = t2.1;
            true && final(world)@ == w3
        }),
{
    let mut d = DagStart::new()
        .root(named::<AddOne>())
        .then_step(named_ref_res_mut::<RefConsume>(ResourceId(0)))
        .build();
    d.run_chain(world, input)
}

/// Root, one node, the sink.
pub fn dag_linear_2(world: &mut World<u64>, input: u64)
    requires audit_shape(*old(world)),
    ensures
        ({
            let w0 = old(world)@;
            let v1 = wadd((input), 1);
            let v2 = wmul((v1), 2);
            let t3 = (wadd((w0.values[0]), (v2)), ());
            let w4 = w0.write(ResourceId(0), t3.0);
            let v5 = t3.1;
            true && final(world)@ == w4
        }),
{
    let mut d = DagStart::new()
        .root(named::<AddOne>())
        .then_step(named_ref::<RefDouble>())
        .then_step(named_ref_res_mut::<RefConsume>(ResourceId(0)))
        .build();
    d.run_chain(world, input)
}

/// Root, two nodes, the sink.
pub fn dag_linear_3(world: &mut World<u64>, input: u64)
    requires audit_shape(*old(world)),
    ensures
        ({
            let w0 = old(world)@;
            let v1 = wadd((input), 1);
            let v2 = wmul((v1), 2);
            let v3 = wadd((v2), 3);
            let t4 = (wadd((w0.values[0]), (v3)), ());
            let w5 = w0.write(ResourceId(0), t4.0);
            let v6 = t4.1;
            true && final(world)@ == w5
        }),
{
    let mut d = DagStart::new()
        .root(named::<AddOne>())
        .then_step(named_ref::<RefDouble>())
        .then_step(named_ref::<RefAddThree>())
        .then_step(named_ref_res_mut::<RefConsume>(ResourceId(0)))
        .build();
    d.run_chain(world, input)
}

/// Root, four nodes, the sink.
pub fn dag_linear_5(world: &mut World<u64>, input: u64)
    requires audit_shape(*old(world)),
    ensures
        ({
            let w0 = old(world)@;
            let v1 = wadd((input), 1);
            let v2 = wmul((v1), 2);
            let v3 = wadd((v2), 3);
            let v4 = wmul((v3), (v3));
            let v5 = wsub((v4), 10);
            let t6 = (wadd((w0.values[0]), (v5)), ());
            let w7 = w0.write(ResourceId(0), t6.0);
            let v8 = t6.1;
            true && final(world)@ == w7
        }),
{
    let mut d = DagStart::new()
        .root(named::<AddOne>())
        .then_step(named_ref::<RefDouble>())
        .then_step(named_ref::<RefAddThree>())
        .then_step(named_ref::<RefSquare>())
        .then_step(named_ref::<RefSubTen>())
        .then_step(named_ref_res_mut::<RefConsume>(ResourceId(0)))
        .build();
    d.run_chain(world, input)
}

/// Root, nine nodes, the sink.
pub fn dag_linear_10(world: &mut World<u64>, input: u64)
    requires audit_shape(*old(world)),
    ensures
        ({
            let w0 = old(world)@;
            let v1 = wadd((input), 1);
            let v2 = wmul((v1), 2);
            let v3 = wadd((v2), 3);
            let v4 = wmul((v3), (v3));
            let v5 = wsub((v4), 10);
            let v6 = (v5) / 2;
            let v7 = (v6) ^ 0xDEAD_BEEF;
            let v8 = wadd((v7), 7);
            let v9 = wmul((v8), 3);
            let v10 = wadd((v9), 42);
            let t11 = (wadd((w0.values[0]), (v10)), ());
            let w12 = w0.write(ResourceId(0), t11.0);
            let v13 = t11.1;
            true && final(world)@ == w12
        }),
{
    let mut d = DagStart::new()
        .root(named::<AddOne>())
        .then_step(named_ref::<RefDouble>())
        .then_step(named_ref::<RefAddThree>())
        .then_step(named_ref::<RefSquare>())
        .then_step(named_ref::<RefSubTen>())
        .then_step(named_ref::<RefShrOne>())
        .then_step(named_ref::<RefXorMask>())
        .then_step(named_ref::<RefAddSeven>())
        .then_step(named_ref::<RefTriple>())
        .then_step(named_ref::<RefAddFortyTwo>())
        .then_step(named_ref_res_mut::<RefConsume>(ResourceId(0)))
        .build();
    d.run_chain(world, input)
}

/// Root, nineteen nodes, the sink.
pub fn dag_linear_20(world: &mut World<u64>, input: u64)
    requires audit_shape(*old(world)),
    ensures
        ({
            let w0 = old(world)@;
            let v1 = wadd((input), 1);
            let v2 = wmul((v1), 2);
            let v3 = wadd((v2), 3);
            let v4 = wmul((v3), (v3));
            let v5 = wsub((v4), 10);
            let v6 = (v5) / 2;
            let v7 = (v6) ^ 0xDEAD_BEEF;
            let v8 = wadd((v7), 7);
            let v9 = wmul((v8), 3);
            let v10 = wadd((v9), 42);
            let v11 = wadd((v10), 1);
            let v12 = wmul((v11), 2);
            let v13 = wadd((v12), 3);
            let v14 = wmul((v13), (v13));
            let v15 = wsub((v14), 10);
            let v16 = (v15) / 2;
            let v17 = (v16) ^ 0xDEAD_BEEF;
            let v18 = wadd((v17), 7);
            let v19 = wmul((v18), 3);
            let v20 = wadd((v19), 42);
            let t21 = (wadd((w0.values[0]), (v20)), ());
            let w22 = w0.write(ResourceId(0), t21.0);
            let v23 = t21.1;
            true && final(world)@ == w22
        }),
{
    let mut d = DagStart::new()
        .root(named::<AddOne>())
        .then_step(named_ref::<RefDouble>())
        .then_step(named_ref::<RefAddThree>())
        .then_step(named_ref::<RefSquare>())
        .then_step(named_ref::<RefSubTen>())
        .then_step(named_ref::<RefShrOne>())
        .then_step(named_ref::<RefXorMask>())
        .then_step(named_ref::<RefAddSeven>())
        .then_step(named_ref::<RefTriple>())
        .then_step(named_ref::<RefAddFortyTwo>())
        .then_step(named_ref::<RefAddOne>())
        .then_step(named_ref::<RefDouble>())
        .then_step(named_ref::<RefAddThree>())
        .then_step(named_ref::<RefSquare>())
        .then_step(named_ref::<RefSubTen>())
        .then_step(named_ref::<RefShrOne>())
        .then_step(named_ref::<RefXorMask>())
        .then_step(named_ref::<RefAddSeven>())
        .then_step(named_ref::<RefTriple>())
        .then_step(named_ref::<RefAddFortyTwo>())
        .then_step(named_ref_res_mut::<RefConsume>(ResourceId(0)))
        .build();
    d.run_chain(world, input)
}

/// Nodes with zero to three resource parameters.
pub fn dag_linear_mixed_arity(world: &mut World<u64>, input: u64)
    requires audit_shape(*old(world)),
    ensures
        ({
            let w0 = old(world)@;
            let v1 = wadd((input), 1);
            let v2 = wadd((v1), (w0.values[0]));
            let t3 = (wadd((w0.values[0]), (v2)), (v2));
            let w4 = w0.write(ResourceId(0), t3.0);
            let v5 = t3.1;
            let v6 = wadd(wadd((v5), (w4).values[0]), (w4).values[1]);
            let v7 = wadd(wadd(wadd((v6), (w4).values[0]), (w4).values[1]), (w4).values[2]);
            let t8 = (wadd((w4.values[0]), (v7)), ());
            let w9 = w4.write(ResourceId(0), t8.0);
            let v10 = t8.1;
            true && final(world)@ == w9
        }),
{
    let mut d = DagStart::new()
        .root(named::<AddOne>())
        .then_step(named_ref_res::<RefAddResA>(ResourceId(0)))
        .then_step(named_ref_res_mut::<RefWriteResA>(ResourceId(0)))
        .then_step(named_ref_read::<RefAddBoth>())
        .then_step(named_ref_read::<RefThreeParams>())
        .then_step(named_ref_res_mut::<RefConsume>(ResourceId(0)))
        .build();
    d.run_chain(world, input)
}

/// Fork into two arms and merge.
pub fn dag_fork2_merge(world: &mut World<u64>, input: u64)
    requires audit_shape(*old(world)),
    ensures
        ({
            let w0 = old(world)@;
            let v1 = wadd((input), 1);
            let v2 = wmul((v1), 2);
            let v3 = wmul((v1), 3);
            let v4 = wadd(((v2, v3)).0, ((v2, v3)).1);
            let t5 = (wadd((w0.values[0]), (v4)), ());
            let w6 = w0.write(ResourceId(0), t5.0);
            let v7 = t5.1;
            true && final(world)@ == w6
        }),
{
    let mut d = DagStart::new()
        .root(named::<AddOne>())
        .fork()
        .arm(DagArmStart::new().then_step(named_ref::<RefDouble>()))
        .arm(DagArmStart::new().then_step(named_ref::<RefTriple>()))
        .merge(named_ref::<MergeAdd>())
        .then_step(named_ref_res_mut::<RefConsume>(ResourceId(0)))
        .build();
    d.run_chain(world, input)
}

/// Fork into three arms and merge.
pub fn dag_fork3_merge(world: &mut World<u64>, input: u64)
    requires audit_shape(*old(world)),
    ensures
        ({
            let w0 = old(world)@;
            let v1 = wadd((input), 1);
            let v2 = wmul((v1), 2);
            let v3 = wmul((v1), 3);
            let v4 = wadd((v1), 7);
            let v5 = wadd(wadd(((v2, v3, v4)).0, ((v2, v3, v4)).1), ((v2, v3, v4)).2);
            let t6 = (wadd((w0.values[0]), (v5)), ());
            let w7 = w0.write(ResourceId(0), t6.0);
            let v8 = t6.1;
            true && final(world)@ == w7
        }),
{
    let mut d = DagStart::new()
        .root(named::<AddOne>())
        .fork()
        .arm(DagArmStart::new().then_step(named_ref::<RefDouble>()))
        .arm(DagArmStart::new().then_step(named_ref::<RefTriple>()))
        .arm(DagArmStart::new().then_step(named_ref::<RefAddSeven>()))
        .merge(named_ref::<MergeThree>())
        .then_step(named_ref_res_mut::<RefConsume>(ResourceId(0)))
        .build();
    d.run_chain(world, input)
}

/// Fork into four arms and merge.
pub fn dag_fork4_merge(world: &mut World<u64>, input: u64)
    requires audit_shape(*old(world)),
    ensures
        ({
            let w0 = old(world)@;
            let v1 = wadd((input), 1);
            let v2 = wmul((v1), 2);
            let v3 = wmul((v1), 3);
            let v4 = wadd((v1), 7);
            let v5 = (v1) ^ 0xDEAD_BEEF;
            let v6 = wadd(wadd(wadd(((v2, v3, v4, v5)).0, ((v2, v3, v4, v5)).1), ((v2, v3, v4, v5)).2), ((v2, v3, v4, v5)).3);
            let t7 = (wadd((w0.values[0]), (v6)), ());
            let w8 = w0.write(ResourceId(0), t7.0);
            let v9 = t7.1;
            true && final(world)@ == w8
        }),
{
    let mut d = DagStart::new()
        .root(named::<AddOne>())
        .fork()
        .arm(DagArmStart::new().then_step(named_ref::<RefDouble>()))
        .arm(DagArmStart::new().then_step(named_ref::<RefTriple>()))
        .arm(DagArmStart::new().then_step(named_ref::<RefAddSeven>()))
        .arm(DagArmStart::new().then_step(named_ref::<RefXorMask>()))
        .merge(named_ref::<MergeFour>())
        .then_step(named_ref_res_mut::<RefConsume>(ResourceId(0)))
        .build();
    d.run_chain(world, input)
}

/// Fork into two sinks and join.
pub fn dag_fork2_join(world: &mut World<u64>, input: u64)
    requires audit_shape(*old(world)),
    ensures
        ({
            let w0 = old(world)@;
            let v1 = wadd((input), 1);
            let t2 = (wadd((w0.values[0]), (v1)), ());
            let w3 = w0.write(ResourceId(0), t2.0);
            let v4 = t2.1;
            let t5 = (wadd((w3.values[0]), (v1)), ());
            let w6 = w3.write(ResourceId(0), t5.0);
            let v7 = t5.1;
            let v8 = ();
            true && final(world)@ == w6
        }),
{
    let mut d = DagStart::new()
        .root(named::<AddOne>())
        .fork()
        .arm(DagArmStart::new().then_step(named_ref_res_mut::<RefConsume>(ResourceId(0))))
        .arm(DagArmStart::new().then_step(named_ref_res_mut::<RefConsume>(ResourceId(0))))
        .join()
        .build();
    d.run_chain(world, input)
}

/// Fork into three sinks and join.
pub fn dag_fork3_join(world: &mut World<u64>, input: u64)
    requires audit_shape(*old(world)),
    ensures
        ({
            let w0 = old(world)@;
            let v1 = wadd((input), 1);
            let t2 = (wadd((w0.values[0]), (v1)), ());
            let w3 = w0.write(ResourceId(0), t2.0);
            let v4 = t2.1;
            let t5 = (wadd((w3.values[0]), (v1)), ());
            let w6 = w3.write(ResourceId(0), t5.0);
            let v7 = t5.1;
            let t8 = (wadd((w6.values[0]), (v1)), ());
            let w9 = w6.write(ResourceId(0), t8.0);
            let v10 = t8.1;
            let v11 = ();
            true && final(world)@ == w9
        }),
{
    let mut d = DagStart::new()
        .root(named::<AddOne>())
        .fork()
        .arm(DagArmStart::new().then_step(named_ref_res_mut::<RefConsume>(ResourceId(0))))
        .arm(DagArmStart::new().then_step(named_ref_res_mut::<RefConsume>(ResourceId(0))))
        .arm(DagArmStart::new().then_step(named_ref_res_mut::<RefConsume>(ResourceId(0))))
        .join()
        .build();
    d.run_chain(world, input)
}

/// Fork into two arms, merge into `ResA`.
pub fn dag_fork2_merge_consume(world: &mut World<u64>, input: u64)
    requires audit_shape(*old(world)),
    ensures
        ({
            let w0 = old(world)@;
            let v1 = wadd((input), 1);
            let v2 = wmul((v1), 2);
            let v3 = wmul((v1), 3);
            let t4 = (wadd(((v2, v3)).0, ((v2, v3)).1), ());
            let w5 = w0.write(ResourceId(0), t4.0);
            let v6 = t4.1;
            true && final(world)@ == w5
        }),
{
    let mut d = DagStart::new()
        .root(named::<AddOne>())
        .fork()
        .arm(DagArmStart::new().then_step(named_ref::<RefDouble>()))
        .arm(DagArmStart::new().then_step(named_ref::<RefTriple>()))
        .merge(named_ref_res_mut::<MergeConsume>(ResourceId(0)))
        .build();
    d.run_chain(world, input)
}

/// Fork into three arms, merge into `ResA`.
pub fn dag_fork3_merge_consume(world: &mut World<u64>, input: u64)
    requires audit_shape(*old(world)),
    ensures
        ({
            let w0 = old(world)@;
            let v1 = wadd((input), 1);
            let v2 = wmul((v1), 2);
            let v3 = wmul((v1), 3);
            let v4 = wadd((v1), 7);
            let t5 = (wadd(wadd(((v2, v3, v4)).0, ((v2, v3, v4)).1), ((v2, v3, v4)).2), ());
            let w6 = w0.write(ResourceId(0), t5.0);
            let v7 = t5.1;
            true && final(world)@ == w6
        }),
{
    let mut d = DagStart::new()
        .root(named::<AddOne>())
        .fork()
        .arm(DagArmStart::new().then_step(named_ref::<RefDouble>()))
        .arm(DagArmStart::new().then_step(named_ref::<RefTriple>()))
        .arm(DagArmStart::new().then_step(named_ref::<RefAddSeven>()))
        .merge(named_ref_res_mut::<MergeThreeConsume>(ResourceId(0)))
        .build();
    d.run_chain(world, input)
}

/// Fork into two five-node arms.
pub fn dag_fork_heavy_arms(world: &mut World<u64>, input: u64)
    requires audit_shape(*old(world)),
    ensures
        ({
            let w0 = old(world)@;
            let v1 = wadd((input), 1);
            let v2 = wmul((v1), 2);
            let v3 = wadd((v2), 3);
            let v4 = wmul((v3), (v3));
            let v5 = wsub((v4), 10);
            let v6 = (v5) / 2;
            let v7 = wadd((v1), 1);
            let v8 = wmul((v7), 3);
            let v9 = (v8) ^ 0xDEAD_BEEF;
            let v10 = wadd((v9), 7);
            let v11 = wadd((v10), 42);
            let v12 = wadd(((v6, v11)).0, ((v6, v11)).1);
            let t13 = (wadd((w0.values[0]), (v12)), ());
            let w14 = w0.write(ResourceId(0), t13.0);
            let v15 = t13.1;
            true && final(world)@ == w14
        }),
{
    let mut d = DagStart::new()
        .root(named::<AddOne>())
        .fork()
        .arm(DagArmStart::new().then_step(named_ref::<RefDouble>()).then_step(named_ref::<RefAddThree>()).then_step(named_ref::<RefSquare>()).then_step(named_ref::<RefSubTen>()).then_step(named_ref::<RefShrOne>()))
        .arm(DagArmStart::new().then_step(named_ref::<RefAddOne>()).then_step(named_ref::<RefTriple>()).then_step(named_ref::<RefXorMask>()).then_step(named_ref::<RefAddSeven>()).then_step(named_ref::<RefAddFortyTwo>()))
        .merge(named_ref::<MergeAdd>())
        .then_step(named_ref_res_mut::<RefConsume>(ResourceId(0)))
        .build();
    d.run_chain(world, input)
}

/// A fork inside an arm.
pub fn dag_nested_fork(world: &mut World<u64>, input: u64)
    requires audit_shape(*old(world)),
    ensures
        ({
            let w0 = old(world)@;
            let v1 = wadd((input), 1);
            let v2 = wmul((v1), 2);
            let v3 = wadd((v2), 1);
            let v4 = wmul((v2), 3);
            let v5 = wadd(((v3, v4)).0, ((v3, v4)).1);
            let v6 = wadd((v1), 7);
            let v7 = wadd(((v5, v6)).0, ((v5, v6)).1);
            let t8 = (wadd((w0.values[0]), (v7)), ());
            let w9 = w0.write(ResourceId(0), t8.0);
            let v10 = t8.1;
            true && final(world)@ == w9
        }),
{
    let mut d = DagStart::new()
        .root(named::<AddOne>())
        .fork()
        .arm(DagArmStart::new().then_step(named_ref::<RefDouble>()).fork().arm(DagArmStart::new().then_step(named_ref::<RefAddOne>())).arm(DagArmStart::new().then_step(named_ref::<RefTriple>())).merge(named_ref::<MergeAdd>()))
        .arm(DagArmStart::new().then_step(named_ref::<RefAddSeven>()))
        .merge(named_ref::<MergeAdd>())
        .then_step(named_ref_res_mut::<RefConsume>(ResourceId(0)))
        .build();
    d.run_chain(world, input)
}

/// Two forks in sequence.
pub fn dag_diamond(world: &mut World<u64>, input: u64)
    requires audit_shape(*old(world)),
    ensures
        ({
            let w0 = old(world)@;
            let v1 = wadd((input), 1);
            let v2 = wmul((v1), 2);
            let v3 = wmul((v1), 3);
            let v4 = wadd(((v2, v3)).0, ((v2, v3)).1);
            let v5 = wmul((v4), (v4));
            let v6 = (v4) / 2;
            let v7 = wmul(((v5, v6)).0, ((v5, v6)).1);
            let t8 = (wadd((w0.values[0]), (v7)), ());
            let w9 = w0.write(ResourceId(0), t8.0);
            let v10 = t8.1;
            true && final(world)@ == w9
        }),
{
    let mut d = DagStart::new()
        .root(named::<AddOne>())
        .fork()
        .arm(DagArmStart::new().then_step(named_ref::<RefDouble>()))
        .arm(DagArmStart::new().then_step(named_ref::<RefTriple>()))
        .merge(named_ref::<MergeAdd>())
        .fork()
        .arm(DagArmStart::new().then_step(named_ref::<RefSquare>()))
        .arm(DagArmStart::new().then_step(named_ref::<RefShrOne>()))
        .merge(named_ref::<MergeMul>())
        .then_step(named_ref_res_mut::<RefConsume>(ResourceId(0)))
        .build();
    d.run_chain(world, input)
}

/// Guard and ten maps.
pub fn dag_guard_skip_10(world: &mut World<u64>, input: u64)
    requires audit_shape(*old(world)),
    ensures
        ({
            let w0 = old(world)@;
            let v1 = wadd((input), 1);
            let v2 = if (v1) > 100 { Some(v1) } else { Option::<u64>::None };
            let v3 = match v2 { Some(t) => Some(wmul((t), 2)), None => Option::<u64>::None };
            let v4 = match v3 { Some(t) => Some(wadd((t), 3)), None => Option::<u64>::None };
            let v5 = match v4 { Some(t) => Some(wmul((t), (t))), None => Option::<u64>::None };
            let v6 = match v5 { Some(t) => Some(wsub((t), 10)), None => Option::<u64>::None };
            let v7 = match v6 { Some(t) => Some((t) / 2), None => Option::<u64>::None };
            let v8 = match v7 { Some(t) => Some((t) ^ 0xDEAD_BEEF), None => Option::<u64>::None };
            let v9 = match v8 { Some(t) => Some(wadd((t), 7)), None => Option::<u64>::None };
            let v10 = match v9 { Some(t) => Some(wmul((t), 3)), None => Option::<u64>::None };
            let v11 = match v10 { Some(t) => Some(wadd((t), 42)), None => Option::<u64>::None };
            let v12 = match v11 { Some(t) => Some(wadd((t), 1)), None => Option::<u64>::None };
            let v13 = match v12 { Some(t) => t, None => 0u64 };
            let t14 = (wadd((w0.values[0]), (v13)), ());
            let w15 = w0.write(ResourceId(0), t14.0);
            let v16 = t14.1;
            true && final(world)@ == w15
        }),
{
    let mut d = DagStart::new()
        .root(named::<AddOne>())
        .guard(named_ref::<GtHundred>())
        .map(named_ref::<RefDouble>())
        .map(named_ref::<RefAddThree>())
        .map(named_ref::<RefSquare>())
        .map(named_ref::<RefSubTen>())
        .map(named_ref::<RefShrOne>())
        .map(named_ref::<RefXorMask>())
        .map(named_ref::<RefAddSeven>())
        .map(named_ref::<RefTriple>())
        .map(named_ref::<RefAddFortyTwo>())
        .map(named_ref::<RefAddOne>())
        .unwrap_or(0)
        .then_step(named_ref_res_mut::<RefConsume>(ResourceId(0)))
        .build();
    d.run_chain(world, input)
}

/// Result and ten maps.
pub fn dag_res_err_skip_10(world: &mut World<u64>, input: u64)
    requires audit_shape(*old(world)),
    ensures
        ({
            let w0 = old(world)@;
            let v1 = if (input) < 10_000 { Ok::<u64, u32>(wmul((input), 2)) } else { Err::<u64, u32>((input) as u32) };
            let v2 = match v1 { Ok(t) => Ok::<u64, u32>(wadd((t), 1)), Err(e) => Err::<u64, u32>(e) };
            let v3 = match v2 { Ok(t) => Ok::<u64, u32>(wmul((t), 2)), Err(e) => Err::<u64, u32>(e) };
            let v4 = match v3 { Ok(t) => Ok::<u64, u32>(wadd((t), 3)), Err(e) => Err::<u64, u32>(e) };
            let v5 = match v4 { Ok(t) => Ok::<u64, u32>(wmul((t), (t))), Err(e) => Err::<u64, u32>(e) };
            let v6 = match v5 { Ok(t) => Ok::<u64, u32>(wsub((t), 10)), Err(e) => Err::<u64, u32>(e) };
            let v7 = match v6 { Ok(t) => Ok::<u64, u32>((t) / 2), Err(e) => Err::<u64, u32>(e) };
            let v8 = match v7 { Ok(t) => Ok::<u64, u32>((t) ^ 0xDEAD_BEEF), Err(e) => Err::<u64, u32>(e) };
            let v9 = match v8 { Ok(t) => Ok::<u64, u32>(wadd((t), 7)), Err(e) => Err::<u64, u32>(e) };
            let v10 = match v9 { Ok(t) => Ok::<u64, u32>(wmul((t), 3)), Err(e) => Err::<u64, u32>(e) };
            let v11 = match v10 { Ok(t) => Ok::<u64, u32>(wadd((t), 42)), Err(e) => Err::<u64, u32>(e) };
            let v12 = match v11 { Ok(t) => t, Err(e) => 0u64 };
            let t13 = (wadd((w0.values[0]), (v12)), ());
            let w14 = w0.write(ResourceId(0), t13.0);
            let v15 = t13.1;
            true && final(world)@ == w14
        }),
{
    let mut d = DagStart::new()
        .root(named::<TryParse>())
        .map(named_ref::<RefAddOne>())
        .map(named_ref::<RefDouble>())
        .map(named_ref::<RefAddThree>())
        .map(named_ref::<RefSquare>())
        .map(named_ref::<RefSubTen>())
        .map(named_ref::<RefShrOne>())
        .map(named_ref::<RefXorMask>())
        .map(named_ref::<RefAddSeven>())
        .map(named_ref::<RefTriple>())
        .map(named_ref::<RefAddFortyTwo>())
        .unwrap_or(0)
        .then_step(named_ref_res_mut::<RefConsume>(ResourceId(0)))
        .build();
    d.run_chain(world, input)
}

/// Guard and default.
pub fn dag_guard(world: &mut World<u64>, input: u64)
    requires audit_shape(*old(world)),
    ensures
        ({
            let w0 = old(world)@;
            let v1 = wadd((input), 1);
            let v2 = if (v1) > 10 { Some(v1) } else { Option::<u64>::None };
            let v3 = match v2 { Some(t) => t, None => 0u64 };
            let t4 = (wadd((w0.values[0]), (v3)), ());
            let w5 = w0.write(ResourceId(0), t4.0);
            let v6 = t4.1;
            true && final(world)@ == w5
        }),
{
    let mut d = DagStart::new()
        .root(named::<AddOne>())
        .guard(named_ref::<GtTen>())
        .unwrap_or(0)
        .then_step(named_ref_res_mut::<RefConsume>(ResourceId(0)))
        .build();
    d.run_chain(world, input)
}

/// Guard, filter, default.
pub fn dag_filter(world: &mut World<u64>, input: u64)
    requires audit_shape(*old(world)),
    ensures
        ({
            let w0 = old(world)@;
            let v1 = wadd((input), 1);
            let v2 = if (v1) > 0 { Some(v1) } else { Option::<u64>::None };
            let v3 = match v2 { Some(t) => if (t) < 1000 { Some(t) } else { Option::<u64>::None }, None => Option::<u64>::None };
            let v4 = match v3 { Some(t) => t, None => 0u64 };
            let t5 = (wadd((w0.values[0]), (v4)), ());
            let w6 = w0.write(ResourceId(0), t5.0);
            let v7 = t5.1;
            true && final(world)@ == w6
        }),
{
    let mut d = DagStart::new()
        .root(named::<AddOne>())
        .guard(named_ref::<GtZero>())
        .filter(named_ref::<LtThousand>())
        .unwrap_or(0)
        .then_step(named_ref_res_mut::<RefConsume>(ResourceId(0)))
        .build();
    d.run_chain(world, input)
}

/// Dedup and default.
pub fn dag_dedup(world: &mut World<u64>, input: u64)
    requires audit_shape(*old(world)),
    ensures
        ({
            let w0 = old(world)@;
            let v1 = wadd((input), 1);
            let v2 = Some(v1);
            let v3 = match v2 { Some(t) => t, None => 0u64 };
            let t4 = (wadd((w0.values[0]), (v3)), ());
            let w5 = w0.write(ResourceId(0), t4.0);
            let v6 = t4.1;
            true && final(world)@ == w5
        }),
{
    let mut d = DagStart::new()
        .root(named::<AddOne>())
        .dedup()
        .unwrap_or(0)
        .then_step(named_ref_res_mut::<RefConsume>(ResourceId(0)))
        .build();
    d.run_chain(world, input)
}

/// Option map.
pub fn dag_opt_map(world: &mut World<u64>, input: u64)
    requires audit_shape(*old(world)),
    ensures
        ({
            let w0 = old(world)@;
            let v1 = if (input) > 0 { Some((input)) } else { Option::<u64>::None };
            let v2 = match v1 { Some(t) => Some(wmul((t), 2)), None => Option::<u64>::None };
            let v3 = match v2 { Some(t) => t, None => 0u64 };
            let t4 = (wadd((w0.values[0]), (v3)), ());
            let w5 = w0.write(ResourceId(0), t4.0);
            let v6 = t4.1;
            true && final(world)@ == w5
        }),
{
    let mut d = DagStart::new()
        .root(named::<MaybePositive>())
        .map(named_ref::<RefDouble>())
        .unwrap_or(0)
        .then_step(named_ref_res_mut::<RefConsume>(ResourceId(0)))
        .build();
    d.run_chain(world, input)
}

/// Option and-then.
pub fn dag_opt_and_then(world: &mut World<u64>, input: u64)
    requires audit_shape(*old(world)),
    ensures
        ({
            let w0 = old(world)@;
            let v1 = if (input) > 0 { Some((input)) } else { Option::<u64>::None };
            let v2 = match v1 { Some(t) => if (t) > 0 { Some((t)) } else { Option::<u64>::None }, None => Option::<u64>::None };
            let v3 = match v2 { Some(t) => t, None => 0u64 };
            let t4 = (wadd((w0.values[0]), (v3)), ());
            let w5 = w0.write(ResourceId(0), t4.0);
            let v6 = t4.1;
            true && final(world)@ == w5
        }),
{
    let mut d = DagStart::new()
        .root(named::<MaybePositive>())
        .and_then(named_ref::<RefMaybePositive>())
        .unwrap_or(0)
        .then_step(named_ref_res_mut::<RefConsume>(ResourceId(0)))
        .build();
    d.run_chain(world, input)
}

/// Option map, filter, inspect, on-none, default.
pub fn dag_opt_chain(world: &mut World<u64>, input: u64)
    requires audit_shape(*old(world)),
    ensures
        ({
            let w0 = old(world)@;
            let v1 = if (input) > 0 { Some((input)) } else { Option::<u64>::None };
            let v2 = match v1 { Some(t) => Some(wmul((t), 2)), None => Option::<u64>::None };
            let v3 = match v2 { Some(t) => if (t) < 1000 { Some(t) } else { Option::<u64>::None }, None => Option::<u64>::None };
            let v4 = match v3 { Some(t) => t, None => 0u64 };
            let t5 = (wadd((w0.values[0]), (v4)), ());
            let w6 = w0.write(ResourceId(0), t5.0);
            let v7 = t5.1;
            true && final(world)@ == w6
        }),
{
    let mut d = DagStart::new()
        .root(named::<MaybePositive>())
        .map(named_ref::<RefDouble>())
        .filter(named_ref::<LtThousand>())
        .inspect(named_ref::<Observe>())
        .on_none(named::<Nothing>())
        .unwrap_or_else(named::<Zero>())
        .then_step(named_ref_res_mut::<RefConsume>(ResourceId(0)))
        .build();
    d.run_chain(world, input)
}

/// Result map.
pub fn dag_res_map(world: &mut World<u64>, input: u64)
    requires audit_shape(*old(world)),
    ensures
        ({
            let w0 = old(world)@;
            let v1 = if (input) < 10_000 { Ok::<u64, u32>(wmul((input), 2)) } else { Err::<u64, u32>((input) as u32) };
            let v2 = match v1 { Ok(t) => Ok::<u64, u32>(wmul((t), 2)), Err(e) => Err::<u64, u32>(e) };
            let v3 = match v2 { Ok(t) => t, Err(e) => 0u64 };
            let t4 = (wadd((w0.values[0]), (v3)), ());
            let w5 = w0.write(ResourceId(0), t4.0);
            let v6 = t4.1;
            true && final(world)@ == w5
        }),
{
    let mut d = DagStart::new()
        .root(named::<TryParse>())
        .map(named_ref::<RefDouble>())
        .unwrap_or(0)
        .then_step(named_ref_res_mut::<RefConsume>(ResourceId(0)))
        .build();
    d.run_chain(world, input)
}

/// Result and-then.
pub fn dag_res_and_then(world: &mut World<u64>, input: u64)
    requires audit_shape(*old(world)),
    ensures
        ({
            let w0 = old(world)@;
            let v1 = if (input) < 10_000 { Ok::<u64, u32>(wmul((input), 2)) } else { Err::<u64, u32>((input) as u32) };
            let v2 = match v1 { Ok(t) => if (t) < 10_000 { Ok::<u64, u32>(wmul((t), 2)) } else { Err::<u64, u32>((t) as u32) }, Err(e) => Err::<u64, u32>(e) };
            let v3 = match v2 { Ok(t) => t, Err(e) => 0u64 };
            let t4 = (wadd((w0.values[0]), (v3)), ());
            let w5 = w0.write(ResourceId(0), t4.0);
            let v6 = t4.1;
            true && final(world)@ == w5
        }),
{
    let mut d = DagStart::new()
        .root(named::<TryParse>())
        .and_then(named_ref::<RefTryParse>())
        .unwrap_or(0)
        .then_step(named_ref_res_mut::<RefConsume>(ResourceId(0)))
        .build();
    d.run_chain(world, input)
}

/// Result map, and-then, inspects, map-err, default.
pub fn dag_res_chain(world: &mut World<u64>, input: u64)
    requires audit_shape(*old(world)),
    ensures
        ({
            let w0 = old(world)@;
            let v1 = if (input) < 10_000 { Ok::<u64, u32>(wmul((input), 2)) } else { Err::<u64, u32>((input) as u32) };
            let v2 = match v1 { Ok(t) => Ok::<u64, u32>(wmul((t), 2)), Err(e) => Err::<u64, u32>(e) };
            let v3 = match v2 { Ok(t) => if (t) < 10_000 { Ok::<u64, u32>(wmul((t), 2)) } else { Err::<u64, u32>((t) as u32) }, Err(e) => Err::<u64, u32>(e) };
            let v4 = match v3 { Ok(t) => Ok::<u64, u64>(t), Err(e) => Err::<u64, u64>((e) as u64) };
            let v5 = match v4 { Ok(t) => t, Err(e) => 0u64 };
            let t6 = (wadd((w0.values[0]), (v5)), ());
            let w7 = w0.write(ResourceId(0), t6.0);
            let v8 = t6.1;
            true && final(world)@ == w7
        }),
{
    let mut d = DagStart::new()
        .root(named::<TryParse>())
        .map(named_ref::<RefDouble>())
        .and_then(named_ref::<RefTryParse>())
        .inspect(named_ref::<Observe>())
        .inspect_err(named_ref::<ObserveErr>())
        .map_err(named::<Widen>())
        .unwrap_or(0)
        .then_step(named_ref_res_mut::<RefConsume>(ResourceId(0)))
        .build();
    d.run_chain(world, input)
}

/// Result catch and default.
pub fn dag_res_catch(world: &mut World<u64>, input: u64)
    requires audit_shape(*old(world)),
    ensures
        ({
            let w0 = old(world)@;
            let v1 = if (input) < 10_000 { Ok::<u64, u32>(wmul((input), 2)) } else { Err::<u64, u32>((input) as u32) };
            let v2 = match v1 { Ok(t) => Some(t), Err(e) => Option::<u64>::None };
            let v3 = match v2 { Some(t) => t, None => 0u64 };
            let t4 = (wadd((w0.values[0]), (v3)), ());
            let w5 = w0.write(ResourceId(0), t4.0);
            let v6 = t4.1;
            true && final(world)@ == w5
        }),
{
    let mut d = DagStart::new()
        .root(named::<TryParse>())
        .catch(named_ref::<RefLogError>())
        .unwrap_or(0)
        .then_step(named_ref_res_mut::<RefConsume>(ResourceId(0)))
        .build();
    d.run_chain(world, input)
}

/// Result or-else and default.
pub fn dag_res_or_else(world: &mut World<u64>, input: u64)
    requires audit_shape(*old(world)),
    ensures
        ({
            let w0 = old(world)@;
            let v1 = if (input) < 10_000 { Ok::<u64, u32>(wmul((input), 2)) } else { Err::<u64, u32>((input) as u32) };
            let v2 = match v1 { Ok(t) => Ok::<u64, u32>(t), Err(e) => Ok::<u64, u32>((e) as u64) };
            let v3 = match v2 { Ok(t) => t, Err(e) => 0u64 };
            let t4 = (wadd((w0.values[0]), (v3)), ());
            let w5 = w0.write(ResourceId(0), t4.0);
            let v6 = t4.1;
            true && final(world)@ == w5
        }),
{
    let mut d = DagStart::new()
        .root(named::<TryParse>())
        .or_else(named::<RecoverCode>())
        .unwrap_or(0)
        .then_step(named_ref_res_mut::<RefConsume>(ResourceId(0)))
        .build();
    d.run_chain(world, input)
}

/// AND, OR, NOT, XOR, to integer.
pub fn dag_bool_chain(world: &mut World<u64>, input: u64)
    requires audit_shape(*old(world)),
    ensures
        ({
            let w0 = old(world)@;
            let v1 = (input) % 2 == 0;
            let v2 = v1 && true;
            let v3 = v2 || false;
            let v4 = !v3;
            let v5 = v4 != true;
            let v6 = if (v5) { 1u64 } else { 0u64 };
            let t7 = (wadd((w0.values[0]), (v6)), ());
            let w8 = w0.write(ResourceId(0), t7.0);
            let v9 = t7.1;
            true && final(world)@ == w8
        }),
{
    let mut d = DagStart::new()
        .root(named::<IsEven>())
        .and(named::<Yes>())
        .or(named::<No>())
        .not()
        .xor(named::<Yes>())
        .then_step(named_ref::<RefBoolToU64>())
        .then_step(named_ref_res_mut::<RefConsume>(ResourceId(0)))
        .build();
    d.run_chain(world, input)
}

/// Binary route.
pub fn dag_route_basic(world: &mut World<u64>, input: u64)
    requires audit_shape(*old(world)),
    ensures
        ({
            let w0 = old(world)@;
            let v1 = wadd((input), 1);
            let v2 = wmul((v1), 2);
            let v3 = wadd((v1), 1);
            let v4 = if (v1) > 100 { v2 } else { v3 };
            let t5 = (wadd((w0.values[0]), (v4)), ());
            let w6 = w0.write(ResourceId(0), t5.0);
            let v7 = t5.1;
            true && final(world)@ == w6
        }),
{
    let mut d = DagStart::new()
        .root(named::<AddOne>())
        .route(named_ref::<GtHundred>(), DagArmStart::<u64, u64>::new().then_step(named_ref::<RefDouble>()).chain, DagArmStart::<u64, u64>::new().then_step(named_ref::<RefAddOne>()).chain)
        .then_step(named_ref_res_mut::<RefConsume>(ResourceId(0)))
        .build();
    d.run_chain(world, input)
}

/// Route with five-node arms.
pub fn dag_route_heavy_arms(world: &mut World<u64>, input: u64)
    requires audit_shape(*old(world)),
    ensures
        ({
            let w0 = old(world)@;
            let v1 = wadd((input), 1);
            let v2 = wmul((v1), 2);
            let v3 = wadd((v2), 3);
            let v4 = wmul((v3), (v3));
            let v5 = wsub((v4), 10);
            let v6 = (v5) / 2;
            let v7 = wadd((v1), 1);
            let v8 = wmul((v7), 3);
            let v9 = (v8) ^ 0xDEAD_BEEF;
            let v10 = wadd((v9), 7);
            let v11 = wadd((v10), 42);
            let v12 = if (v1) > 100 { v6 } else { v11 };
            let t13 = (wadd((w0.values[0]), (v12)), ());
            let w14 = w0.write(ResourceId(0), t13.0);
            let v15 = t13.1;
            true && final(world)@ == w14
        }),
{
    let mut d = DagStart::new()
        .root(named::<AddOne>())
        .route(named_ref::<GtHundred>(), DagArmStart::<u64, u64>::new().then_step(named_ref::<RefDouble>()).then_step(named_ref::<RefAddThree>()).then_step(named_ref::<RefSquare>()).then_step(named_ref::<RefSubTen>()).then_step(named_ref::<RefShrOne>()).chain, DagArmStart::<u64, u64>::new().then_step(named_ref::<RefAddOne>()).then_step(named_ref::<RefTriple>()).then_step(named_ref::<RefXorMask>()).then_step(named_ref::<RefAddSeven>()).then_step(named_ref::<RefAddFortyTwo>()).chain)
        .then_step(named_ref_res_mut::<RefConsume>(ResourceId(0)))
        .build();
    d.run_chain(world, input)
}

/// Two-way switch.
pub fn dag_switch_basic(world: &mut World<u64>, input: u64)
    requires audit_shape(*old(world)),
    ensures
        ({
            let w0 = old(world)@;
            let v1 = wadd((input), 1);
            let v2 = if (v1) > 100 { wmul((v1), 2) } else { wadd((v1), 1) };
            let t3 = (wadd((w0.values[0]), (v2)), ());
            let w4 = w0.write(ResourceId(0), t3.0);
            let v5 = t3.1;
            true && final(world)@ == w4
        }),
{
    let mut d = DagStart::new()
        .root(named::<AddOne>())
        .then_step(named_ref::<RefSwitchBasic>())
        .then_step(named_ref_res_mut::<RefConsume>(ResourceId(0)))
        .build();
    d.run_chain(world, input)
}

/// Three-way switch.
pub fn dag_switch_3way(world: &mut World<u64>, input: u64)
    requires audit_shape(*old(world)),
    ensures
        ({
            let w0 = old(world)@;
            let v1 = wadd((input), 1);
            let v2 = if (v1) % 3 == 0 { wmul((v1), 2) } else if (v1) % 3 == 1 { wadd((v1), 10) } else { wsub((v1), 5) };
            let t3 = (wadd((w0.values[0]), (v2)), ());
            let w4 = w0.write(ResourceId(0), t3.0);
            let v5 = t3.1;
            true && final(world)@ == w4
        }),
{
    let mut d = DagStart::new()
        .root(named::<AddOne>())
        .then_step(named_ref::<RefSwitchThreeWay>())
        .then_step(named_ref_res_mut::<RefConsume>(ResourceId(0)))
        .build();
    d.run_chain(world, input)
}

/// Switch between two resolved arms.
pub fn dag_switch_resolve_arm(world: &mut World<u64>, input: u64)
    requires audit_shape(*old(world)),
    ensures
        ({
            let w0 = old(world)@;
            let v1 = wadd((input), 1);
            let v2 = if (v1) > 100 { wmul((v1), 2) } else { wadd((v1), 1) };
            let t3 = (wadd((w0.values[0]), (v2)), ());
            let w4 = w0.write(ResourceId(0), t3.0);
            let v5 = t3.1;
            true && final(world)@ == w4
        }),
{
    let mut d = DagStart::new()
        .root(named::<AddOne>())
        .then_step(named_ref::<RefSwitchBasic>())
        .then_step(named_ref_res_mut::<RefConsume>(ResourceId(0)))
        .build();
    d.run_chain(world, input)
}

/// Split into a pair, add the halves.
pub fn dag_splat2(world: &mut World<u64>, input: u64)
    requires audit_shape(*old(world)),
    ensures
        ({
            let w0 = old(world)@;
            let v1 = ((input) as u32, ((input) >> 32) as u32);
            let v2 = ((v1).0 + (v1).1) as u64;
            let t3 = (wadd((w0.values[0]), (v2)), ());
            let w4 = w0.write(ResourceId(0), t3.0);
            let v5 = t3.1;
            true && final(world)@ == w4
        }),
{
    let mut d = DagStart::new()
        .root(named::<SplitU64>())
        .then_step(named_ref::<RefSplatAdd>())
        .then_step(named_ref_res_mut::<RefConsume>(ResourceId(0)))
        .build();
    d.run_chain(world, input)
}

/// Split into three, add.
pub fn dag_splat3(world: &mut World<u64>, input: u64)
    requires audit_shape(*old(world)),
    ensures
        ({
            let w0 = old(world)@;
            let v1 = ((input) as u32, ((input) >> 32) as u16, ((input) >> 48) as u8);
            let v2 = ((v1).0 + (v1).1 + (v1).2) as u64;
            let t3 = (wadd((w0.values[0]), (v2)), ());
            let w4 = w0.write(ResourceId(0), t3.0);
            let v5 = t3.1;
            true && final(world)@ == w4
        }),
{
    let mut d = DagStart::new()
        .root(named::<Split3>())
        .then_step(named_ref::<RefSplat3>())
        .then_step(named_ref_res_mut::<RefConsume>(ResourceId(0)))
        .build();
    d.run_chain(world, input)
}

/// Split and add inside an arm.
pub fn dag_splat_in_arm(world: &mut World<u64>, input: u64)
    requires audit_shape(*old(world)),
    ensures
        ({
            let w0 = old(world)@;
            let v1 = wadd((input), 1);
            let v2 = ((v1) as u32, ((v1) >> 32) as u32);
            let v3 = ((v2).0 + (v2).1) as u64;
            let v4 = wmul((v1), 2);
            let v5 = wadd(((v3, v4)).0, ((v3, v4)).1);
            let t6 = (wadd((w0.values[0]), (v5)), ());
            let w7 = w0.write(ResourceId(0), t6.0);
            let v8 = t6.1;
            true && final(world)@ == w7
        }),
{
    let mut d = DagStart::new()
        .root(named::<AddOne>())
        .fork()
        .arm(DagArmStart::new().then_step(named_ref::<RefSplitU64>()).then_step(named_ref::<RefSplatAdd>()))
        .arm(DagArmStart::new().then_step(named_ref::<RefDouble>()))
        .merge(named_ref::<MergeAdd>())
        .then_step(named_ref_res_mut::<RefConsume>(ResourceId(0)))
        .build();
    d.run_chain(world, input)
}

/// A no-op tap.
pub fn dag_tap(world: &mut World<u64>, input: u64)
    requires audit_shape(*old(world)),
    ensures
        ({
            let w0 = old(world)@;
            let v1 = wadd((input), 1);
            let v2 = wmul((v1), 2);
            let t3 = (wadd((w0.values[0]), (v2)), ());
            let w4 = w0.write(ResourceId(0), t3.0);
            let v5 = t3.1;
            true && final(world)@ == w4
        }),
{
    let mut d = DagStart::new()
        .root(named::<AddOne>())
        .tap(named_ref::<Observe>())
        .then_step(named_ref::<RefDouble>())
        .then_step(named_ref_res_mut::<RefConsume>(ResourceId(0)))
        .build();
    d.run_chain(world, input)
}

/// A side arm adding into `ResA`.
pub fn dag_tee(world: &mut World<u64>, input: u64)
    requires audit_shape(*old(world)),
    ensures
        ({
            let w0 = old(world)@;
            let v1 = wadd((input), 1);
            let t2 = (wadd((w0.values[0]), (v1)), ());
            let w3 = w0.write(ResourceId(0), t2.0);
            let v4 = t2.1;
            let v5 = wmul((v1), 2);
            let t6 = (wadd((w3.values[0]), (v5)), ());
            let w7 = w3.write(ResourceId(0), t6.0);
            let v8 = t6.1;
            true && final(world)@ == w7
        }),
{
    let mut d = DagStart::new()
        .root(named::<AddOne>())
        .tee(DagArmStart::<u64, u64>::new().then_step(named_ref_res_mut::<RefConsume>(ResourceId(0))).chain)
        .then_step(named_ref::<RefDouble>())
        .then_step(named_ref_res_mut::<RefConsume>(ResourceId(0)))
        .build();
    d.run_chain(world, input)
}

/// A five-node side arm.
pub fn dag_tee_heavy(world: &mut World<u64>, input: u64)
    requires audit_shape(*old(world)),
    ensures
        ({
            let w0 = old(world)@;
            let v1 = wadd((input), 1);
            let v2 = wadd((v1), 1);
            let v3 = wmul((v2), 2);
            let v4 = wadd((v3), 3);
            let v5 = wmul((v4), (v4));
            let t6 = (wadd((w0.values[0]), (v5)), ());
            let w7 = w0.write(ResourceId(0), t6.0);
            let v8 = t6.1;
            let v9 = wmul((v1), 2);
            let t10 = (wadd((w7.values[0]), (v9)), ());
            let w11 = w7.write(ResourceId(0), t10.0);
            let v12 = t10.1;
            true && final(world)@ == w11
        }),
{
    let mut d = DagStart::new()
        .root(named::<AddOne>())
        .tee(DagArmStart::<u64, u64>::new().then_step(named_ref::<RefAddOne>()).then_step(named_ref::<RefDouble>()).then_step(named_ref::<RefAddThree>()).then_step(named_ref::<RefSquare>()).then_step(named_ref_res_mut::<RefConsume>(ResourceId(0))).chain)
        .then_step(named_ref::<RefDouble>())
        .then_step(named_ref_res_mut::<RefConsume>(ResourceId(0)))
        .build();
    d.run_chain(world, input)
}

/// Dispatch to a handler adding into `ResA`.
pub fn dag_dispatch(world: &mut World<u64>, input: u64)
    requires audit_shape(*old(world)),
    ensures
        ({
            let w0 = old(world)@;
            let v1 = wadd((input), 1);
            let t2 = (wadd(w0.values[0], v1), ());
            let w3 = w0.write(ResourceId(0), t2.0);
            let v4 = ();
            true && final(world)@ == w3
        }),
{
    let mut d = DagStart::new()
        .root(named::<AddOne>())
        .dispatch(into_handler(named_res_mut::<ConsumeVal>(ResourceId(0))))
        .build();
    d.run_chain(world, input)
}

/// Read `ResA` at the root.
pub fn dag_world_res(world: &mut World<u64>, input: u64)
    requires audit_shape(*old(world)),
    ensures
        ({
            let w0 = old(world)@;
            let v1 = wadd((input), (w0.values[0]));
            let t2 = (wadd((w0.values[0]), (v1)), ());
            let w3 = w0.write(ResourceId(0), t2.0);
            let v4 = t2.1;
            true && final(world)@ == w3
        }),
{
    let mut d = DagStart::new()
        .root(named_res::<AddResA>(ResourceId(0)))
        .then_step(named_ref_res_mut::<RefConsume>(ResourceId(0)))
        .build();
    d.run_chain(world, input)
}

/// Write `ResA` at the root.
pub fn dag_world_res_mut(world: &mut World<u64>, input: u64)
    requires audit_shape(*old(world)),
    ensures
        ({
            let w0 = old(world)@;
            let t1 = (wadd((w0.values[0]), (input)), (input));
            let w2 = w0.write(ResourceId(0), t1.0);
            let v3 = t1.1;
            let t4 = (wadd((w2.values[0]), (v3)), ());
            let w5 = w2.write(ResourceId(0), t4.0);
            let v6 = t4.1;
            true && final(world)@ == w5
        }),
{
    let mut d = DagStart::new()
        .root(named_res_mut::<WriteResA>(ResourceId(0)))
        .then_step(named_ref_res_mut::<RefConsume>(ResourceId(0)))
        .build();
    d.run_chain(world, input)
}

/// Reads and a write in one chain.
pub fn dag_world_mixed_chain(world: &mut World<u64>, input: u64)
    requires audit_shape(*old(world)),
    ensures
        ({
            let w0 = old(world)@;
            let v1 = wadd((input), 1);
            let v2 = wadd((v1), (w0.values[0]));
            let t3 = (wadd((w0.values[0]), (v2)), (v2));
            let w4 = w0.write(ResourceId(0), t3.0);
            let v5 = t3.1;
            let v6 = wmul((v5), 2);
            let v7 = wadd(wadd((v6), (w4).values[0]), (w4).values[1]);
            let t8 = (wadd((w4.values[0]), (v7)), ());
            let w9 = w4.write(ResourceId(0), t8.0);
            let v10 = t8.1;
            true && final(world)@ == w9
        }),
{
    let mut d = DagStart::new()
        .root(named::<AddOne>())
        .then_step(named_ref_res::<RefAddResA>(ResourceId(0)))
        .then_step(named_ref_res_mut::<RefWriteResA>(ResourceId(0)))
        .then_step(named_ref::<RefDouble>())
        .then_step(named_ref_read::<RefAddBoth>())
        .then_step(named_ref_res_mut::<RefConsume>(ResourceId(0)))
        .build();
    d.run_chain(world, input)
}

/// Read three resources at the root.
pub fn dag_world_3_params(world: &mut World<u64>, input: u64)
    requires audit_shape(*old(world)),
    ensures
        ({
            let w0 = old(world)@;
            let v1 = wadd(wadd(wadd((input), (w0).values[0]), (w0).values[1]), (w0).values[2]);
            let t2 = (wadd((w0.values[0]), (v1)), ());
            let w3 = w0.write(ResourceId(0), t2.0);
            let v4 = t2.1;
            true && final(world)@ == w3
        }),
{
    let mut d = DagStart::new()
        .root(named_read::<ThreeParams>())
        .then_step(named_ref_res_mut::<RefConsume>(ResourceId(0)))
        .build();
    d.run_chain(world, input)
}

/// Fork into four sinks and join.
pub fn dag_wide_fan_out(world: &mut World<u64>, input: u64)
    requires audit_shape(*old(world)),
    ensures
        ({
            let w0 = old(world)@;
            let v1 = wadd((input), 1);
            let t2 = (wadd((w0.values[0]), (v1)), ());
            let w3 = w0.write(ResourceId(0), t2.0);
            let v4 = t2.1;
            let t5 = (wadd((w3.values[0]), (v1)), ());
            let w6 = w3.write(ResourceId(0), t5.0);
            let v7 = t5.1;
            let t8 = (wadd((w6.values[0]), (v1)), ());
            let w9 = w6.write(ResourceId(0), t8.0);
            let v10 = t8.1;
            let t11 = (wadd((w9.values[0]), (v1)), ());
            let w12 = w9.write(ResourceId(0), t11.0);
            let v13 = t11.1;
            let v14 = ();
            true && final(world)@ == w12
        }),
{
    let mut d = DagStart::new()
        .root(named::<AddOne>())
        .fork()
        .arm(DagArmStart::new().then_step(named_ref_res_mut::<RefConsume>(ResourceId(0))))
        .arm(DagArmStart::new().then_step(named_ref_res_mut::<RefConsume>(ResourceId(0))))
        .arm(DagArmStart::new().then_step(named_ref_res_mut::<RefConsume>(ResourceId(0))))
        .arm(DagArmStart::new().then_step(named_ref_res_mut::<RefConsume>(ResourceId(0))))
        .join()
        .build();
    d.run_chain(world, input)
}

/// Three forks in sequence.
pub fn dag_sequential_forks(world: &mut World<u64>, input: u64)
    requires audit_shape(*old(world)),
    ensures
        ({
            let w0 = old(world)@;
            let v1 = wadd((input), 1);
            let v2 = wmul((v1), 2);
            let v3 = wmul((v1), 3);
            let v4 = wadd(((v2, v3)).0, ((v2, v3)).1);
            let v5 = wmul((v4), (v4));
            let v6 = (v4) / 2;
            let v7 = wmul(((v5, v6)).0, ((v5, v6)).1);
            let v8 = wadd((v7), 1);
            let v9 = (v7) ^ 0xDEAD_BEEF;
            let v10 = wadd(((v8, v9)).0, ((v8, v9)).1);
            let t11 = (wadd((w0.values[0]), (v10)), ());
            let w12 = w0.write(ResourceId(0), t11.0);
            let v13 = t11.1;
            true && final(world)@ == w12
        }),
{
    let mut d = DagStart::new()
        .root(named::<AddOne>())
        .fork()
        .arm(DagArmStart::new().then_step(named_ref::<RefDouble>()))
        .arm(DagArmStart::new().then_step(named_ref::<RefTriple>()))
        .merge(named_ref::<MergeAdd>())
        .fork()
        .arm(DagArmStart::new().then_step(named_ref::<RefSquare>()))
        .arm(DagArmStart::new().then_step(named_ref::<RefShrOne>()))
        .merge(named_ref::<MergeMul>())
        .fork()
        .arm(DagArmStart::new().then_step(named_ref::<RefAddOne>()))
        .arm(DagArmStart::new().then_step(named_ref::<RefXorMask>()))
        .merge(named_ref::<MergeAdd>())
        .then_step(named_ref_res_mut::<RefConsume>(ResourceId(0)))
        .build();
    d.run_chain(world, input)
}

/// Guard and default before a fork.
pub fn dag_fork_with_guard(world: &mut World<u64>, input: u64)
    requires audit_shape(*old(world)),
    ensures
        ({
            let w0 = old(world)@;
            let v1 = wadd((input), 1);
            let v2 = if (v1) > 10 { Some(v1) } else { Option::<u64>::None };
            let v3 = match v2 { Some(t) => t, None => 0u64 };
            let v4 = wmul((v3), 2);
            let v5 = wmul((v3), 3);
            let v6 = wadd(((v4, v5)).0, ((v4, v5)).1);
            let t7 = (wadd((w0.values[0]), (v6)), ());
            let w8 = w0.write(ResourceId(0), t7.0);
            let v9 = t7.1;
            true && final(world)@ == w8
        }),
{
    let mut d = DagStart::new()
        .root(named::<AddOne>())
        .guard(named_ref::<GtTen>())
        .unwrap_or(0)
        .fork()
        .arm(DagArmStart::new().then_step(named_ref::<RefDouble>()))
        .arm(DagArmStart::new().then_step(named_ref::<RefTriple>()))
        .merge(named_ref::<MergeAdd>())
        .then_step(named_ref_res_mut::<RefConsume>(ResourceId(0)))
        .build();
    d.run_chain(world, input)
}

/// Route before a fork.
pub fn dag_fork_with_route(world: &mut World<u64>, input: u64)
    requires audit_shape(*old(world)),
    ensures
        ({
            let w0 = old(world)@;
            let v1 = wadd((input), 1);
            let v2 = wmul((v1), 2);
            let v3 = wmul((v1), 3);
            let v4 = if (v1) > 100 { v2 } else { v3 };
            let v5 = wmul((v4), (v4));
            let v6 = (v4) / 2;
            let v7 = wadd(((v5, v6)).0, ((v5, v6)).1);
            let t8 = (wadd((w0.values[0]), (v7)), ());
            let w9 = w0.write(ResourceId(0), t8.0);
            let v10 = t8.1;
            true && final(world)@ == w9
        }),
{
    let mut d = DagStart::new()
        .root(named::<AddOne>())
        .route(named_ref::<GtHundred>(), DagArmStart::<u64, u64>::new().then_step(named_ref::<RefDouble>()).chain, DagArmStart::<u64, u64>::new().then_step(named_ref::<RefTriple>()).chain)
        .fork()
        .arm(DagArmStart::new().then_step(named_ref::<RefSquare>()))
        .arm(DagArmStart::new().then_step(named_ref::<RefShrOne>()))
        .merge(named_ref::<MergeAdd>())
        .then_step(named_ref_res_mut::<RefConsume>(ResourceId(0)))
        .build();
    d.run_chain(world, input)
}

/// Every kind of node in one DAG.
pub fn dag_full_kitchen_sink(world: &mut World<u64>, input: u64)
    requires audit_shape(*old(world)),
    ensures
        ({
            let w0 = old(world)@;
            let v1 = wadd((input), 1);
            let v2 = wadd((v1), (w0.values[0]));
            let v3 = if (v2) > 0 { Some(v2) } else { Option::<u64>::None };
            let v4 = match v3 { Some(t) => Some(wmul((t), 2)), None => Option::<u64>::None };
            let v5 = match v4 { Some(t) => t, None => 0u64 };
            let t6 = (wadd((w0.values[0]), (v5)), ());
            let w7 = w0.write(ResourceId(0), t6.0);
            let v8 = t6.1;
            let v9 = if (v5) < 10_000 { Ok::<u64, u32>(wmul((v5), 2)) } else { Err::<u64, u32>((v5) as u32) };
            let v10 = match v9 { Ok(t) => Ok::<u64, u32>(wadd((t), 1)), Err(e) => Err::<u64, u32>(e) };
            let v11 = match v10 { Ok(t) => Some(t), Err(e) => Option::<u64>::None };
            let v12 = match v11 { Some(t) => t, None => 0u64 };
            let v13 = wmul((v12), 2);
            let v14 = wmul((v12), 3);
            let v15 = if (v12) > 100 { v13 } else { v14 };
            let v16 = wmul((v15), (v15));
            let v17 = (v15) / 2;
            let v18 = wadd(((v16, v17)).0, ((v16, v17)).1);
            let v19 = Some(v18);
            let v20 = match v19 { Some(t) => t, None => 0u64 };
            let t21 = (wadd((w7.values[0]), (v20)), ());
            let w22 = w7.write(ResourceId(0), t21.0);
            let v23 = t21.1;
            true && final(world)@ == w22
        }),
{
    let mut d = DagStart::new()
        .root(named::<AddOne>())
        .tap(named_ref::<Observe>())
        .then_step(named_ref_res::<RefAddResA>(ResourceId(0)))
        .guard(named_ref::<GtZero>())
        .map(named_ref::<RefDouble>())
        .unwrap_or(0)
        .tee(DagArmStart::<u64, u64>::new().then_step(named_ref_res_mut::<RefConsume>(ResourceId(0))).chain)
        .then_step(named_ref::<RefTryParse>())
        .map(named_ref::<RefAddOne>())
        .catch(named_ref::<RefLogError>())
        .unwrap_or(0)
        .route(named_ref::<GtHundred>(), DagArmStart::<u64, u64>::new().then_step(named_ref::<RefDouble>()).chain, DagArmStart::<u64, u64>::new().then_step(named_ref::<RefTriple>()).chain)
        .fork()
        .arm(DagArmStart::new().then_step(named_ref::<RefSquare>()))
        .arm(DagArmStart::new().then_step(named_ref::<RefShrOne>()))
        .merge(named_ref::<MergeAdd>())
        .dedup()
        .unwrap_or(0)
        .then_step(named_ref_res_mut::<RefConsume>(ResourceId(0)))
        .build();
    d.run_chain(world, input)
}

/// Forks nested three deep.
pub fn dag_deep_nested_fork(world: &mut World<u64>, input: u64)
    requires audit_shape(*old(world)),
    ensures
        ({
            let w0 = old(world)@;
            let v1 = wadd((input), 1);
            let v2 = wmul((v1), 2);
            let v3 = wadd((v2), 1);
            let v4 = wmul((v3), 3);
            let v5 = wadd((v3), 7);
            let v6 = wadd(((v4, v5)).0, ((v4, v5)).1);
            let v7 = wmul((v2), (v2));
            let v8 = wadd(((v6, v7)).0, ((v6, v7)).1);
            let v9 = (v1) ^ 0xDEAD_BEEF;
            let v10 = wadd(((v8, v9)).0, ((v8, v9)).1);
            let t11 = (wadd((w0.values[0]), (v10)), ());
            let w12 = w0.write(ResourceId(0), t11.0);
            let v13 = t11.1;
            true && final(world)@ == w12
        }),
{
    let mut d = DagStart::new()
        .root(named::<AddOne>())
        .fork()
        .arm(DagArmStart::new().then_step(named_ref::<RefDouble>()).fork().arm(DagArmStart::new().then_step(named_ref::<RefAddOne>()).fork().arm(DagArmStart::new().then_step(named_ref::<RefTriple>())).arm(DagArmStart::new().then_step(named_ref::<RefAddSeven>())).merge(named_ref::<MergeAdd>())).arm(DagArmStart::new().then_step(named_ref::<RefSquare>())).merge(named_ref::<MergeAdd>()))
        .arm(DagArmStart::new().then_step(named_ref::<RefXorMask>()))
        .merge(named_ref::<MergeAdd>())
        .then_step(named_ref_res_mut::<RefConsume>(ResourceId(0)))
        .build();
    d.run_chain(world, input)
}

/// A fork followed by a chain.
pub fn dag_fork_then_chain(world: &mut World<u64>, input: u64)
    requires audit_shape(*old(world)),
    ensures
        ({
            let w0 = old(world)@;
            let v1 = wadd((input), 1);
            let v2 = wmul((v1), 2);
            let v3 = wmul((v1), 3);
            let v4 = wadd(((v2, v3)).0, ((v2, v3)).1);
            let v5 = wadd((v4), 3);
            let v6 = wmul((v5), (v5));
            let t7 = (wadd((w0.values[0]), (v6)), ());
            let w8 = w0.write(ResourceId(0), t7.0);
            let v9 = t7.1;
            true && final(world)@ == w8
        }),
{
    let mut d = DagStart::new()
        .root(named::<AddOne>())
        .fork()
        .arm(DagArmStart::new().then_step(named_ref::<RefDouble>()))
        .arm(DagArmStart::new().then_step(named_ref::<RefTriple>()))
        .merge(named_ref::<MergeAdd>())
        .then_step(named_ref::<RefAddThree>())
        .then_step(named_ref::<RefSquare>())
        .then_step(named_ref_res_mut::<RefConsume>(ResourceId(0)))
        .build();
    d.run_chain(world, input)
}

/// Arms of one, three and five nodes.
pub fn dag_asymmetric_arms(world: &mut World<u64>, input: u64)
    requires audit_shape(*old(world)),
    ensures
        ({
            let w0 = old(world)@;
            let v1 = wadd((input), 1);
            let v2 = wmul((v1), 2);
            let v3 = wmul((v1), 3);
            let v4 = wadd((v3), 3);
            let v5 = wmul((v4), (v4));
            let v6 = wadd((v1), 1);
            let v7 = (v6) / 2;
            let v8 = (v7) ^ 0xDEAD_BEEF;
            let v9 = wadd((v8), 7);
            let v10 = wadd((v9), 42);
            let v11 = wadd(wadd(((v2, v5, v10)).0, ((v2, v5, v10)).1), ((v2, v5, v10)).2);
            let t12 = (wadd((w0.values[0]), (v11)), ());
            let w13 = w0.write(ResourceId(0), t12.0);
            let v14 = t12.1;
            true && final(world)@ == w13
        }),
{
    let mut d = DagStart::new()
        .root(named::<AddOne>())
        .fork()
        .arm(DagArmStart::new().then_step(named_ref::<RefDouble>()))
        .arm(DagArmStart::new().then_step(named_ref::<RefTriple>()).then_step(named_ref::<RefAddThree>()).then_step(named_ref::<RefSquare>()))
        .arm(DagArmStart::new().then_step(named_ref::<RefAddOne>()).then_step(named_ref::<RefShrOne>()).then_step(named_ref::<RefXorMask>()).then_step(named_ref::<RefAddSeven>()).then_step(named_ref::<RefAddFortyTwo>()))
        .merge(named_ref::<MergeThree>())
        .then_step(named_ref_res_mut::<RefConsume>(ResourceId(0)))
        .build();
    d.run_chain(world, input)
}

/// Guards, filters and defaults inside arms.
pub fn dag_fork_arm_combinators(world: &mut World<u64>, input: u64)
    requires audit_shape(*old(world)),
    ensures
        ({
            let w0 = old(world)@;
            let v1 = wadd((input), 1);
            let v2 = wadd((v1), 1);
            let v3 = if (v2) > 10 { Some(v2) } else { Option::<u64>::None };
            let v4 = match v3 { Some(t) => Some(wmul((t), 2)), None => Option::<u64>::None };
            let v5 = match v4 { Some(t) => t, None => 0u64 };
            let v6 = wmul((v1), 3);
            let v7 = if (v6) > 5 { Some(v6) } else { Option::<u64>::None };
            let v8 = match v7 { Some(t) => if (t) < 500 { Some(t) } else { Option::<u64>::None }, None => Option::<u64>::None };
            let v9 = match v8 { Some(t) => t, None => 0u64 };
            let v10 = wadd((v1), 7);
            let v11 = wadd(wadd(((v5, v9, v10)).0, ((v5, v9, v10)).1), ((v5, v9, v10)).2);
            let t12 = (wadd((w0.values[0]), (v11)), ());
            let w13 = w0.write(ResourceId(0), t12.0);
            let v14 = t12.1;
            true && final(world)@ == w13
        }),
{
    let mut d = DagStart::new()
        .root(named::<AddOne>())
        .fork()
        .arm(DagArmStart::new().then_step(named_ref::<RefAddOne>()).guard(named_ref::<GtTen>()).map(named_ref::<RefDouble>()).unwrap_or(0))
        .arm(DagArmStart::new().then_step(named_ref::<RefTriple>()).guard(named_ref::<GtFive>()).filter(named_ref::<LtFiveHundred>()).unwrap_or_else(named::<Zero>()))
        .arm(DagArmStart::new().then_step(named_ref::<RefAddSeven>()))
        .merge(named_ref::<MergeThree>())
        .then_step(named_ref_res_mut::<RefConsume>(ResourceId(0)))
        .build();
    d.run_chain(world, input)
}

/// Guard, filter and default inside an arm.
pub fn dag_filter_in_arm(world: &mut World<u64>, input: u64)
    requires audit_shape(*old(world)),
    ensures
        ({
            let w0 = old(world)@;
            let v1 = wadd((input), 1);
            let v2 = wadd((v1), 1);
            let v3 = if (v2) > 10 { Some(v2) } else { Option::<u64>::None };
            let v4 = match v3 { Some(t) => if (t) < 1000 { Some(t) } else { Option::<u64>::None }, None => Option::<u64>::None };
            let v5 = match v4 { Some(t) => t, None => 0u64 };
            let v6 = wmul((v1), 2);
            let v7 = wadd(((v5, v6)).0, ((v5, v6)).1);
            let t8 = (wadd((w0.values[0]), (v7)), ());
            let w9 = w0.write(ResourceId(0), t8.0);
            let v10 = t8.1;
            true && final(world)@ == w9
        }),
{
    let mut d = DagStart::new()
        .root(named::<AddOne>())
        .fork()
        .arm(DagArmStart::new().then_step(named_ref::<RefAddOne>()).guard(named_ref::<GtTen>()).filter(named_ref::<LtThousand>()).unwrap_or(0))
        .arm(DagArmStart::new().then_step(named_ref::<RefDouble>()))
        .merge(named_ref::<MergeAdd>())
        .then_step(named_ref_res_mut::<RefConsume>(ResourceId(0)))
        .build();
    d.run_chain(world, input)
}

/// Guard, to result, catch, default.
pub fn dag_transition_guard_ok_or(world: &mut World<u64>, input: u64)
    requires audit_shape(*old(world)),
    ensures
        ({
            let w0 = old(world)@;
            let v1 = wadd((input), 1);
            let v2 = if (v1) > 0 { Some(v1) } else { Option::<u64>::None };
            let v3 = match v2 { Some(t) => Ok::<u64, u32>(t), None => Err::<u64, u32>(0u32) };
            let v4 = match v3 { Ok(t) => Some(t), Err(e) => Option::<u64>::None };
            let v5 = match v4 { Some(t) => t, None => 0u64 };
            let t6 = (wadd((w0.values[0]), (v5)), ());
            let w7 = w0.write(ResourceId(0), t6.0);
            let v8 = t6.1;
            true && final(world)@ == w7
        }),
{
    let mut d = DagStart::new()
        .root(named::<AddOne>())
        .guard(named_ref::<GtZero>())
        .ok_or(0u32)
        .catch(named_ref::<RefLogError>())
        .unwrap_or(0)
        .then_step(named_ref_res_mut::<RefConsume>(ResourceId(0)))
        .build();
    d.run_chain(world, input)
}

/// Route inside an arm.
pub fn dag_route_in_arm(world: &mut World<u64>, input: u64)
    requires audit_shape(*old(world)),
    ensures
        ({
            let w0 = old(world)@;
            let v1 = wadd((input), 1);
            let v2 = wadd((v1), 1);
            let v3 = wmul((v2), 2);
            let v4 = wmul((v2), 3);
            let v5 = if (v2) > 50 { v3 } else { v4 };
            let v6 = wadd((v1), 7);
            let v7 = wadd(((v5, v6)).0, ((v5, v6)).1);
            let t8 = (wadd((w0.values[0]), (v7)), ());
            let w9 = w0.write(ResourceId(0), t8.0);
            let v10 = t8.1;
            true && final(world)@ == w9
        }),
{
    let mut d = DagStart::new()
        .root(named::<AddOne>())
        .fork()
        .arm(DagArmStart::new().then_step(named_ref::<RefAddOne>()).route(named_ref::<GtFifty>(), DagArmStart::<u64, u64>::new().then_step(named_ref::<RefDouble>()).chain, DagArmStart::<u64, u64>::new().then_step(named_ref::<RefTriple>()).chain))
        .arm(DagArmStart::new().then_step(named_ref::<RefAddSeven>()))
        .merge(named_ref::<MergeAdd>())
        .then_step(named_ref_res_mut::<RefConsume>(ResourceId(0)))
        .build();
    d.run_chain(world, input)
}

/// Split into five, add.
pub fn dag_splat5(world: &mut World<u64>, input: u64)
    requires audit_shape(*old(world)),
    ensures
        ({
            let w0 = old(world)@;
            let v1 = ((input) as u32, ((input) >> 32) as u16, ((input) >> 48) as u8, ((input) >> 52) as u8, ((input) >> 56) as u8);
            let v2 = ((v1).0 + (v1).1 + (v1).2 + (v1).3 + (v1).4) as u64;
            let t3 = (wadd((w0.values[0]), (v2)), ());
            let w4 = w0.write(ResourceId(0), t3.0);
            let v5 = t3.1;
            true && final(world)@ == w4
        }),
{
    let mut d = DagStart::new()
        .root(named::<Split5>())
        .then_step(named_ref::<RefSplat5>())
        .then_step(named_ref_res_mut::<RefConsume>(ResourceId(0)))
        .build();
    d.run_chain(world, input)
}

/// The root hands on a borrow of `input + 1`; `cloned`, then the sink.
pub fn dag_cloned_bare(world: &mut World<u64>, input: u64)
    requires audit_shape(*old(world)),
    ensures
        final(world)@ == old(world)@.write(ResourceId(0), wadd(old(world)@.values[0], wadd(input, 1))),
{
    let v = add_one(input);
    let mut d = DagStart::<u64, &u64>::new()
        .root(named::<PassRef>())
        .cloned()
        .then_step(named_ref_res_mut::<RefConsume>(ResourceId(0)))
        .build();
    d.run_chain(world, &v)
}

/// The root borrows a positive input; `cloned`, `unwrap_or(0)`, then the sink.
pub fn dag_cloned_option(world: &mut World<u64>, input: u64)
    requires audit_shape(*old(world)),
    ensures
        final(world)@ == old(world)@.write(
            ResourceId(0),
            wadd(old(world)@.values[0], if input > 0 { input } else { 0 }),
        ),
{
    let mut d = DagStart::<u64, &u64>::new()
        .root(named::<MaybeBorrowed>())
        .cloned()
        .unwrap_or(0)
        .then_step(named_ref_res_mut::<RefConsume>(ResourceId(0)))
        .build();
    d.run_chain(world, &input)
}

/// The root borrows an input below 10 000; `cloned`, `unwrap_or(0)`, then the sink.
pub fn dag_cloned_result(world: &mut World<u64>, input: u64)
    requires audit_shape(*old(world)),
    ensures
        final(world)@ == old(world)@.write(
            ResourceId(0),
            wadd(old(world)@.values[0], if input < 10_000 { input } else { 0 }),
        ),
{
    let mut d = DagStart::<u64, &u64>::new()
        .root(named::<TryBorrowed>())
        .cloned()
        .unwrap_or(0)
        .then_step(named_ref_res_mut::<RefConsume>(ResourceId(0)))
        .build();
    d.run_chain(world, &input)
}

/// Root `add_one`, node `double`, then a fan-out adding the result into
/// `ResA` and `ResB`.
pub fn dag_dispatch_fanout(world: &mut World<u64>, input: u64)
    requires audit_shape(*old(world)),
    ensures
        ({
            let w0 = old(world)@;
            let v = wmul(wadd(input, 1), 2);
            let w1 = w0.write(ResourceId(0), wadd(w0.values[0], v));
            let w2 = w1.write(ResourceId(1), vstd::wrapping::u32_specs::wrapping_add(w1.values[1] as u32, v as u32) as u64);
            final(world)@ == w2
        }),
{
    let h1 = into_ref_handler(named_ref_res_mut::<RefConsume>(ResourceId(0)));
    let h2 = into_ref_handler(named_ref_res_mut::<RefSinkB>(ResourceId(1)));
    let mut d = DagStart::new()
        .root(named::<AddOne>())
        .then_step(named_ref::<RefDouble>())
        .dispatch(FanOut((h1, h2)))
        .build();
    d.run_chain(world, input)
}

/// Root `add_one`; a three-way route (above 100: `double`, above 50:
/// `triple`, else `add_one`) built from nested routes; then the sink.
pub fn dag_route_nested(world: &mut World<u64>, input: u64)
    requires audit_shape(*old(world)),
    ensures
        ({
            let w0 = old(world)@;
            let v1 = wadd(input, 1);
            let v2 = if v1 > 100 { wmul(v1, 2) } else if v1 > 50 { wmul(v1, 3) } else { wadd(v1, 1) };
            final(world)@ == w0.write(ResourceId(0), wadd(w0.values[0], v2))
        }),
{
    let mut d = DagStart::new()
        .root(named::<AddOne>())
        .route(
            named_ref::<GtHundred>(),
            DagArmStart::<u64, u64>::new().then_step(named_ref::<RefDouble>()).chain,
            DagArmStart::<u64, u64>::new().then_step(named_ref::<RefIdentity>()).route(
                named_ref::<GtFifty>(),
                DagArmStart::<u64, u64>::new().then_step(named_ref::<RefTriple>()).chain,
                DagArmStart::<u64, u64>::new().then_step(named_ref::<RefAddOne>()).chain,
            ).chain,
        )
        .then_step(named_ref_res_mut::<RefConsume>(ResourceId(0)))
        .build();
    d.run_chain(world, input)
}

} // verus!
