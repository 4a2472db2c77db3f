//! Batch audit cases: each drains a buffer of inputs through a pipeline
//! or DAG whose last step adds into `ResA`.
use vstd::prelude::*;
use crate::world::{World, WorldView, ResourceId};
use crate::step::{named, named_ref, named_res, named_res_mut, named_read, named_ref_res, named_ref_res_mut, named_ref_read, Step};
use crate::pipeline::{PipelineStart, Ident, fold_world, lemma_batch_fold, lemma_batch_pre};
use crate::dag::{DagStart, DagArmStart};
use crate::handler::into_handler;
use super::helpers::{AddBoth, AddFortyTwo, AddOne, AddResA, AddSeven, AddThree, ConsumeVal, Double, MaybePositive, RefAddBoth, RefAddFortyTwo, RefAddOne, RefAddResA, RefAddSeven, RefAddThree, RefConsume, RefDouble, RefShrOne, RefSquare, RefSubTen, RefTriple, RefWriteResA, RefXorMask, ShrOne, SplitU64, Square, SubTen, Triple, TryParse, WriteResA, XorMask, wadd, wmul, wsub, audit_shape};
use super::preds::{GtTen, GtThirtyTwo, GtZero, LogError, LtThousand, MergeAdd, MergeFour, MergeMul, RefSplatAdd, SplatAdd, SwitchThreeWay};

verus! {


/// Three steps into `ResA`, over 0..64.
pub fn batch_pipe_linear_3(world: &mut World<u64>)
    requires audit_shape(*old(world)),
    ensures final(world)@ == fold_world(Seq::new(64, |i: int| i as u64), old(world)@, (|w: WorldView<u64>, x: u64| { let v1 = wadd((x), 1); let v2 = wmul((v1), 2); let v3 = wadd((v2), 3); let t4 = (wadd((w.values[0]), (v3)), ()); let w5 = w.write(ResourceId(0), t4.0); let v6 = t4.1; w5 })),
{
    let mut bp = PipelineStart::new()
        .then_step(named::<AddOne>())
        .then_step(named::<Double>())
        .then_step(named::<AddThree>())
        .then_step(named_res_mut::<ConsumeVal>(ResourceId(0)))
        .build_batch(64);
    let ghost c0 = bp.chain;
    let ghost f = (|w: WorldView<u64>, x: u64| { let v1 = wadd((x), 1); let v2 = wmul((v1), 2); let v3 = wadd((v2), 3); let t4 = (wadd((w.values[0]), (v3)), ()); let w5 = w.write(ResourceId(0), t4.0); let v6 = t4.1; w5 });
    proof {
        assert forall|cm, w: World<u64>, x: u64, wm: World<u64>, o| #[trigger] c0.rel(&cm, w, x, wm, o)
            implies cm == c0 && wm@ == f(w@, x) by {}
        assert forall|w: World<u64>, x: u64| audit_shape(w) implies #[trigger] c0.pre(w, x) by {}
    }
    let mut i: u64 = 0;
    while i < 64
        invariant
            i <= 64,
            bp.chain == c0,
            bp.input@ == Seq::new(i as nat, |j: int| j as u64),
        decreases 64 - i,
    {
        bp.input_mut().push(i);
        i += 1;
    }
    let ghost items0 = bp.input@;
    let ghost w0 = *world;
    proof {
        lemma_batch_pre(c0, items0, w0, |w: World<u64>| audit_shape(w));
    }
    bp.run(world);
    proof {
        lemma_batch_fold(c0, items0, w0, bp.chain, *world, f);
        assert(items0 =~= Seq::new(64, |i: int| i as u64));
    }
}

/// Ten steps into `ResA`, over 0..64.
pub fn batch_pipe_linear_10(world: &mut World<u64>)
    requires audit_shape(*old(world)),
    ensures final(world)@ == fold_world(Seq::new(64, |i: int| i as u64), old(world)@, (|w: WorldView<u64>, x: u64| { let v1 = wadd((x), 1); let v2 = wmul((v1), 2); let v3 = wadd((v2), 3); let v4 = wmul((v3), (v3)); let v5 = wsub((v4), 10); let v6 = (v5) / 2; let v7 = (v6) ^ 0xDEAD_BEEF; let v8 = wadd((v7), 7); let v9 = wmul((v8), 3); let v10 = wadd((v9), 42); let t11 = (wadd((w.values[0]), (v10)), ()); let w12 = w.write(ResourceId(0), t11.0); let v13 = t11.1; w12 })),
{
    let mut bp = PipelineStart::new()
        .then_step(named::<AddOne>())
        .then_step(named::<Double>())
        .then_step(named::<AddThree>())
        .then_step(named::<Square>())
        .then_step(named::<SubTen>())
        .then_step(named::<ShrOne>())
        .then_step(named::<XorMask>())
        .then_step(named::<AddSeven>())
        .then_step(named::<Triple>())
        .then_step(named::<AddFortyTwo>())
        .then_step(named_res_mut::<ConsumeVal>(ResourceId(0)))
        .build_batch(64);
    let ghost c0 = bp.chain;
    let ghost f = (|w: WorldView<u64>, x: u64| { let v1 = wadd((x), 1); let v2 = wmul((v1), 2); let v3 = wadd((v2), 3); let v4 = wmul((v3), (v3)); let v5 = wsub((v4), 10); let v6 = (v5) / 2; let v7 = (v6) ^ 0xDEAD_BEEF; let v8 = wadd((v7), 7); let v9 = wmul((v8), 3); let v10 = wadd((v9), 42); let t11 = (wadd((w.values[0]), (v10)), ()); let w12 = w.write(ResourceId(0), t11.0); let v13 = t11.1; w12 });
    proof {
        assert forall|cm, w: World<u64>, x: u64, wm: World<u64>, o| #[trigger] c0.rel(&cm, w, x, wm, o)
            implies cm == c0 && wm@ == f(w@, x) by {}
        assert forall|w: World<u64>, x: u64| audit_shape(w) implies #[trigger] c0.pre(w, x) by {}
    }
    let mut i: u64 = 0;
    while i < 64
        invariant
            i <= 64,
            bp.chain == c0,
            bp.input@ == Seq::new(i as nat, |j: int| j as u64),
        decreases 64 - i,
    {
        bp.input_mut().push(i);
        i += 1;
    }
    let ghost items0 = bp.input@;
    let ghost w0 = *world;
    proof {
        lemma_batch_pre(c0, items0, w0, |w: World<u64>| audit_shape(w));
    }
    bp.run(world);
    proof {
        lemma_batch_fold(c0, items0, w0, bp.chain, *world, f);
        assert(items0 =~= Seq::new(64, |i: int| i as u64));
    }
}

/// Guard and default into `ResA`, over 0..64.
pub fn batch_pipe_guard(world: &mut World<u64>)
    requires audit_shape(*old(world)),
    ensures final(world)@ == fold_world(Seq::new(64, |i: int| i as u64), old(world)@, (|w: WorldView<u64>, x: u64| { let v1 = wadd((x), 1); let v2 = if (v1) > 10 { Some(v1) } else { Option::<u64>::None }; let v3 = match v2 { Some(t) => t, None => 0u64 }; let t4 = (wadd((w.values[0]), (v3)), ()); let w5 = w.write(ResourceId(0), t4.0); let v6 = t4.1; w5 })),
{
    let mut bp = PipelineStart::new()
        .then_step(named::<AddOne>())
        .guard(named_ref::<GtTen>())
        .unwrap_or(0)
        .then_step(named_res_mut::<ConsumeVal>(ResourceId(0)))
        .build_batch(64);
    let ghost c0 = bp.chain;
    let ghost f = (|w: WorldView<u64>, x: u64| { let v1 = wadd((x), 1); let v2 = if (v1) > 10 { Some(v1) } else { Option::<u64>::None }; let v3 = match v2 { Some(t) => t, None => 0u64 }; let t4 = (wadd((w.values[0]), (v3)), ()); let w5 = w.write(ResourceId(0), t4.0); let v6 = t4.1; w5 });
    proof {
        assert forall|cm, w: World<u64>, x: u64, wm: World<u64>, o| #[trigger] c0.rel(&cm, w, x, wm, o)
            implies cm == c0 && wm@ == f(w@, x) by {}
        assert forall|w: World<u64>, x: u64| audit_shape(w) implies #[trigger] c0.pre(w, x) by {}
    }
    let mut i: u64 = 0;
    while i < 64
        invariant
            i <= 64,
            bp.chain == c0,
            bp.input@ == Seq::new(i as nat, |j: int| j as u64),
        decreases 64 - i,
    {
        bp.input_mut().push(i);
        i += 1;
    }
    let ghost items0 = bp.input@;
    let ghost w0 = *world;
    proof {
        lemma_batch_pre(c0, items0, w0, |w: World<u64>| audit_shape(w));
    }
    bp.run(world);
    proof {
        lemma_batch_fold(c0, items0, w0, bp.chain, *world, f);
        assert(items0 =~= Seq::new(64, |i: int| i as u64));
    }
}

/// Option map, filter, default into `ResA`, over 0..64.
pub fn batch_pipe_option_chain(world: &mut World<u64>)
    requires audit_shape(*old(world)),
    ensures final(world)@ == fold_world(Seq::new(64, |i: int| i as u64), old(world)@, (|w: WorldView<u64>, x: u64| { let v1 = if (x) > 0 { Some((x)) } else { Option::<u64>::None }; let v2 = match v1 { Some(t) => Some(wmul((t), 2)), None => Option::<u64>::None }; let v3 = match v2 { Some(t) => if (t) < 1000 { Some(t) } else { Option::<u64>::None }, None => Option::<u64>::None }; let v4 = match v3 { Some(t) => t, None => 0u64 }; let t5 = (wadd((w.values[0]), (v4)), ()); let w6 = w.write(ResourceId(0), t5.0); let v7 = t5.1; w6 })),
{
    let mut bp = PipelineStart::new()
        .then_step(named::<MaybePositive>())
        .map(named::<Double>())
        .filter(named_ref::<LtThousand>())
        .unwrap_or(0)
        .then_step(named_res_mut::<ConsumeVal>(ResourceId(0)))
        .build_batch(64);
    let ghost c0 = bp.chain;
    let ghost f = (|w: WorldView<u64>, x: u64| { let v1 = if (x) > 0 { Some((x)) } else { Option::<u64>::None }; let v2 = match v1 { Some(t) => Some(wmul((t), 2)), None => Option::<u64>::None }; let v3 = match v2 { Some(t) => if (t) < 1000 { Some(t) } else { Option::<u64>::None }, None => Option::<u64>::None }; let v4 = match v3 { Some(t) => t, None => 0u64 }; let t5 = (wadd((w.values[0]), (v4)), ()); let w6 = w.write(ResourceId(0), t5.0); let v7 = t5.1; w6 });
    proof {
        assert forall|cm, w: World<u64>, x: u64, wm: World<u64>, o| #[trigger] c0.rel(&cm, w, x, wm, o)
            implies cm == c0 && wm@ == f(w@, x) by {}
        assert forall|w: World<u64>, x: u64| audit_shape(w) implies #[trigger] c0.pre(w, x) by {}
    }
    let mut i: u64 = 0;
    while i < 64
        invariant
            i <= 64,
            bp.chain == c0,
            bp.input@ == Seq::new(i as nat, |j: int| j as u64),
        decreases 64 - i,
    {
        bp.input_mut().push(i);
        i += 1;
    }
    let ghost items0 = bp.input@;
    let ghost w0 = *world;
    proof {
        lemma_batch_pre(c0, items0, w0, |w: World<u64>| audit_shape(w));
    }
    bp.run(world);
    proof {
        lemma_batch_fold(c0, items0, w0, bp.chain, *world, f);
        assert(items0 =~= Seq::new(64, |i: int| i as u64));
    }
}

/// Result map and default into `ResA`, over 0..64.
pub fn batch_pipe_result_chain(world: &mut World<u64>)
    requires audit_shape(*old(world)),
    ensures final(world)@ == fold_world(Seq::new(64, |i: int| i as u64), old(world)@, (|w: WorldView<u64>, x: u64| { let v1 = if (x) < 10_000 { Ok::<u64, u32>(wmul((x), 2)) } else { Err::<u64, u32>((x) as u32) }; let v2 = match v1 { Ok(t) => Ok::<u64, u32>(wmul((t), 2)), Err(e) => Err::<u64, u32>(e) }; let v3 = match v2 { Ok(t) => t, Err(e) => 0u64 }; let t4 = (wadd((w.values[0]), (v3)), ()); let w5 = w.write(ResourceId(0), t4.0); let v6 = t4.1; w5 })),
{
    let mut bp = PipelineStart::new()
        .then_step(named::<TryParse>())
        .map(named::<Double>())
        .unwrap_or(0)
        .then_step(named_res_mut::<ConsumeVal>(ResourceId(0)))
        .build_batch(64);
    let ghost c0 = bp.chain;
    let ghost f = (|w: WorldView<u64>, x: u64| { let v1 = if (x) < 10_000 { Ok::<u64, u32>(wmul((x), 2)) } else { Err::<u64, u32>((x) as u32) }; let v2 = match v1 { Ok(t) => Ok::<u64, u32>(wmul((t), 2)), Err(e) => Err::<u64, u32>(e) }; let v3 = match v2 { Ok(t) => t, Err(e) => 0u64 }; let t4 = (wadd((w.values[0]), (v3)), ()); let w5 = w.write(ResourceId(0), t4.0); let v6 = t4.1; w5 });
    proof {
        assert forall|cm, w: World<u64>, x: u64, wm: World<u64>, o| #[trigger] c0.rel(&cm, w, x, wm, o)
            implies cm == c0 && wm@ == f(w@, x) by {}
        assert forall|w: World<u64>, x: u64| audit_shape(w) implies #[trigger] c0.pre(w, x) by {}
    }
    let mut i: u64 = 0;
    while i < 64
        invariant
            i <= 64,
            bp.chain == c0,
            bp.input@ == Seq::new(i as nat, |j: int| j as u64),
        decreases 64 - i,
    {
        bp.input_mut().push(i);
        i += 1;
    }
    let ghost items0 = bp.input@;
    let ghost w0 = *world;
    proof {
        lemma_batch_pre(c0, items0, w0, |w: World<u64>| audit_shape(w));
    }
    bp.run(world);
    proof {
        lemma_batch_fold(c0, items0, w0, bp.chain, *world, f);
        assert(items0 =~= Seq::new(64, |i: int| i as u64));
    }
}

/// Reads and a write, then into `ResA`, over 0..64.
pub fn batch_pipe_mixed_arity(world: &mut World<u64>)
    requires audit_shape(*old(world)),
    ensures final(world)@ == fold_world(Seq::new(64, |i: int| i as u64), old(world)@, (|w: WorldView<u64>, x: u64| { let v1 = wadd((x), 1); let v2 = wadd((v1), (w.values[0])); let t3 = (wadd((w.values[0]), (v2)), (v2)); let w4 = w.write(ResourceId(0), t3.0); let v5 = t3.1; let v6 = wadd(wadd((v5), (w4).values[0]), (w4).values[1]); let t7 = (wadd((w4.values[0]), (v6)), ()); let w8 = w4.write(ResourceId(0), t7.0); let v9 = t7.1; w8 })),
{
    let mut bp = PipelineStart::new()
        .then_step(named::<AddOne>())
        .then_step(named_res::<AddResA>(ResourceId(0)))
        .then_step(named_res_mut::<WriteResA>(ResourceId(0)))
        .then_step(named_read::<AddBoth>())
        .then_step(named_res_mut::<ConsumeVal>(ResourceId(0)))
        .build_batch(64);
    let ghost c0 = bp.chain;
    let ghost f = (|w: WorldView<u64>, x: u64| { let v1 = wadd((x), 1); let v2 = wadd((v1), (w.values[0])); let t3 = (wadd((w.values[0]), (v2)), (v2)); let w4 = w.write(ResourceId(0), t3.0); let v5 = t3.1; let v6 = wadd(wadd((v5), (w4).values[0]), (w4).values[1]); let t7 = (wadd((w4.values[0]), (v6)), ()); let w8 = w4.write(ResourceId(0), t7.0); let v9 = t7.1; w8 });
    proof {
        assert forall|cm, w: World<u64>, x: u64, wm: World<u64>, o| #[trigger] c0.rel(&cm, w, x, wm, o)
            implies cm == c0 && wm@ == f(w@, x) by {}
        assert forall|w: World<u64>, x: u64| audit_shape(w) implies #[trigger] c0.pre(w, x) by {}
    }
    let mut i: u64 = 0;
    while i < 64
        invariant
            i <= 64,
            bp.chain == c0,
            bp.input@ == Seq::new(i as nat, |j: int| j as u64),
        decreases 64 - i,
    {
        bp.input_mut().push(i);
        i += 1;
    }
    let ghost items0 = bp.input@;
    let ghost w0 = *world;
    proof {
        lemma_batch_pre(c0, items0, w0, |w: World<u64>| audit_shape(w));
    }
    bp.run(world);
    proof {
        lemma_batch_fold(c0, items0, w0, bp.chain, *world, f);
        assert(items0 =~= Seq::new(64, |i: int| i as u64));
    }
}

/// Split and add into `ResA`, over 0..64.
pub fn batch_pipe_splat(world: &mut World<u64>)
    requires audit_shape(*old(world)),
    ensures final(world)@ == fold_world(Seq::new(64, |i: int| i as u64), old(world)@, (|w: WorldView<u64>, x: u64| { let v1 = ((x) as u32, ((x) >> 32) as u32); let v2 = ((v1).0 + (v1).1) as u64; let t3 = (wadd((w.values[0]), (v2)), ()); let w4 = w.write(ResourceId(0), t3.0); let v5 = t3.1; w4 })),
{
    let mut bp = PipelineStart::new()
        .then_step(named::<SplitU64>())
        .then_step(named::<SplatAdd>())
        .then_step(named_res_mut::<ConsumeVal>(ResourceId(0)))
        .build_batch(64);
    let ghost c0 = bp.chain;
    let ghost f = (|w: WorldView<u64>, x: u64| { let v1 = ((x) as u32, ((x) >> 32) as u32); let v2 = ((v1).0 + (v1).1) as u64; let t3 = (wadd((w.values[0]), (v2)), ()); let w4 = w.write(ResourceId(0), t3.0); let v5 = t3.1; w4 });
    proof {
        assert forall|cm, w: World<u64>, x: u64, wm: World<u64>, o| #[trigger] c0.rel(&cm, w, x, wm, o)
            implies cm == c0 && wm@ == f(w@, x) by {}
        assert forall|w: World<u64>, x: u64| audit_shape(w) implies #[trigger] c0.pre(w, x) by {}
    }
    let mut i: u64 = 0;
    while i < 64
        invariant
            i <= 64,
            bp.chain == c0,
            bp.input@ == Seq::new(i as nat, |j: int| j as u64),
        decreases 64 - i,
    {
        bp.input_mut().push(i);
        i += 1;
    }
    let ghost items0 = bp.input@;
    let ghost w0 = *world;
    proof {
        lemma_batch_pre(c0, items0, w0, |w: World<u64>| audit_shape(w));
    }
    bp.run(world);
    proof {
        lemma_batch_fold(c0, items0, w0, bp.chain, *world, f);
        assert(items0 =~= Seq::new(64, |i: int| i as u64));
    }
}

/// Route into `ResA`, over 0..64.
pub fn batch_pipe_route(world: &mut World<u64>)
    requires audit_shape(*old(world)),
    ensures final(world)@ == fold_world(Seq::new(64, |i: int| i as u64), old(world)@, (|w: WorldView<u64>, x: u64| { let v1 = wadd((x), 1); let v2 = wmul((v1), 2); let v3 = wadd((v1), 1); let v4 = if (v1) > 32 { v2 } else { v3 }; let t5 = (wadd((w.values[0]), (v4)), ()); let w6 = w.write(ResourceId(0), t5.0); let v7 = t5.1; w6 })),
{
    let mut bp = PipelineStart::new()
        .then_step(named::<AddOne>())
        .route(named_ref::<GtThirtyTwo>(), PipelineStart::<u64, u64>::new().then_step(named::<Double>()).chain, PipelineStart::<u64, u64>::new().then_step(named::<AddOne>()).chain)
        .then_step(named_res_mut::<ConsumeVal>(ResourceId(0)))
        .build_batch(64);
    let ghost c0 = bp.chain;
    let ghost f = (|w: WorldView<u64>, x: u64| { let v1 = wadd((x), 1); let v2 = wmul((v1), 2); let v3 = wadd((v1), 1); let v4 = if (v1) > 32 { v2 } else { v3 }; let t5 = (wadd((w.values[0]), (v4)), ()); let w6 = w.write(ResourceId(0), t5.0); let v7 = t5.1; w6 });
    proof {
        assert forall|cm, w: World<u64>, x: u64, wm: World<u64>, o| #[trigger] c0.rel(&cm, w, x, wm, o)
            implies cm == c0 && wm@ == f(w@, x) by {}
        assert forall|w: World<u64>, x: u64| audit_shape(w) implies #[trigger] c0.pre(w, x) by {}
    }
    let mut i: u64 = 0;
    while i < 64
        invariant
            i <= 64,
            bp.chain == c0,
            bp.input@ == Seq::new(i as nat, |j: int| j as u64),
        decreases 64 - i,
    {
        bp.input_mut().push(i);
        i += 1;
    }
    let ghost items0 = bp.input@;
    let ghost w0 = *world;
    proof {
        lemma_batch_pre(c0, items0, w0, |w: World<u64>| audit_shape(w));
    }
    bp.run(world);
    proof {
        lemma_batch_fold(c0, items0, w0, bp.chain, *world, f);
        assert(items0 =~= Seq::new(64, |i: int| i as u64));
    }
}

/// Ten steps into `ResA`, over 0..256.
pub fn batch_pipe_large(world: &mut World<u64>)
    requires audit_shape(*old(world)),
    ensures final(world)@ == fold_world(Seq::new(256, |i: int| i as u64), old(world)@, (|w: WorldView<u64>, x: u64| { let v1 = wadd((x), 1); let v2 = wmul((v1), 2); let v3 = wadd((v2), 3); let v4 = wmul((v3), (v3)); let v5 = wsub((v4), 10); let v6 = (v5) / 2; let v7 = (v6) ^ 0xDEAD_BEEF; let v8 = wadd((v7), 7); let v9 = wmul((v8), 3); let v10 = wadd((v9), 42); let t11 = (wadd((w.values[0]), (v10)), ()); let w12 = w.write(ResourceId(0), t11.0); let v13 = t11.1; w12 })),
{
    let mut bp = PipelineStart::new()
        .then_step(named::<AddOne>())
        .then_step(named::<Double>())
        .then_step(named::<AddThree>())
        .then_step(named::<Square>())
        .then_step(named::<SubTen>())
        .then_step(named::<ShrOne>())
        .then_step(named::<XorMask>())
        .then_step(named::<AddSeven>())
        .then_step(named::<Triple>())
        .then_step(named::<AddFortyTwo>())
        .then_step(named_res_mut::<ConsumeVal>(ResourceId(0)))
        .build_batch(256);
    let ghost c0 = bp.chain;
    let ghost f = (|w: WorldView<u64>, x: u64| { let v1 = wadd((x), 1); let v2 = wmul((v1), 2); let v3 = wadd((v2), 3); let v4 = wmul((v3), (v3)); let v5 = wsub((v4), 10); let v6 = (v5) / 2; let v7 = (v6) ^ 0xDEAD_BEEF; let v8 = wadd((v7), 7); let v9 = wmul((v8), 3); let v10 = wadd((v9), 42); let t11 = (wadd((w.values[0]), (v10)), ()); let w12 = w.write(ResourceId(0), t11.0); let v13 = t11.1; w12 });
    proof {
        assert forall|cm, w: World<u64>, x: u64, wm: World<u64>, o| #[trigger] c0.rel(&cm, w, x, wm, o)
            implies cm == c0 && wm@ == f(w@, x) by {}
        assert forall|w: World<u64>, x: u64| audit_shape(w) implies #[trigger] c0.pre(w, x) by {}
    }
    let mut i: u64 = 0;
    while i < 256
        invariant
            i <= 256,
            bp.chain == c0,
            bp.input@ == Seq::new(i as nat, |j: int| j as u64),
        decreases 256 - i,
    {
        bp.input_mut().push(i);
        i += 1;
    }
    let ghost items0 = bp.input@;
    let ghost w0 = *world;
    proof {
        lemma_batch_pre(c0, items0, w0, |w: World<u64>| audit_shape(w));
    }
    bp.run(world);
    proof {
        lemma_batch_fold(c0, items0, w0, bp.chain, *world, f);
        assert(items0 =~= Seq::new(256, |i: int| i as u64));
    }
}

/// Guard, ten maps, default into `ResA`, over 0..64.
pub fn batch_pipe_guard_skip_10(world: &mut World<u64>)
    requires audit_shape(*old(world)),
    ensures final(world)@ == fold_world(Seq::new(64, |i: int| i as u64), old(world)@, (|w: WorldView<u64>, x: u64| { let v1 = if (x) > 32 { Some(x) } else { Option::<u64>::None }; let v2 = match v1 { Some(t) => Some(wadd((t), 1)), None => Option::<u64>::None }; let v3 = match v2 { Some(t) => Some(wmul((t), 2)), None => Option::<u64>::None }; let v4 = match v3 { Some(t) => Some(wadd((t), 3)), None => Option::<u64>::None }; let v5 = match v4 { Some(t) => Some(wmul((t), (t))), None => Option::<u64>::None }; let v6 = match v5 { Some(t) => Some(wsub((t), 10)), None => Option::<u64>::None }; let v7 = match v6 { Some(t) => Some((t) / 2), None => Option::<u64>::None }; let v8 = match v7 { Some(t) => Some((t) ^ 0xDEAD_BEEF), None => Option::<u64>::None }; let v9 = match v8 { Some(t) => Some(wadd((t), 7)), None => Option::<u64>::None }; let v10 = match v9 { Some(t) => Some(wmul((t), 3)), None => Option::<u64>::None }; let v11 = match v10 { Some(t) => Some(wadd((t), 42)), None => Option::<u64>::None }; let v12 = match v11 { Some(t) => t, None => 0u64 }; let t13 = (wadd((w.values[0]), (v12)), ()); let w14 = w.write(ResourceId(0), t13.0); let v15 = t13.1; w14 })),
{
    let mut bp = PipelineStart::new()
        .then_step(Ident)
        .guard(named_ref::<GtThirtyTwo>())
        .map(named::<AddOne>())
        .map(named::<Double>())
        .map(named::<AddThree>())
        .map(named::<Square>())
        .map(named::<SubTen>())
        .map(named::<ShrOne>())
        .map(named::<XorMask>())
        .map(named::<AddSeven>())
        .map(named::<Triple>())
        .map(named::<AddFortyTwo>())
        .unwrap_or(0)
        .then_step(named_res_mut::<ConsumeVal>(ResourceId(0)))
        .build_batch(64);
    let ghost c0 = bp.chain;
    let ghost f = (|w: WorldView<u64>, x: u64| { let v1 = if (x) > 32 { Some(x) } else { Option::<u64>::None }; let v2 = match v1 { Some(t) => Some(wadd((t), 1)), None => Option::<u64>::None }; let v3 = match v2 { Some(t) => Some(wmul((t), 2)), None => Option::<u64>::None }; let v4 = match v3 { Some(t) => Some(wadd((t), 3)), None => Option::<u64>::None }; let v5 = match v4 { Some(t) => Some(wmul((t), (t))), None => Option::<u64>::None }; let v6 = match v5 { Some(t) => Some(wsub((t), 10)), None => Option::<u64>::None }; let v7 = match v6 { Some(t) => Some((t) / 2), None => Option::<u64>::None }; let v8 = match v7 { Some(t) => Some((t) ^ 0xDEAD_BEEF), None => Option::<u64>::None }; let v9 = match v8 { Some(t) => Some(wadd((t), 7)), None => Option::<u64>::None }; let v10 = match v9 { Some(t) => Some(wmul((t), 3)), None => Option::<u64>::None }; let v11 = match v10 { Some(t) => Some(wadd((t), 42)), None => Option::<u64>::None }; let v12 = match v11 { Some(t) => t, None => 0u64 }; let t13 = (wadd((w.values[0]), (v12)), ()); let w14 = w.write(ResourceId(0), t13.0); let v15 = t13.1; w14 });
    proof {
        assert forall|cm, w: World<u64>, x: u64, wm: World<u64>, o| #[trigger] c0.rel(&cm, w, x, wm, o)
            implies cm == c0 && wm@ == f(w@, x) by {}
        assert forall|w: World<u64>, x: u64| audit_shape(w) implies #[trigger] c0.pre(w, x) by {}
    }
    let mut i: u64 = 0;
    while i < 64
        invariant
            i <= 64,
            bp.chain == c0,
            bp.input@ == Seq::new(i as nat, |j: int| j as u64),
        decreases 64 - i,
    {
        bp.input_mut().push(i);
        i += 1;
    }
    let ghost items0 = bp.input@;
    let ghost w0 = *world;
    proof {
        lemma_batch_pre(c0, items0, w0, |w: World<u64>| audit_shape(w));
    }
    bp.run(world);
    proof {
        lemma_batch_fold(c0, items0, w0, bp.chain, *world, f);
        assert(items0 =~= Seq::new(64, |i: int| i as u64));
    }
}

/// Result, ten maps, default into `ResA`, over 0..64.
pub fn batch_pipe_res_skip_10(world: &mut World<u64>)
    requires audit_shape(*old(world)),
    ensures final(world)@ == fold_world(Seq::new(64, |i: int| i as u64), old(world)@, (|w: WorldView<u64>, x: u64| { let v1 = if (x) < 10_000 { Ok::<u64, u32>(wmul((x), 2)) } else { Err::<u64, u32>((x) as u32) }; let v2 = match v1 { Ok(t) => Ok::<u64, u32>(wadd((t), 1)), Err(e) => Err::<u64, u32>(e) }; let v3 = match v2 { Ok(t) => Ok::<u64, u32>(wmul((t), 2)), Err(e) => Err::<u64, u32>(e) }; let v4 = match v3 { Ok(t) => Ok::<u64, u32>(wadd((t), 3)), Err(e) => Err::<u64, u32>(e) }; let v5 = match v4 { Ok(t) => Ok::<u64, u32>(wmul((t), (t))), Err(e) => Err::<u64, u32>(e) }; let v6 = match v5 { Ok(t) => Ok::<u64, u32>(wsub((t), 10)), Err(e) => Err::<u64, u32>(e) }; let v7 = match v6 { Ok(t) => Ok::<u64, u32>((t) / 2), Err(e) => Err::<u64, u32>(e) }; let v8 = match v7 { Ok(t) => Ok::<u64, u32>((t) ^ 0xDEAD_BEEF), Err(e) => Err::<u64, u32>(e) }; let v9 = match v8 { Ok(t) => Ok::<u64, u32>(wadd((t), 7)), Err(e) => Err::<u64, u32>(e) }; let v10 = match v9 { Ok(t) => Ok::<u64, u32>(wmul((t), 3)), Err(e) => Err::<u64, u32>(e) }; let v11 = match v10 { Ok(t) => Ok::<u64, u32>(wadd((t), 42)), Err(e) => Err::<u64, u32>(e) }; let v12 = match v11 { Ok(t) => t, Err(e) => 0u64 }; let t13 = (wadd((w.values[0]), (v12)), ()); let w14 = w.write(ResourceId(0), t13.0); let v15 = t13.1; w14 })),
{
    let mut bp = PipelineStart::new()
        .then_step(named::<TryParse>())
        .map(named::<AddOne>())
        .map(named::<Double>())
        .map(named::<AddThree>())
        .map(named::<Square>())
        .map(named::<SubTen>())
        .map(named::<ShrOne>())
        .map(named::<XorMask>())
        .map(named::<AddSeven>())
        .map(named::<Triple>())
        .map(named::<AddFortyTwo>())
        .unwrap_or(0)
        .then_step(named_res_mut::<ConsumeVal>(ResourceId(0)))
        .build_batch(64);
    let ghost c0 = bp.chain;
    let ghost f = (|w: WorldView<u64>, x: u64| { let v1 = if (x) < 10_000 { Ok::<u64, u32>(wmul((x), 2)) } else { Err::<u64, u32>((x) as u32) }; let v2 = match v1 { Ok(t) => Ok::<u64, u32>(wadd((t), 1)), Err(e) => Err::<u64, u32>(e) }; let v3 = match v2 { Ok(t) => Ok::<u64, u32>(wmul((t), 2)), Err(e) => Err::<u64, u32>(e) }; let v4 = match v3 { Ok(t) => Ok::<u64, u32>(wadd((t), 3)), Err(e) => Err::<u64, u32>(e) }; let v5 = match v4 { Ok(t) => Ok::<u64, u32>(wmul((t), (t))), Err(e) => Err::<u64, u32>(e) }; let v6 = match v5 { Ok(t) => Ok::<u64, u32>(wsub((t), 10)), Err(e) => Err::<u64, u32>(e) }; let v7 = match v6 { Ok(t) => Ok::<u64, u32>((t) / 2), Err(e) => Err::<u64, u32>(e) }; let v8 = match v7 { Ok(t) => Ok::<u64, u32>((t) ^ 0xDEAD_BEEF), Err(e) => Err::<u64, u32>(e) }; let v9 = match v8 { Ok(t) => Ok::<u64, u32>(wadd((t), 7)), Err(e) => Err::<u64, u32>(e) }; let v10 = match v9 { Ok(t) => Ok::<u64, u32>(wmul((t), 3)), Err(e) => Err::<u64, u32>(e) }; let v11 = match v10 { Ok(t) => Ok::<u64, u32>(wadd((t), 42)), Err(e) => Err::<u64, u32>(e) }; let v12 = match v11 { Ok(t) => t, Err(e) => 0u64 }; let t13 = (wadd((w.values[0]), (v12)), ()); let w14 = w.write(ResourceId(0), t13.0); let v15 = t13.1; w14 });
    proof {
        assert forall|cm, w: World<u64>, x: u64, wm: World<u64>, o| #[trigger] c0.rel(&cm, w, x, wm, o)
            implies cm == c0 && wm@ == f(w@, x) by {}
        assert forall|w: World<u64>, x: u64| audit_shape(w) implies #[trigger] c0.pre(w, x) by {}
    }
    let mut i: u64 = 0;
    while i < 64
        invariant
            i <= 64,
            bp.chain == c0,
            bp.input@ == Seq::new(i as nat, |j: int| j as u64),
        decreases 64 - i,
    {
        bp.input_mut().push(i);
        i += 1;
    }
    let ghost items0 = bp.input@;
    let ghost w0 = *world;
    proof {
        lemma_batch_pre(c0, items0, w0, |w: World<u64>| audit_shape(w));
    }
    bp.run(world);
    proof {
        lemma_batch_fold(c0, items0, w0, bp.chain, *world, f);
        assert(items0 =~= Seq::new(64, |i: int| i as u64));
    }
}

/// DAG with two nodes into `ResA`, over 0..64.
pub fn batch_dag_linear_3(world: &mut World<u64>)
    requires audit_shape(*old(world)),
    ensures final(world)@ == fold_world(Seq::new(64, |i: int| i as u64), old(world)@, (|w: WorldView<u64>, x: u64| { let v1 = wadd((x), 1); let v2 = wmul((v1), 2); let v3 = wadd((v2), 3); let t4 = (wadd((w.values[0]), (v3)), ()); let w5 = w.write(ResourceId(0), t4.0); let v6 = t4.1; w5 })),
{
    let mut bp = DagStart::new()
        .root(named::<AddOne>())
        .then_step(named_ref::<RefDouble>())
        .then_step(named_ref::<RefAddThree>())
        .then_step(named_ref_res_mut::<RefConsume>(ResourceId(0)))
        .build_batch(64);
    let ghost c0 = bp.chain;
    let ghost f = (|w: WorldView<u64>, x: u64| { let v1 = wadd((x), 1); let v2 = wmul((v1), 2); let v3 = wadd((v2), 3); let t4 = (wadd((w.values[0]), (v3)), ()); let w5 = w.write(ResourceId(0), t4.0); let v6 = t4.1; w5 });
    proof {
        assert forall|cm, w: World<u64>, x: u64, wm: World<u64>, o| #[trigger] c0.rel(&cm, w, x, wm, o)
            implies cm == c0 && wm@ == f(w@, x) by {}
        assert forall|w: World<u64>, x: u64| audit_shape(w) implies #[trigger] c0.pre(w, x) by {}
    }
    let mut i: u64 = 0;
    while i < 64
        invariant
            i <= 64,
            bp.chain == c0,
            bp.input@ == Seq::new(i as nat, |j: int| j as u64),
        decreases 64 - i,
    {
        bp.input_mut().push(i);
        i += 1;
    }
    let ghost items0 = bp.input@;
    let ghost w0 = *world;
    proof {
        lemma_batch_pre(c0, items0, w0, |w: World<u64>| audit_shape(w));
    }
    bp.run(world);
    proof {
        lemma_batch_fold(c0, items0, w0, bp.chain, *world, f);
        assert(items0 =~= Seq::new(64, |i: int| i as u64));
    }
}

/// DAG with nine nodes into `ResA`, over 0..64.
pub fn batch_dag_linear_10(world: &mut World<u64>)
    requires audit_shape(*old(world)),
    ensures final(world)@ == fold_world(Seq::new(64, |i: int| i as u64), old(world)@, (|w: WorldView<u64>, x: u64| { let v1 = wadd((x), 1); let v2 = wmul((v1), 2); let v3 = wadd((v2), 3); let v4 = wmul((v3), (v3)); let v5 = wsub((v4), 10); let v6 = (v5) / 2; let v7 = (v6) ^ 0xDEAD_BEEF; let v8 = wadd((v7), 7); let v9 = wmul((v8), 3); let v10 = wadd((v9), 42); let t11 = (wadd((w.values[0]), (v10)), ()); let w12 = w.write(ResourceId(0), t11.0); let v13 = t11.1; w12 })),
{
    let mut bp = DagStart::new()
        .root(named::<AddOne>())
        .then_step(named_ref::<RefDouble>())
        .then_step(named_ref::<RefAddThree>())
        .then_step(named_ref::<RefSquare>())
        .then_step(named_ref::<RefSubTen>())
        .then_step(named_ref::<RefShrOne>())
        .then_step(named_ref::<RefXorMask>())
        .then_step(named_ref::<RefAddSeven>())
        .then_step(named_ref::<RefTriple>())
        .then_step(named_ref::<RefAddFortyTwo>())
        .then_step(named_ref_res_mut::<RefConsume>(ResourceId(0)))
        .build_batch(64);
    let ghost c0 = bp.chain;
    let ghost f = (|w: WorldView<u64>, x: u64| { let v1 = wadd((x), 1); let v2 = wmul((v1), 2); let v3 = wadd((v2), 3); let v4 = wmul((v3), (v3)); let v5 = wsub((v4), 10); let v6 = (v5) / 2; let v7 = (v6) ^ 0xDEAD_BEEF; let v8 = wadd((v7), 7); let v9 = wmul((v8), 3); let v10 = wadd((v9), 42); let t11 = (wadd((w.values[0]), (v10)), ()); let w12 = w.write(ResourceId(0), t11.0); let v13 = t11.1; w12 });
    proof {
        assert forall|cm, w: World<u64>, x: u64, wm: World<u64>, o| #[trigger] c0.rel(&cm, w, x, wm, o)
            implies cm == c0 && wm@ == f(w@, x) by {}
        assert forall|w: World<u64>, x: u64| audit_shape(w) implies #[trigger] c0.pre(w, x) by {}
    }
    let mut i: u64 = 0;
    while i < 64
        invariant
            i <= 64,
            bp.chain == c0,
            bp.input@ == Seq::new(i as nat, |j: int| j as u64),
        decreases 64 - i,
    {
        bp.input_mut().push(i);
        i += 1;
    }
    let ghost items0 = bp.input@;
    let ghost w0 = *world;
    proof {
        lemma_batch_pre(c0, items0, w0, |w: World<u64>| audit_shape(w));
    }
    bp.run(world);
    proof {
        lemma_batch_fold(c0, items0, w0, bp.chain, *world, f);
        assert(items0 =~= Seq::new(64, |i: int| i as u64));
    }
}

/// DAG fork and merge into `ResA`, over 0..64.
pub fn batch_dag_fork_merge(world: &mut World<u64>)
    requires audit_shape(*old(world)),
    ensures final(world)@ == fold_world(Seq::new(64, |i: int| i as u64), old(world)@, (|w: WorldView<u64>, x: u64| { let v1 = wadd((x), 1); let v2 = wmul((v1), 2); let v3 = wmul((v1), 3); let v4 = wadd(((v2, v3)).0, ((v2, v3)).1); let t5 = (wadd((w.values[0]), (v4)), ()); let w6 = w.write(ResourceId(0), t5.0); let v7 = t5.1; w6 })),
{
    let mut bp = DagStart::new()
        .root(named::<AddOne>())
        .fork()
        .arm(DagArmStart::new().then_step(named_ref::<RefDouble>()))
        .arm(DagArmStart::new().then_step(named_ref::<RefTriple>()))
        .merge(named_ref::<MergeAdd>())
        .then_step(named_ref_res_mut::<RefConsume>(ResourceId(0)))
        .build_batch(64);
    let ghost c0 = bp.chain;
    let ghost f = (|w: WorldView<u64>, x: u64| { let v1 = wadd((x), 1); let v2 = wmul((v1), 2); let v3 = wmul((v1), 3); let v4 = wadd(((v2, v3)).0, ((v2, v3)).1); let t5 = (wadd((w.values[0]), (v4)), ()); let w6 = w.write(ResourceId(0), t5.0); let v7 = t5.1; w6 });
    proof {
        assert forall|cm, w: World<u64>, x: u64, wm: World<u64>, o| #[trigger] c0.rel(&cm, w, x, wm, o)
            implies cm == c0 && wm@ == f(w@, x) by {}
        assert forall|w: World<u64>, x: u64| audit_shape(w) implies #[trigger] c0.pre(w, x) by {}
    }
    let mut i: u64 = 0;
    while i < 64
        invariant
            i <= 64,
            bp.chain == c0,
            bp.input@ == Seq::new(i as nat, |j: int| j as u64),
        decreases 64 - i,
    {
        bp.input_mut().push(i);
        i += 1;
    }
    let ghost items0 = bp.input@;
    let ghost w0 = *world;
    proof {
        lemma_batch_pre(c0, items0, w0, |w: World<u64>| audit_shape(w));
    }
    bp.run(world);
    proof {
        lemma_batch_fold(c0, items0, w0, bp.chain, *world, f);
        assert(items0 =~= Seq::new(64, |i: int| i as u64));
    }
}

/// DAG guard and default into `ResA`, over 0..64.
pub fn batch_dag_guard(world: &mut World<u64>)
    requires audit_shape(*old(world)),
    ensures final(world)@ == fold_world(Seq::new(64, |i: int| i as u64), old(world)@, (|w: WorldView<u64>, x: u64| { let v1 = wadd((x), 1); let v2 = if (v1) > 10 { Some(v1) } else { Option::<u64>::None }; let v3 = match v2 { Some(t) => t, None => 0u64 }; let t4 = (wadd((w.values[0]), (v3)), ()); let w5 = w.write(ResourceId(0), t4.0); let v6 = t4.1; w5 })),
{
    let mut bp = DagStart::new()
        .root(named::<AddOne>())
        .guard(named_ref::<GtTen>())
        .unwrap_or(0)
        .then_step(named_ref_res_mut::<RefConsume>(ResourceId(0)))
        .build_batch(64);
    let ghost c0 = bp.chain;
    let ghost f = (|w: WorldView<u64>, x: u64| { let v1 = wadd((x), 1); let v2 = if (v1) > 10 { Some(v1) } else { Option::<u64>::None }; let v3 = match v2 { Some(t) => t, None => 0u64 }; let t4 = (wadd((w.values[0]), (v3)), ()); let w5 = w.write(ResourceId(0), t4.0); let v6 = t4.1; w5 });
    proof {
        assert forall|cm, w: World<u64>, x: u64, wm: World<u64>, o| #[trigger] c0.rel(&cm, w, x, wm, o)
            implies cm == c0 && wm@ == f(w@, x) by {}
        assert forall|w: World<u64>, x: u64| audit_shape(w) implies #[trigger] c0.pre(w, x) by {}
    }
    let mut i: u64 = 0;
    while i < 64
        invariant
            i <= 64,
            bp.chain == c0,
            bp.input@ == Seq::new(i as nat, |j: int| j as u64),
        decreases 64 - i,
    {
        bp.input_mut().push(i);
        i += 1;
    }
    let ghost items0 = bp.input@;
    let ghost w0 = *world;
    proof {
        lemma_batch_pre(c0, items0, w0, |w: World<u64>| audit_shape(w));
    }
    bp.run(world);
    proof {
        lemma_batch_fold(c0, items0, w0, bp.chain, *world, f);
        assert(items0 =~= Seq::new(64, |i: int| i as u64));
    }
}

/// DAG reads and a write into `ResA`, over 0..64.
pub fn batch_dag_mixed_arity(world: &mut World<u64>)
    requires audit_shape(*old(world)),
    ensures final(world)@ == fold_world(Seq::new(64, |i: int| i as u64), old(world)@, (|w: WorldView<u64>, x: u64| { let v1 = wadd((x), 1); let v2 = wadd((v1), (w.values[0])); let t3 = (wadd((w.values[0]), (v2)), (v2)); let w4 = w.write(ResourceId(0), t3.0); let v5 = t3.1; let v6 = wadd(wadd((v5), (w4).values[0]), (w4).values[1]); let t7 = (wadd((w4.values[0]), (v6)), ()); let w8 = w4.write(ResourceId(0), t7.0); let v9 = t7.1; w8 })),
{
    let mut bp = DagStart::new()
        .root(named::<AddOne>())
        .then_step(named_ref_res::<RefAddResA>(ResourceId(0)))
        .then_step(named_ref_res_mut::<RefWriteResA>(ResourceId(0)))
        .then_step(named_ref_read::<RefAddBoth>())
        .then_step(named_ref_res_mut::<RefConsume>(ResourceId(0)))
        .build_batch(64);
    let ghost c0 = bp.chain;
    let ghost f = (|w: WorldView<u64>, x: u64| { let v1 = wadd((x), 1); let v2 = wadd((v1), (w.values[0])); let t3 = (wadd((w.values[0]), (v2)), (v2)); let w4 = w.write(ResourceId(0), t3.0); let v5 = t3.1; let v6 = wadd(wadd((v5), (w4).values[0]), (w4).values[1]); let t7 = (wadd((w4.values[0]), (v6)), ()); let w8 = w4.write(ResourceId(0), t7.0); let v9 = t7.1; w8 });
    proof {
        assert forall|cm, w: World<u64>, x: u64, wm: World<u64>, o| #[trigger] c0.rel(&cm, w, x, wm, o)
            implies cm == c0 && wm@ == f(w@, x) by {}
        assert forall|w: World<u64>, x: u64| audit_shape(w) implies #[trigger] c0.pre(w, x) by {}
    }
    let mut i: u64 = 0;
    while i < 64
        invariant
            i <= 64,
            bp.chain == c0,
            bp.input@ == Seq::new(i as nat, |j: int| j as u64),
        decreases 64 - i,
    {
        bp.input_mut().push(i);
        i += 1;
    }
    let ghost items0 = bp.input@;
    let ghost w0 = *world;
    proof {
        lemma_batch_pre(c0, items0, w0, |w: World<u64>| audit_shape(w));
    }
    bp.run(world);
    proof {
        lemma_batch_fold(c0, items0, w0, bp.chain, *world, f);
        assert(items0 =~= Seq::new(64, |i: int| i as u64));
    }
}

/// DAG with two forks into `ResA`, over 0..64.
pub fn batch_dag_diamond(world: &mut World<u64>)
    requires audit_shape(*old(world)),
    ensures final(world)@ == fold_world(Seq::new(64, |i: int| i as u64), old(world)@, (|w: WorldView<u64>, x: u64| { let v1 = wadd((x), 1); let v2 = wmul((v1), 2); let v3 = wmul((v1), 3); let v4 = wadd(((v2, v3)).0, ((v2, v3)).1); let v5 = wmul((v4), (v4)); let v6 = (v4) / 2; let v7 = wmul(((v5, v6)).0, ((v5, v6)).1); let t8 = (wadd((w.values[0]), (v7)), ()); let w9 = w.write(ResourceId(0), t8.0); let v10 = t8.1; w9 })),
{
    let mut bp = DagStart::new()
        .root(named::<AddOne>())
        .fork()
        .arm(DagArmStart::new().then_step(named_ref::<RefDouble>()))
        .arm(DagArmStart::new().then_step(named_ref::<RefTriple>()))
        .merge(named_ref::<MergeAdd>())
        .fork()
        .arm(DagArmStart::new().then_step(named_ref::<RefSquare>()))
        .arm(DagArmStart::new().then_step(named_ref::<RefShrOne>()))
        .merge(named_ref::<MergeMul>())
        .then_step(named_ref_res_mut::<RefConsume>(ResourceId(0)))
        .build_batch(64);
    let ghost c0 = bp.chain;
    let ghost f = (|w: WorldView<u64>, x: u64| { let v1 = wadd((x), 1); let v2 = wmul((v1), 2); let v3 = wmul((v1), 3); let v4 = wadd(((v2, v3)).0, ((v2, v3)).1); let v5 = wmul((v4), (v4)); let v6 = (v4) / 2; let v7 = wmul(((v5, v6)).0, ((v5, v6)).1); let t8 = (wadd((w.values[0]), (v7)), ()); let w9 = w.write(ResourceId(0), t8.0); let v10 = t8.1; w9 });
    proof {
        assert forall|cm, w: World<u64>, x: u64, wm: World<u64>, o| #[trigger] c0.rel(&cm, w, x, wm, o)
            implies cm == c0 && wm@ == f(w@, x) by {}
        assert forall|w: World<u64>, x: u64| audit_shape(w) implies #[trigger] c0.pre(w, x) by {}
    }
    let mut i: u64 = 0;
    while i < 64
        invariant
            i <= 64,
            bp.chain == c0,
            bp.input@ == Seq::new(i as nat, |j: int| j as u64),
        decreases 64 - i,
    {
        bp.input_mut().push(i);
        i += 1;
    }
    let ghost items0 = bp.input@;
    let ghost w0 = *world;
    proof {
        lemma_batch_pre(c0, items0, w0, |w: World<u64>| audit_shape(w));
    }
    bp.run(world);
    proof {
        lemma_batch_fold(c0, items0, w0, bp.chain, *world, f);
        assert(items0 =~= Seq::new(64, |i: int| i as u64));
    }
}

/// DAG with nine nodes into `ResA`, over 0..256.
pub fn batch_dag_large(world: &mut World<u64>)
    requires audit_shape(*old(world)),
    ensures final(world)@ == fold_world(Seq::new(256, |i: int| i as u64), old(world)@, (|w: WorldView<u64>, x: u64| { let v1 = wadd((x), 1); let v2 = wmul((v1), 2); let v3 = wadd((v2), 3); let v4 = wmul((v3), (v3)); let v5 = wsub((v4), 10); let v6 = (v5) / 2; let v7 = (v6) ^ 0xDEAD_BEEF; let v8 = wadd((v7), 7); let v9 = wmul((v8), 3); let v10 = wadd((v9), 42); let t11 = (wadd((w.values[0]), (v10)), ()); let w12 = w.write(ResourceId(0), t11.0); let v13 = t11.1; w12 })),
{
    let mut bp = DagStart::new()
        .root(named::<AddOne>())
        .then_step(named_ref::<RefDouble>())
        .then_step(named_ref::<RefAddThree>())
        .then_step(named_ref::<RefSquare>())
        .then_step(named_ref::<RefSubTen>())
        .then_step(named_ref::<RefShrOne>())
        .then_step(named_ref::<RefXorMask>())
        .then_step(named_ref::<RefAddSeven>())
        .then_step(named_ref::<RefTriple>())
        .then_step(named_ref::<RefAddFortyTwo>())
        .then_step(named_ref_res_mut::<RefConsume>(ResourceId(0)))
        .build_batch(256);
    let ghost c0 = bp.chain;
    let ghost f = (|w: WorldView<u64>, x: u64| { let v1 = wadd((x), 1); let v2 = wmul((v1), 2); let v3 = wadd((v2), 3); let v4 = wmul((v3), (v3)); let v5 = wsub((v4), 10); let v6 = (v5) / 2; let v7 = (v6) ^ 0xDEAD_BEEF; let v8 = wadd((v7), 7); let v9 = wmul((v8), 3); let v10 = wadd((v9), 42); let t11 = (wadd((w.values[0]), (v10)), ()); let w12 = w.write(ResourceId(0), t11.0); let v13 = t11.1; w12 });
    proof {
        assert forall|cm, w: World<u64>, x: u64, wm: World<u64>, o| #[trigger] c0.rel(&cm, w, x, wm, o)
            implies cm == c0 && wm@ == f(w@, x) by {}
        assert forall|w: World<u64>, x: u64| audit_shape(w) implies #[trigger] c0.pre(w, x) by {}
    }
    let mut i: u64 = 0;
    while i < 256
        invariant
            i <= 256,
            bp.chain == c0,
            bp.input@ == Seq::new(i as nat, |j: int| j as u64),
        decreases 256 - i,
    {
        bp.input_mut().push(i);
        i += 1;
    }
    let ghost items0 = bp.input@;
    let ghost w0 = *world;
    proof {
        lemma_batch_pre(c0, items0, w0, |w: World<u64>| audit_shape(w));
    }
    bp.run(world);
    proof {
        lemma_batch_fold(c0, items0, w0, bp.chain, *world, f);
        assert(items0 =~= Seq::new(256, |i: int| i as u64));
    }
}

/// Guard, filter, default into `ResA`, over 0..64.
pub fn batch_pipe_guard_filter(world: &mut World<u64>)
    requires audit_shape(*old(world)),
    ensures final(world)@ == fold_world(Seq::new(64, |i: int| i as u64), old(world)@, (|w: WorldView<u64>, x: u64| { let v1 = wadd((x), 1); let v2 = if (v1) > 10 { Some(v1) } else { Option::<u64>::None }; let v3 = match v2 { Some(t) => if (t) < 1000 { Some(t) } else { Option::<u64>::None }, None => Option::<u64>::None }; let v4 = match v3 { Some(t) => t, None => 0u64 }; let t5 = (wadd((w.values[0]), (v4)), ()); let w6 = w.write(ResourceId(0), t5.0); let v7 = t5.1; w6 })),
{
    let mut bp = PipelineStart::new()
        .then_step(named::<AddOne>())
        .guard(named_ref::<GtTen>())
        .filter(named_ref::<LtThousand>())
        .unwrap_or(0)
        .then_step(named_res_mut::<ConsumeVal>(ResourceId(0)))
        .build_batch(64);
    let ghost c0 = bp.chain;
    let ghost f = (|w: WorldView<u64>, x: u64| { let v1 = wadd((x), 1); let v2 = if (v1) > 10 { Some(v1) } else { Option::<u64>::None }; let v3 = match v2 { Some(t) => if (t) < 1000 { Some(t) } else { Option::<u64>::None }, None => Option::<u64>::None }; let v4 = match v3 { Some(t) => t, None => 0u64 }; let t5 = (wadd((w.values[0]), (v4)), ()); let w6 = w.write(ResourceId(0), t5.0); let v7 = t5.1; w6 });
    proof {
        assert forall|cm, w: World<u64>, x: u64, wm: World<u64>, o| #[trigger] c0.rel(&cm, w, x, wm, o)
            implies cm == c0 && wm@ == f(w@, x) by {}
        assert forall|w: World<u64>, x: u64| audit_shape(w) implies #[trigger] c0.pre(w, x) by {}
    }
    let mut i: u64 = 0;
    while i < 64
        invariant
            i <= 64,
            bp.chain == c0,
            bp.input@ == Seq::new(i as nat, |j: int| j as u64),
        decreases 64 - i,
    {
        bp.input_mut().push(i);
        i += 1;
    }
    let ghost items0 = bp.input@;
    let ghost w0 = *world;
    proof {
        lemma_batch_pre(c0, items0, w0, |w: World<u64>| audit_shape(w));
    }
    bp.run(world);
    proof {
        lemma_batch_fold(c0, items0, w0, bp.chain, *world, f);
        assert(items0 =~= Seq::new(64, |i: int| i as u64));
    }
}

/// Guard, to result, catch, default into `ResA`, over 0..64.
pub fn batch_pipe_transition(world: &mut World<u64>)
    requires audit_shape(*old(world)),
    ensures final(world)@ == fold_world(Seq::new(64, |i: int| i as u64), old(world)@, (|w: WorldView<u64>, x: u64| { let v1 = if (x) > 0 { Some(x) } else { Option::<u64>::None }; let v2 = match v1 { Some(t) => Ok::<u64, u32>(t), None => Err::<u64, u32>(0u32) }; let v3 = match v2 { Ok(t) => Some(t), Err(e) => Option::<u64>::None }; let v4 = match v3 { Some(t) => t, None => 0u64 }; let t5 = (wadd((w.values[0]), (v4)), ()); let w6 = w.write(ResourceId(0), t5.0); let v7 = t5.1; w6 })),
{
    let mut bp = PipelineStart::new()
        .then_step(Ident)
        .guard(named_ref::<GtZero>())
        .ok_or(0u32)
        .catch(named::<LogError>())
        .unwrap_or(0)
        .then_step(named_res_mut::<ConsumeVal>(ResourceId(0)))
        .build_batch(64);
    let ghost c0 = bp.chain;
    let ghost f = (|w: WorldView<u64>, x: u64| { let v1 = if (x) > 0 { Some(x) } else { Option::<u64>::None }; let v2 = match v1 { Some(t) => Ok::<u64, u32>(t), None => Err::<u64, u32>(0u32) }; let v3 = match v2 { Ok(t) => Some(t), Err(e) => Option::<u64>::None }; let v4 = match v3 { Some(t) => t, None => 0u64 }; let t5 = (wadd((w.values[0]), (v4)), ()); let w6 = w.write(ResourceId(0), t5.0); let v7 = t5.1; w6 });
    proof {
        assert forall|cm, w: World<u64>, x: u64, wm: World<u64>, o| #[trigger] c0.rel(&cm, w, x, wm, o)
            implies cm == c0 && wm@ == f(w@, x) by {}
        assert forall|w: World<u64>, x: u64| audit_shape(w) implies #[trigger] c0.pre(w, x) by {}
    }
    let mut i: u64 = 0;
    while i < 64
        invariant
            i <= 64,
            bp.chain == c0,
            bp.input@ == Seq::new(i as nat, |j: int| j as u64),
        decreases 64 - i,
    {
        bp.input_mut().push(i);
        i += 1;
    }
    let ghost items0 = bp.input@;
    let ghost w0 = *world;
    proof {
        lemma_batch_pre(c0, items0, w0, |w: World<u64>| audit_shape(w));
    }
    bp.run(world);
    proof {
        lemma_batch_fold(c0, items0, w0, bp.chain, *world, f);
        assert(items0 =~= Seq::new(64, |i: int| i as u64));
    }
}

/// Three-way switch into `ResA`, over 0..64.
pub fn batch_pipe_switch(world: &mut World<u64>)
    requires audit_shape(*old(world)),
    ensures final(world)@ == fold_world(Seq::new(64, |i: int| i as u64), old(world)@, (|w: WorldView<u64>, x: u64| { let v1 = if (x) % 3 == 0 { wmul((x), 2) } else if (x) % 3 == 1 { wadd((x), 10) } else { wsub((x), 5) }; let t2 = (wadd((w.values[0]), (v1)), ()); let w3 = w.write(ResourceId(0), t2.0); let v4 = t2.1; w3 })),
{
    let mut bp = PipelineStart::new()
        .then_step(named::<SwitchThreeWay>())
        .then_step(named_res_mut::<ConsumeVal>(ResourceId(0)))
        .build_batch(64);
    let ghost c0 = bp.chain;
    let ghost f = (|w: WorldView<u64>, x: u64| { let v1 = if (x) % 3 == 0 { wmul((x), 2) } else if (x) % 3 == 1 { wadd((x), 10) } else { wsub((x), 5) }; let t2 = (wadd((w.values[0]), (v1)), ()); let w3 = w.write(ResourceId(0), t2.0); let v4 = t2.1; w3 });
    proof {
        assert forall|cm, w: World<u64>, x: u64, wm: World<u64>, o| #[trigger] c0.rel(&cm, w, x, wm, o)
            implies cm == c0 && wm@ == f(w@, x) by {}
        assert forall|w: World<u64>, x: u64| audit_shape(w) implies #[trigger] c0.pre(w, x) by {}
    }
    let mut i: u64 = 0;
    while i < 64
        invariant
            i <= 64,
            bp.chain == c0,
            bp.input@ == Seq::new(i as nat, |j: int| j as u64),
        decreases 64 - i,
    {
        bp.input_mut().push(i);
        i += 1;
    }
    let ghost items0 = bp.input@;
    let ghost w0 = *world;
    proof {
        lemma_batch_pre(c0, items0, w0, |w: World<u64>| audit_shape(w));
    }
    bp.run(world);
    proof {
        lemma_batch_fold(c0, items0, w0, bp.chain, *world, f);
        assert(items0 =~= Seq::new(64, |i: int| i as u64));
    }
}

/// Two batches over 0..64 through the same pipeline.
pub fn batch_pipe_buffer_reuse(world: &mut World<u64>)
    requires audit_shape(*old(world)),
    ensures final(world)@ == fold_world(Seq::new(64, |i: int| i as u64), fold_world(Seq::new(64, |i: int| i as u64), old(world)@, (|w: WorldView<u64>, x: u64| { let v1 = wadd((x), 1); let v2 = wmul((v1), 2); let t3 = (wadd((w.values[0]), (v2)), ()); let w4 = w.write(ResourceId(0), t3.0); let v5 = t3.1; w4 })), (|w: WorldView<u64>, x: u64| { let v1 = wadd((x), 1); let v2 = wmul((v1), 2); let t3 = (wadd((w.values[0]), (v2)), ()); let w4 = w.write(ResourceId(0), t3.0); let v5 = t3.1; w4 })),
{
    let mut bp = PipelineStart::new()
        .then_step(named::<AddOne>())
        .then_step(named::<Double>())
        .then_step(named_res_mut::<ConsumeVal>(ResourceId(0)))
        .build_batch(64);
    let ghost c0 = bp.chain;
    let ghost f = (|w: WorldView<u64>, x: u64| { let v1 = wadd((x), 1); let v2 = wmul((v1), 2); let t3 = (wadd((w.values[0]), (v2)), ()); let w4 = w.write(ResourceId(0), t3.0); let v5 = t3.1; w4 });
    proof {
        assert forall|cm, w: World<u64>, x: u64, wm: World<u64>, o| #[trigger] c0.rel(&cm, w, x, wm, o)
            implies cm == c0 && wm@ == f(w@, x) by {}
        assert forall|w: World<u64>, x: u64| audit_shape(w) implies #[trigger] c0.pre(w, x) by {}
    }
    let mut i: u64 = 0;
    while i < 64
        invariant
            i <= 64,
            bp.chain == c0,
            bp.input@ == Seq::new(i as nat, |j: int| j as u64),
        decreases 64 - i,
    {
        bp.input_mut().push(i);
        i += 1;
    }
    let ghost items0 = bp.input@;
    let ghost w0 = *world;
    proof {
        lemma_batch_pre(c0, items0, w0, |w: World<u64>| audit_shape(w));
    }
    bp.run(world);
    proof {
        lemma_batch_fold(c0, items0, w0, bp.chain, *world, f);
        assert(items0 =~= Seq::new(64, |i: int| i as u64));
    }
    let mut i: u64 = 0;
    while i < 64
        invariant
            i <= 64,
            bp.chain == c0,
            bp.input@ == Seq::new(i as nat, |j: int| j as u64),
        decreases 64 - i,
    {
        bp.input_mut().push(i);
        i += 1;
    }
    let ghost items1 = bp.input@;
    let ghost w1 = *world;
    proof {
        lemma_batch_pre(c0, items1, w1, |w: World<u64>| audit_shape(w));
    }
    bp.run(world);
    proof {
        lemma_batch_fold(c0, items1, w1, bp.chain, *world, f);
        assert(items1 =~= Seq::new(64, |i: int| i as u64));
    }
}

/// An empty batch.
pub fn batch_pipe_empty(world: &mut World<u64>)
    requires audit_shape(*old(world)),
    ensures final(world)@ == fold_world(Seq::<u64>::empty(), old(world)@, (|w: WorldView<u64>, x: u64| { let v1 = wadd((x), 1); let v2 = wmul((v1), 2); let v3 = wadd((v2), 3); let t4 = (wadd((w.values[0]), (v3)), ()); let w5 = w.write(ResourceId(0), t4.0); let v6 = t4.1; w5 })),
{
    let mut bp = PipelineStart::new()
        .then_step(named::<AddOne>())
        .then_step(named::<Double>())
        .then_step(named::<AddThree>())
        .then_step(named_res_mut::<ConsumeVal>(ResourceId(0)))
        .build_batch(64);
    let ghost c0 = bp.chain;
    let ghost f = (|w: WorldView<u64>, x: u64| { let v1 = wadd((x), 1); let v2 = wmul((v1), 2); let v3 = wadd((v2), 3); let t4 = (wadd((w.values[0]), (v3)), ()); let w5 = w.write(ResourceId(0), t4.0); let v6 = t4.1; w5 });
    proof {
        assert forall|cm, w: World<u64>, x: u64, wm: World<u64>, o| #[trigger] c0.rel(&cm, w, x, wm, o)
            implies cm == c0 && wm@ == f(w@, x) by {}
        assert forall|w: World<u64>, x: u64| audit_shape(w) implies #[trigger] c0.pre(w, x) by {}
    }
    let ghost items0 = bp.input@;
    let ghost w0 = *world;
    proof {
        lemma_batch_pre(c0, items0, w0, |w: World<u64>| audit_shape(w));
    }
    bp.run(world);
    proof {
        lemma_batch_fold(c0, items0, w0, bp.chain, *world, f);
        assert(items0 =~= Seq::<u64>::empty());
    }
}

/// A batch of the single input 42.
pub fn batch_pipe_single_item(world: &mut World<u64>)
    requires audit_shape(*old(world)),
    ensures final(world)@ == fold_world(seq![42u64], old(world)@, (|w: WorldView<u64>, x: u64| { let v1 = wadd((x), 1); let v2 = wmul((v1), 2); let t3 = (wadd((w.values[0]), (v2)), ()); let w4 = w.write(ResourceId(0), t3.0); let v5 = t3.1; w4 })),
{
    let mut bp = PipelineStart::new()
        .then_step(named::<AddOne>())
        .then_step(named::<Double>())
        .then_step(named_res_mut::<ConsumeVal>(ResourceId(0)))
        .build_batch(64);
    let ghost c0 = bp.chain;
    let ghost f = (|w: WorldView<u64>, x: u64| { let v1 = wadd((x), 1); let v2 = wmul((v1), 2); let t3 = (wadd((w.values[0]), (v2)), ()); let w4 = w.write(ResourceId(0), t3.0); let v5 = t3.1; w4 });
    proof {
        assert forall|cm, w: World<u64>, x: u64, wm: World<u64>, o| #[trigger] c0.rel(&cm, w, x, wm, o)
            implies cm == c0 && wm@ == f(w@, x) by {}
        assert forall|w: World<u64>, x: u64| audit_shape(w) implies #[trigger] c0.pre(w, x) by {}
    }
    bp.input_mut().push(42);
    let ghost items0 = bp.input@;
    let ghost w0 = *world;
    proof {
        lemma_batch_pre(c0, items0, w0, |w: World<u64>| audit_shape(w));
    }
    bp.run(world);
    proof {
        lemma_batch_fold(c0, items0, w0, bp.chain, *world, f);
        assert(items0 =~= seq![42u64]);
    }
}

/// Inputs added into `ResA` unchanged, over 0..64.
pub fn batch_pipe_drain_codegen(world: &mut World<u64>)
    requires audit_shape(*old(world)),
    ensures final(world)@ == fold_world(Seq::new(64, |i: int| i as u64), old(world)@, (|w: WorldView<u64>, x: u64| { let t1 = (wadd((w.values[0]), (x)), ()); let w2 = w.write(ResourceId(0), t1.0); let v3 = t1.1; w2 })),
{
    let mut bp = PipelineStart::new()
        .then_step(Ident)
        .then_step(named_res_mut::<ConsumeVal>(ResourceId(0)))
        .build_batch(64);
    let ghost c0 = bp.chain;
    let ghost f = (|w: WorldView<u64>, x: u64| { let t1 = (wadd((w.values[0]), (x)), ()); let w2 = w.write(ResourceId(0), t1.0); let v3 = t1.1; w2 });
    proof {
        assert forall|cm, w: World<u64>, x: u64, wm: World<u64>, o| #[trigger] c0.rel(&cm, w, x, wm, o)
            implies cm == c0 && wm@ == f(w@, x) by {}
        assert forall|w: World<u64>, x: u64| audit_shape(w) implies #[trigger] c0.pre(w, x) by {}
    }
    let mut i: u64 = 0;
    while i < 64
        invariant
            i <= 64,
            bp.chain == c0,
            bp.input@ == Seq::new(i as nat, |j: int| j as u64),
        decreases 64 - i,
    {
        bp.input_mut().push(i);
        i += 1;
    }
    let ghost items0 = bp.input@;
    let ghost w0 = *world;
    proof {
        lemma_batch_pre(c0, items0, w0, |w: World<u64>| audit_shape(w));
    }
    bp.run(world);
    proof {
        lemma_batch_fold(c0, items0, w0, bp.chain, *world, f);
        assert(items0 =~= Seq::new(64, |i: int| i as u64));
    }
}

/// DAG four-arm fork into `ResA`, over 0..64.
pub fn batch_dag_fork4(world: &mut World<u64>)
    requires audit_shape(*old(world)),
    ensures final(world)@ == fold_world(Seq::new(64, |i: int| i as u64), old(world)@, (|w: WorldView<u64>, x: u64| { let v1 = wadd((x), 1); let v2 = wmul((v1), 2); let v3 = wmul((v1), 3); let v4 = wadd((v1), 7); let v5 = (v1) ^ 0xDEAD_BEEF; let v6 = wadd(wadd(wadd(((v2, v3, v4, v5)).0, ((v2, v3, v4, v5)).1), ((v2, v3, v4, v5)).2), ((v2, v3, v4, v5)).3); let t7 = (wadd((w.values[0]), (v6)), ()); let w8 = w.write(ResourceId(0), t7.0); let v9 = t7.1; w8 })),
{
    let mut bp = DagStart::new()
        .root(named::<AddOne>())
        .fork()
        .arm(DagArmStart::new().then_step(named_ref::<RefDouble>()))
        .arm(DagArmStart::new().then_step(named_ref::<RefTriple>()))
        .arm(DagArmStart::new().then_step(named_ref::<RefAddSeven>()))
        .arm(DagArmStart::new().then_step(named_ref::<RefXorMask>()))
        .merge(named_ref::<MergeFour>())
        .then_step(named_ref_res_mut::<RefConsume>(ResourceId(0)))
        .build_batch(64);
    let ghost c0 = bp.chain;
    let ghost f = (|w: WorldView<u64>, x: u64| { let v1 = wadd((x), 1); let v2 = wmul((v1), 2); let v3 = wmul((v1), 3); let v4 = wadd((v1), 7); let v5 = (v1) ^ 0xDEAD_BEEF; let v6 = wadd(wadd(wadd(((v2, v3, v4, v5)).0, ((v2, v3, v4, v5)).1), ((v2, v3, v4, v5)).2), ((v2, v3, v4, v5)).3); let t7 = (wadd((w.values[0]), (v6)), ()); let w8 = w.write(ResourceId(0), t7.0); let v9 = t7.1; w8 });
    proof {
        assert forall|cm, w: World<u64>, x: u64, wm: World<u64>, o| #[trigger] c0.rel(&cm, w, x, wm, o)
            implies cm == c0 && wm@ == f(w@, x) by {}
        assert forall|w: World<u64>, x: u64| audit_shape(w) implies #[trigger] c0.pre(w, x) by {}
    }
    let mut i: u64 = 0;
    while i < 64
        invariant
            i <= 64,
            bp.chain == c0,
            bp.input@ == Seq::new(i as nat, |j: int| j as u64),
        decreases 64 - i,
    {
        bp.input_mut().push(i);
        i += 1;
    }
    let ghost items0 = bp.input@;
    let ghost w0 = *world;
    proof {
        lemma_batch_pre(c0, items0, w0, |w: World<u64>| audit_shape(w));
    }
    bp.run(world);
    proof {
        lemma_batch_fold(c0, items0, w0, bp.chain, *world, f);
        assert(items0 =~= Seq::new(64, |i: int| i as u64));
    }
}

/// DAG nested fork into `ResA`, over 0..64.
pub fn batch_dag_nested_fork(world: &mut World<u64>)
    requires audit_shape(*old(world)),
    ensures final(world)@ == fold_world(Seq::new(64, |i: int| i as u64), old(world)@, (|w: WorldView<u64>, x: u64| { let v1 = wadd((x), 1); let v2 = wmul((v1), 2); let v3 = wadd((v2), 1); let v4 = wmul((v2), 3); let v5 = wadd(((v3, v4)).0, ((v3, v4)).1); let v6 = wadd((v1), 7); let v7 = wadd(((v5, v6)).0, ((v5, v6)).1); let t8 = (wadd((w.values[0]), (v7)), ()); let w9 = w.write(ResourceId(0), t8.0); let v10 = t8.1; w9 })),
{
    let mut bp = DagStart::new()
        .root(named::<AddOne>())
        .fork()
        .arm(DagArmStart::new().then_step(named_ref::<RefDouble>()).fork().arm(DagArmStart::new().then_step(named_ref::<RefAddOne>())).arm(DagArmStart::new().then_step(named_ref::<RefTriple>())).merge(named_ref::<MergeAdd>()))
        .arm(DagArmStart::new().then_step(named_ref::<RefAddSeven>()))
        .merge(named_ref::<MergeAdd>())
        .then_step(named_ref_res_mut::<RefConsume>(ResourceId(0)))
        .build_batch(64);
    let ghost c0 = bp.chain;
    let ghost f = (|w: WorldView<u64>, x: u64| { let v1 = wadd((x), 1); let v2 = wmul((v1), 2); let v3 = wadd((v2), 1); let v4 = wmul((v2), 3); let v5 = wadd(((v3, v4)).0, ((v3, v4)).1); let v6 = wadd((v1), 7); let v7 = wadd(((v5, v6)).0, ((v5, v6)).1); let t8 = (wadd((w.values[0]), (v7)), ()); let w9 = w.write(ResourceId(0), t8.0); let v10 = t8.1; w9 });
    proof {
        assert forall|cm, w: World<u64>, x: u64, wm: World<u64>, o| #[trigger] c0.rel(&cm, w, x, wm, o)
            implies cm == c0 && wm@ == f(w@, x) by {}
        assert forall|w: World<u64>, x: u64| audit_shape(w) implies #[trigger] c0.pre(w, x) by {}
    }
    let mut i: u64 = 0;
    while i < 64
        invariant
            i <= 64,
            bp.chain == c0,
            bp.input@ == Seq::new(i as nat, |j: int| j as u64),
        decreases 64 - i,
    {
        bp.input_mut().push(i);
        i += 1;
    }
    let ghost items0 = bp.input@;
    let ghost w0 = *world;
    proof {
        lemma_batch_pre(c0, items0, w0, |w: World<u64>| audit_shape(w));
    }
    bp.run(world);
    proof {
        lemma_batch_fold(c0, items0, w0, bp.chain, *world, f);
        assert(items0 =~= Seq::new(64, |i: int| i as u64));
    }
}

/// DAG option chain into `ResA`, over 0..64.
pub fn batch_dag_option_chain(world: &mut World<u64>)
    requires audit_shape(*old(world)),
    ensures final(world)@ == fold_world(Seq::new(64, |i: int| i as u64), old(world)@, (|w: WorldView<u64>, x: u64| { let v1 = if (x) > 0 { Some((x)) } else { Option::<u64>::None }; let v2 = match v1 { Some(t) => Some(wmul((t), 2)), None => Option::<u64>::None }; let v3 = match v2 { Some(t) => if (t) < 1000 { Some(t) } else { Option::<u64>::None }, None => Option::<u64>::None }; let v4 = match v3 { Some(t) => t, None => 0u64 }; let t5 = (wadd((w.values[0]), (v4)), ()); let w6 = w.write(ResourceId(0), t5.0); let v7 = t5.1; w6 })),
{
    let mut bp = DagStart::new()
        .root(named::<MaybePositive>())
        .map(named_ref::<RefDouble>())
        .filter(named_ref::<LtThousand>())
        .unwrap_or(0)
        .then_step(named_ref_res_mut::<RefConsume>(ResourceId(0)))
        .build_batch(64);
    let ghost c0 = bp.chain;
    let ghost f = (|w: WorldView<u64>, x: u64| { let v1 = if (x) > 0 { Some((x)) } else { Option::<u64>::None }; let v2 = match v1 { Some(t) => Some(wmul((t), 2)), None => Option::<u64>::None }; let v3 = match v2 { Some(t) => if (t) < 1000 { Some(t) } else { Option::<u64>::None }, None => Option::<u64>::None }; let v4 = match v3 { Some(t) => t, None => 0u64 }; let t5 = (wadd((w.values[0]), (v4)), ()); let w6 = w.write(ResourceId(0), t5.0); let v7 = t5.1; w6 });
    proof {
        assert forall|cm, w: World<u64>, x: u64, wm: World<u64>, o| #[trigger] c0.rel(&cm, w, x, wm, o)
            implies cm == c0 && wm@ == f(w@, x) by {}
        assert forall|w: World<u64>, x: u64| audit_shape(w) implies #[trigger] c0.pre(w, x) by {}
    }
    let mut i: u64 = 0;
    while i < 64
        invariant
            i <= 64,
            bp.chain == c0,
            bp.input@ == Seq::new(i as nat, |j: int| j as u64),
        decreases 64 - i,
    {
        bp.input_mut().push(i);
        i += 1;
    }
    let ghost items0 = bp.input@;
    let ghost w0 = *world;
    proof {
        lemma_batch_pre(c0, items0, w0, |w: World<u64>| audit_shape(w));
    }
    bp.run(world);
    proof {
        lemma_batch_fold(c0, items0, w0, bp.chain, *world, f);
        assert(items0 =~= Seq::new(64, |i: int| i as u64));
    }
}

/// DAG result chain into `ResA`, over 0..64.
pub fn batch_dag_result_chain(world: &mut World<u64>)
    requires audit_shape(*old(world)),
    ensures final(world)@ == fold_world(Seq::new(64, |i: int| i as u64), old(world)@, (|w: WorldView<u64>, x: u64| { let v1 = if (x) < 10_000 { Ok::<u64, u32>(wmul((x), 2)) } else { Err::<u64, u32>((x) as u32) }; let v2 = match v1 { Ok(t) => Ok::<u64, u32>(wmul((t), 2)), Err(e) => Err::<u64, u32>(e) }; let v3 = match v2 { Ok(t) => t, Err(e) => 0u64 }; let t4 = (wadd((w.values[0]), (v3)), ()); let w5 = w.write(ResourceId(0), t4.0); let v6 = t4.1; w5 })),
{
    let mut bp = DagStart::new()
        .root(named::<TryParse>())
        .map(named_ref::<RefDouble>())
        .unwrap_or(0)
        .then_step(named_ref_res_mut::<RefConsume>(ResourceId(0)))
        .build_batch(64);
    let ghost c0 = bp.chain;
    let ghost f = (|w: WorldView<u64>, x: u64| { let v1 = if (x) < 10_000 { Ok::<u64, u32>(wmul((x), 2)) } else { Err::<u64, u32>((x) as u32) }; let v2 = match v1 { Ok(t) => Ok::<u64, u32>(wmul((t), 2)), Err(e) => Err::<u64, u32>(e) }; let v3 = match v2 { Ok(t) => t, Err(e) => 0u64 }; let t4 = (wadd((w.values[0]), (v3)), ()); let w5 = w.write(ResourceId(0), t4.0); let v6 = t4.1; w5 });
    proof {
        assert forall|cm, w: World<u64>, x: u64, wm: World<u64>, o| #[trigger] c0.rel(&cm, w, x, wm, o)
            implies cm == c0 && wm@ == f(w@, x) by {}
        assert forall|w: World<u64>, x: u64| audit_shape(w) implies #[trigger] c0.pre(w, x) by {}
    }
    let mut i: u64 = 0;
    while i < 64
        invariant
            i <= 64,
            bp.chain == c0,
            bp.input@ == Seq::new(i as nat, |j: int| j as u64),
        decreases 64 - i,
    {
        bp.input_mut().push(i);
        i += 1;
    }
    let ghost items0 = bp.input@;
    let ghost w0 = *world;
    proof {
        lemma_batch_pre(c0, items0, w0, |w: World<u64>| audit_shape(w));
    }
    bp.run(world);
    proof {
        lemma_batch_fold(c0, items0, w0, bp.chain, *world, f);
        assert(items0 =~= Seq::new(64, |i: int| i as u64));
    }
}

/// DAG route into `ResA`, over 0..64.
pub fn batch_dag_route(world: &mut World<u64>)
    requires audit_shape(*old(world)),
    ensures final(world)@ == fold_world(Seq::new(64, |i: int| i as u64), old(world)@, (|w: WorldView<u64>, x: u64| { let v1 = wadd((x), 1); let v2 = wmul((v1), 2); let v3 = wadd((v1), 1); let v4 = if (v1) > 32 { v2 } else { v3 }; let t5 = (wadd((w.values[0]), (v4)), ()); let w6 = w.write(ResourceId(0), t5.0); let v7 = t5.1; w6 })),
{
    let mut bp = DagStart::new()
        .root(named::<AddOne>())
        .route(named_ref::<GtThirtyTwo>(), DagArmStart::<u64, u64>::new().then_step(named_ref::<RefDouble>()).chain, DagArmStart::<u64, u64>::new().then_step(named_ref::<RefAddOne>()).chain)
        .then_step(named_ref_res_mut::<RefConsume>(ResourceId(0)))
        .build_batch(64);
    let ghost c0 = bp.chain;
    let ghost f = (|w: WorldView<u64>, x: u64| { let v1 = wadd((x), 1); let v2 = wmul((v1), 2); let v3 = wadd((v1), 1); let v4 = if (v1) > 32 { v2 } else { v3 }; let t5 = (wadd((w.values[0]), (v4)), ()); let w6 = w.write(ResourceId(0), t5.0); let v7 = t5.1; w6 });
    proof {
        assert forall|cm, w: World<u64>, x: u64, wm: World<u64>, o| #[trigger] c0.rel(&cm, w, x, wm, o)
            implies cm == c0 && wm@ == f(w@, x) by {}
        assert forall|w: World<u64>, x: u64| audit_shape(w) implies #[trigger] c0.pre(w, x) by {}
    }
    let mut i: u64 = 0;
    while i < 64
        invariant
            i <= 64,
            bp.chain == c0,
            bp.input@ == Seq::new(i as nat, |j: int| j as u64),
        decreases 64 - i,
    {
        bp.input_mut().push(i);
        i += 1;
    }
    let ghost items0 = bp.input@;
    let ghost w0 = *world;
    proof {
        lemma_batch_pre(c0, items0, w0, |w: World<u64>| audit_shape(w));
    }
    bp.run(world);
    proof {
        lemma_batch_fold(c0, items0, w0, bp.chain, *world, f);
        assert(items0 =~= Seq::new(64, |i: int| i as u64));
    }
}

/// DAG split and add into `ResA`, over 0..64.
pub fn batch_dag_splat(world: &mut World<u64>)
    requires audit_shape(*old(world)),
    ensures final(world)@ == fold_world(Seq::new(64, |i: int| i as u64), old(world)@, (|w: WorldView<u64>, x: u64| { let v1 = ((x) as u32, ((x) >> 32) as u32); let v2 = ((v1).0 + (v1).1) as u64; let t3 = (wadd((w.values[0]), (v2)), ()); let w4 = w.write(ResourceId(0), t3.0); let v5 = t3.1; w4 })),
{
    let mut bp = DagStart::new()
        .root(named::<SplitU64>())
        .then_step(named_ref::<RefSplatAdd>())
        .then_step(named_ref_res_mut::<RefConsume>(ResourceId(0)))
        .build_batch(64);
    let ghost c0 = bp.chain;
    let ghost f = (|w: WorldView<u64>, x: u64| { let v1 = ((x) as u32, ((x) >> 32) as u32); let v2 = ((v1).0 + (v1).1) as u64; let t3 = (wadd((w.values[0]), (v2)), ()); let w4 = w.write(ResourceId(0), t3.0); let v5 = t3.1; w4 });
    proof {
        assert forall|cm, w: World<u64>, x: u64, wm: World<u64>, o| #[trigger] c0.rel(&cm, w, x, wm, o)
            implies cm == c0 && wm@ == f(w@, x) by {}
        assert forall|w: World<u64>, x: u64| audit_shape(w) implies #[trigger] c0.pre(w, x) by {}
    }
    let mut i: u64 = 0;
    while i < 64
        invariant
            i <= 64,
            bp.chain == c0,
            bp.input@ == Seq::new(i as nat, |j: int| j as u64),
        decreases 64 - i,
    {
        bp.input_mut().push(i);
        i += 1;
    }
    let ghost items0 = bp.input@;
    let ghost w0 = *world;
    proof {
        lemma_batch_pre(c0, items0, w0, |w: World<u64>| audit_shape(w));
    }
    bp.run(world);
    proof {
        lemma_batch_fold(c0, items0, w0, bp.chain, *world, f);
        assert(items0 =~= Seq::new(64, |i: int| i as u64));
    }
}

/// DAG four five-node arms into `ResA`, over 0..64.
pub fn batch_dag_heavy(world: &mut World<u64>)
    requires audit_shape(*old(world)),
    ensures final(world)@ == fold_world(Seq::new(64, |i: int| i as u64), old(world)@, (|w: WorldView<u64>, x: u64| { let v1 = wadd((x), 1); let v2 = wmul((v1), 2); let v3 = wadd((v2), 3); let v4 = wmul((v3), (v3)); let v5 = wsub((v4), 10); let v6 = (v5) / 2; let v7 = wadd((v1), 1); let v8 = wmul((v7), 3); let v9 = (v8) ^ 0xDEAD_BEEF; let v10 = wadd((v9), 7); let v11 = wadd((v10), 42); let v12 = wmul((v1), 3); let v13 = wadd((v12), 3); let v14 = wmul((v13), 2); let v15 = wmul((v14), (v14)); let v16 = wadd((v15), 1); let v17 = (v1) ^ 0xDEAD_BEEF; let v18 = (v17) / 2; let v19 = wadd((v18), 7); let v20 = wmul((v19), 3); let v21 = wsub((v20), 10); let v22 = wadd(wadd(wadd(((v6, v11, v16, v21)).0, ((v6, v11, v16, v21)).1), ((v6, v11, v16, v21)).2), ((v6, v11, v16, v21)).3); let t23 = (wadd((w.values[0]), (v22)), ()); let w24 = w.write(ResourceId(0), t23.0); let v25 = t23.1; w24 })),
{
    let mut bp = DagStart::new()
        .root(named::<AddOne>())
        .fork()
        .arm(DagArmStart::new().then_step(named_ref::<RefDouble>()).then_step(named_ref::<RefAddThree>()).then_step(named_ref::<RefSquare>()).then_step(named_ref::<RefSubTen>()).then_step(named_ref::<RefShrOne>()))
        .arm(DagArmStart::new().then_step(named_ref::<RefAddOne>()).then_step(named_ref::<RefTriple>()).then_step(named_ref::<RefXorMask>()).then_step(named_ref::<RefAddSeven>()).then_step(named_ref::<RefAddFortyTwo>()))
        .arm(DagArmStart::new().then_step(named_ref::<RefTriple>()).then_step(named_ref::<RefAddThree>()).then_step(named_ref::<RefDouble>()).then_step(named_ref::<RefSquare>()).then_step(named_ref::<RefAddOne>()))
        .arm(DagArmStart::new().then_step(named_ref::<RefXorMask>()).then_step(named_ref::<RefShrOne>()).then_step(named_ref::<RefAddSeven>()).then_step(named_ref::<RefTriple>()).then_step(named_ref::<RefSubTen>()))
        .merge(named_ref::<MergeFour>())
        .then_step(named_ref_res_mut::<RefConsume>(ResourceId(0)))
        .build_batch(64);
    let ghost c0 = bp.chain;
    let ghost f = (|w: WorldView<u64>, x: u64| { let v1 = wadd((x), 1); let v2 = wmul((v1), 2); let v3 = wadd((v2), 3); let v4 = wmul((v3), (v3)); let v5 = wsub((v4), 10); let v6 = (v5) / 2; let v7 = wadd((v1), 1); let v8 = wmul((v7), 3); let v9 = (v8) ^ 0xDEAD_BEEF; let v10 = wadd((v9), 7); let v11 = wadd((v10), 42); let v12 = wmul((v1), 3); let v13 = wadd((v12), 3); let v14 = wmul((v13), 2); let v15 = wmul((v14), (v14)); let v16 = wadd((v15), 1); let v17 = (v1) ^ 0xDEAD_BEEF; let v18 = (v17) / 2; let v19 = wadd((v18), 7); let v20 = wmul((v19), 3); let v21 = wsub((v20), 10); let v22 = wadd(wadd(wadd(((v6, v11, v16, v21)).0, ((v6, v11, v16, v21)).1), ((v6, v11, v16, v21)).2), ((v6, v11, v16, v21)).3); let t23 = (wadd((w.values[0]), (v22)), ()); let w24 = w.write(ResourceId(0), t23.0); let v25 = t23.1; w24 });
    proof {
        assert forall|cm, w: World<u64>, x: u64, wm: World<u64>, o| #[trigger] c0.rel(&cm, w, x, wm, o)
            implies cm == c0 && wm@ == f(w@, x) by {}
        assert forall|w: World<u64>, x: u64| audit_shape(w) implies #[trigger] c0.pre(w, x) by {}
    }
    let mut i: u64 = 0;
    while i < 64
        invariant
            i <= 64,
            bp.chain == c0,
            bp.input@ == Seq::new(i as nat, |j: int| j as u64),
        decreases 64 - i,
    {
        bp.input_mut().push(i);
        i += 1;
    }
    let ghost items0 = bp.input@;
    let ghost w0 = *world;
    proof {
        lemma_batch_pre(c0, items0, w0, |w: World<u64>| audit_shape(w));
    }
    bp.run(world);
    proof {
        lemma_batch_fold(c0, items0, w0, bp.chain, *world, f);
        assert(items0 =~= Seq::new(64, |i: int| i as u64));
    }
}

} // verus!
