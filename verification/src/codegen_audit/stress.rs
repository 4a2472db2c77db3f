//! Stress audit cases: long chains, deep nesting and wide forks.
use vstd::prelude::*;
use crate::world::{World, WorldView, ResourceId};
use crate::step::{NamedResMut, Named, PureFn, named, named_ref, named_res, named_res_mut, named_read, named_ref_res, named_ref_res_mut, named_ref_read, Step};
use crate::pipeline::{Then, Dedup, OptMap, OptUnwrapOr, PipelineStart, Ident, fold_world, lemma_batch_fold, lemma_batch_pre, lemma_batch_fold_inv, lemma_batch_pre_inv, pure_chain, lemma_named_pure_chain, lemma_then_pure_chain};
use crate::dag::{DagStart, DagArmStart};
use crate::handler::into_handler;
use super::helpers::{MakeLarge, TouchLarge, first_byte, AddFortyTwo, AddOne, AddSeven, AddThree, ConsumeVal, Double, IsEven, RefAddFortyTwo, RefAddOne, RefAddSeven, RefAddThree, RefConsume, RefDouble, RefShrOne, RefSquare, RefSubTen, RefTriple, RefXorMask, ShrOne, SplitU64, Square, SubTen, Triple, XorMask, wadd, wmul, wsub, lin10, audit_shape};
use super::preds::{BoolToHundred, GtFifty, GtFive, GtForty, GtHundred, GtOne, GtSixty, GtTen, GtThirty, GtTwenty, GtZero, LogError, LtFiftyThousand, LtHundredThousand, LtTenThousand, MergeAdd, MergeFour, MergeThree, No, Nothing, Observe, ObserveErr, SameCode, SplatAdd, Yes, Zero};

verus! {


/// Fifty pure steps.
#[verifier::rlimit(100)]
#[verifier::spinoff_prover]
pub fn stress_pipe_50_steps(world: &mut World<u64>, input: u64) -> (r: u64)
    ensures r == lin10(lin10(lin10(lin10(lin10(input))))), *final(world) == *old(world),
{
    let mut p = PipelineStart::new()
        .then_step(named::<AddOne>())
        .then_step(named::<Double>())
        .then_step(named::<AddThree>())
        .then_step(named::<Square>())
        .then_step(named::<SubTen>())
        .then_step(named::<ShrOne>())
        .then_step(named::<XorMask>())
        .then_step(named::<AddSeven>())
        .then_step(named::<Triple>())
        .then_step(named::<AddFortyTwo>())
        .then_step(named::<AddOne>())
        .then_step(named::<Double>())
        .then_step(named::<AddThree>())
        .then_step(named::<Square>())
        .then_step(named::<SubTen>())
        .then_step(named::<ShrOne>())
        .then_step(named::<XorMask>())
        .then_step(named::<AddSeven>())
        .then_step(named::<Triple>())
        .then_step(named::<AddFortyTwo>())
        .then_step(named::<AddOne>())
        .then_step(named::<Double>())
        .then_step(named::<AddThree>())
        .then_step(named::<Square>())
        .then_step(named::<SubTen>())
        .then_step(named::<ShrOne>())
        .then_step(named::<XorMask>())
        .then_step(named::<AddSeven>())
        .then_step(named::<Triple>())
        .then_step(named::<AddFortyTwo>())
        .then_step(named::<AddOne>())
        .then_step(named::<Double>())
        .then_step(named::<AddThree>())
        .then_step(named::<Square>())
        .then_step(named::<SubTen>())
        .then_step(named::<ShrOne>())
        .then_step(named::<XorMask>())
        .then_step(named::<AddSeven>())
        .then_step(named::<Triple>())
        .then_step(named::<AddFortyTwo>())
        .then_step(named::<AddOne>())
        .then_step(named::<Double>())
        .then_step(named::<AddThree>())
        .then_step(named::<Square>())
        .then_step(named::<SubTen>())
        .then_step(named::<ShrOne>())
        .then_step(named::<XorMask>())
        .then_step(named::<AddSeven>())
        .then_step(named::<Triple>())
        .then_step(named::<AddFortyTwo>());
    proof {
        let f0 = |x: u64| x;
        assert(pure_chain::<u64, u64, u64, Ident>(p.chain.a.a.a.a.a.a.a.a.a.a.a.a.a.a.a.a.a.a.a.a.a.a.a.a.a.a.a.a.a.a.a.a.a.a.a.a.a.a.a.a.a.a.a.a.a.a.a.a.a.a, f0));
        let f = f0;
        lemma_named_pure_chain::<u64, u64, u64, AddOne>(p.chain.a.a.a.a.a.a.a.a.a.a.a.a.a.a.a.a.a.a.a.a.a.a.a.a.a.a.a.a.a.a.a.a.a.a.a.a.a.a.a.a.a.a.a.a.a.a.a.a.a.b);
        let f = lemma_then_pure_chain::<u64, u64, u64, u64, _, Named<AddOne>>(p.chain.a.a.a.a.a.a.a.a.a.a.a.a.a.a.a.a.a.a.a.a.a.a.a.a.a.a.a.a.a.a.a.a.a.a.a.a.a.a.a.a.a.a.a.a.a.a.a.a.a, f, |x: u64| <AddOne as PureFn<u64, u64>>::pure_spec(x));
        lemma_named_pure_chain::<u64, u64, u64, Double>(p.chain.a.a.a.a.a.a.a.a.a.a.a.a.a.a.a.a.a.a.a.a.a.a.a.a.a.a.a.a.a.a.a.a.a.a.a.a.a.a.a.a.a.a.a.a.a.a.a.a.b);
        let f = lemma_then_pure_chain::<u64, u64, u64, u64, _, Named<Double>>(p.chain.a.a.a.a.a.a.a.a.a.a.a.a.a.a.a.a.a.a.a.a.a.a.a.a.a.a.a.a.a.a.a.a.a.a.a.a.a.a.a.a.a.a.a.a.a.a.a.a, f, |x: u64| <Double as PureFn<u64, u64>>::pure_spec(x));
        lemma_named_pure_chain::<u64, u64, u64, AddThree>(p.chain.a.a.a.a.a.a.a.a.a.a.a.a.a.a.a.a.a.a.a.a.a.a.a.a.a.a.a.a.a.a.a.a.a.a.a.a.a.a.a.a.a.a.a.a.a.a.a.b);
        let f = lemma_then_pure_chain::<u64, u64, u64, u64, _, Named<AddThree>>(p.chain.a.a.a.a.a.a.a.a.a.a.a.a.a.a.a.a.a.a.a.a.a.a.a.a.a.a.a.a.a.a.a.a.a.a.a.a.a.a.a.a.a.a.a.a.a.a.a, f, |x: u64| <AddThree as PureFn<u64, u64>>::pure_spec(x));
        lemma_named_pure_chain::<u64, u64, u64, Square>(p.chain.a.a.a.a.a.a.a.a.a.a.a.a.a.a.a.a.a.a.a.a.a.a.a.a.a.a.a.a.a.a.a.a.a.a.a.a.a.a.a.a.a.a.a.a.a.a.b);
        let f = lemma_then_pure_chain::<u64, u64, u64, u64, _, Named<Square>>(p.chain.a.a.a.a.a.a.a.a.a.a.a.a.a.a.a.a.a.a.a.a.a.a.a.a.a.a.a.a.a.a.a.a.a.a.a.a.a.a.a.a.a.a.a.a.a.a, f, |x: u64| <Square as PureFn<u64, u64>>::pure_spec(x));
        lemma_named_pure_chain::<u64, u64, u64, SubTen>(p.chain.a.a.a.a.a.a.a.a.a.a.a.a.a.a.a.a.a.a.a.a.a.a.a.a.a.a.a.a.a.a.a.a.a.a.a.a.a.a.a.a.a.a.a.a.a.b);
        let f = lemma_then_pure_chain::<u64, u64, u64, u64, _, Named<SubTen>>(p.chain.a.a.a.a.a.a.a.a.a.a.a.a.a.a.a.a.a.a.a.a.a.a.a.a.a.a.a.a.a.a.a.a.a.a.a.a.a.a.a.a.a.a.a.a.a, f, |x: u64| <SubTen as PureFn<u64, u64>>::pure_spec(x));
        lemma_named_pure_chain::<u64, u64, u64, ShrOne>(p.chain.a.a.a.a.a.a.a.a.a.a.a.a.a.a.a.a.a.a.a.a.a.a.a.a.a.a.a.a.a.a.a.a.a.a.a.a.a.a.a.a.a.a.a.a.b);
        let f = lemma_then_pure_chain::<u64, u64, u64, u64, _, Named<ShrOne>>(p.chain.a.a.a.a.a.a.a.a.a.a.a.a.a.a.a.a.a.a.a.a.a.a.a.a.a.a.a.a.a.a.a.a.a.a.a.a.a.a.a.a.a.a.a.a, f, |x: u64| <ShrOne as PureFn<u64, u64>>::pure_spec(x));
        lemma_named_pure_chain::<u64, u64, u64, XorMask>(p.chain.a.a.a.a.a.a.a.a.a.a.a.a.a.a.a.a.a.a.a.a.a.a.a.a.a.a.a.a.a.a.a.a.a.a.a.a.a.a.a.a.a.a.a.b);
        let f = lemma_then_pure_chain::<u64, u64, u64, u64, _, Named<XorMask>>(p.chain.a.a.a.a.a.a.a.a.a.a.a.a.a.a.a.a.a.a.a.a.a.a.a.a.a.a.a.a.a.a.a.a.a.a.a.a.a.a.a.a.a.a.a, f, |x: u64| <XorMask as PureFn<u64, u64>>::pure_spec(x));
        lemma_named_pure_chain::<u64, u64, u64, AddSeven>(p.chain.a.a.a.a.a.a.a.a.a.a.a.a.a.a.a.a.a.a.a.a.a.a.a.a.a.a.a.a.a.a.a.a.a.a.a.a.a.a.a.a.a.a.b);
        let f = lemma_then_pure_chain::<u64, u64, u64, u64, _, Named<AddSeven>>(p.chain.a.a.a.a.a.a.a.a.a.a.a.a.a.a.a.a.a.a.a.a.a.a.a.a.a.a.a.a.a.a.a.a.a.a.a.a.a.a.a.a.a.a, f, |x: u64| <AddSeven as PureFn<u64, u64>>::pure_spec(x));
        lemma_named_pure_chain::<u64, u64, u64, Triple>(p.chain.a.a.a.a.a.a.a.a.a.a.a.a.a.a.a.a.a.a.a.a.a.a.a.a.a.a.a.a.a.a.a.a.a.a.a.a.a.a.a.a.a.b);
        let f = lemma_then_pure_chain::<u64, u64, u64, u64, _, Named<Triple>>(p.chain.a.a.a.a.a.a.a.a.a.a.a.a.a.a.a.a.a.a.a.a.a.a.a.a.a.a.a.a.a.a.a.a.a.a.a.a.a.a.a.a.a, f, |x: u64| <Triple as PureFn<u64, u64>>::pure_spec(x));
        lemma_named_pure_chain::<u64, u64, u64, AddFortyTwo>(p.chain.a.a.a.a.a.a.a.a.a.a.a.a.a.a.a.a.a.a.a.a.a.a.a.a.a.a.a.a.a.a.a.a.a.a.a.a.a.a.a.a.b);
        let f = lemma_then_pure_chain::<u64, u64, u64, u64, _, Named<AddFortyTwo>>(p.chain.a.a.a.a.a.a.a.a.a.a.a.a.a.a.a.a.a.a.a.a.a.a.a.a.a.a.a.a.a.a.a.a.a.a.a.a.a.a.a.a, f, |x: u64| <AddFortyTwo as PureFn<u64, u64>>::pure_spec(x));
        let h = |x: u64| lin10(x);
        assert(f =~= h);
        let f = h;
        lemma_named_pure_chain::<u64, u64, u64, AddOne>(p.chain.a.a.a.a.a.a.a.a.a.a.a.a.a.a.a.a.a.a.a.a.a.a.a.a.a.a.a.a.a.a.a.a.a.a.a.a.a.a.a.b);
        let f = lemma_then_pure_chain::<u64, u64, u64, u64, _, Named<AddOne>>(p.chain.a.a.a.a.a.a.a.a.a.a.a.a.a.a.a.a.a.a.a.a.a.a.a.a.a.a.a.a.a.a.a.a.a.a.a.a.a.a.a, f, |x: u64| <AddOne as PureFn<u64, u64>>::pure_spec(x));
        lemma_named_pure_chain::<u64, u64, u64, Double>(p.chain.a.a.a.a.a.a.a.a.a.a.a.a.a.a.a.a.a.a.a.a.a.a.a.a.a.a.a.a.a.a.a.a.a.a.a.a.a.a.b);
        let f = lemma_then_pure_chain::<u64, u64, u64, u64, _, Named<Double>>(p.chain.a.a.a.a.a.a.a.a.a.a.a.a.a.a.a.a.a.a.a.a.a.a.a.a.a.a.a.a.a.a.a.a.a.a.a.a.a.a, f, |x: u64| <Double as PureFn<u64, u64>>::pure_spec(x));
        lemma_named_pure_chain::<u64, u64, u64, AddThree>(p.chain.a.a.a.a.a.a.a.a.a.a.a.a.a.a.a.a.a.a.a.a.a.a.a.a.a.a.a.a.a.a.a.a.a.a.a.a.a.b);
        let f = lemma_then_pure_chain::<u64, u64, u64, u64, _, Named<AddThree>>(p.chain.a.a.a.a.a.a.a.a.a.a.a.a.a.a.a.a.a.a.a.a.a.a.a.a.a.a.a.a.a.a.a.a.a.a.a.a.a, f, |x: u64| <AddThree as PureFn<u64, u64>>::pure_spec(x));
        lemma_named_pure_chain::<u64, u64, u64, Square>(p.chain.a.a.a.a.a.a.a.a.a.a.a.a.a.a.a.a.a.a.a.a.a.a.a.a.a.a.a.a.a.a.a.a.a.a.a.a.b);
        let f = lemma_then_pure_chain::<u64, u64, u64, u64, _, Named<Square>>(p.chain.a.a.a.a.a.a.a.a.a.a.a.a.a.a.a.a.a.a.a.a.a.a.a.a.a.a.a.a.a.a.a.a.a.a.a.a, f, |x: u64| <Square as PureFn<u64, u64>>::pure_spec(x));
        lemma_named_pure_chain::<u64, u64, u64, SubTen>(p.chain.a.a.a.a.a.a.a.a.a.a.a.a.a.a.a.a.a.a.a.a.a.a.a.a.a.a.a.a.a.a.a.a.a.a.a.b);
        let f = lemma_then_pure_chain::<u64, u64, u64, u64, _, Named<SubTen>>(p.chain.a.a.a.a.a.a.a.a.a.a.a.a.a.a.a.a.a.a.a.a.a.a.a.a.a.a.a.a.a.a.a.a.a.a.a, f, |x: u64| <SubTen as PureFn<u64, u64>>::pure_spec(x));
        lemma_named_pure_chain::<u64, u64, u64, ShrOne>(p.chain.a.a.a.a.a.a.a.a.a.a.a.a.a.a.a.a.a.a.a.a.a.a.a.a.a.a.a.a.a.a.a.a.a.a.b);
        let f = lemma_then_pure_chain::<u64, u64, u64, u64, _, Named<ShrOne>>(p.chain.a.a.a.a.a.a.a.a.a.a.a.a.a.a.a.a.a.a.a.a.a.a.a.a.a.a.a.a.a.a.a.a.a.a, f, |x: u64| <ShrOne as PureFn<u64, u64>>::pure_spec(x));
        lemma_named_pure_chain::<u64, u64, u64, XorMask>(p.chain.a.a.a.a.a.a.a.a.a.a.a.a.a.a.a.a.a.a.a.a.a.a.a.a.a.a.a.a.a.a.a.a.a.b);
        let f = lemma_then_pure_chain::<u64, u64, u64, u64, _, Named<XorMask>>(p.chain.a.a.a.a.a.a.a.a.a.a.a.a.a.a.a.a.a.a.a.a.a.a.a.a.a.a.a.a.a.a.a.a.a, f, |x: u64| <XorMask as PureFn<u64, u64>>::pure_spec(x));
        lemma_named_pure_chain::<u64, u64, u64, AddSeven>(p.chain.a.a.a.a.a.a.a.a.a.a.a.a.a.a.a.a.a.a.a.a.a.a.a.a.a.a.a.a.a.a.a.a.b);
        let f = lemma_then_pure_chain::<u64, u64, u64, u64, _, Named<AddSeven>>(p.chain.a.a.a.a.a.a.a.a.a.a.a.a.a.a.a.a.a.a.a.a.a.a.a.a.a.a.a.a.a.a.a.a, f, |x: u64| <AddSeven as PureFn<u64, u64>>::pure_spec(x));
        lemma_named_pure_chain::<u64, u64, u64, Triple>(p.chain.a.a.a.a.a.a.a.a.a.a.a.a.a.a.a.a.a.a.a.a.a.a.a.a.a.a.a.a.a.a.a.b);
        let f = lemma_then_pure_chain::<u64, u64, u64, u64, _, Named<Triple>>(p.chain.a.a.a.a.a.a.a.a.a.a.a.a.a.a.a.a.a.a.a.a.a.a.a.a.a.a.a.a.a.a.a, f, |x: u64| <Triple as PureFn<u64, u64>>::pure_spec(x));
        lemma_named_pure_chain::<u64, u64, u64, AddFortyTwo>(p.chain.a.a.a.a.a.a.a.a.a.a.a.a.a.a.a.a.a.a.a.a.a.a.a.a.a.a.a.a.a.a.b);
        let f = lemma_then_pure_chain::<u64, u64, u64, u64, _, Named<AddFortyTwo>>(p.chain.a.a.a.a.a.a.a.a.a.a.a.a.a.a.a.a.a.a.a.a.a.a.a.a.a.a.a.a.a.a, f, |x: u64| <AddFortyTwo as PureFn<u64, u64>>::pure_spec(x));
        let h = |x: u64| lin10(lin10(x));
        assert(f =~= h);
        let f = h;
        lemma_named_pure_chain::<u64, u64, u64, AddOne>(p.chain.a.a.a.a.a.a.a.a.a.a.a.a.a.a.a.a.a.a.a.a.a.a.a.a.a.a.a.a.a.b);
        let f = lemma_then_pure_chain::<u64, u64, u64, u64, _, Named<AddOne>>(p.chain.a.a.a.a.a.a.a.a.a.a.a.a.a.a.a.a.a.a.a.a.a.a.a.a.a.a.a.a.a, f, |x: u64| <AddOne as PureFn<u64, u64>>::pure_spec(x));
        lemma_named_pure_chain::<u64, u64, u64, Double>(p.chain.a.a.a.a.a.a.a.a.a.a.a.a.a.a.a.a.a.a.a.a.a.a.a.a.a.a.a.a.b);
        let f = lemma_then_pure_chain::<u64, u64, u64, u64, _, Named<Double>>(p.chain.a.a.a.a.a.a.a.a.a.a.a.a.a.a.a.a.a.a.a.a.a.a.a.a.a.a.a.a, f, |x: u64| <Double as PureFn<u64, u64>>::pure_spec(x));
        lemma_named_pure_chain::<u64, u64, u64, AddThree>(p.chain.a.a.a.a.a.a.a.a.a.a.a.a.a.a.a.a.a.a.a.a.a.a.a.a.a.a.a.b);
        let f = lemma_then_pure_chain::<u64, u64, u64, u64, _, Named<AddThree>>(p.chain.a.a.a.a.a.a.a.a.a.a.a.a.a.a.a.a.a.a.a.a.a.a.a.a.a.a.a, f, |x: u64| <AddThree as PureFn<u64, u64>>::pure_spec(x));
        lemma_named_pure_chain::<u64, u64, u64, Square>(p.chain.a.a.a.a.a.a.a.a.a.a.a.a.a.a.a.a.a.a.a.a.a.a.a.a.a.a.b);
        let f = lemma_then_pure_chain::<u64, u64, u64, u64, _, Named<Square>>(p.chain.a.a.a.a.a.a.a.a.a.a.a.a.a.a.a.a.a.a.a.a.a.a.a.a.a.a, f, |x: u64| <Square as PureFn<u64, u64>>::pure_spec(x));
        lemma_named_pure_chain::<u64, u64, u64, SubTen>(p.chain.a.a.a.a.a.a.a.a.a.a.a.a.a.a.a.a.a.a.a.a.a.a.a.a.a.b);
        let f = lemma_then_pure_chain::<u64, u64, u64, u64, _, Named<SubTen>>(p.chain.a.a.a.a.a.a.a.a.a.a.a.a.a.a.a.a.a.a.a.a.a.a.a.a.a, f, |x: u64| <SubTen as PureFn<u64, u64>>::pure_spec(x));
        lemma_named_pure_chain::<u64, u64, u64, ShrOne>(p.chain.a.a.a.a.a.a.a.a.a.a.a.a.a.a.a.a.a.a.a.a.a.a.a.a.b);
        let f = lemma_then_pure_chain::<u64, u64, u64, u64, _, Named<ShrOne>>(p.chain.a.a.a.a.a.a.a.a.a.a.a.a.a.a.a.a.a.a.a.a.a.a.a.a, f, |x: u64| <ShrOne as PureFn<u64, u64>>::pure_spec(x));
        lemma_named_pure_chain::<u64, u64, u64, XorMask>(p.chain.a.a.a.a.a.a.a.a.a.a.a.a.a.a.a.a.a.a.a.a.a.a.a.b);
        let f = lemma_then_pure_chain::<u64, u64, u64, u64, _, Named<XorMask>>(p.chain.a.a.a.a.a.a.a.a.a.a.a.a.a.a.a.a.a.a.a.a.a.a.a, f, |x: u64| <XorMask as PureFn<u64, u64>>::pure_spec(x));
        lemma_named_pure_chain::<u64, u64, u64, AddSeven>(p.chain.a.a.a.a.a.a.a.a.a.a.a.a.a.a.a.a.a.a.a.a.a.a.b);
        let f = lemma_then_pure_chain::<u64, u64, u64, u64, _, Named<AddSeven>>(p.chain.a.a.a.a.a.a.a.a.a.a.a.a.a.a.a.a.a.a.a.a.a.a, f, |x: u64| <AddSeven as PureFn<u64, u64>>::pure_spec(x));
        lemma_named_pure_chain::<u64, u64, u64, Triple>(p.chain.a.a.a.a.a.a.a.a.a.a.a.a.a.a.a.a.a.a.a.a.a.b);
        let f = lemma_then_pure_chain::<u64, u64, u64, u64, _, Named<Triple>>(p.chain.a.a.a.a.a.a.a.a.a.a.a.a.a.a.a.a.a.a.a.a.a, f, |x: u64| <Triple as PureFn<u64, u64>>::pure_spec(x));
        lemma_named_pure_chain::<u64, u64, u64, AddFortyTwo>(p.chain.a.a.a.a.a.a.a.a.a.a.a.a.a.a.a.a.a.a.a.a.b);
        let f = lemma_then_pure_chain::<u64, u64, u64, u64, _, Named<AddFortyTwo>>(p.chain.a.a.a.a.a.a.a.a.a.a.a.a.a.a.a.a.a.a.a.a, f, |x: u64| <AddFortyTwo as PureFn<u64, u64>>::pure_spec(x));
        let h = |x: u64| lin10(lin10(lin10(x)));
        assert(f =~= h);
        let f = h;
        lemma_named_pure_chain::<u64, u64, u64, AddOne>(p.chain.a.a.a.a.a.a.a.a.a.a.a.a.a.a.a.a.a.a.a.b);
        let f = lemma_then_pure_chain::<u64, u64, u64, u64, _, Named<AddOne>>(p.chain.a.a.a.a.a.a.a.a.a.a.a.a.a.a.a.a.a.a.a, f, |x: u64| <AddOne as PureFn<u64, u64>>::pure_spec(x));
        lemma_named_pure_chain::<u64, u64, u64, Double>(p.chain.a.a.a.a.a.a.a.a.a.a.a.a.a.a.a.a.a.a.b);
        let f = lemma_then_pure_chain::<u64, u64, u64, u64, _, Named<Double>>(p.chain.a.a.a.a.a.a.a.a.a.a.a.a.a.a.a.a.a.a, f, |x: u64| <Double as PureFn<u64, u64>>::pure_spec(x));
        lemma_named_pure_chain::<u64, u64, u64, AddThree>(p.chain.a.a.a.a.a.a.a.a.a.a.a.a.a.a.a.a.a.b);
        let f = lemma_then_pure_chain::<u64, u64, u64, u64, _, Named<AddThree>>(p.chain.a.a.a.a.a.a.a.a.a.a.a.a.a.a.a.a.a, f, |x: u64| <AddThree as PureFn<u64, u64>>::pure_spec(x));
        lemma_named_pure_chain::<u64, u64, u64, Square>(p.chain.a.a.a.a.a.a.a.a.a.a.a.a.a.a.a.a.b);
        let f = lemma_then_pure_chain::<u64, u64, u64, u64, _, Named<Square>>(p.chain.a.a.a.a.a.a.a.a.a.a.a.a.a.a.a.a, f, |x: u64| <Square as PureFn<u64, u64>>::pure_spec(x));
        lemma_named_pure_chain::<u64, u64, u64, SubTen>(p.chain.a.a.a.a.a.a.a.a.a.a.a.a.a.a.a.b);
        let f = lemma_then_pure_chain::<u64, u64, u64, u64, _, Named<SubTen>>(p.chain.a.a.a.a.a.a.a.a.a.a.a.a.a.a.a, f, |x: u64| <SubTen as PureFn<u64, u64>>::pure_spec(x));
        lemma_named_pure_chain::<u64, u64, u64, ShrOne>(p.chain.a.a.a.a.a.a.a.a.a.a.a.a.a.a.b);
        let f = lemma_then_pure_chain::<u64, u64, u64, u64, _, Named<ShrOne>>(p.chain.a.a.a.a.a.a.a.a.a.a.a.a.a.a, f, |x: u64| <ShrOne as PureFn<u64, u64>>::pure_spec(x));
        lemma_named_pure_chain::<u64, u64, u64, XorMask>(p.chain.a.a.a.a.a.a.a.a.a.a.a.a.a.b);
        let f = lemma_then_pure_chain::<u64, u64, u64, u64, _, Named<XorMask>>(p.chain.a.a.a.a.a.a.a.a.a.a.a.a.a, f, |x: u64| <XorMask as PureFn<u64, u64>>::pure_spec(x));
        lemma_named_pure_chain::<u64, u64, u64, AddSeven>(p.chain.a.a.a.a.a.a.a.a.a.a.a.a.b);
        let f = lemma_then_pure_chain::<u64, u64, u64, u64, _, Named<AddSeven>>(p.chain.a.a.a.a.a.a.a.a.a.a.a.a, f, |x: u64| <AddSeven as PureFn<u64, u64>>::pure_spec(x));
        lemma_named_pure_chain::<u64, u64, u64, Triple>(p.chain.a.a.a.a.a.a.a.a.a.a.a.b);
        let f = lemma_then_pure_chain::<u64, u64, u64, u64, _, Named<Triple>>(p.chain.a.a.a.a.a.a.a.a.a.a.a, f, |x: u64| <Triple as PureFn<u64, u64>>::pure_spec(x));
        lemma_named_pure_chain::<u64, u64, u64, AddFortyTwo>(p.chain.a.a.a.a.a.a.a.a.a.a.b);
        let f = lemma_then_pure_chain::<u64, u64, u64, u64, _, Named<AddFortyTwo>>(p.chain.a.a.a.a.a.a.a.a.a.a, f, |x: u64| <AddFortyTwo as PureFn<u64, u64>>::pure_spec(x));
        let h = |x: u64| lin10(lin10(lin10(lin10(x))));
        assert(f =~= h);
        let f = h;
        lemma_named_pure_chain::<u64, u64, u64, AddOne>(p.chain.a.a.a.a.a.a.a.a.a.b);
        let f = lemma_then_pure_chain::<u64, u64, u64, u64, _, Named<AddOne>>(p.chain.a.a.a.a.a.a.a.a.a, f, |x: u64| <AddOne as PureFn<u64, u64>>::pure_spec(x));
        lemma_named_pure_chain::<u64, u64, u64, Double>(p.chain.a.a.a.a.a.a.a.a.b);
        let f = lemma_then_pure_chain::<u64, u64, u64, u64, _, Named<Double>>(p.chain.a.a.a.a.a.a.a.a, f, |x: u64| <Double as PureFn<u64, u64>>::pure_spec(x));
        lemma_named_pure_chain::<u64, u64, u64, AddThree>(p.chain.a.a.a.a.a.a.a.b);
        let f = lemma_then_pure_chain::<u64, u64, u64, u64, _, Named<AddThree>>(p.chain.a.a.a.a.a.a.a, f, |x: u64| <AddThree as PureFn<u64, u64>>::pure_spec(x));
        lemma_named_pure_chain::<u64, u64, u64, Square>(p.chain.a.a.a.a.a.a.b);
        let f = lemma_then_pure_chain::<u64, u64, u64, u64, _, Named<Square>>(p.chain.a.a.a.a.a.a, f, |x: u64| <Square as PureFn<u64, u64>>::pure_spec(x));
        lemma_named_pure_chain::<u64, u64, u64, SubTen>(p.chain.a.a.a.a.a.b);
        let f = lemma_then_pure_chain::<u64, u64, u64, u64, _, Named<SubTen>>(p.chain.a.a.a.a.a, f, |x: u64| <SubTen as PureFn<u64, u64>>::pure_spec(x));
        lemma_named_pure_chain::<u64, u64, u64, ShrOne>(p.chain.a.a.a.a.b);
        let f = lemma_then_pure_chain::<u64, u64, u64, u64, _, Named<ShrOne>>(p.chain.a.a.a.a, f, |x: u64| <ShrOne as PureFn<u64, u64>>::pure_spec(x));
        lemma_named_pure_chain::<u64, u64, u64, XorMask>(p.chain.a.a.a.b);
        let f = lemma_then_pure_chain::<u64, u64, u64, u64, _, Named<XorMask>>(p.chain.a.a.a, f, |x: u64| <XorMask as PureFn<u64, u64>>::pure_spec(x));
        lemma_named_pure_chain::<u64, u64, u64, AddSeven>(p.chain.a.a.b);
        let f = lemma_then_pure_chain::<u64, u64, u64, u64, _, Named<AddSeven>>(p.chain.a.a, f, |x: u64| <AddSeven as PureFn<u64, u64>>::pure_spec(x));
        lemma_named_pure_chain::<u64, u64, u64, Triple>(p.chain.a.b);
        let f = lemma_then_pure_chain::<u64, u64, u64, u64, _, Named<Triple>>(p.chain.a, f, |x: u64| <Triple as PureFn<u64, u64>>::pure_spec(x));
        lemma_named_pure_chain::<u64, u64, u64, AddFortyTwo>(p.chain.b);
        let f = lemma_then_pure_chain::<u64, u64, u64, u64, _, Named<AddFortyTwo>>(p.chain, f, |x: u64| <AddFortyTwo as PureFn<u64, u64>>::pure_spec(x));
        let h = |x: u64| lin10(lin10(lin10(lin10(lin10(x)))));
        assert(f =~= h);
        let f = h;
    }
    p.run(world, input)
}

/// Thirty pure steps.
#[verifier::rlimit(80)]
pub fn stress_pipe_30_steps(world: &mut World<u64>, input: u64) -> (r: u64)
    ensures r == lin10(lin10(lin10(input))), *final(world) == *old(world),
{
    let mut p = PipelineStart::new()
        .then_step(named::<AddOne>())
        .then_step(named::<Double>())
        .then_step(named::<AddThree>())
        .then_step(named::<Square>())
        .then_step(named::<SubTen>())
        .then_step(named::<ShrOne>())
        .then_step(named::<XorMask>())
        .then_step(named::<AddSeven>())
        .then_step(named::<Triple>())
        .then_step(named::<AddFortyTwo>())
        .then_step(named::<AddOne>())
        .then_step(named::<Double>())
        .then_step(named::<AddThree>())
        .then_step(named::<Square>())
        .then_step(named::<SubTen>())
        .then_step(named::<ShrOne>())
        .then_step(named::<XorMask>())
        .then_step(named::<AddSeven>())
        .then_step(named::<Triple>())
        .then_step(named::<AddFortyTwo>())
        .then_step(named::<AddOne>())
        .then_step(named::<Double>())
        .then_step(named::<AddThree>())
        .then_step(named::<Square>())
        .then_step(named::<SubTen>())
        .then_step(named::<ShrOne>())
        .then_step(named::<XorMask>())
        .then_step(named::<AddSeven>())
        .then_step(named::<Triple>())
        .then_step(named::<AddFortyTwo>());
    p.run(world, input)
}

/// Every pipeline combinator in one chain.
pub fn stress_pipe_all_combinators(world: &mut World<u64>, input: u64) -> (r: u64)
    requires audit_shape(*old(world)),
    ensures
        ({
            let w0 = old(world)@;
            let v1 = wadd((input), 1);
            let t2 = (wadd((w0.values[0]), (v1)), ());
            let w3 = w0.write(ResourceId(0), t2.0);
            let v4 = t2.1;
            let v5 = if (v1) > 0 { Some(v1) } else { Option::<u64>::None };
            let v6 = match v5 { Some(t) => if (t) < 10000 { Some(t) } else { Option::<u64>::None }, None => Option::<u64>::None };
            let v7 = match v6 { Some(t) => Ok::<u64, u32>(t), None => Err::<u64, u32>(0u32) };
            let v8 = match v7 { Ok(t) => Ok::<u64, u32>(wmul((t), 2)), Err(e) => Err::<u64, u32>(e) };
            let v9 = match v8 { Ok(t) => Ok::<u64, u32>(t), Err(e) => Err::<u64, u32>((e)) };
            let v10 = match v9 { Ok(t) => Some(t), Err(e) => Option::<u64>::None };
            let v11 = match v10 { Some(t) => t, None => 0u64 };
            let v12 = wadd((v11), 3);
            let v13 = (v12) % 2 == 0;
            let v14 = v13 && true;
            let v15 = v14 || false;
            let v16 = !v15;
            let v17 = v16 != true;
            let v18 = if (v17) { 100u64 } else { 0u64 };
            let v19 = wmul((v18), 2);
            let v20 = wadd((v18), 1);
            let v21 = if (v18) > 50 { v19 } else { v20 };
            r == v21 && final(world)@ == w3
        }),
{
    let mut p = PipelineStart::new()
        .then_step(named::<AddOne>())
        .tap(named_ref::<Observe>())
        .tee(DagArmStart::<u64, u64>::new().then_step(named_ref_res_mut::<RefConsume>(ResourceId(0))).chain)
        .guard(named_ref::<GtZero>())
        .filter(named_ref::<LtTenThousand>())
        .inspect(named_ref::<Observe>())
        .on_none(named::<Nothing>())
        .ok_or(0u32)
        .map(named::<Double>())
        .inspect(named_ref::<Observe>())
        .inspect_err(named_ref::<ObserveErr>())
        .map_err(named::<SameCode>())
        .catch(named::<LogError>())
        .unwrap_or(0)
        .then_step(named::<AddThree>())
        .then_step(named::<IsEven>())
        .and(named::<Yes>())
        .or(named::<No>())
        .not()
        .xor(named::<Yes>())
        .then_step(named::<BoolToHundred>())
        .route(named_ref::<GtFifty>(), PipelineStart::<u64, u64>::new().then_step(named::<Double>()).chain, PipelineStart::<u64, u64>::new().then_step(named::<AddOne>()).chain);
    p.run(world, input)
}

/// Two guard, to result, catch, default rounds.
pub fn stress_pipe_transition_chain(world: &mut World<u64>, input: u64) -> (r: u64)
    requires audit_shape(*old(world)),
    ensures
        ({
            let w0 = old(world)@;
            let v1 = if (input) > 0 { Some(input) } else { Option::<u64>::None };
            let v2 = match v1 { Some(t) => Ok::<u64, u32>(t), None => Err::<u64, u32>(0u32) };
            let v3 = match v2 { Ok(t) => Some(t), Err(e) => Option::<u64>::None };
            let v4 = match v3 { Some(t) => t, None => 0u64 };
            let v5 = if (v4) > 0 { Some(v4) } else { Option::<u64>::None };
            let v6 = match v5 { Some(t) => Ok::<u64, u32>(t), None => Err::<u64, u32>(0u32) };
            let v7 = match v6 { Ok(t) => Some(t), Err(e) => Option::<u64>::None };
            let v8 = match v7 { Some(t) => t, None => 0u64 };
            let v9 = wadd((v8), 1);
            r == v9 && final(world)@ == w0
        }),
{
    let mut p = PipelineStart::new()
        .then_step(Ident)
        .guard(named_ref::<GtZero>())
        .ok_or(0u32)
        .catch(named::<LogError>())
        .unwrap_or(0)
        .guard(named_ref::<GtZero>())
        .ok_or(0u32)
        .catch(named::<LogError>())
        .unwrap_or(0)
        .then_step(named::<AddOne>());
    p.run(world, input)
}

/// Routes nested three deep over eight leaves.
pub fn stress_pipe_route_4_deep(world: &mut World<u64>, input: u64) -> (r: u64)
    requires audit_shape(*old(world)),
    ensures
        ({
            let w0 = old(world)@;
            let v1 = wadd((input), 1);
            let v2 = wmul((input), 2);
            let v3 = if (input) > 10 { v1 } else { v2 };
            let v4 = wadd((input), 3);
            let v5 = wmul((input), 3);
            let v6 = if (input) > 20 { v4 } else { v5 };
            let v7 = if (input) > 50 { v3 } else { v6 };
            let v8 = wadd((input), 7);
            let v9 = wmul((input), (input));
            let v10 = if (input) > 30 { v8 } else { v9 };
            let v11 = wsub((input), 10);
            let v12 = (input) / 2;
            let v13 = if (input) > 40 { v11 } else { v12 };
            let v14 = if (input) > 60 { v10 } else { v13 };
            let v15 = if (input) > 100 { v7 } else { v14 };
            r == v15 && final(world)@ == w0
        }),
{
    let mut p = PipelineStart::new()
        .then_step(Ident)
        .route(named_ref::<GtHundred>(), PipelineStart::<u64, u64>::new().then_step(Ident).route(named_ref::<GtFifty>(), PipelineStart::<u64, u64>::new().then_step(Ident).route(named_ref::<GtTen>(), PipelineStart::<u64, u64>::new().then_step(named::<AddOne>()).chain, PipelineStart::<u64, u64>::new().then_step(named::<Double>()).chain).chain, PipelineStart::<u64, u64>::new().then_step(Ident).route(named_ref::<GtTwenty>(), PipelineStart::<u64, u64>::new().then_step(named::<AddThree>()).chain, PipelineStart::<u64, u64>::new().then_step(named::<Triple>()).chain).chain).chain, PipelineStart::<u64, u64>::new().then_step(Ident).route(named_ref::<GtSixty>(), PipelineStart::<u64, u64>::new().then_step(Ident).route(named_ref::<GtThirty>(), PipelineStart::<u64, u64>::new().then_step(named::<AddSeven>()).chain, PipelineStart::<u64, u64>::new().then_step(named::<Square>()).chain).chain, PipelineStart::<u64, u64>::new().then_step(Ident).route(named_ref::<GtForty>(), PipelineStart::<u64, u64>::new().then_step(named::<SubTen>()).chain, PipelineStart::<u64, u64>::new().then_step(named::<ShrOne>()).chain).chain).chain);
    p.run(world, input)
}

/// Many small predicates around one map.
pub fn stress_pipe_many_closures(world: &mut World<u64>, input: u64) -> (r: u64)
    requires audit_shape(*old(world)),
    ensures
        ({
            let w0 = old(world)@;
            let v1 = if (input) > 0 { Some(input) } else { Option::<u64>::None };
            let v2 = match v1 { Some(t) => if (t) < 10000 { Some(t) } else { Option::<u64>::None }, None => Option::<u64>::None };
            let v3 = match v2 { Some(t) => if (t) > 5 { Some(t) } else { Option::<u64>::None }, None => Option::<u64>::None };
            let v4 = match v3 { Some(t) => Some(wmul((t), 2)), None => Option::<u64>::None };
            let v5 = match v4 { Some(t) => if (t) < 50000 { Some(t) } else { Option::<u64>::None }, None => Option::<u64>::None };
            let v6 = match v5 { Some(t) => if (t) > 1 { Some(t) } else { Option::<u64>::None }, None => Option::<u64>::None };
            let v7 = match v6 { Some(t) => t, None => 0u64 };
            let v8 = wadd((v7), 1);
            r == v8 && final(world)@ == w0
        }),
{
    let mut p = PipelineStart::new()
        .then_step(Ident)
        .guard(named_ref::<GtZero>())
        .filter(named_ref::<LtTenThousand>())
        .filter(named_ref::<GtFive>())
        .inspect(named_ref::<Observe>())
        .on_none(named::<Nothing>())
        .map(named::<Double>())
        .filter(named_ref::<LtFiftyThousand>())
        .filter(named_ref::<GtOne>())
        .inspect(named_ref::<Observe>())
        .unwrap_or_else(named::<Zero>())
        .then_step(named::<AddOne>());
    p.run(world, input)
}

/// Split and add, twice.
pub fn stress_pipe_splat_chain(world: &mut World<u64>, input: u64) -> (r: u64)
    requires audit_shape(*old(world)),
    ensures
        ({
            let w0 = old(world)@;
            let v1 = ((input) as u32, ((input) >> 32) as u32);
            let v2 = ((v1).0 + (v1).1) as u64;
            let v3 = ((v2) as u32, ((v2) >> 32) as u32);
            let v4 = ((v3).0 + (v3).1) as u64;
            r == v4 && final(world)@ == w0
        }),
{
    let mut p = PipelineStart::new()
        .then_step(named::<SplitU64>())
        .then_step(named::<SplatAdd>())
        .then_step(named::<SplitU64>())
        .then_step(named::<SplatAdd>());
    p.run(world, input)
}

/// A side arm inside a route arm.
pub fn stress_pipe_tee_in_route(world: &mut World<u64>, input: u64) -> (r: u64)
    requires audit_shape(*old(world)),
    ensures
        ({
            let w0 = old(world)@;
            let v1 = wmul((input), 2);
            let v2 = wadd((v1), 1);
            let v3 = wmul((v2), 2);
            let t4 = (wadd((w0.values[0]), (v3)), ());
            let w5 = w0.write(ResourceId(0), t4.0);
            let v6 = t4.1;
            let v7 = wadd((v1), 3);
            let v8 = wadd((input), 1);
            let v9 = if (input) > 100 { v7 } else { v8 };
            let w10 = if (input) > 100 { w5 } else { w0 };
            r == v9 && final(world)@ == w10
        }),
{
    let mut p = PipelineStart::new()
        .then_step(Ident)
        .route(named_ref::<GtHundred>(), PipelineStart::<u64, u64>::new().then_step(named::<Double>()).tee(DagArmStart::<u64, u64>::new().then_step(named_ref::<RefAddOne>()).then_step(named_ref::<RefDouble>()).then_step(named_ref_res_mut::<RefConsume>(ResourceId(0))).chain).then_step(named::<AddThree>()).chain, PipelineStart::<u64, u64>::new().then_step(named::<AddOne>()).chain);
    p.run(world, input)
}

/// Combinators, route, split and dispatch in one chain.
pub fn stress_mixed_everything(world: &mut World<u64>, input: u64) -> (r: ())
    requires audit_shape(*old(world)),
    ensures
        ({
            let w0 = old(world)@;
            let v1 = wadd((input), 1);
            let t2 = (wadd((w0.values[0]), (v1)), ());
            let w3 = w0.write(ResourceId(0), t2.0);
            let v4 = t2.1;
            let v5 = if (v1) > 0 { Some(v1) } else { Option::<u64>::None };
            let v6 = match v5 { Some(t) => Some(wmul((t), 2)), None => Option::<u64>::None };
            let v7 = match v6 { Some(t) => if (t) < 100000 { Some(t) } else { Option::<u64>::None }, None => Option::<u64>::None };
            let v8 = match v7 { Some(t) => Ok::<u64, u32>(t), None => Err::<u64, u32>(0u32) };
            let v9 = match v8 { Ok(t) => Ok::<u64, u32>(wadd((t), 3)), Err(e) => Err::<u64, u32>(e) };
            let v10 = match v9 { Ok(t) => Some(t), Err(e) => Option::<u64>::None };
            let v11 = match v10 { Some(t) => t, None => 0u64 };
            let v12 = wmul((v11), 2);
            let v13 = wadd((v11), 1);
            let v14 = if (v11) > 50 { v12 } else { v13 };
            let v15 = ((v14) as u32, ((v14) >> 32) as u32);
            let v16 = ((v15).0 + (v15).1) as u64;
            let t17 = (wadd(w3.values[0], v16), ());
            let w18 = w3.write(ResourceId(0), t17.0);
            let v19 = ();
            true && final(world)@ == w18
        }),
{
    let mut p = PipelineStart::new()
        .then_step(named::<AddOne>())
        .tap(named_ref::<Observe>())
        .tee(DagArmStart::<u64, u64>::new().then_step(named_ref_res_mut::<RefConsume>(ResourceId(0))).chain)
        .guard(named_ref::<GtZero>())
        .map(named::<Double>())
        .filter(named_ref::<LtHundredThousand>())
        .ok_or(0u32)
        .map(named::<AddThree>())
        .catch(named::<LogError>())
        .unwrap_or(0)
        .route(named_ref::<GtFifty>(), PipelineStart::<u64, u64>::new().then_step(named::<Double>()).chain, PipelineStart::<u64, u64>::new().then_step(named::<AddOne>()).chain)
        .then_step(named::<SplitU64>())
        .then_step(named::<SplatAdd>())
        .dispatch(into_handler(named_res_mut::<ConsumeVal>(ResourceId(0))));
    p.run(world, input)
}

/// A route inside a fork arm.
pub fn stress_dag_fork_route_mix(world: &mut World<u64>, input: u64)
    requires audit_shape(*old(world)),
    ensures
        ({
            let w0 = old(world)@;
            let v1 = wadd((input), 1);
            let v2 = wadd((v1), 1);
            let v3 = wmul((v2), 2);
            let v4 = wmul((v2), 3);
            let v5 = if (v2) > 50 { v3 } else { v4 };
            let v6 = wadd((v1), 7);
            let v7 = wmul((v1), (v1));
            let v8 = wadd(wadd(((v5, v6, v7)).0, ((v5, v6, v7)).1), ((v5, v6, v7)).2);
            let t9 = (wadd((w0.values[0]), (v8)), ());
            let w10 = w0.write(ResourceId(0), t9.0);
            let v11 = t9.1;
            true && final(world)@ == w10
        }),
{
    let mut d = DagStart::new()
        .root(named::<AddOne>())
        .fork()
        .arm(DagArmStart::new().then_step(named_ref::<RefAddOne>()).route(named_ref::<GtFifty>(), DagArmStart::<u64, u64>::new().then_step(named_ref::<RefDouble>()).chain, DagArmStart::<u64, u64>::new().then_step(named_ref::<RefTriple>()).chain))
        .arm(DagArmStart::new().then_step(named_ref::<RefAddSeven>()))
        .arm(DagArmStart::new().then_step(named_ref::<RefSquare>()))
        .merge(named_ref::<MergeThree>())
        .then_step(named_ref_res_mut::<RefConsume>(ResourceId(0)))
        .build();
    d.run_chain(world, input)
}

/// Four arms, each forking four ways.
pub fn stress_dag_wide_fork(world: &mut World<u64>, input: u64)
    requires audit_shape(*old(world)),
    ensures
        ({
            let w0 = old(world)@;
            let v1 = wadd((input), 1);
            let v2 = wmul((v1), 2);
            let v3 = wadd((v2), 1);
            let v4 = wmul((v2), 3);
            let v5 = wadd((v2), 7);
            let v6 = (v2) ^ 0xDEAD_BEEF;
            let v7 = wadd(wadd(wadd(((v3, v4, v5, v6)).0, ((v3, v4, v5, v6)).1), ((v3, v4, v5, v6)).2), ((v3, v4, v5, v6)).3);
            let v8 = wmul((v1), 3);
            let v9 = wmul((v8), (v8));
            let v10 = (v8) / 2;
            let v11 = wsub((v8), 10);
            let v12 = wadd((v8), 42);
            let v13 = wadd(wadd(wadd(((v9, v10, v11, v12)).0, ((v9, v10, v11, v12)).1), ((v9, v10, v11, v12)).2), ((v9, v10, v11, v12)).3);
            let v14 = wadd((v1), 7);
            let v15 = wmul((v14), 2);
            let v16 = wadd((v14), 3);
            let v17 = wmul((v14), 3);
            let v18 = wadd((v14), 1);
            let v19 = wadd(wadd(wadd(((v15, v16, v17, v18)).0, ((v15, v16, v17, v18)).1), ((v15, v16, v17, v18)).2), ((v15, v16, v17, v18)).3);
            let v20 = (v1) ^ 0xDEAD_BEEF;
            let v21 = (v20) / 2;
            let v22 = wsub((v20), 10);
            let v23 = wmul((v20), (v20));
            let v24 = wadd((v20), 42);
            let v25 = wadd(wadd(wadd(((v21, v22, v23, v24)).0, ((v21, v22, v23, v24)).1), ((v21, v22, v23, v24)).2), ((v21, v22, v23, v24)).3);
            let v26 = wadd(wadd(wadd(((v7, v13, v19, v25)).0, ((v7, v13, v19, v25)).1), ((v7, v13, v19, v25)).2), ((v7, v13, v19, v25)).3);
            let t27 = (wadd((w0.values[0]), (v26)), ());
            let w28 = w0.write(ResourceId(0), t27.0);
            let v29 = t27.1;
            true && final(world)@ == w28
        }),
{
    let mut d = DagStart::new()
        .root(named::<AddOne>())
        .fork()
        .arm(DagArmStart::new().then_step(named_ref::<RefDouble>()).fork().arm(DagArmStart::new().then_step(named_ref::<RefAddOne>())).arm(DagArmStart::new().then_step(named_ref::<RefTriple>())).arm(DagArmStart::new().then_step(named_ref::<RefAddSeven>())).arm(DagArmStart::new().then_step(named_ref::<RefXorMask>())).merge(named_ref::<MergeFour>()))
        .arm(DagArmStart::new().then_step(named_ref::<RefTriple>()).fork().arm(DagArmStart::new().then_step(named_ref::<RefSquare>())).arm(DagArmStart::new().then_step(named_ref::<RefShrOne>())).arm(DagArmStart::new().then_step(named_ref::<RefSubTen>())).arm(DagArmStart::new().then_step(named_ref::<RefAddFortyTwo>())).merge(named_ref::<MergeFour>()))
        .arm(DagArmStart::new().then_step(named_ref::<RefAddSeven>()).fork().arm(DagArmStart::new().then_step(named_ref::<RefDouble>())).arm(DagArmStart::new().then_step(named_ref::<RefAddThree>())).arm(DagArmStart::new().then_step(named_ref::<RefTriple>())).arm(DagArmStart::new().then_step(named_ref::<RefAddOne>())).merge(named_ref::<MergeFour>()))
        .arm(DagArmStart::new().then_step(named_ref::<RefXorMask>()).fork().arm(DagArmStart::new().then_step(named_ref::<RefShrOne>())).arm(DagArmStart::new().then_step(named_ref::<RefSubTen>())).arm(DagArmStart::new().then_step(named_ref::<RefSquare>())).arm(DagArmStart::new().then_step(named_ref::<RefAddFortyTwo>())).merge(named_ref::<MergeFour>()))
        .merge(named_ref::<MergeFour>())
        .then_step(named_ref_res_mut::<RefConsume>(ResourceId(0)))
        .build();
    d.run_chain(world, input)
}

/// Thirty steps into `ResA`, over 0..64.
pub fn stress_batch_pipe_30_steps(world: &mut World<u64>)
    requires audit_shape(*old(world)),
    ensures final(world)@ == fold_world(Seq::new(64, |i: int| i as u64), old(world)@, (|w: WorldView<u64>, x: u64| { let v1 = wadd((x), 1); let v2 = wmul((v1), 2); let v3 = wadd((v2), 3); let v4 = wmul((v3), (v3)); let v5 = wsub((v4), 10); let v6 = (v5) / 2; let v7 = (v6) ^ 0xDEAD_BEEF; let v8 = wadd((v7), 7); let v9 = wmul((v8), 3); let v10 = wadd((v9), 42); let v11 = wadd((v10), 1); let v12 = wmul((v11), 2); let v13 = wadd((v12), 3); let v14 = wmul((v13), (v13)); let v15 = wsub((v14), 10); let v16 = (v15) / 2; let v17 = (v16) ^ 0xDEAD_BEEF; let v18 = wadd((v17), 7); let v19 = wmul((v18), 3); let v20 = wadd((v19), 42); let v21 = wadd((v20), 1); let v22 = wmul((v21), 2); let v23 = wadd((v22), 3); let v24 = wmul((v23), (v23)); let v25 = wsub((v24), 10); let v26 = (v25) / 2; let v27 = (v26) ^ 0xDEAD_BEEF; let v28 = wadd((v27), 7); let v29 = wmul((v28), 3); let v30 = wadd((v29), 42); let t31 = (wadd((w.values[0]), (v30)), ()); let w32 = w.write(ResourceId(0), t31.0); let v33 = t31.1; w32 })),
{
    let mut bp = PipelineStart::new()
        .then_step(named::<AddOne>())
        .then_step(named::<Double>())
        .then_step(named::<AddThree>())
        .then_step(named::<Square>())
        .then_step(named::<SubTen>())
        .then_step(named::<ShrOne>())
        .then_step(named::<XorMask>())
        .then_step(named::<AddSeven>())
        .then_step(named::<Triple>())
        .then_step(named::<AddFortyTwo>())
        .then_step(named::<AddOne>())
        .then_step(named::<Double>())
        .then_step(named::<AddThree>())
        .then_step(named::<Square>())
        .then_step(named::<SubTen>())
        .then_step(named::<ShrOne>())
        .then_step(named::<XorMask>())
        .then_step(named::<AddSeven>())
        .then_step(named::<Triple>())
        .then_step(named::<AddFortyTwo>())
        .then_step(named::<AddOne>())
        .then_step(named::<Double>())
        .then_step(named::<AddThree>())
        .then_step(named::<Square>())
        .then_step(named::<SubTen>())
        .then_step(named::<ShrOne>())
        .then_step(named::<XorMask>())
        .then_step(named::<AddSeven>())
        .then_step(named::<Triple>())
        .then_step(named::<AddFortyTwo>())
        .then_step(named_res_mut::<ConsumeVal>(ResourceId(0)))
        .build_batch(64);
    let ghost c0 = bp.chain;
    let ghost f = (|w: WorldView<u64>, x: u64| { let v1 = wadd((x), 1); let v2 = wmul((v1), 2); let v3 = wadd((v2), 3); let v4 = wmul((v3), (v3)); let v5 = wsub((v4), 10); let v6 = (v5) / 2; let v7 = (v6) ^ 0xDEAD_BEEF; let v8 = wadd((v7), 7); let v9 = wmul((v8), 3); let v10 = wadd((v9), 42); let v11 = wadd((v10), 1); let v12 = wmul((v11), 2); let v13 = wadd((v12), 3); let v14 = wmul((v13), (v13)); let v15 = wsub((v14), 10); let v16 = (v15) / 2; let v17 = (v16) ^ 0xDEAD_BEEF; let v18 = wadd((v17), 7); let v19 = wmul((v18), 3); let v20 = wadd((v19), 42); let v21 = wadd((v20), 1); let v22 = wmul((v21), 2); let v23 = wadd((v22), 3); let v24 = wmul((v23), (v23)); let v25 = wsub((v24), 10); let v26 = (v25) / 2; let v27 = (v26) ^ 0xDEAD_BEEF; let v28 = wadd((v27), 7); let v29 = wmul((v28), 3); let v30 = wadd((v29), 42); let t31 = (wadd((w.values[0]), (v30)), ()); let w32 = w.write(ResourceId(0), t31.0); let v33 = t31.1; w32 });
    proof {
        assert forall|cm, w: World<u64>, x: u64, wm: World<u64>, o| #[trigger] c0.rel(&cm, w, x, wm, o)
            implies cm == c0 && wm@ == f(w@, x) by {}
        assert forall|w: World<u64>, x: u64| audit_shape(w) implies #[trigger] c0.pre(w, x) by {}
    }
    let mut i: u64 = 0;
    while i < 64
        invariant
            i <= 64,
            bp.chain == c0,
            bp.input@ == Seq::new(i as nat, |j: int| j as u64),
        decreases 64 - i,
    {
        bp.input_mut().push(i);
        i += 1;
    }
    let ghost items0 = bp.input@;
    let ghost w0 = *world;
    proof {
        lemma_batch_pre(c0, items0, w0, |w: World<u64>| audit_shape(w));
    }
    bp.run(world);
    proof {
        lemma_batch_fold(c0, items0, w0, bp.chain, *world, f);
        assert(items0 =~= Seq::new(64, |i: int| i as u64));
    }
}

/// Nested DAG fork into `ResA`, over 0..64.
pub fn stress_batch_dag_nested(world: &mut World<u64>)
    requires audit_shape(*old(world)),
    ensures final(world)@ == fold_world(Seq::new(64, |i: int| i as u64), old(world)@, (|w: WorldView<u64>, x: u64| { let v1 = wadd((x), 1); let v2 = wmul((v1), 2); let v3 = wadd((v2), 1); let v4 = wmul((v2), 3); let v5 = wadd(((v3, v4)).0, ((v3, v4)).1); let v6 = wadd((v1), 7); let v7 = wadd(((v5, v6)).0, ((v5, v6)).1); let t8 = (wadd((w.values[0]), (v7)), ()); let w9 = w.write(ResourceId(0), t8.0); let v10 = t8.1; w9 })),
{
    let mut bp = DagStart::new()
        .root(named::<AddOne>())
        .fork()
        .arm(DagArmStart::new().then_step(named_ref::<RefDouble>()).fork().arm(DagArmStart::new().then_step(named_ref::<RefAddOne>())).arm(DagArmStart::new().then_step(named_ref::<RefTriple>())).merge(named_ref::<MergeAdd>()))
        .arm(DagArmStart::new().then_step(named_ref::<RefAddSeven>()))
        .merge(named_ref::<MergeAdd>())
        .then_step(named_ref_res_mut::<RefConsume>(ResourceId(0)))
        .build_batch(64);
    let ghost c0 = bp.chain;
    let ghost f = (|w: WorldView<u64>, x: u64| { let v1 = wadd((x), 1); let v2 = wmul((v1), 2); let v3 = wadd((v2), 1); let v4 = wmul((v2), 3); let v5 = wadd(((v3, v4)).0, ((v3, v4)).1); let v6 = wadd((v1), 7); let v7 = wadd(((v5, v6)).0, ((v5, v6)).1); let t8 = (wadd((w.values[0]), (v7)), ()); let w9 = w.write(ResourceId(0), t8.0); let v10 = t8.1; w9 });
    proof {
        assert forall|cm, w: World<u64>, x: u64, wm: World<u64>, o| #[trigger] c0.rel(&cm, w, x, wm, o)
            implies cm == c0 && wm@ == f(w@, x) by {}
        assert forall|w: World<u64>, x: u64| audit_shape(w) implies #[trigger] c0.pre(w, x) by {}
    }
    let mut i: u64 = 0;
    while i < 64
        invariant
            i <= 64,
            bp.chain == c0,
            bp.input@ == Seq::new(i as nat, |j: int| j as u64),
        decreases 64 - i,
    {
        bp.input_mut().push(i);
        i += 1;
    }
    let ghost items0 = bp.input@;
    let ghost w0 = *world;
    proof {
        lemma_batch_pre(c0, items0, w0, |w: World<u64>| audit_shape(w));
    }
    bp.run(world);
    proof {
        lemma_batch_fold(c0, items0, w0, bp.chain, *world, f);
        assert(items0 =~= Seq::new(64, |i: int| i as u64));
    }
}

/// A 4096-byte value built and touched twice.
pub fn stress_pipe_large_type(world: &mut World<u64>, input: u64) -> (r: [u8; 4096])
    ensures
        r@ == first_byte(input as u8, 4096).update(1, vstd::wrapping::u8_specs::wrapping_add(input as u8, 1)),
        *final(world) == *old(world),
{
    let mut p = PipelineStart::new()
        .then_step(named::<MakeLarge>())
        .then_step(named::<TouchLarge>())
        .then_step(named::<TouchLarge>());
    let r = p.run(world, input);
    assert(r@ =~= first_byte(input as u8, 4096).update(1, vstd::wrapping::u8_specs::wrapping_add(input as u8, 1)));
    r
}

/// `add_one`, `dedup`, `double` on `Some`, `unwrap_or(0)`, then into
/// `ResA`, over 0..64: the values are all distinct, so none is dropped.
pub fn stress_pipe_dedup_in_batch(world: &mut World<u64>)
    requires audit_shape(*old(world)),
    ensures
        final(world)@ == fold_world(
            Seq::new(64, |i: int| i as u64),
            old(world)@,
            |w: WorldView<u64>, x: u64| w.write(ResourceId(0), wadd(w.values[0], wmul(wadd(x, 1), 2))),
        ),
{
    let mut bp = PipelineStart::new()
        .then_step(named::<AddOne>())
        .dedup()
        .map(named::<Double>())
        .unwrap_or(0)
        .then_step(named_res_mut::<ConsumeVal>(ResourceId(0)))
        .build_batch(64);
    let ghost c0 = bp.chain;
    let ghost f = |w: WorldView<u64>, x: u64| w.write(ResourceId(0), wadd(w.values[0], wmul(wadd(x, 1), 2)));
    let mut i: u64 = 0;
    while i < 64
        invariant
            i <= 64,
            bp.chain == c0,
            bp.input@ == Seq::new(i as nat, |j: int| j as u64),
        decreases 64 - i,
    {
        bp.input_mut().push(i);
        i += 1;
    }
    let ghost items0 = bp.input@;
    let ghost w0 = *world;
    // The chain keeps every stage but the dedup as built; the dedup holds
    // the last value it passed, which is the next item itself, while the
    // items still to come are the tail of 0..64.
    let ghost inv = |c: Then<Then<Then<Then<Then<Ident, Named<AddOne>, u64>, Dedup<u64>, u64>, OptMap<Named<Double>>, Option<u64>>, OptUnwrapOr<u64>, Option<u64>>, NamedResMut<ConsumeVal>, u64>, rest: Seq<u64>, w: World<u64>| {
        &&& audit_shape(w)
        &&& c.a.a.a.a == c0.a.a.a.a
        &&& c.a.a.b == c0.a.a.b
        &&& c.a.b == c0.a.b
        &&& c.b == c0.b
        &&& rest.len() <= 64
        &&& forall|k: int| 0 <= k < rest.len() ==> #[trigger] rest[k] == 64 - rest.len() + k
        &&& (c.a.a.a.b.prev matches Some(p) ==> p == 64 - rest.len())
    };
    proof {
        assert(items0 =~= Seq::new(64, |i: int| i as u64));
        assert(inv(c0, items0, w0));
        lemma_batch_pre_inv(c0, items0, w0, inv);
    }
    bp.run(world);
    proof {
        lemma_batch_fold_inv(c0, items0, w0, bp.chain, *world, f, inv);
    }
}

} // verus!
