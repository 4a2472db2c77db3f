//! Named forms of the small predicates, observers, fallbacks, merges and
//! conversions that the audit cases pass to combinators.
use vstd::prelude::*;
use crate::world::{World, ResourceId, Sequence};
use super::helpers::{
    wadd, wmul, wsub, audit_shape, splat_add, splat_3, splat_4, splat_5, ref_splat_add, ref_splat_3,
    ref_splat_5, merge_add, merge_mul, merge_3, merge_4, merge_consume, merge_3_consume, add_both_w, three_params,
};

verus! {

/// Step: `x > 10`.
pub struct GtTen;

impl crate::step::RefPureFn<u64, bool> for GtTen {
    open spec fn ref_pure_pre(x: u64) -> bool {
        true
    }

    open spec fn ref_pure_spec(x: u64) -> bool {
        x > 10
    }

    fn ref_pure_call(x: &u64) -> (r: bool) {
        *x > 10
    }
}

/// Step: `x > 0`.
pub struct GtZero;

impl crate::step::RefPureFn<u64, bool> for GtZero {
    open spec fn ref_pure_pre(x: u64) -> bool {
        true
    }

    open spec fn ref_pure_spec(x: u64) -> bool {
        x > 0
    }

    fn ref_pure_call(x: &u64) -> (r: bool) {
        *x > 0
    }
}

/// Step: `x > 5`.
pub struct GtFive;

impl crate::step::RefPureFn<u64, bool> for GtFive {
    open spec fn ref_pure_pre(x: u64) -> bool {
        true
    }

    open spec fn ref_pure_spec(x: u64) -> bool {
        x > 5
    }

    fn ref_pure_call(x: &u64) -> (r: bool) {
        *x > 5
    }
}

/// Step: `x > 25`.
pub struct GtTwentyFive;

impl crate::step::RefPureFn<u64, bool> for GtTwentyFive {
    open spec fn ref_pure_pre(x: u64) -> bool {
        true
    }

    open spec fn ref_pure_spec(x: u64) -> bool {
        x > 25
    }

    fn ref_pure_call(x: &u64) -> (r: bool) {
        *x > 25
    }
}

/// Step: `x > 1`.
pub struct GtOne;

impl crate::step::RefPureFn<u64, bool> for GtOne {
    open spec fn ref_pure_pre(x: u64) -> bool {
        true
    }

    open spec fn ref_pure_spec(x: u64) -> bool {
        x > 1
    }

    fn ref_pure_call(x: &u64) -> (r: bool) {
        *x > 1
    }
}

/// Step: `x > 20`.
pub struct GtTwenty;

impl crate::step::RefPureFn<u64, bool> for GtTwenty {
    open spec fn ref_pure_pre(x: u64) -> bool {
        true
    }

    open spec fn ref_pure_spec(x: u64) -> bool {
        x > 20
    }

    fn ref_pure_call(x: &u64) -> (r: bool) {
        *x > 20
    }
}

/// Step: `x > 30`.
pub struct GtThirty;

impl crate::step::RefPureFn<u64, bool> for GtThirty {
    open spec fn ref_pure_pre(x: u64) -> bool {
        true
    }

    open spec fn ref_pure_spec(x: u64) -> bool {
        x > 30
    }

    fn ref_pure_call(x: &u64) -> (r: bool) {
        *x > 30
    }
}

/// Step: `x > 40`.
pub struct GtForty;

impl crate::step::RefPureFn<u64, bool> for GtForty {
    open spec fn ref_pure_pre(x: u64) -> bool {
        true
    }

    open spec fn ref_pure_spec(x: u64) -> bool {
        x > 40
    }

    fn ref_pure_call(x: &u64) -> (r: bool) {
        *x > 40
    }
}

/// Step: `x > 60`.
pub struct GtSixty;

impl crate::step::RefPureFn<u64, bool> for GtSixty {
    open spec fn ref_pure_pre(x: u64) -> bool {
        true
    }

    open spec fn ref_pure_spec(x: u64) -> bool {
        x > 60
    }

    fn ref_pure_call(x: &u64) -> (r: bool) {
        *x > 60
    }
}

/// Step: `x < 50000`.
pub struct LtFiftyThousand;

impl crate::step::RefPureFn<u64, bool> for LtFiftyThousand {
    open spec fn ref_pure_pre(x: u64) -> bool {
        true
    }

    open spec fn ref_pure_spec(x: u64) -> bool {
        x < 50000
    }

    fn ref_pure_call(x: &u64) -> (r: bool) {
        *x < 50000
    }
}

/// Step: `x < 100000`.
pub struct LtHundredThousand;

impl crate::step::RefPureFn<u64, bool> for LtHundredThousand {
    open spec fn ref_pure_pre(x: u64) -> bool {
        true
    }

    open spec fn ref_pure_spec(x: u64) -> bool {
        x < 100000
    }

    fn ref_pure_call(x: &u64) -> (r: bool) {
        *x < 100000
    }
}

/// Step: `100` for `true`, `0` for `false`.
pub struct BoolToHundred;

impl crate::step::PureFn<bool, u64> for BoolToHundred {
    open spec fn pure_pre(x: bool) -> bool {
        true
    }

    open spec fn pure_spec(x: bool) -> u64 {
        if x { 100u64 } else { 0u64 }
    }

    fn pure_call(x: bool) -> (r: u64) {
        if x { 100u64 } else { 0u64 }
    }
}

/// Step: the error code unchanged.
pub struct SameCode;

impl crate::step::PureFn<u32, u32> for SameCode {
    open spec fn pure_pre(x: u32) -> bool {
        true
    }

    open spec fn pure_spec(x: u32) -> u32 {
        x
    }

    fn pure_call(x: u32) -> (r: u32) {
        x
    }
}

/// Step: `x > 32`.
pub struct GtThirtyTwo;

impl crate::step::RefPureFn<u64, bool> for GtThirtyTwo {
    open spec fn ref_pure_pre(x: u64) -> bool {
        true
    }

    open spec fn ref_pure_spec(x: u64) -> bool {
        x > 32
    }

    fn ref_pure_call(x: &u64) -> (r: bool) {
        *x > 32
    }
}

/// Step: `x > 50`.
pub struct GtFifty;

impl crate::step::RefPureFn<u64, bool> for GtFifty {
    open spec fn ref_pure_pre(x: u64) -> bool {
        true
    }

    open spec fn ref_pure_spec(x: u64) -> bool {
        x > 50
    }

    fn ref_pure_call(x: &u64) -> (r: bool) {
        *x > 50
    }
}

/// Step: `x > 100`.
pub struct GtHundred;

impl crate::step::RefPureFn<u64, bool> for GtHundred {
    open spec fn ref_pure_pre(x: u64) -> bool {
        true
    }

    open spec fn ref_pure_spec(x: u64) -> bool {
        x > 100
    }

    fn ref_pure_call(x: &u64) -> (r: bool) {
        *x > 100
    }
}

/// Step: `x < 50`.
pub struct LtFifty;

impl crate::step::RefPureFn<u64, bool> for LtFifty {
    open spec fn ref_pure_pre(x: u64) -> bool {
        true
    }

    open spec fn ref_pure_spec(x: u64) -> bool {
        x < 50
    }

    fn ref_pure_call(x: &u64) -> (r: bool) {
        *x < 50
    }
}

/// Step: `x < 500`.
pub struct LtFiveHundred;

impl crate::step::RefPureFn<u64, bool> for LtFiveHundred {
    open spec fn ref_pure_pre(x: u64) -> bool {
        true
    }

    open spec fn ref_pure_spec(x: u64) -> bool {
        x < 500
    }

    fn ref_pure_call(x: &u64) -> (r: bool) {
        *x < 500
    }
}

/// Step: `x < 1000`.
pub struct LtThousand;

impl crate::step::RefPureFn<u64, bool> for LtThousand {
    open spec fn ref_pure_pre(x: u64) -> bool {
        true
    }

    open spec fn ref_pure_spec(x: u64) -> bool {
        x < 1000
    }

    fn ref_pure_call(x: &u64) -> (r: bool) {
        *x < 1000
    }
}

/// Step: `x < 10000`.
pub struct LtTenThousand;

impl crate::step::RefPureFn<u64, bool> for LtTenThousand {
    open spec fn ref_pure_pre(x: u64) -> bool {
        true
    }

    open spec fn ref_pure_spec(x: u64) -> bool {
        x < 10000
    }

    fn ref_pure_call(x: &u64) -> (r: bool) {
        *x < 10000
    }
}

/// Step: `x & 1 == 0`.
pub struct LowBitClear;

impl crate::step::RefPureFn<u64, bool> for LowBitClear {
    open spec fn ref_pure_pre(x: u64) -> bool {
        true
    }

    open spec fn ref_pure_spec(x: u64) -> bool {
        x & 1 == 0
    }

    fn ref_pure_call(x: &u64) -> (r: bool) {
        *x & 1 == 0
    }
}

/// Step: the flag itself.
pub struct IsTrue;

impl crate::step::RefPureFn<bool, bool> for IsTrue {
    open spec fn ref_pure_pre(x: bool) -> bool {
        true
    }

    open spec fn ref_pure_spec(x: bool) -> bool {
        x
    }

    fn ref_pure_call(x: &bool) -> (r: bool) {
        *x
    }
}

/// Step: an observer that does nothing.
pub struct Observe;

impl crate::step::RefPureFn<u64, ()> for Observe {
    open spec fn ref_pure_pre(x: u64) -> bool {
        true
    }

    open spec fn ref_pure_spec(x: u64) -> () {
        ()
    }

    fn ref_pure_call(x: &u64) -> (r: ()) {
        ()
    }
}

/// Step: an error observer that does nothing.
pub struct ObserveErr;

impl crate::step::RefPureFn<u32, ()> for ObserveErr {
    open spec fn ref_pure_pre(x: u32) -> bool {
        true
    }

    open spec fn ref_pure_spec(x: u32) -> () {
        ()
    }

    fn ref_pure_call(x: &u32) -> (r: ()) {
        ()
    }
}

/// Step: a side effect that does nothing.
pub struct Nothing;

impl crate::step::PureFn<(), ()> for Nothing {
    open spec fn pure_pre(x: ()) -> bool {
        true
    }

    open spec fn pure_spec(x: ()) -> () {
        ()
    }

    fn pure_call(x: ()) -> (r: ()) {
        ()
    }
}

/// Step: the constant error `42`.
pub struct FortyTwo;

impl crate::step::PureFn<(), u32> for FortyTwo {
    open spec fn pure_pre(x: ()) -> bool {
        true
    }

    open spec fn pure_spec(x: ()) -> u32 {
        42u32
    }

    fn pure_call(x: ()) -> (r: u32) {
        42u32
    }
}

/// Step: the constant `42`.
pub struct FortyTwoValue;

impl crate::step::PureFn<(), u64> for FortyTwoValue {
    open spec fn pure_pre(x: ()) -> bool {
        true
    }

    open spec fn pure_spec(x: ()) -> u64 {
        42u64
    }

    fn pure_call(x: ()) -> (r: u64) {
        42u64
    }
}

/// Step: the constant `0`.
pub struct Zero;

impl crate::step::PureFn<(), u64> for Zero {
    open spec fn pure_pre(x: ()) -> bool {
        true
    }

    open spec fn pure_spec(x: ()) -> u64 {
        0u64
    }

    fn pure_call(x: ()) -> (r: u64) {
        0u64
    }
}

/// Step: the constant `true`.
pub struct Yes;

impl crate::step::PureFn<(), bool> for Yes {
    open spec fn pure_pre(x: ()) -> bool {
        true
    }

    open spec fn pure_spec(x: ()) -> bool {
        true
    }

    fn pure_call(x: ()) -> (r: bool) {
        true
    }
}

/// Step: the constant `false`.
pub struct No;

impl crate::step::PureFn<(), bool> for No {
    open spec fn pure_pre(x: ()) -> bool {
        true
    }

    open spec fn pure_spec(x: ()) -> bool {
        false
    }

    fn pure_call(x: ()) -> (r: bool) {
        false
    }
}

/// Step: an error code widened to `u64`.
pub struct Widen;

impl crate::step::PureFn<u32, u64> for Widen {
    open spec fn pure_pre(x: u32) -> bool {
        true
    }

    open spec fn pure_spec(x: u32) -> u64 {
        x as u64
    }

    fn pure_call(x: u32) -> (r: u64) {
        x as u64
    }
}

/// Step: an error code widened to `u64`, kept as an error.
pub struct WidenErr;

impl crate::step::PureFn<u32, Result<u64, u64>> for WidenErr {
    open spec fn pure_pre(x: u32) -> bool {
        true
    }

    open spec fn pure_spec(x: u32) -> Result<u64, u64> {
        Err::<u64, u64>(x as u64)
    }

    fn pure_call(x: u32) -> (r: Result<u64, u64>) {
        Err(x as u64)
    }
}

/// Step: an error recovered as its value.
pub struct RecoverWide;

impl crate::step::PureFn<u64, Result<u64, u64>> for RecoverWide {
    open spec fn pure_pre(x: u64) -> bool {
        true
    }

    open spec fn pure_spec(x: u64) -> Result<u64, u64> {
        Ok::<u64, u64>(x)
    }

    fn pure_call(x: u64) -> (r: Result<u64, u64>) {
        Ok(x)
    }
}

/// Step: an error code recovered as a value.
pub struct RecoverCode;

impl crate::step::PureFn<u32, Result<u64, u32>> for RecoverCode {
    open spec fn pure_pre(x: u32) -> bool {
        true
    }

    open spec fn pure_spec(x: u32) -> Result<u64, u32> {
        Ok::<u64, u32>(x as u64)
    }

    fn pure_call(x: u32) -> (r: Result<u64, u32>) {
        Ok(x as u64)
    }
}

/// Step: an error handler that does nothing.
pub struct LogError;

impl crate::step::PureFn<u32, ()> for LogError {
    open spec fn pure_pre(x: u32) -> bool {
        true
    }

    open spec fn pure_spec(x: u32) -> () {
        ()
    }

    fn pure_call(x: u32) -> (r: ()) {
        ()
    }
}

/// Step: a by-reference error handler that does nothing.
pub struct RefLogError;

impl crate::step::RefPureFn<u32, ()> for RefLogError {
    open spec fn ref_pure_pre(x: u32) -> bool {
        true
    }

    open spec fn ref_pure_spec(x: u32) -> () {
        ()
    }

    fn ref_pure_call(x: &u32) -> (r: ()) {
        ()
    }
}

/// Step: double above 100, else add one (wrapping).
pub struct SwitchBasic;

impl crate::step::PureFn<u64, u64> for SwitchBasic {
    open spec fn pure_pre(x: u64) -> bool {
        true
    }

    open spec fn pure_spec(x: u64) -> u64 {
        if x > 100 { wmul(x, 2) } else { wadd(x, 1) }
    }

    fn pure_call(x: u64) -> (r: u64) {
        if x > 100 { x.wrapping_mul(2) } else { x.wrapping_add(1) }
    }
}

/// Step: double above 100, else add one (wrapping).
pub struct RefSwitchBasic;

impl crate::step::RefPureFn<u64, u64> for RefSwitchBasic {
    open spec fn ref_pure_pre(x: u64) -> bool {
        true
    }

    open spec fn ref_pure_spec(x: u64) -> u64 {
        if x > 100 { wmul(x, 2) } else { wadd(x, 1) }
    }

    fn ref_pure_call(x: &u64) -> (r: u64) {
        if *x > 100 { x.wrapping_mul(2) } else { x.wrapping_add(1) }
    }
}

/// Step: by `x % 3`: double, add ten, or subtract five (wrapping).
pub struct SwitchThreeWay;

impl crate::step::PureFn<u64, u64> for SwitchThreeWay {
    open spec fn pure_pre(x: u64) -> bool {
        true
    }

    open spec fn pure_spec(x: u64) -> u64 {
        if x % 3 == 0 { wmul(x, 2) } else if x % 3 == 1 { wadd(x, 10) } else { wsub(x, 5) }
    }

    fn pure_call(x: u64) -> (r: u64) {
        if x % 3 == 0 { x.wrapping_mul(2) } else if x % 3 == 1 { x.wrapping_add(10) } else { x.wrapping_sub(5) }
    }
}

/// Step: by `x % 3`: double, add ten, or subtract five (wrapping).
pub struct RefSwitchThreeWay;

impl crate::step::RefPureFn<u64, u64> for RefSwitchThreeWay {
    open spec fn ref_pure_pre(x: u64) -> bool {
        true
    }

    open spec fn ref_pure_spec(x: u64) -> u64 {
        if x % 3 == 0 { wmul(x, 2) } else if x % 3 == 1 { wadd(x, 10) } else { wsub(x, 5) }
    }

    fn ref_pure_call(x: &u64) -> (r: u64) {
        if *x % 3 == 0 { x.wrapping_mul(2) } else if *x % 3 == 1 { x.wrapping_add(10) } else { x.wrapping_sub(5) }
    }
}

/// Step: `2x + 1` (wrapping).
pub struct TwiceAndOne;

impl crate::step::PureFn<u64, u64> for TwiceAndOne {
    open spec fn pure_pre(x: u64) -> bool {
        true
    }

    open spec fn pure_spec(x: u64) -> u64 {
        wadd(wmul(x, 2), 1)
    }

    fn pure_call(x: u64) -> (r: u64) {
        x.wrapping_mul(2).wrapping_add(1)
    }
}

/// Step: `1` for `true`, `0` for `false`.
pub struct BoolToU64;

impl crate::step::PureFn<bool, u64> for BoolToU64 {
    open spec fn pure_pre(x: bool) -> bool {
        true
    }

    open spec fn pure_spec(x: bool) -> u64 {
        if x { 1u64 } else { 0u64 }
    }

    fn pure_call(x: bool) -> (r: u64) {
        if x { 1u64 } else { 0u64 }
    }
}

/// Step: `1` for `true`, `0` for `false`.
pub struct RefBoolToU64;

impl crate::step::RefPureFn<bool, u64> for RefBoolToU64 {
    open spec fn ref_pure_pre(x: bool) -> bool {
        true
    }

    open spec fn ref_pure_spec(x: bool) -> u64 {
        if x { 1u64 } else { 0u64 }
    }

    fn ref_pure_call(x: &bool) -> (r: u64) {
        if *x { 1u64 } else { 0u64 }
    }
}

/// Step: the constant `42` after a unit step.
pub struct UnitToFortyTwo;

impl crate::step::PureFn<(), u64> for UnitToFortyTwo {
    open spec fn pure_pre(x: ()) -> bool {
        true
    }

    open spec fn pure_spec(x: ()) -> u64 {
        42u64
    }

    fn pure_call(x: ()) -> (r: u64) {
        42u64
    }
}

/// Step: the two halves of a pair added.
pub struct SplatAdd;

impl crate::step::PureFn<(u32, u32), u64> for SplatAdd {
    open spec fn pure_pre(x: (u32, u32)) -> bool {
        true
    }

    open spec fn pure_spec(x: (u32, u32)) -> u64 {
        (x.0 + x.1) as u64
    }

    fn pure_call(x: (u32, u32)) -> (r: u64) {
        splat_add(x.0, x.1)
    }
}

/// Step: the three parts added.
pub struct Splat3;

impl crate::step::PureFn<(u32, u16, u8), u64> for Splat3 {
    open spec fn pure_pre(x: (u32, u16, u8)) -> bool {
        true
    }

    open spec fn pure_spec(x: (u32, u16, u8)) -> u64 {
        (x.0 + x.1 + x.2) as u64
    }

    fn pure_call(x: (u32, u16, u8)) -> (r: u64) {
        splat_3(x.0, x.1, x.2)
    }
}

/// Step: the four parts added.
pub struct Splat4;

impl crate::step::PureFn<(u32, u16, u8, u8), u64> for Splat4 {
    open spec fn pure_pre(x: (u32, u16, u8, u8)) -> bool {
        true
    }

    open spec fn pure_spec(x: (u32, u16, u8, u8)) -> u64 {
        (x.0 + x.1 + x.2 + x.3) as u64
    }

    fn pure_call(x: (u32, u16, u8, u8)) -> (r: u64) {
        splat_4(x.0, x.1, x.2, x.3)
    }
}

/// Step: the five parts added.
pub struct Splat5;

impl crate::step::PureFn<(u32, u16, u8, u8, u8), u64> for Splat5 {
    open spec fn pure_pre(x: (u32, u16, u8, u8, u8)) -> bool {
        true
    }

    open spec fn pure_spec(x: (u32, u16, u8, u8, u8)) -> u64 {
        (x.0 + x.1 + x.2 + x.3 + x.4) as u64
    }

    fn pure_call(x: (u32, u16, u8, u8, u8)) -> (r: u64) {
        splat_5(x.0, x.1, x.2, x.3, x.4)
    }
}

/// Step: the two halves of a pair added.
pub struct RefSplatAdd;

impl crate::step::RefPureFn<(u32, u32), u64> for RefSplatAdd {
    open spec fn ref_pure_pre(x: (u32, u32)) -> bool {
        true
    }

    open spec fn ref_pure_spec(x: (u32, u32)) -> u64 {
        (x.0 + x.1) as u64
    }

    fn ref_pure_call(x: &(u32, u32)) -> (r: u64) {
        ref_splat_add(&x.0, &x.1)
    }
}

/// Step: the three parts added.
pub struct RefSplat3;

impl crate::step::RefPureFn<(u32, u16, u8), u64> for RefSplat3 {
    open spec fn ref_pure_pre(x: (u32, u16, u8)) -> bool {
        true
    }

    open spec fn ref_pure_spec(x: (u32, u16, u8)) -> u64 {
        (x.0 + x.1 + x.2) as u64
    }

    fn ref_pure_call(x: &(u32, u16, u8)) -> (r: u64) {
        ref_splat_3(&x.0, &x.1, &x.2)
    }
}

/// Step: the five parts added.
pub struct RefSplat5;

impl crate::step::RefPureFn<(u32, u16, u8, u8, u8), u64> for RefSplat5 {
    open spec fn ref_pure_pre(x: (u32, u16, u8, u8, u8)) -> bool {
        true
    }

    open spec fn ref_pure_spec(x: (u32, u16, u8, u8, u8)) -> u64 {
        (x.0 + x.1 + x.2 + x.3 + x.4) as u64
    }

    fn ref_pure_call(x: &(u32, u16, u8, u8, u8)) -> (r: u64) {
        ref_splat_5(&x.0, &x.1, &x.2, &x.3, &x.4)
    }
}

/// Step: the two halves of a pair plus the value of `ResA` (wrapping).
pub struct SplatWithRes;

impl crate::step::ResFn<u64, (u32, u32), u64> for SplatWithRes {
    open spec fn res_pre(v: u64, x: (u32, u32)) -> bool {
        true
    }

    open spec fn res_spec(v: u64, x: (u32, u32)) -> u64 {
        wadd((x.0 + x.1) as u64, v)
    }

    fn res_call(v: &u64, x: (u32, u32)) -> (r: u64) {
        (x.0 as u64 + x.1 as u64).wrapping_add(*v)
    }
}

/// Step: two arm outputs added (wrapping).
pub struct MergeAdd;

impl crate::step::RefPureFn<(u64, u64), u64> for MergeAdd {
    open spec fn ref_pure_pre(x: (u64, u64)) -> bool {
        true
    }

    open spec fn ref_pure_spec(x: (u64, u64)) -> u64 {
        wadd(x.0, x.1)
    }

    fn ref_pure_call(x: &(u64, u64)) -> (r: u64) {
        merge_add(&x.0, &x.1)
    }
}

/// Step: two arm outputs multiplied (wrapping).
pub struct MergeMul;

impl crate::step::RefPureFn<(u64, u64), u64> for MergeMul {
    open spec fn ref_pure_pre(x: (u64, u64)) -> bool {
        true
    }

    open spec fn ref_pure_spec(x: (u64, u64)) -> u64 {
        wmul(x.0, x.1)
    }

    fn ref_pure_call(x: &(u64, u64)) -> (r: u64) {
        merge_mul(&x.0, &x.1)
    }
}

/// Step: three arm outputs added (wrapping).
pub struct MergeThree;

impl crate::step::RefPureFn<(u64, u64, u64), u64> for MergeThree {
    open spec fn ref_pure_pre(x: (u64, u64, u64)) -> bool {
        true
    }

    open spec fn ref_pure_spec(x: (u64, u64, u64)) -> u64 {
        wadd(wadd(x.0, x.1), x.2)
    }

    fn ref_pure_call(x: &(u64, u64, u64)) -> (r: u64) {
        merge_3(&x.0, &x.1, &x.2)
    }
}

/// Step: four arm outputs added (wrapping).
pub struct MergeFour;

impl crate::step::RefPureFn<(u64, u64, u64, u64), u64> for MergeFour {
    open spec fn ref_pure_pre(x: (u64, u64, u64, u64)) -> bool {
        true
    }

    open spec fn ref_pure_spec(x: (u64, u64, u64, u64)) -> u64 {
        wadd(wadd(wadd(x.0, x.1), x.2), x.3)
    }

    fn ref_pure_call(x: &(u64, u64, u64, u64)) -> (r: u64) {
        merge_4(&x.0, &x.1, &x.2, &x.3)
    }
}

/// Step: two arm outputs added into `ResA` (wrapping).
pub struct MergeConsume;

impl crate::step::RefResMutFn<u64, (u64, u64), ()> for MergeConsume {
    open spec fn ref_res_mut_pre(v: u64, x: (u64, u64)) -> bool {
        true
    }

    open spec fn ref_res_mut_spec(v: u64, x: (u64, u64)) -> (u64, ()) {
        (wadd(x.0, x.1), ())
    }

    fn ref_res_mut_call(v: &u64, x: &(u64, u64)) -> (r: (u64, ())) {
        merge_consume(v, &x.0, &x.1)
    }
}

/// Step: three arm outputs added into `ResA` (wrapping).
pub struct MergeThreeConsume;

impl crate::step::RefResMutFn<u64, (u64, u64, u64), ()> for MergeThreeConsume {
    open spec fn ref_res_mut_pre(v: u64, x: (u64, u64, u64)) -> bool {
        true
    }

    open spec fn ref_res_mut_spec(v: u64, x: (u64, u64, u64)) -> (u64, ()) {
        (wadd(wadd(x.0, x.1), x.2), ())
    }

    fn ref_res_mut_call(v: &u64, x: &(u64, u64, u64)) -> (r: (u64, ())) {
        merge_3_consume(v, &x.0, &x.1, &x.2)
    }
}

/// Step: a read of `ResA` whose result is unused.
pub struct PeekA;

impl crate::step::ResFn<u64, u64, ()> for PeekA {
    open spec fn res_pre(v: u64, x: u64) -> bool {
        true
    }

    open spec fn res_spec(v: u64, x: u64) -> () {
        ()
    }

    fn res_call(v: &u64, x: u64) -> (r: ()) {
        ()
    }
}

/// Step: a read of `ResA` whose result is unused.
pub struct RefPeekA;

impl crate::step::RefResFn<u64, u64, ()> for RefPeekA {
    open spec fn ref_res_pre(v: u64, x: u64) -> bool {
        true
    }

    open spec fn ref_res_spec(v: u64, x: u64) -> () {
        ()
    }

    fn ref_res_call(v: &u64, x: &u64) -> (r: ()) {
        ()
    }
}

/// Step: a read of `ResA` and `ResB` whose result is unused.
pub struct PeekAB;

impl crate::step::ReadFn<u64, u64, ()> for PeekAB {
    open spec fn read_pre(w: World<u64>, x: u64) -> bool {
        audit_shape(w)
    }

    open spec fn read_spec(w: World<u64>, x: u64) -> () {
        ()
    }

    fn read_call(w: &World<u64>, x: u64) -> (r: ()) {
        { let _ = add_both_w(w, x); }
    }
}

/// Step: a read of `ResA`, `ResB` and `ResC` whose result is unused.
pub struct PeekABC;

impl crate::step::ReadFn<u64, u64, ()> for PeekABC {
    open spec fn read_pre(w: World<u64>, x: u64) -> bool {
        audit_shape(w)
    }

    open spec fn read_spec(w: World<u64>, x: u64) -> () {
        ()
    }

    fn read_call(w: &World<u64>, x: u64) -> (r: ()) {
        { let _ = three_params(w, x); }
    }
}

/// Step: the input stored into `ResA` and passed on.
pub struct StampAndPass;

impl crate::step::ResMutFn<u64, u64, u64> for StampAndPass {
    open spec fn res_mut_pre(v: u64, x: u64) -> bool {
        true
    }

    open spec fn res_mut_spec(v: u64, x: u64) -> (u64, u64) {
        (x, x)
    }

    fn res_mut_call(v: &u64, x: u64) -> (r: (u64, u64)) {
        (x, x)
    }
}

/// Step: double when `ResA` was written at the current sequence.
pub struct CheckChanged;

impl crate::step::ReadFn<u64, u64, u64> for CheckChanged {
    open spec fn read_pre(w: World<u64>, x: u64) -> bool {
        audit_shape(w)
    }

    open spec fn read_spec(w: World<u64>, x: u64) -> u64 {
        if w@.changed[0] == w@.seq { wmul(x, 2) } else { x }
    }

    fn read_call(w: &World<u64>, x: u64) -> (r: u64) {
        if w.is_changed(ResourceId(0)) { x.wrapping_mul(2) } else { x }
    }
}

/// Step: double when `ResA` was written after sequence 0.
pub struct CheckSince;

impl crate::step::ReadFn<u64, u64, u64> for CheckSince {
    open spec fn read_pre(w: World<u64>, x: u64) -> bool {
        audit_shape(w)
    }

    open spec fn read_spec(w: World<u64>, x: u64) -> u64 {
        if w@.changed[0] > 0 { wmul(x, 2) } else { x }
    }

    fn read_call(w: &World<u64>, x: u64) -> (r: u64) {
        if w.changed_after(ResourceId(0), Sequence(0)) { x.wrapping_mul(2) } else { x }
    }
}

} // verus!
