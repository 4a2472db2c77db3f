//! Shared resources, world factory and step functions for the codegen
//! audit cases.
//!
//! The audit world holds integer resources in a `World<u64>`; each
//! resource type below names its key and the width of its value.
use vstd::prelude::*;
use crate::world::{World, WorldBuilder, ResourceId};

verus! {

/// Simple mutable counter.
pub struct ResA(pub u64);
/// Secondary resource for multi-param steps.
pub struct ResB(pub u32);
/// Third resource.
pub struct ResC(pub u16);
/// Fourth resource.
pub struct ResD(pub u8);
/// Sixth resource.
pub struct ResF(pub u64);
/// Seventh resource.
pub struct ResG(pub u32);
/// Eighth resource.
pub struct ResH(pub u16);

/// Key of [`ResA`].
pub const KEY_A: u64 = 0xA;
/// Key of [`ResB`].
pub const KEY_B: u64 = 0xB;
/// Key of [`ResC`].
pub const KEY_C: u64 = 0xC;
/// Key of [`ResD`].
pub const KEY_D: u64 = 0xD;
/// Key of [`ResF`].
pub const KEY_F: u64 = 0xF;
/// Key of [`ResG`].
pub const KEY_G: u64 = 0x10;
/// Key of [`ResH`].
pub const KEY_H: u64 = 0x11;

/// Id of [`ResA`] in the audit world.
pub open spec fn ida() -> ResourceId { ResourceId(0) }
/// Id of [`ResB`] in the audit world.
pub open spec fn idb() -> ResourceId { ResourceId(1) }
/// Id of [`ResC`] in the audit world.
pub open spec fn idc() -> ResourceId { ResourceId(2) }

/// The shape of the audit world: the seven resources, in registration
/// order A, B, C, D, F, G, H, with the value widths of their types.
pub open spec fn audit_world(w: World<u64>) -> bool {
    &&& audit_shape(w)
    &&& w@.values[1] <= u32::MAX
    &&& w@.values[2] <= u16::MAX
    &&& w@.values[3] <= u8::MAX
}

/// The audit world's resources are in place: the seven keys in
/// registration order A, B, C, D, F, G, H, so that the id at each position
/// names the resource the audit cases mean (`ResourceId(0)` is `ResA`, and
/// so on).
pub open spec fn audit_shape(w: World<u64>) -> bool {
    w@.keys == seq![KEY_A, KEY_B, KEY_C, KEY_D, KEY_F, KEY_G, KEY_H]
}

/// Build the audit world: A=100, B=50, C=25, D=10, F=200, G=75, H=12.
pub fn make_world() -> (w: World<u64>)
    ensures
        audit_world(w),
        w@.values == seq![100u64, 50, 25, 10, 200, 75, 12],
        w@.seq == 0,
{
    let mut wb: WorldBuilder<u64> = WorldBuilder::new();
    wb.register(KEY_A, 100);
    wb.register(KEY_B, 50);
    wb.register(KEY_C, 25);
    wb.register(KEY_D, 10);
    wb.register(KEY_F, 200);
    wb.register(KEY_G, 75);
    wb.register(KEY_H, 12);
    let w = wb.build();
    proof {
        assert(w@.keys =~= seq![KEY_A, KEY_B, KEY_C, KEY_D, KEY_F, KEY_G, KEY_H]);
        assert(w@.values =~= seq![100u64, 50, 25, 10, 200, 75, 12]);
    }
    w
}

/// `x + a` modulo 2^64.
pub open spec fn wadd(x: u64, a: u64) -> u64 {
    vstd::wrapping::u64_specs::wrapping_add(x, a)
}

/// `x * a` modulo 2^64.
pub open spec fn wmul(x: u64, a: u64) -> u64 {
    vstd::wrapping::u64_specs::wrapping_mul(x, a)
}

/// `x - a` modulo 2^64.
pub open spec fn wsub(x: u64, a: u64) -> u64 {
    vstd::wrapping::u64_specs::wrapping_sub(x, a)
}

// -- Arity 0: pure transforms -------------------------------------------------

/// `x + 1` (wrapping).
pub fn add_one(x: u64) -> (r: u64)
    ensures r == wadd(x, 1),
{
    x.wrapping_add(1)
}

/// `x * 2` (wrapping).
pub fn double(x: u64) -> (r: u64)
    ensures r == wmul(x, 2),
{
    x.wrapping_mul(2)
}

/// `x + 3` (wrapping).
pub fn add_three(x: u64) -> (r: u64)
    ensures r == wadd(x, 3),
{
    x.wrapping_add(3)
}

/// `x * x` (wrapping).
pub fn square(x: u64) -> (r: u64)
    ensures r == wmul(x, x),
{
    x.wrapping_mul(x)
}

/// `x - 10` (wrapping).
pub fn sub_ten(x: u64) -> (r: u64)
    ensures r == wsub(x, 10),
{
    x.wrapping_sub(10)
}

/// `x >> 1`.
pub fn shr_one(x: u64) -> (r: u64)
    ensures r == x / 2,
{
    assert(x >> 1 == x / 2) by (bit_vector);
    x >> 1
}

/// `x ^ 0xDEAD_BEEF`.
pub fn xor_mask(x: u64) -> (r: u64)
    ensures r == x ^ 0xDEAD_BEEF,
{
    x ^ 0xDEAD_BEEF
}

/// `x + 7` (wrapping).
pub fn add_seven(x: u64) -> (r: u64)
    ensures r == wadd(x, 7),
{
    x.wrapping_add(7)
}

/// `x * 3` (wrapping).
pub fn triple(x: u64) -> (r: u64)
    ensures r == wmul(x, 3),
{
    x.wrapping_mul(3)
}

/// `x + 42` (wrapping).
pub fn add_forty_two(x: u64) -> (r: u64)
    ensures r == wadd(x, 42),
{
    x.wrapping_add(42)
}

// -- Arity 1..3: resource reads and writes ------------------------------------

/// `x + a` (wrapping), `a` the value of [`ResA`].
pub fn add_res_a(a: &u64, x: u64) -> (r: u64)
    ensures r == wadd(x, *a),
{
    x.wrapping_add(*a)
}

/// `x * b` (wrapping), `b` the value of [`ResB`].
pub fn mul_res_b(b: &u64, x: u64) -> (r: u64)
    ensures r == wmul(x, *b),
{
    x.wrapping_mul(*b)
}

/// Add `x` into [`ResA`] (wrapping) and pass `x` on: returns the new
/// value of the resource and the output.
pub fn write_res_a(a: &u64, x: u64) -> (r: (u64, u64))
    ensures r == (wadd(*a, x), x),
{
    (a.wrapping_add(x), x)
}

/// `x + a + b` (wrapping).
pub fn add_both(a: &u64, b: &u64, x: u64) -> (r: u64)
    ensures r == wadd(wadd(x, *a), *b),
{
    x.wrapping_add(*a).wrapping_add(*b)
}

/// `x + a + b` (wrapping), from a view of the audit world.
pub fn add_both_w(w: &World<u64>, x: u64) -> (r: u64)
    requires audit_shape(*w),
    ensures r == wadd(wadd(x, w@.values[0]), w@.values[1]),
{
    let a = *w.get(ResourceId(0));
    let b = *w.get(ResourceId(1));
    add_both(&a, &b, x)
}

/// `x + a + b + c` (wrapping), from a view of the audit world.
pub fn three_params(w: &World<u64>, x: u64) -> (r: u64)
    requires audit_shape(*w),
    ensures r == wadd(wadd(wadd(x, w@.values[0]), w@.values[1]), w@.values[2]),
{
    let a = *w.get(ResourceId(0));
    let b = *w.get(ResourceId(1));
    let c = *w.get(ResourceId(2));
    x.wrapping_add(a).wrapping_add(b).wrapping_add(c)
}

/// `x + a + b + c + d` (wrapping), from a view of the audit world.
pub fn four_params(w: &World<u64>, x: u64) -> (r: u64)
    requires audit_shape(*w),
    ensures r == wadd(wadd(wadd(wadd(x, w@.values[0]), w@.values[1]), w@.values[2]), w@.values[3]),
{
    let a = *w.get(ResourceId(0));
    let b = *w.get(ResourceId(1));
    let c = *w.get(ResourceId(2));
    let d = *w.get(ResourceId(3));
    x.wrapping_add(a).wrapping_add(b).wrapping_add(c).wrapping_add(d)
}

// -- Option / Result / bool / tuple producers ---------------------------------

/// `Some(x)` when `x > 0`.
pub fn maybe_positive(x: u64) -> (r: Option<u64>)
    ensures r == (if x > 0 { Some(x) } else { None }),
{
    if x > 0 { Some(x) } else { None }
}

/// `Some(2x)` unless it overflows.
pub fn checked_double(x: u64) -> (r: Option<u64>)
    ensures r == (if x * 2 <= u64::MAX { Some((x * 2) as u64) } else { None }),
{
    x.checked_mul(2)
}

/// `Ok(2x)` (wrapping) below 10 000, otherwise `Err` of the low 32 bits.
pub fn try_parse(x: u64) -> (r: Result<u64, u32>)
    ensures r == (if x < 10_000 { Ok::<u64, u32>(wmul(x, 2)) } else { Err::<u64, u32>(x as u32) }),
{
    if x < 10_000 { Ok(x.wrapping_mul(2)) } else { Err(x as u32) }
}

/// `Ok(x)` when `x` is at most the value of [`ResA`], otherwise `Err` of
/// the low 32 bits.
pub fn validate(a: &u64, x: u64) -> (r: Result<u64, u32>)
    ensures r == (if x <= *a { Ok::<u64, u32>(x) } else { Err::<u64, u32>(x as u32) }),
{
    if x <= *a { Ok(x) } else { Err(x as u32) }
}

/// Whether `x` is even.
pub fn is_even(x: u64) -> (r: bool)
    ensures r == (x % 2 == 0),
{
    assert((x & 1 == 0) == (x % 2 == 0)) by (bit_vector);
    x & 1 == 0
}

/// Low and high halves of `x`.
pub fn split_u64(x: u64) -> (r: (u32, u32))
    ensures r == (x as u32, (x >> 32) as u32),
{
    (x as u32, (x >> 32) as u32)
}

/// `x` split into 32, 16 and 8 bit fields.
pub fn split_3(x: u64) -> (r: (u32, u16, u8))
    ensures r == (x as u32, (x >> 32) as u16, (x >> 48) as u8),
{
    (x as u32, (x >> 32) as u16, (x >> 48) as u8)
}

/// `x` split into 32, 16, 8 and 8 bit fields.
pub fn split_4(x: u64) -> (r: (u32, u16, u8, u8))
    ensures r == (x as u32, (x >> 32) as u16, (x >> 48) as u8, (x >> 56) as u8),
{
    (x as u32, (x >> 32) as u16, (x >> 48) as u8, (x >> 56) as u8)
}

/// `x` split into five fields.
pub fn split_5(x: u64) -> (r: (u32, u16, u8, u8, u8))
    ensures r == (x as u32, (x >> 32) as u16, (x >> 48) as u8, (x >> 52) as u8, (x >> 56) as u8),
{
    (x as u32, (x >> 32) as u16, (x >> 48) as u8, (x >> 52) as u8, (x >> 56) as u8)
}

// -- Sinks --------------------------------------------------------------------

/// Add `x` into [`ResA`] (wrapping).
pub fn consume_val(a: &u64, x: u64) -> (r: (u64, ()))
    ensures r.0 == wadd(*a, x),
{
    (a.wrapping_add(x), ())
}

/// Discard a unit.
pub fn consume_unit(x: ()) -> (r: ())
{
}

// -- By-reference steps -------------------------------------------------------

/// `*x + 1` (wrapping).
pub fn ref_add_one(x: &u64) -> (r: u64)
    ensures r == wadd(*x, 1),
{
    x.wrapping_add(1)
}

/// `*x * 2` (wrapping).
pub fn ref_double(x: &u64) -> (r: u64)
    ensures r == wmul(*x, 2),
{
    x.wrapping_mul(2)
}

/// `*x + 3` (wrapping).
pub fn ref_add_three(x: &u64) -> (r: u64)
    ensures r == wadd(*x, 3),
{
    x.wrapping_add(3)
}

/// `*x * *x` (wrapping).
pub fn ref_square(x: &u64) -> (r: u64)
    ensures r == wmul(*x, *x),
{
    x.wrapping_mul(*x)
}

/// `*x - 10` (wrapping).
pub fn ref_sub_ten(x: &u64) -> (r: u64)
    ensures r == wsub(*x, 10),
{
    x.wrapping_sub(10)
}

/// `*x >> 1`.
pub fn ref_shr_one(x: &u64) -> (r: u64)
    ensures r == *x / 2,
{
    let v = *x;
    assert(v >> 1 == v / 2) by (bit_vector);
    v >> 1
}

/// `*x ^ 0xDEAD_BEEF`.
pub fn ref_xor_mask(x: &u64) -> (r: u64)
    ensures r == *x ^ 0xDEAD_BEEF,
{
    *x ^ 0xDEAD_BEEF
}

/// `*x + 7` (wrapping).
pub fn ref_add_seven(x: &u64) -> (r: u64)
    ensures r == wadd(*x, 7),
{
    x.wrapping_add(7)
}

/// `*x * 3` (wrapping).
pub fn ref_triple(x: &u64) -> (r: u64)
    ensures r == wmul(*x, 3),
{
    x.wrapping_mul(3)
}

/// `*x + 42` (wrapping).
pub fn ref_add_forty_two(x: &u64) -> (r: u64)
    ensures r == wadd(*x, 42),
{
    x.wrapping_add(42)
}

/// `*x + a` (wrapping), `a` the value of [`ResA`].
pub fn ref_add_res_a(a: &u64, x: &u64) -> (r: u64)
    ensures r == wadd(*x, *a),
{
    x.wrapping_add(*a)
}

/// `*x * b` (wrapping), `b` the value of [`ResB`].
pub fn ref_mul_res_b(b: &u64, x: &u64) -> (r: u64)
    ensures r == wmul(*x, *b),
{
    x.wrapping_mul(*b)
}

/// Add `*x` into [`ResA`] and pass `*x` on.
pub fn ref_write_res_a(a: &u64, x: &u64) -> (r: (u64, u64))
    ensures r == (wadd(*a, *x), *x),
{
    (a.wrapping_add(*x), *x)
}

/// `*x + a + b + c` (wrapping), from a view of the audit world.
pub fn ref_three_params(w: &World<u64>, x: &u64) -> (r: u64)
    requires audit_shape(*w),
    ensures r == wadd(wadd(wadd(*x, w@.values[0]), w@.values[1]), w@.values[2]),
{
    three_params(w, *x)
}

/// `*x + a + b` (wrapping), from a view of the audit world.
pub fn ref_add_both(w: &World<u64>, x: &u64) -> (r: u64)
    requires audit_shape(*w),
    ensures r == wadd(wadd(*x, w@.values[0]), w@.values[1]),
{
    let a = *w.get(ResourceId(0));
    let b = *w.get(ResourceId(1));
    x.wrapping_add(a).wrapping_add(b)
}

/// `Some(*x)` when positive.
pub fn ref_maybe_positive(x: &u64) -> (r: Option<u64>)
    ensures r == (if *x > 0 { Some(*x) } else { None }),
{
    if *x > 0 { Some(*x) } else { None }
}

/// `Ok(2 * *x)` below 10 000, otherwise `Err` of the low 32 bits.
pub fn ref_try_parse(x: &u64) -> (r: Result<u64, u32>)
    ensures r == (if *x < 10_000 { Ok::<u64, u32>(wmul(*x, 2)) } else { Err::<u64, u32>(*x as u32) }),
{
    if *x < 10_000 { Ok(x.wrapping_mul(2)) } else { Err(*x as u32) }
}

/// Whether `*x` is even.
pub fn ref_is_even(x: &u64) -> (r: bool)
    ensures r == (*x % 2 == 0),
{
    is_even(*x)
}

/// Low and high halves of `*x`.
pub fn ref_split_u64(x: &u64) -> (r: (u32, u32))
    ensures r == (*x as u32, (*x >> 32) as u32),
{
    split_u64(*x)
}

/// `*x` split into 32, 16 and 8 bit fields.
pub fn ref_split_3(x: &u64) -> (r: (u32, u16, u8))
    ensures r == (*x as u32, (*x >> 32) as u16, (*x >> 48) as u8),
{
    split_3(*x)
}

/// `*x` split into five fields.
pub fn ref_split_5(x: &u64) -> (r: (u32, u16, u8, u8, u8))
    ensures r == (*x as u32, (*x >> 32) as u16, (*x >> 48) as u8, (*x >> 52) as u8, (*x >> 56) as u8),
{
    split_5(*x)
}

/// Add `*x` into [`ResA`].
pub fn ref_consume(a: &u64, x: &u64) -> (r: (u64, ()))
    ensures r.0 == wadd(*a, *x),
{
    (a.wrapping_add(*x), ())
}

/// Discard a borrowed unit.
pub fn ref_consume_unit(x: &()) -> (r: ())
{
}

// -- Merge steps --------------------------------------------------------------

/// `*a + *b` (wrapping).
pub fn merge_add(a: &u64, b: &u64) -> (r: u64)
    ensures r == wadd(*a, *b),
{
    a.wrapping_add(*b)
}

/// `*a * *b` (wrapping).
pub fn merge_mul(a: &u64, b: &u64) -> (r: u64)
    ensures r == wmul(*a, *b),
{
    a.wrapping_mul(*b)
}

/// `*a + *b + *c` (wrapping).
pub fn merge_3(a: &u64, b: &u64, c: &u64) -> (r: u64)
    ensures r == wadd(wadd(*a, *b), *c),
{
    a.wrapping_add(*b).wrapping_add(*c)
}

/// `*a + *b + *c + *d` (wrapping).
pub fn merge_4(a: &u64, b: &u64, c: &u64, d: &u64) -> (r: u64)
    ensures r == wadd(wadd(wadd(*a, *b), *c), *d),
{
    a.wrapping_add(*b).wrapping_add(*c).wrapping_add(*d)
}

/// Store `*a + *b` into [`ResA`].
pub fn merge_consume(w: &u64, a: &u64, b: &u64) -> (r: (u64, ()))
    ensures r.0 == wadd(*a, *b),
{
    (a.wrapping_add(*b), ())
}

/// Store `*a + *b + *c` into [`ResA`].
pub fn merge_3_consume(w: &u64, a: &u64, b: &u64, c: &u64) -> (r: (u64, ()))
    ensures r.0 == wadd(wadd(*a, *b), *c),
{
    (a.wrapping_add(*b).wrapping_add(*c), ())
}

// -- Splat steps --------------------------------------------------------------

/// `a + b`.
pub fn splat_add(a: u32, b: u32) -> (r: u64)
    ensures r == a + b,
{
    a as u64 + b as u64
}

/// `a + b + c`.
pub fn splat_3(a: u32, b: u16, c: u8) -> (r: u64)
    ensures r == a + b + c,
{
    a as u64 + b as u64 + c as u64
}

/// `a + b + c + d`.
pub fn splat_4(a: u32, b: u16, c: u8, d: u8) -> (r: u64)
    ensures r == a + b + c + d,
{
    a as u64 + b as u64 + c as u64 + d as u64
}

/// `a + b + c + d + e`.
pub fn splat_5(a: u32, b: u16, c: u8, d: u8, e: u8) -> (r: u64)
    ensures r == a + b + c + d + e,
{
    a as u64 + b as u64 + c as u64 + d as u64 + e as u64
}

/// `*a + *b`.
pub fn ref_splat_add(a: &u32, b: &u32) -> (r: u64)
    ensures r == *a + *b,
{
    *a as u64 + *b as u64
}

/// `*a + *b + *c`.
pub fn ref_splat_3(a: &u32, b: &u16, c: &u8) -> (r: u64)
    ensures r == *a + *b + *c,
{
    *a as u64 + *b as u64 + *c as u64
}

/// `*a + *b + *c + *d + *e`.
pub fn ref_splat_5(a: &u32, b: &u16, c: &u8, d: &u8, e: &u8) -> (r: u64)
    ensures r == *a + *b + *c + *d + *e,
{
    *a as u64 + *b as u64 + *c as u64 + *d as u64 + *e as u64
}

} // verus!

verus! {

/// The ten-step linear chain: add one, double, add three, square, subtract
/// ten, halve, xor the mask, add seven, triple, add forty-two.
pub open spec fn lin10(x: u64) -> u64 {
    wadd(wmul(wadd(wsub(wmul(wadd(wmul(wadd(x, 1), 2), 3), wadd(wmul(wadd(x, 1), 2), 3)), 10) / 2 ^ 0xDEAD_BEEF, 7), 3), 42)
}

} // verus!

verus! {

// -- Step markers: each names a helper above as a verified step ----------------

/// [`add_one`] as a step.
pub struct AddOne;

impl crate::step::PureFn<u64, u64> for AddOne {
    open spec fn pure_pre(x: u64) -> bool {
        true
    }

    open spec fn pure_spec(x: u64) -> u64 {
        wadd(x, 1)
    }

    fn pure_call(x: u64) -> (r: u64) {
        add_one(x)
    }
}

/// [`double`] as a step.
pub struct Double;

impl crate::step::PureFn<u64, u64> for Double {
    open spec fn pure_pre(x: u64) -> bool {
        true
    }

    open spec fn pure_spec(x: u64) -> u64 {
        wmul(x, 2)
    }

    fn pure_call(x: u64) -> (r: u64) {
        double(x)
    }
}

/// [`add_three`] as a step.
pub struct AddThree;

impl crate::step::PureFn<u64, u64> for AddThree {
    open spec fn pure_pre(x: u64) -> bool {
        true
    }

    open spec fn pure_spec(x: u64) -> u64 {
        wadd(x, 3)
    }

    fn pure_call(x: u64) -> (r: u64) {
        add_three(x)
    }
}

/// [`square`] as a step.
pub struct Square;

impl crate::step::PureFn<u64, u64> for Square {
    open spec fn pure_pre(x: u64) -> bool {
        true
    }

    open spec fn pure_spec(x: u64) -> u64 {
        wmul(x, x)
    }

    fn pure_call(x: u64) -> (r: u64) {
        square(x)
    }
}

/// [`sub_ten`] as a step.
pub struct SubTen;

impl crate::step::PureFn<u64, u64> for SubTen {
    open spec fn pure_pre(x: u64) -> bool {
        true
    }

    open spec fn pure_spec(x: u64) -> u64 {
        wsub(x, 10)
    }

    fn pure_call(x: u64) -> (r: u64) {
        sub_ten(x)
    }
}

/// [`shr_one`] as a step.
pub struct ShrOne;

impl crate::step::PureFn<u64, u64> for ShrOne {
    open spec fn pure_pre(x: u64) -> bool {
        true
    }

    open spec fn pure_spec(x: u64) -> u64 {
        x / 2
    }

    fn pure_call(x: u64) -> (r: u64) {
        shr_one(x)
    }
}

/// [`xor_mask`] as a step.
pub struct XorMask;

impl crate::step::PureFn<u64, u64> for XorMask {
    open spec fn pure_pre(x: u64) -> bool {
        true
    }

    open spec fn pure_spec(x: u64) -> u64 {
        x ^ 0xDEAD_BEEF
    }

    fn pure_call(x: u64) -> (r: u64) {
        xor_mask(x)
    }
}

/// [`add_seven`] as a step.
pub struct AddSeven;

impl crate::step::PureFn<u64, u64> for AddSeven {
    open spec fn pure_pre(x: u64) -> bool {
        true
    }

    open spec fn pure_spec(x: u64) -> u64 {
        wadd(x, 7)
    }

    fn pure_call(x: u64) -> (r: u64) {
        add_seven(x)
    }
}

/// [`triple`] as a step.
pub struct Triple;

impl crate::step::PureFn<u64, u64> for Triple {
    open spec fn pure_pre(x: u64) -> bool {
        true
    }

    open spec fn pure_spec(x: u64) -> u64 {
        wmul(x, 3)
    }

    fn pure_call(x: u64) -> (r: u64) {
        triple(x)
    }
}

/// [`add_forty_two`] as a step.
pub struct AddFortyTwo;

impl crate::step::PureFn<u64, u64> for AddFortyTwo {
    open spec fn pure_pre(x: u64) -> bool {
        true
    }

    open spec fn pure_spec(x: u64) -> u64 {
        wadd(x, 42)
    }

    fn pure_call(x: u64) -> (r: u64) {
        add_forty_two(x)
    }
}

/// [`add_res_a`] as a step.
pub struct AddResA;

impl crate::step::ResFn<u64, u64, u64> for AddResA {
    open spec fn res_pre(v: u64, x: u64) -> bool {
        true
    }

    open spec fn res_spec(v: u64, x: u64) -> u64 {
        wadd(x, v)
    }

    fn res_call(v: &u64, x: u64) -> (r: u64) {
        add_res_a(v, x)
    }
}

/// [`mul_res_b`] as a step.
pub struct MulResB;

impl crate::step::ResFn<u64, u64, u64> for MulResB {
    open spec fn res_pre(v: u64, x: u64) -> bool {
        true
    }

    open spec fn res_spec(v: u64, x: u64) -> u64 {
        wmul(x, v)
    }

    fn res_call(v: &u64, x: u64) -> (r: u64) {
        mul_res_b(v, x)
    }
}

/// [`write_res_a`] as a step.
pub struct WriteResA;

impl crate::step::ResMutFn<u64, u64, u64> for WriteResA {
    open spec fn res_mut_pre(v: u64, x: u64) -> bool {
        true
    }

    open spec fn res_mut_spec(v: u64, x: u64) -> (u64, u64) {
        (wadd(v, x), x)
    }

    fn res_mut_call(v: &u64, x: u64) -> (r: (u64, u64)) {
        write_res_a(v, x)
    }
}

/// [`add_both_w`] as a step.
pub struct AddBoth;

impl crate::step::ReadFn<u64, u64, u64> for AddBoth {
    open spec fn read_pre(w: World<u64>, x: u64) -> bool {
        audit_shape(w)
    }

    open spec fn read_spec(w: World<u64>, x: u64) -> u64 {
        wadd(wadd(x, w@.values[0]), w@.values[1])
    }

    fn read_call(w: &World<u64>, x: u64) -> (r: u64) {
        add_both_w(w, x)
    }
}

/// [`three_params`] as a step.
pub struct ThreeParams;

impl crate::step::ReadFn<u64, u64, u64> for ThreeParams {
    open spec fn read_pre(w: World<u64>, x: u64) -> bool {
        audit_shape(w)
    }

    open spec fn read_spec(w: World<u64>, x: u64) -> u64 {
        wadd(wadd(wadd(x, w@.values[0]), w@.values[1]), w@.values[2])
    }

    fn read_call(w: &World<u64>, x: u64) -> (r: u64) {
        three_params(w, x)
    }
}

/// [`four_params`] as a step.
pub struct FourParams;

impl crate::step::ReadFn<u64, u64, u64> for FourParams {
    open spec fn read_pre(w: World<u64>, x: u64) -> bool {
        audit_shape(w)
    }

    open spec fn read_spec(w: World<u64>, x: u64) -> u64 {
        wadd(wadd(wadd(wadd(x, w@.values[0]), w@.values[1]), w@.values[2]), w@.values[3])
    }

    fn read_call(w: &World<u64>, x: u64) -> (r: u64) {
        four_params(w, x)
    }
}

/// [`maybe_positive`] as a step.
pub struct MaybePositive;

impl crate::step::PureFn<u64, Option<u64>> for MaybePositive {
    open spec fn pure_pre(x: u64) -> bool {
        true
    }

    open spec fn pure_spec(x: u64) -> Option<u64> {
        if x > 0 { Some(x) } else { None }
    }

    fn pure_call(x: u64) -> (r: Option<u64>) {
        maybe_positive(x)
    }
}

/// [`checked_double`] as a step.
pub struct CheckedDouble;

impl crate::step::PureFn<u64, Option<u64>> for CheckedDouble {
    open spec fn pure_pre(x: u64) -> bool {
        true
    }

    open spec fn pure_spec(x: u64) -> Option<u64> {
        if x * 2 <= u64::MAX { Some((x * 2) as u64) } else { None }
    }

    fn pure_call(x: u64) -> (r: Option<u64>) {
        checked_double(x)
    }
}

/// [`try_parse`] as a step.
pub struct TryParse;

impl crate::step::PureFn<u64, Result<u64, u32>> for TryParse {
    open spec fn pure_pre(x: u64) -> bool {
        true
    }

    open spec fn pure_spec(x: u64) -> Result<u64, u32> {
        if x < 10_000 { Ok::<u64, u32>(wmul(x, 2)) } else { Err::<u64, u32>(x as u32) }
    }

    fn pure_call(x: u64) -> (r: Result<u64, u32>) {
        try_parse(x)
    }
}

/// [`validate`] as a step.
pub struct Validate;

impl crate::step::ResFn<u64, u64, Result<u64, u32>> for Validate {
    open spec fn res_pre(v: u64, x: u64) -> bool {
        true
    }

    open spec fn res_spec(v: u64, x: u64) -> Result<u64, u32> {
        if x <= v { Ok::<u64, u32>(x) } else { Err::<u64, u32>(x as u32) }
    }

    fn res_call(v: &u64, x: u64) -> (r: Result<u64, u32>) {
        validate(v, x)
    }
}

/// [`is_even`] as a step.
pub struct IsEven;

impl crate::step::PureFn<u64, bool> for IsEven {
    open spec fn pure_pre(x: u64) -> bool {
        true
    }

    open spec fn pure_spec(x: u64) -> bool {
        x % 2 == 0
    }

    fn pure_call(x: u64) -> (r: bool) {
        is_even(x)
    }
}

/// [`split_u64`] as a step.
pub struct SplitU64;

impl crate::step::PureFn<u64, (u32, u32)> for SplitU64 {
    open spec fn pure_pre(x: u64) -> bool {
        true
    }

    open spec fn pure_spec(x: u64) -> (u32, u32) {
        (x as u32, (x >> 32) as u32)
    }

    fn pure_call(x: u64) -> (r: (u32, u32)) {
        split_u64(x)
    }
}

/// [`split_3`] as a step.
pub struct Split3;

impl crate::step::PureFn<u64, (u32, u16, u8)> for Split3 {
    open spec fn pure_pre(x: u64) -> bool {
        true
    }

    open spec fn pure_spec(x: u64) -> (u32, u16, u8) {
        (x as u32, (x >> 32) as u16, (x >> 48) as u8)
    }

    fn pure_call(x: u64) -> (r: (u32, u16, u8)) {
        split_3(x)
    }
}

/// [`split_4`] as a step.
pub struct Split4;

impl crate::step::PureFn<u64, (u32, u16, u8, u8)> for Split4 {
    open spec fn pure_pre(x: u64) -> bool {
        true
    }

    open spec fn pure_spec(x: u64) -> (u32, u16, u8, u8) {
        (x as u32, (x >> 32) as u16, (x >> 48) as u8, (x >> 56) as u8)
    }

    fn pure_call(x: u64) -> (r: (u32, u16, u8, u8)) {
        split_4(x)
    }
}

/// [`split_5`] as a step.
pub struct Split5;

impl crate::step::PureFn<u64, (u32, u16, u8, u8, u8)> for Split5 {
    open spec fn pure_pre(x: u64) -> bool {
        true
    }

    open spec fn pure_spec(x: u64) -> (u32, u16, u8, u8, u8) {
        (x as u32, (x >> 32) as u16, (x >> 48) as u8, (x >> 52) as u8, (x >> 56) as u8)
    }

    fn pure_call(x: u64) -> (r: (u32, u16, u8, u8, u8)) {
        split_5(x)
    }
}

/// [`consume_val`] as a step.
pub struct ConsumeVal;

impl crate::step::ResMutFn<u64, u64, ()> for ConsumeVal {
    open spec fn res_mut_pre(v: u64, x: u64) -> bool {
        true
    }

    open spec fn res_mut_spec(v: u64, x: u64) -> (u64, ()) {
        (wadd(v, x), ())
    }

    fn res_mut_call(v: &u64, x: u64) -> (r: (u64, ())) {
        consume_val(v, x)
    }
}

/// [`consume_unit`] as a step.
pub struct ConsumeUnit;

impl crate::step::PureFn<(), ()> for ConsumeUnit {
    open spec fn pure_pre(x: ()) -> bool {
        true
    }

    open spec fn pure_spec(x: ()) -> () {
        ()
    }

    fn pure_call(x: ()) -> (r: ()) {
        consume_unit(x)
    }
}

/// [`ref_add_one`] as a step.
pub struct RefAddOne;

impl crate::step::RefPureFn<u64, u64> for RefAddOne {
    open spec fn ref_pure_pre(x: u64) -> bool {
        true
    }

    open spec fn ref_pure_spec(x: u64) -> u64 {
        wadd(x, 1)
    }

    fn ref_pure_call(x: &u64) -> (r: u64) {
        ref_add_one(x)
    }
}

/// [`ref_double`] as a step.
pub struct RefDouble;

impl crate::step::RefPureFn<u64, u64> for RefDouble {
    open spec fn ref_pure_pre(x: u64) -> bool {
        true
    }

    open spec fn ref_pure_spec(x: u64) -> u64 {
        wmul(x, 2)
    }

    fn ref_pure_call(x: &u64) -> (r: u64) {
        ref_double(x)
    }
}

/// [`ref_add_three`] as a step.
pub struct RefAddThree;

impl crate::step::RefPureFn<u64, u64> for RefAddThree {
    open spec fn ref_pure_pre(x: u64) -> bool {
        true
    }

    open spec fn ref_pure_spec(x: u64) -> u64 {
        wadd(x, 3)
    }

    fn ref_pure_call(x: &u64) -> (r: u64) {
        ref_add_three(x)
    }
}

/// [`ref_square`] as a step.
pub struct RefSquare;

impl crate::step::RefPureFn<u64, u64> for RefSquare {
    open spec fn ref_pure_pre(x: u64) -> bool {
        true
    }

    open spec fn ref_pure_spec(x: u64) -> u64 {
        wmul(x, x)
    }

    fn ref_pure_call(x: &u64) -> (r: u64) {
        ref_square(x)
    }
}

/// [`ref_sub_ten`] as a step.
pub struct RefSubTen;

impl crate::step::RefPureFn<u64, u64> for RefSubTen {
    open spec fn ref_pure_pre(x: u64) -> bool {
        true
    }

    open spec fn ref_pure_spec(x: u64) -> u64 {
        wsub(x, 10)
    }

    fn ref_pure_call(x: &u64) -> (r: u64) {
        ref_sub_ten(x)
    }
}

/// [`ref_shr_one`] as a step.
pub struct RefShrOne;

impl crate::step::RefPureFn<u64, u64> for RefShrOne {
    open spec fn ref_pure_pre(x: u64) -> bool {
        true
    }

    open spec fn ref_pure_spec(x: u64) -> u64 {
        x / 2
    }

    fn ref_pure_call(x: &u64) -> (r: u64) {
        ref_shr_one(x)
    }
}

/// [`ref_xor_mask`] as a step.
pub struct RefXorMask;

impl crate::step::RefPureFn<u64, u64> for RefXorMask {
    open spec fn ref_pure_pre(x: u64) -> bool {
        true
    }

    open spec fn ref_pure_spec(x: u64) -> u64 {
        x ^ 0xDEAD_BEEF
    }

    fn ref_pure_call(x: &u64) -> (r: u64) {
        ref_xor_mask(x)
    }
}

/// [`ref_add_seven`] as a step.
pub struct RefAddSeven;

impl crate::step::RefPureFn<u64, u64> for RefAddSeven {
    open spec fn ref_pure_pre(x: u64) -> bool {
        true
    }

    open spec fn ref_pure_spec(x: u64) -> u64 {
        wadd(x, 7)
    }

    fn ref_pure_call(x: &u64) -> (r: u64) {
        ref_add_seven(x)
    }
}

/// [`ref_triple`] as a step.
pub struct RefTriple;

impl crate::step::RefPureFn<u64, u64> for RefTriple {
    open spec fn ref_pure_pre(x: u64) -> bool {
        true
    }

    open spec fn ref_pure_spec(x: u64) -> u64 {
        wmul(x, 3)
    }

    fn ref_pure_call(x: &u64) -> (r: u64) {
        ref_triple(x)
    }
}

/// [`ref_add_forty_two`] as a step.
pub struct RefAddFortyTwo;

impl crate::step::RefPureFn<u64, u64> for RefAddFortyTwo {
    open spec fn ref_pure_pre(x: u64) -> bool {
        true
    }

    open spec fn ref_pure_spec(x: u64) -> u64 {
        wadd(x, 42)
    }

    fn ref_pure_call(x: &u64) -> (r: u64) {
        ref_add_forty_two(x)
    }
}

/// [`ref_add_res_a`] as a step.
pub struct RefAddResA;

impl crate::step::RefResFn<u64, u64, u64> for RefAddResA {
    open spec fn ref_res_pre(v: u64, x: u64) -> bool {
        true
    }

    open spec fn ref_res_spec(v: u64, x: u64) -> u64 {
        wadd(x, v)
    }

    fn ref_res_call(v: &u64, x: &u64) -> (r: u64) {
        ref_add_res_a(v, x)
    }
}

/// [`ref_mul_res_b`] as a step.
pub struct RefMulResB;

impl crate::step::RefResFn<u64, u64, u64> for RefMulResB {
    open spec fn ref_res_pre(v: u64, x: u64) -> bool {
        true
    }

    open spec fn ref_res_spec(v: u64, x: u64) -> u64 {
        wmul(x, v)
    }

    fn ref_res_call(v: &u64, x: &u64) -> (r: u64) {
        ref_mul_res_b(v, x)
    }
}

/// [`ref_write_res_a`] as a step.
pub struct RefWriteResA;

impl crate::step::RefResMutFn<u64, u64, u64> for RefWriteResA {
    open spec fn ref_res_mut_pre(v: u64, x: u64) -> bool {
        true
    }

    open spec fn ref_res_mut_spec(v: u64, x: u64) -> (u64, u64) {
        (wadd(v, x), x)
    }

    fn ref_res_mut_call(v: &u64, x: &u64) -> (r: (u64, u64)) {
        ref_write_res_a(v, x)
    }
}

/// [`ref_add_both`] as a step.
pub struct RefAddBoth;

impl crate::step::RefReadFn<u64, u64, u64> for RefAddBoth {
    open spec fn ref_read_pre(w: World<u64>, x: u64) -> bool {
        audit_shape(w)
    }

    open spec fn ref_read_spec(w: World<u64>, x: u64) -> u64 {
        wadd(wadd(x, w@.values[0]), w@.values[1])
    }

    fn ref_read_call(w: &World<u64>, x: &u64) -> (r: u64) {
        ref_add_both(w, x)
    }
}

/// [`ref_three_params`] as a step.
pub struct RefThreeParams;

impl crate::step::RefReadFn<u64, u64, u64> for RefThreeParams {
    open spec fn ref_read_pre(w: World<u64>, x: u64) -> bool {
        audit_shape(w)
    }

    open spec fn ref_read_spec(w: World<u64>, x: u64) -> u64 {
        wadd(wadd(wadd(x, w@.values[0]), w@.values[1]), w@.values[2])
    }

    fn ref_read_call(w: &World<u64>, x: &u64) -> (r: u64) {
        ref_three_params(w, x)
    }
}

/// [`ref_maybe_positive`] as a step.
pub struct RefMaybePositive;

impl crate::step::RefPureFn<u64, Option<u64>> for RefMaybePositive {
    open spec fn ref_pure_pre(x: u64) -> bool {
        true
    }

    open spec fn ref_pure_spec(x: u64) -> Option<u64> {
        if x > 0 { Some(x) } else { None }
    }

    fn ref_pure_call(x: &u64) -> (r: Option<u64>) {
        ref_maybe_positive(x)
    }
}

/// [`ref_try_parse`] as a step.
pub struct RefTryParse;

impl crate::step::RefPureFn<u64, Result<u64, u32>> for RefTryParse {
    open spec fn ref_pure_pre(x: u64) -> bool {
        true
    }

    open spec fn ref_pure_spec(x: u64) -> Result<u64, u32> {
        if x < 10_000 { Ok::<u64, u32>(wmul(x, 2)) } else { Err::<u64, u32>(x as u32) }
    }

    fn ref_pure_call(x: &u64) -> (r: Result<u64, u32>) {
        ref_try_parse(x)
    }
}

/// [`ref_is_even`] as a step.
pub struct RefIsEven;

impl crate::step::RefPureFn<u64, bool> for RefIsEven {
    open spec fn ref_pure_pre(x: u64) -> bool {
        true
    }

    open spec fn ref_pure_spec(x: u64) -> bool {
        x % 2 == 0
    }

    fn ref_pure_call(x: &u64) -> (r: bool) {
        ref_is_even(x)
    }
}

/// [`ref_split_u64`] as a step.
pub struct RefSplitU64;

impl crate::step::RefPureFn<u64, (u32, u32)> for RefSplitU64 {
    open spec fn ref_pure_pre(x: u64) -> bool {
        true
    }

    open spec fn ref_pure_spec(x: u64) -> (u32, u32) {
        (x as u32, (x >> 32) as u32)
    }

    fn ref_pure_call(x: &u64) -> (r: (u32, u32)) {
        ref_split_u64(x)
    }
}

/// [`ref_split_3`] as a step.
pub struct RefSplit3;

impl crate::step::RefPureFn<u64, (u32, u16, u8)> for RefSplit3 {
    open spec fn ref_pure_pre(x: u64) -> bool {
        true
    }

    open spec fn ref_pure_spec(x: u64) -> (u32, u16, u8) {
        (x as u32, (x >> 32) as u16, (x >> 48) as u8)
    }

    fn ref_pure_call(x: &u64) -> (r: (u32, u16, u8)) {
        ref_split_3(x)
    }
}

/// [`ref_split_5`] as a step.
pub struct RefSplit5;

impl crate::step::RefPureFn<u64, (u32, u16, u8, u8, u8)> for RefSplit5 {
    open spec fn ref_pure_pre(x: u64) -> bool {
        true
    }

    open spec fn ref_pure_spec(x: u64) -> (u32, u16, u8, u8, u8) {
        (x as u32, (x >> 32) as u16, (x >> 48) as u8, (x >> 52) as u8, (x >> 56) as u8)
    }

    fn ref_pure_call(x: &u64) -> (r: (u32, u16, u8, u8, u8)) {
        ref_split_5(x)
    }
}

/// [`ref_consume`] as a step.
pub struct RefConsume;

impl crate::step::RefResMutFn<u64, u64, ()> for RefConsume {
    open spec fn ref_res_mut_pre(v: u64, x: u64) -> bool {
        true
    }

    open spec fn ref_res_mut_spec(v: u64, x: u64) -> (u64, ()) {
        (wadd(v, x), ())
    }

    fn ref_res_mut_call(v: &u64, x: &u64) -> (r: (u64, ())) {
        ref_consume(v, x)
    }
}

/// [`ref_consume_unit`] as a step.
pub struct RefConsumeUnit;

impl crate::step::RefPureFn<(), ()> for RefConsumeUnit {
    open spec fn ref_pure_pre(x: ()) -> bool {
        true
    }

    open spec fn ref_pure_spec(x: ()) -> () {
        ()
    }

    fn ref_pure_call(x: &()) -> (r: ()) {
        ref_consume_unit(x)
    }
}

/// Hand a borrowed value on unchanged.
pub struct PassRef;

impl<'a> crate::step::PureFn<&'a u64, &'a u64> for PassRef {
    open spec fn pure_pre(x: &'a u64) -> bool {
        true
    }

    open spec fn pure_spec(x: &'a u64) -> &'a u64 {
        x
    }

    fn pure_call(x: &'a u64) -> (r: &'a u64) {
        x
    }
}

/// The borrow when the value is positive.
pub struct MaybeBorrowed;

impl<'a> crate::step::PureFn<&'a u64, Option<&'a u64>> for MaybeBorrowed {
    open spec fn pure_pre(x: &'a u64) -> bool {
        true
    }

    open spec fn pure_spec(x: &'a u64) -> Option<&'a u64> {
        if *x > 0 { Some(x) } else { None }
    }

    fn pure_call(x: &'a u64) -> (r: Option<&'a u64>) {
        if *x > 0 { Some(x) } else { None }
    }
}

/// The borrow when the value is below 10 000, else the value as an error code.
pub struct TryBorrowed;

impl<'a> crate::step::PureFn<&'a u64, Result<&'a u64, u32>> for TryBorrowed {
    open spec fn pure_pre(x: &'a u64) -> bool {
        true
    }

    open spec fn pure_spec(x: &'a u64) -> Result<&'a u64, u32> {
        if *x < 10_000 { Ok(x) } else { Err(*x as u32) }
    }

    fn pure_call(x: &'a u64) -> (r: Result<&'a u64, u32>) {
        if *x < 10_000 { Ok(x) } else { Err(*x as u32) }
    }
}

/// `n` zero bytes with `b` in front.
pub open spec fn first_byte(b: u8, n: nat) -> Seq<u8> {
    Seq::new(n, |i: int| if i == 0 { b } else { 0u8 })
}

/// Two 64-byte arrays holding the low byte of `x` and its second byte in front.
pub fn make_pair(x: u64) -> (r: ([u8; 64], [u8; 64]))
    ensures r.0@ == first_byte(x as u8, 64), r.1@ == first_byte((x >> 8) as u8, 64),
{
    let mut a = [0u8; 64];
    let mut b = [0u8; 64];
    a[0] = x as u8;
    b[0] = (x >> 8) as u8;
    assert(a@ =~= first_byte(x as u8, 64));
    assert(b@ =~= first_byte((x >> 8) as u8, 64));
    (a, b)
}

/// The sum of the two front bytes.
pub fn combine_pair(a: [u8; 64], b: [u8; 64]) -> (r: u64)
    ensures r == a@[0] + b@[0],
{
    a[0] as u64 + b[0] as u64
}

/// A 4096-byte array holding the low byte of `x` in front.
pub fn make_large(x: u64) -> (r: [u8; 4096])
    ensures r@ == first_byte(x as u8, 4096),
{
    let mut arr = [0u8; 4096];
    arr[0] = x as u8;
    assert(arr@ =~= first_byte(x as u8, 4096));
    arr
}

/// The array with its second byte set to the first plus one (wrapping).
pub fn touch_large(x: [u8; 4096]) -> (r: [u8; 4096])
    ensures r@ == x@.update(1, vstd::wrapping::u8_specs::wrapping_add(x@[0], 1)),
{
    let mut out = x;
    out[1] = out[0].wrapping_add(1);
    assert(out@ =~= x@.update(1, vstd::wrapping::u8_specs::wrapping_add(x@[0], 1)));
    out
}

/// Whether the front byte is set.
pub fn first_byte_set(x: &[u8; 256]) -> (r: bool)
    ensures r == (x@[0] > 0),
{
    x[0] > 0
}

/// 64 zero bytes with `b` in front, as an array.
pub open spec fn bytes_64(b: u8) -> [u8; 64] {
    vstd::array::spec_array_update(vstd::array::spec_array_fill_for_copy_type::<u8, 64>(0u8), 0, b)
}

/// 4096 zero bytes with `b` in front, as an array.
pub open spec fn bytes_4096(b: u8) -> [u8; 4096] {
    vstd::array::spec_array_update(vstd::array::spec_array_fill_for_copy_type::<u8, 4096>(0u8), 0, b)
}

/// An array is the one its bytes say.
proof fn lemma_bytes_64(a: [u8; 64], b: u8)
    requires a@ == first_byte(b, 64),
    ensures a == bytes_64(b),
{
    assert(bytes_64(b)@ =~= first_byte(b, 64));
    assert(a =~= bytes_64(b));
}

/// An array is the one its bytes say.
proof fn lemma_bytes_4096(a: [u8; 4096], b: u8)
    requires a@ == first_byte(b, 4096),
    ensures a == bytes_4096(b),
{
    assert(bytes_4096(b)@ =~= first_byte(b, 4096));
    assert(a =~= bytes_4096(b));
}

/// [`make_pair`] as a step.
pub struct MakePair;

impl crate::step::PureFn<u64, ([u8; 64], [u8; 64])> for MakePair {
    open spec fn pure_pre(x: u64) -> bool {
        true
    }

    open spec fn pure_spec(x: u64) -> ([u8; 64], [u8; 64]) {
        (bytes_64(x as u8), bytes_64((x >> 8) as u8))
    }

    fn pure_call(x: u64) -> (r: ([u8; 64], [u8; 64])) {
        let r = make_pair(x);
        proof {
            lemma_bytes_64(r.0, x as u8);
            lemma_bytes_64(r.1, (x >> 8) as u8);
        }
        r
    }
}

/// [`combine_pair`] as a step over the split pair.
pub struct CombinePair;

impl crate::step::PureFn<([u8; 64], [u8; 64]), u64> for CombinePair {
    open spec fn pure_pre(x: ([u8; 64], [u8; 64])) -> bool {
        true
    }

    open spec fn pure_spec(x: ([u8; 64], [u8; 64])) -> u64 {
        (x.0@[0] + x.1@[0]) as u64
    }

    fn pure_call(x: ([u8; 64], [u8; 64])) -> (r: u64) {
        combine_pair(x.0, x.1)
    }
}

/// [`make_large`] as a step.
pub struct MakeLarge;

impl crate::step::PureFn<u64, [u8; 4096]> for MakeLarge {
    open spec fn pure_pre(x: u64) -> bool {
        true
    }

    open spec fn pure_spec(x: u64) -> [u8; 4096] {
        bytes_4096(x as u8)
    }

    fn pure_call(x: u64) -> (r: [u8; 4096]) {
        let r = make_large(x);
        proof {
            lemma_bytes_4096(r, x as u8);
        }
        r
    }
}

/// [`touch_large`] as a step.
pub struct TouchLarge;

impl crate::step::PureFn<[u8; 4096], [u8; 4096]> for TouchLarge {
    open spec fn pure_pre(x: [u8; 4096]) -> bool {
        true
    }

    open spec fn pure_spec(x: [u8; 4096]) -> [u8; 4096] {
        vstd::array::spec_array_update(x, 1, vstd::wrapping::u8_specs::wrapping_add(x@[0], 1))
    }

    fn pure_call(x: [u8; 4096]) -> (r: [u8; 4096]) {
        let r = touch_large(x);
        assert(r =~= vstd::array::spec_array_update(x, 1, vstd::wrapping::u8_specs::wrapping_add(x@[0], 1)));
        r
    }
}

/// The 256-byte array passed on unchanged.
pub struct SameBytes;

impl crate::step::PureFn<[u8; 256], [u8; 256]> for SameBytes {
    open spec fn pure_pre(x: [u8; 256]) -> bool {
        true
    }

    open spec fn pure_spec(x: [u8; 256]) -> [u8; 256] {
        x
    }

    fn pure_call(x: [u8; 256]) -> (r: [u8; 256]) {
        x
    }
}

/// [`first_byte_set`] as a guard.
pub struct FirstByteSet;

impl crate::step::RefPureFn<[u8; 256], bool> for FirstByteSet {
    open spec fn ref_pure_pre(x: [u8; 256]) -> bool {
        true
    }

    open spec fn ref_pure_spec(x: [u8; 256]) -> bool {
        x@[0] > 0
    }

    fn ref_pure_call(x: &[u8; 256]) -> (r: bool) {
        first_byte_set(x)
    }
}

/// Adds the event into `ResB`, in that resource's 32-bit width.
pub struct RefSinkB;

impl crate::step::RefResMutFn<u64, u64, ()> for RefSinkB {
    open spec fn ref_res_mut_pre(v: u64, x: u64) -> bool {
        true
    }

    open spec fn ref_res_mut_spec(v: u64, x: u64) -> (u64, ()) {
        (vstd::wrapping::u32_specs::wrapping_add(v as u32, x as u32) as u64, ())
    }

    fn ref_res_mut_call(v: &u64, x: &u64) -> (r: (u64, ())) {
        ((*v as u32).wrapping_add(*x as u32) as u64, ())
    }
}

/// Adds the event into `ResC`, in that resource's 16-bit width.
pub struct RefSinkC;

impl crate::step::RefResMutFn<u64, u64, ()> for RefSinkC {
    open spec fn ref_res_mut_pre(v: u64, x: u64) -> bool {
        true
    }

    open spec fn ref_res_mut_spec(v: u64, x: u64) -> (u64, ()) {
        (vstd::wrapping::u16_specs::wrapping_add(v as u16, x as u16) as u64, ())
    }

    fn ref_res_mut_call(v: &u64, x: &u64) -> (r: (u64, ())) {
        ((*v as u16).wrapping_add(*x as u16) as u64, ())
    }
}

/// Adds the event into `ResD`, in that resource's 8-bit width.
pub struct RefSinkD;

impl crate::step::RefResMutFn<u64, u64, ()> for RefSinkD {
    open spec fn ref_res_mut_pre(v: u64, x: u64) -> bool {
        true
    }

    open spec fn ref_res_mut_spec(v: u64, x: u64) -> (u64, ()) {
        (vstd::wrapping::u8_specs::wrapping_add(v as u8, x as u8) as u64, ())
    }

    fn ref_res_mut_call(v: &u64, x: &u64) -> (r: (u64, ())) {
        ((*v as u8).wrapping_add(*x as u8) as u64, ())
    }
}

/// The borrowed value, copied out.
pub struct RefIdentity;

impl crate::step::RefPureFn<u64, u64> for RefIdentity {
    open spec fn ref_pure_pre(x: u64) -> bool {
        true
    }

    open spec fn ref_pure_spec(x: u64) -> u64 {
        x
    }

    fn ref_pure_call(x: &u64) -> (r: u64) {
        *x
    }
}

/// Count this call in the private counter, and add the new count to `x`.
pub fn count_calls(count: &u64, x: u64) -> (r: (u64, u64))
    requires *count < u64::MAX,
    ensures r == ((*count + 1) as u64, wadd(x, (*count + 1) as u64)),
{
    let c = *count + 1;
    (c, x.wrapping_add(c))
}

/// [`count_calls`] as a step with its counter as private state.
pub struct CountCalls;

impl crate::step::LocalFn<u64, u64, u64> for CountCalls {
    open spec fn local_pre(a: u64, x: u64) -> bool {
        a < u64::MAX
    }

    open spec fn local_spec(a: u64, x: u64) -> (u64, u64) {
        ((a + 1) as u64, wadd(x, (a + 1) as u64))
    }

    fn local_call(a: &u64, x: u64) -> (r: (u64, u64)) {
        count_calls(a, x)
    }
}

/// Stores the byte length of the string event in `ResA`.
pub struct StringLen;

impl crate::step::ResMutFn<u64, String, ()> for StringLen {
    open spec fn res_mut_pre(v: u64, x: String) -> bool {
        true
    }

    open spec fn res_mut_spec(v: u64, x: String) -> (u64, ()) {
        ((vstd::utf8::encode_utf8(x@).len() as usize) as u64, ())
    }

    fn res_mut_call(v: &u64, x: String) -> (r: (u64, ())) {
        (x.as_str().len() as u64, ())
    }
}

} // verus!
