//! Repeated lookups through an association, on a one-variant and on a
//! four-variant enum whose records are constants.
use crate::EnumProp;
use vstd::prelude::*;

verus! {

/// `std::hint::black_box` is an identity function: it hands its argument back
/// unchanged, and only keeps the optimiser from seeing through the value.
pub assume_specification<T>[ std::hint::black_box::<T> ](dummy: T) -> (same: T)
    ensures
        same == dummy,
;

/// A record of one integer.
pub struct IntPropConst {
    pub int: u32,
}

/// An enum of one variant.
#[derive(Copy, Clone)]
pub enum Singleton {
    Foo,
}

impl EnumProp<IntPropConst> for Singleton {
    open spec fn declared(&self) -> IntPropConst {
        match self {
            Singleton::Foo => IntPropConst { int: 42 },
        }
    }

    fn property(&self) -> (record: &'static IntPropConst) {
        match self {
            Singleton::Foo => &IntPropConst { int: 42 },
        }
    }
}

/// An enum of four variants.
#[derive(Copy, Clone)]
pub enum Quad {
    A,
    B,
    C,
    D,
}

impl EnumProp<IntPropConst> for Quad {
    open spec fn declared(&self) -> IntPropConst {
        match self {
            Quad::A => IntPropConst { int: 3 },
            Quad::B => IntPropConst { int: 5 },
            Quad::C => IntPropConst { int: 7 },
            Quad::D => IntPropConst { int: 11 },
        }
    }

    fn property(&self) -> (record: &'static IntPropConst) {
        match self {
            Quad::A => &IntPropConst { int: 3 },
            Quad::B => &IntPropConst { int: 5 },
            Quad::C => &IntPropConst { int: 7 },
            Quad::D => &IntPropConst { int: 11 },
        }
    }
}

/// The sum of a sequence of numbers.
pub open spec fn total(outs: Seq<u32>) -> int
    decreases outs.len(),
{
    if outs.len() == 0 {
        0
    } else {
        total(outs.drop_last()) + outs.last()
    }
}

/// Every entry of `outs` is a value that `f` may return when it is called on
/// `record`.
pub open spec fn is_run_of<P, F: FnMut(&P) -> u32>(f: F, record: P, outs: Seq<u32>) -> bool {
    forall|i: int| 0 <= i < outs.len() ==> f.ensures((&record,), #[trigger] outs[i])
}

/// Called on `record`, `f` can return nothing but `value`.
pub open spec fn always_returns<P, F: FnMut(&P) -> u32>(f: F, record: P, value: u32) -> bool {
    forall|out: u32| f.ensures((&record,), out) ==> out == value
}

/// The sum of a sequence lies between its length times a lower bound of its
/// entries and its length times an upper bound of them. Where the two bounds
/// meet, the sum is the length times that one value.
pub proof fn lemma_total_bounds(outs: Seq<u32>, low: u32, high: u32)
    requires
        forall|i: int| 0 <= i < outs.len() ==> low <= #[trigger] outs[i] <= high,
    ensures
        outs.len() * low <= total(outs) <= outs.len() * high,
    decreases outs.len(),
{
    if outs.len() > 0 {
        lemma_total_bounds(outs.drop_last(), low, high);
        assert(outs.len() * low == (outs.len() - 1) * low + low) by (nonlinear_arith);
        assert(outs.len() * high == (outs.len() - 1) * high + high) by (nonlinear_arith);
    }
}

/// Looks up the record of `e` a thousand times, hands each to `f`, and adds up
/// what `f` returns.
pub fn test_1000<E: Copy, P: 'static>(e: E, mut f: impl FnMut(&P) -> u32) -> (sum: u32) where
    E: EnumProp<P>,

    requires
        f.requires((&e.declared(),)),
        forall|out: u32| f.ensures((&e.declared(),), out) ==> 1000 * out <= u32::MAX,
    ensures
        exists|outs: Seq<u32>|
            outs.len() == 1000 && #[trigger] is_run_of(f, e.declared(), outs) && sum == total(outs),
        forall|value: u32| #[trigger] always_returns(f, e.declared(), value) ==> sum == 1000 * value,
{
    let mut sum: u32 = 0;
    let ghost mut outs: Seq<u32> = Seq::empty();
    let ghost given = f;
    for i in 0..1000
        invariant
            f == given,
            f.requires((&e.declared(),)),
            forall|out: u32| f.ensures((&e.declared(),), out) ==> 1000 * out <= u32::MAX,
            outs.len() == i,
            is_run_of(f, e.declared(), outs),
            sum == total(outs),
            1000 * sum <= i * u32::MAX,
    {
        let s = std::hint::black_box(e);
        let out = f(s.property());
        proof {
            assert(outs.push(out).drop_last() == outs);
            outs = outs.push(out);
        }
        sum += out;
    }
    proof {
        assert forall|value: u32| #[trigger] always_returns(f, e.declared(), value) implies sum
            == 1000 * value by {
            lemma_total_bounds(outs, value, value);
        }
    }
    sum
}

/// A thousand lookups on the one variant of `Singleton`, summing the integer
/// of its constant record.
pub fn singelton_1000_const_access() -> (sum: u32)
    ensures
        sum == 42_000,
{
    let int_of = |p: &IntPropConst| -> (out: u32)
        ensures
            out == p.int,
        {
            p.int
        };
    assert(always_returns(int_of, Singleton::Foo.declared(), 42));
    test_1000(Singleton::Foo, int_of)
}

/// A thousand lookups on `Quad::C`, summing the integer of its constant
/// record.
pub fn quad_1000_const_access() -> (sum: u32)
    ensures
        sum == 7_000,
{
    let int_of = |p: &IntPropConst| -> (out: u32)
        ensures
            out == p.int,
        {
            p.int
        };
    assert(always_returns(int_of, Quad::C.declared(), 7));
    test_1000(Quad::C, int_of)
}

} // verus!
