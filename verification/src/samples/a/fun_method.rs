//! A call guarded by three conjuncts that are calls themselves.
//!
//! In the call graph of this module `met` has four static edges: to the
//! three guards at the depths 0, 1 and 2, in the order in which they are
//! written, and to the inherent `bla` at depth 3. `_virt` has one dynamic
//! edge, to `T::bla`, at depth 0.

use vstd::prelude::*;

verus! {

pub trait T {
    fn bla(&self) -> (r: bool) {
        let _g: i32 = 3;
        return true;
    }
}

pub struct S;

impl S {
    /// Calls the inherent `bla` where all three guards hold.
    pub fn met(&self) {
        if S1::should_call_bla(1) && S1::should_call_bla1(2) && S1::should_call_bla2(3) {
            self.bla();
        }
    }

    pub fn bla(&self) -> (r: bool)
        ensures
            r,
    {
        for _i in 0..1 {
        }
        return true;
    }

    pub fn test_while(&self, a: i32) -> (r: i32)
        requires
            a < i32::MAX,
        ensures
            r == a + 1,
    {
        self.bla();
        return a + 1;
    }

    pub fn test_while1(&self, a: i32) -> (r: i32)
        requires
            a < i32::MAX - 1,
        ensures
            r == a + 2,
    {
        self.bla();
        return a + 2;
    }
}

pub struct S1;

impl S1 {
    pub fn should_call_bla(a: i32) -> (r: bool)
        ensures
            r == (a == 1),
    {
        a == 1
    }

    pub fn should_call_bla1(a: i32) -> (r: bool)
        ensures
            r == (a == 2),
    {
        a == 2
    }

    pub fn should_call_bla2(a: i32) -> (r: bool)
        ensures
            r == (a == 3),
    {
        a == 3
    }
}

impl T for S {
    fn bla(&self) -> (r: bool)
        ensures
            r,
    {
        let _i: i32 = 6;
        return true;
    }
}

pub struct R;

impl T for R {
    fn bla(&self) -> (r: bool)
        ensures
            r,
    {
        let _x: i32 = 4;
        return true;
    }
}

/// Calls `bla` through a reference whose concrete type is not known here.
pub fn _virt(ob: &dyn T) {
    ob.bla();
}

} // verus!
