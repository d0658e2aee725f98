//! A type with an inherent method and an interface method of one name,
//! and a call guarded by three conjuncts.
//!
//! In the call graph of this module `met` has one static edge, to the
//! inherent `bla`, at depth 3: one for the conditional and one for each
//! further conjunct. `_virt` has one dynamic edge, to `T::bla`, at depth 0.

use vstd::prelude::*;

verus! {

pub trait T {
    fn bla(&self) {
        let _g: i32 = 3;
    }
}

pub struct S;

impl S {
    /// Calls the inherent `bla` where all three conditions hold.
    pub fn met(&self, a: i32, b: i32, c: i32) {
        if a == 1 && b == 2 && c == 3 {
            self.bla();
        }
    }

    pub fn bla(&self) {
        for _i in 0..1 {
        }
    }

    pub fn should_call_bla(a: i32) -> (r: bool)
        ensures
            r == (a == 1),
    {
        a == 1
    }

    pub fn should_call_bla1(a: i32) -> (r: bool)
        ensures
            r == (a == 2),
    {
        a == 2
    }

    pub fn should_call_bla2(a: i32) -> (r: bool)
        ensures
            r == (a == 3),
    {
        a == 3
    }
}

impl T for S {
    fn bla(&self) {
        let _i: i32 = 6;
    }
}

pub struct R;

impl T for R {
    fn bla(&self) {
        let _x: i32 = 4;
    }
}

/// Calls `bla` through a reference whose concrete type is not known here.
pub fn _virt(ob: &dyn T) {
    ob.bla();
}

} // verus!
