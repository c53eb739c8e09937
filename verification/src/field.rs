//! The base prime field and its degree-4 extension, in canonical
//! word-level representation.
//!
//! An element is stored as one 32-bit word holding its canonical value,
//! strictly below the field modulus.  An extension element is an ordered
//! tuple of four base elements; the order of the sub-elements is
//! significant and is preserved through flattening.

use vstd::prelude::*;

verus! {

/// The field modulus: `15 * 2^27 + 1`, a prime.
pub const P: u32 = 2013265921;

/// One element of the base prime field, held as its canonical value.
#[derive(Clone, Copy, Debug, PartialEq, Eq, Structural)]
pub struct Fp {
    pub v: u32,
}

/// A base-field element is well formed when its word is canonical,
/// that is, strictly below the modulus.
pub open spec fn fp_valid(e: Fp) -> bool {
    e.v < P
}

impl Fp {
    /// Reduce an arbitrary 32-bit word into the field.
    pub fn new(x: u32) -> (r: Fp)
        ensures
            r.v == x % P,
            fp_valid(r),
    {
        Fp { v: x % P }
    }

    /// Decode one word of a canonical encoding; rejects any word at or
    /// above the modulus rather than reducing it.
    pub fn from_word(w: u32) -> (r: Option<Fp>)
        ensures
            r is Some <==> w < P,
            r is Some ==> r->0 == (Fp { v: w }),
    {
        if w < P {
            Some(Fp { v: w })
        } else {
            None
        }
    }

    /// The canonical word encoding of this element.
    pub fn as_u32(&self) -> (r: u32)
        ensures
            r == self.v,
    {
        self.v
    }
}

/// One element of the degree-4 extension field: an ordered tuple of four
/// base-field sub-elements.
#[derive(Clone, Copy, Debug, PartialEq, Eq, Structural)]
pub struct FpExt {
    pub e0: Fp,
    pub e1: Fp,
    pub e2: Fp,
    pub e3: Fp,
}

/// An extension element is well formed when all four sub-elements are.
pub open spec fn fp_ext_valid(x: FpExt) -> bool {
    fp_valid(x.e0) && fp_valid(x.e1) && fp_valid(x.e2) && fp_valid(x.e3)
}

/// The sub-elements of an extension element, in their fixed order.
pub open spec fn subelems_of(x: FpExt) -> Seq<Fp> {
    seq![x.e0, x.e1, x.e2, x.e3]
}

impl FpExt {
    /// Assemble an extension element from its four sub-elements, in order.
    pub fn new(e0: Fp, e1: Fp, e2: Fp, e3: Fp) -> (r: FpExt)
        ensures
            r == (FpExt { e0, e1, e2, e3 }),
    {
        FpExt { e0, e1, e2, e3 }
    }

    /// The four sub-elements, in the same fixed order used everywhere.
    pub fn subelems(&self) -> (r: Vec<Fp>)
        ensures
            r@ == subelems_of(*self),
    {
        let mut r: Vec<Fp> = Vec::new();
        r.push(self.e0);
        r.push(self.e1);
        r.push(self.e2);
        r.push(self.e3);
        proof {
            assert(r@ =~= subelems_of(*self));
        }
        r
    }
}

} // verus!
