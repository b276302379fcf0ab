//! The types of the KSC language and the decimal number literals that
//! constants are built from.

use vstd::prelude::*;
use vstd::arithmetic::div_mod::lemma_div_is_ordered_by_denominator;

verus! {

/// A type of the KSC language. `Function`, `Struct` and `List` carry the
/// types they are built from, so the variant set is recursive.
#[derive(Debug)]
pub enum Type {
    /// 64-bit floating point.
    Number,
    /// 32-bit signed integer.
    Int32,
    /// 1-bit integer.
    Bool,
    /// No value.
    Void,
    /// A callable signature.
    Function { params: Vec<Type>, ret: Box<Type> },
    /// An aggregate of field types.
    Struct { fields: Vec<Type> },
    /// A homogeneous sequence.
    List { elem: Box<Type> },
}

/// Structural equality of two types: same variant, equal components.
/// Every contract of this crate that compares types speaks through this
/// function; an operation that combines two values demands it exactly,
/// never an implicit conversion.
pub open spec fn ty_eq(a: Type, b: Type) -> bool
    decreases a,
{
    match (a, b) {
        (Type::Number, Type::Number) => true,
        (Type::Int32, Type::Int32) => true,
        (Type::Bool, Type::Bool) => true,
        (Type::Void, Type::Void) => true,
        (Type::Function { params: p1, ret: r1 }, Type::Function { params: p2, ret: r2 }) => {
            &&& p1@.len() == p2@.len()
            &&& forall|i: int| 0 <= i < p1@.len() ==> ty_eq(#[trigger] p1@[i], p2@[i])
            &&& ty_eq(*r1, *r2)
        },
        (Type::Struct { fields: f1 }, Type::Struct { fields: f2 }) => {
            &&& f1@.len() == f2@.len()
            &&& forall|i: int| 0 <= i < f1@.len() ==> ty_eq(#[trigger] f1@[i], f2@[i])
        },
        (Type::List { elem: e1 }, Type::List { elem: e2 }) => ty_eq(*e1, *e2),
        _ => false,
    }
}

impl Type {
    /// Deep structural equality test.
    pub fn eq_type(&self, other: &Type) -> (r: bool)
        ensures
            r <==> ty_eq(*self, *other),
        decreases *self,
    {
        match (self, other) {
            (Type::Number, Type::Number) => true,
            (Type::Int32, Type::Int32) => true,
            (Type::Bool, Type::Bool) => true,
            (Type::Void, Type::Void) => true,
            (Type::Function { params: p1, ret: r1 }, Type::Function { params: p2, ret: r2 }) => {
                if p1.len() != p2.len() {
                    return false;
                }
                if !r1.eq_type(r2) {
                    return false;
                }
                let n: usize = p1.len();
                let mut i: usize = 0;
                while i < n
                    invariant
                        n == p1@.len() == p2@.len(),
                        i <= n,
                        *self == (Type::Function { params: *p1, ret: *r1 }),
                        *other == (Type::Function { params: *p2, ret: *r2 }),
                        forall|j: int| 0 <= j < i ==> ty_eq(#[trigger] p1@[j], p2@[j]),
                    decreases n - i,
                {
                    proof {
                        assert(decreases_to!(*self => p1@[i as int])) by {
                            assert(decreases_to!(*self => self->params));
                            assert(decreases_to!(self->params => self->params@));
                            assert(decreases_to!(self->params@ => self->params@[i as int]));
                        }
                    }
                    if !p1[i].eq_type(&p2[i]) {
                        return false;
                    }
                    i += 1;
                }
                true
            },
            (Type::Struct { fields: f1 }, Type::Struct { fields: f2 }) => {
                if f1.len() != f2.len() {
                    return false;
                }
                let n: usize = f1.len();
                let mut i: usize = 0;
                while i < n
                    invariant
                        n == f1@.len() == f2@.len(),
                        i <= n,
                        *self == (Type::Struct { fields: *f1 }),
                        *other == (Type::Struct { fields: *f2 }),
                        forall|j: int| 0 <= j < i ==> ty_eq(#[trigger] f1@[j], f2@[j]),
                    decreases n - i,
                {
                    proof {
                        assert(decreases_to!(*self => f1@[i as int])) by {
                            assert(decreases_to!(*self => self->fields));
                            assert(decreases_to!(self->fields => self->fields@));
                            assert(decreases_to!(self->fields@ => self->fields@[i as int]));
                        }
                    }
                    if !f1[i].eq_type(&f2[i]) {
                        return false;
                    }
                    i += 1;
                }
                true
            },
            (Type::List { elem: e1 }, Type::List { elem: e2 }) => e1.eq_type(e2),
            _ => false,
        }
    }

    /// Whether arithmetic and comparisons exist for this type: the scalar
    /// representations, floating (`Number`) or integral (`Int32`, `Bool`).
    pub open spec fn spec_is_scalar(&self) -> bool {
        match *self {
            Type::Number | Type::Int32 | Type::Bool => true,
            _ => false,
        }
    }

    /// Executable test for `spec_is_scalar`.
    #[verifier::when_used_as_spec(spec_is_scalar)]
    pub fn is_scalar(&self) -> (r: bool)
        ensures
            r == self.spec_is_scalar(),
    {
        match self {
            Type::Number | Type::Int32 | Type::Bool => true,
            _ => false,
        }
    }

    /// Whether the type is `Void`.
    pub open spec fn spec_is_void(&self) -> bool {
        *self is Void
    }

    /// Executable test for `spec_is_void`.
    #[verifier::when_used_as_spec(spec_is_void)]
    pub fn is_void(&self) -> (r: bool)
        ensures
            r == self.spec_is_void(),
    {
        match self {
            Type::Void => true,
            _ => false,
        }
    }

    /// Whether the type uses the integral representation.
    pub open spec fn spec_is_integral(&self) -> bool {
        match *self {
            Type::Int32 | Type::Bool => true,
            _ => false,
        }
    }

    /// Executable test for `spec_is_integral`.
    #[verifier::when_used_as_spec(spec_is_integral)]
    pub fn is_integral(&self) -> (r: bool)
        ensures
            r == self.spec_is_integral(),
    {
        match self {
            Type::Int32 | Type::Bool => true,
            _ => false,
        }
    }
}

/// Wrap a type for shared ownership. All holders of the same shared type
/// see one identical value.
pub fn share_type(t: Type) -> (r: std::rc::Rc<Type>)
    ensures
        *r == t,
{
    std::rc::Rc::new(t)
}

/// Duplicate a shared type handle.
///
/// Relies on `std::rc::Rc::clone`, which makes another pointer to the same
/// allocation, so the duplicate carries the very same value.
#[verifier::external_body]
pub fn dup_type(t: &std::rc::Rc<Type>) -> (r: std::rc::Rc<Type>)
    ensures
        *r == **t,
{
    std::rc::Rc::clone(t)
}

/// A decimal number literal, written by the parser as a sign, a decimal
/// mantissa and a scale: the denoted value is `mant / 10^scale`, negated
/// when `neg` holds. `12.5` arrives as `{ neg: false, mant: 125, scale: 1 }`.
#[derive(Clone, Copy, PartialEq, Eq, Structural, Debug)]
pub struct Num {
    pub neg: bool,
    pub mant: u64,
    pub scale: u32,
}

/// `10^s`.
pub open spec fn spec_pow10(s: nat) -> nat
    decreases s,
{
    if s == 0 {
        1
    } else {
        10 * spec_pow10((s - 1) as nat)
    }
}

/// `10^s` is positive.
pub proof fn lemma_pow10_pos(a: nat)
    ensures
        spec_pow10(a) >= 1,
    decreases a,
{
    if a > 0 {
        lemma_pow10_pos((a - 1) as nat);
    }
}

/// `10^s` grows with `s`.
pub proof fn lemma_pow10_increases(a: nat, b: nat)
    requires
        a <= b,
    ensures
        spec_pow10(a) <= spec_pow10(b),
        spec_pow10(a) >= 1,
    decreases b,
{
    if a == b {
        lemma_pow10_pos(a);
    } else {
        lemma_pow10_increases(a, (b - 1) as nat);
    }
}

/// The magnitude of `mant / 10^scale` rounded to the nearest integer,
/// halves rounding up (away from zero once the sign is applied).
pub open spec fn spec_round_mag(mant: nat, scale: nat) -> nat {
    let p = spec_pow10(scale);
    if (mant % p) * 2 >= p {
        mant / p + 1
    } else {
        mant / p
    }
}

impl Num {
    /// The rounded integer magnitude of this literal, together with its
    /// sign; a zero magnitude drops the sign.
    pub open spec fn spec_rounded(&self) -> (bool, nat) {
        let mag = spec_round_mag(self.mant as nat, self.scale as nat);
        (self.neg && mag != 0, mag)
    }

    /// Round the literal to the nearest integer, halves away from zero.
    pub fn rounded(&self) -> (r: (bool, u64))
        ensures
            (r.0, r.1 as nat) == self.spec_rounded(),
    {
        let mag: u64 = self.round_mag();
        (self.neg && mag != 0, mag)
    }

    /// The rounded magnitude. A scale beyond the mantissa's range makes the
    /// value smaller than a half, so it rounds to zero.
    fn round_mag(&self) -> (r: u64)
        ensures
            r as nat == spec_round_mag(self.mant as nat, self.scale as nat),
    {
        if self.scale >= 20 {
            proof {
                lemma_pow10_20_large(self.scale as nat);
            }
            return 0;
        }
        let mut p: u64 = 1;
        let mut i: u32 = 0;
        while i < self.scale
            invariant
                i <= self.scale < 20,
                p as nat == spec_pow10(i as nat),
                p >= 1,
            decreases self.scale - i,
        {
            proof {
                lemma_pow10_increases(i as nat, 18);
                assert(spec_pow10(18) == 1000000000000000000) by {
                    reveal_with_fuel(spec_pow10, 19);
                }
            }
            p = p * 10;
            i = i + 1;
        }
        let q: u64 = self.mant / p;
        let r: u64 = self.mant % p;
        if r >= p - r {
            proof {
                assert(q < u64::MAX) by {
                    assert(p >= 2);
                    lemma_div_is_ordered_by_denominator(self.mant as int, 2, p as int);
                }
            }
            q + 1
        } else {
            q
        }
    }
}

/// Beyond nineteen decimal places a 64-bit mantissa has no integer part.
pub proof fn lemma_basic_div_large_scale(m: nat, scale: nat)
    requires
        m <= u64::MAX,
        scale >= 20,
    ensures
        m / spec_pow10(scale) == 0,
{
    lemma_pow10_increases(20, scale);
    assert(spec_pow10(20) == 100000000000000000000) by {
        reveal_with_fuel(spec_pow10, 21);
    }
    vstd::arithmetic::div_mod::lemma_basic_div(m as int, spec_pow10(scale) as int);
}

/// Beyond nineteen decimal places every 64-bit mantissa rounds to zero.
proof fn lemma_pow10_20_large(scale: nat)
    requires
        scale >= 20,
    ensures
        spec_round_mag(u64::MAX as nat, scale) == 0,
        forall|m: nat| m <= u64::MAX ==> #[trigger] spec_round_mag(m, scale) == 0,
{
    lemma_pow10_increases(20, scale);
    assert(spec_pow10(20) == 100000000000000000000) by {
        reveal_with_fuel(spec_pow10, 21);
    }
    assert forall|m: nat| m <= u64::MAX implies #[trigger] spec_round_mag(m, scale) == 0 by {
        let p = spec_pow10(scale);
        vstd::arithmetic::div_mod::lemma_basic_div(m as int, p as int);
        vstd::arithmetic::div_mod::lemma_small_mod(m, p);
    }
}

} // verus!

