//! A bounded unsigned integer decomposed against a modulus.
//!
//! A [`ULimInt`] keeps a positive modulus (`limit`), the remainder of the
//! original integer below that modulus (`value`), and the number of whole
//! multiples of the modulus the integer contained (`overflow`), together
//! with the original integer itself (`true_value`), kept for validation.
//! Construction goes through [`ToLimInt::to_limint`]; arithmetic rebuilds
//! each operand's raw integer, applies the operation, and decomposes the
//! result against the left operand's modulus.

use vstd::prelude::*;

verus! {

use vstd::arithmetic::div_mod::lemma_fundamental_div_mod;
use vstd::arithmetic::div_mod::lemma_mod_bound;
use vstd::arithmetic::div_mod::lemma_div_multiples_vanish;
use vstd::arithmetic::div_mod::lemma_div_nonincreasing;
use vstd::arithmetic::mul::lemma_mul_nonnegative;
use vstd::std_specs::cmp::PartialEqSpec;

/// The failures the constructor and the operators can report.
#[derive(Clone, Copy, Debug, PartialEq, Eq, Structural)]
pub enum LimError {
    /// The modulus was zero at construction, or the right operand of a
    /// division had raw value zero.
    DivisionByZero,
    /// The right operand of a subtraction had a larger raw value than the
    /// left one.
    Underflow,
}

/// An unsigned integer decomposed against a positive modulus `limit`:
/// the integer equals `limit * overflow + value`, with `value` below
/// `limit`.
#[derive(Clone, Copy, Debug)]
pub struct ULimInt {
    pub limit: usize,
    pub value: usize,
    pub overflow: usize,
    /// The raw integer the decomposition was built from. It is redundant
    /// given the other fields and kept only for validation and debugging.
    pub true_value: usize,
}

impl ULimInt {
    /// The raw integer this decomposition stands for.
    pub open spec fn raw(self) -> int {
        self.limit * self.overflow + self.value
    }

    /// A positive modulus, a remainder below it, and a cached raw integer
    /// that agrees with the decomposition. Every constructed value is well
    /// formed.
    pub open spec fn wf(self) -> bool {
        &&& 0 < self.limit
        &&& self.value < self.limit
        &&& self.true_value == self.raw()
    }

    /// Reconstruct the raw integer from the decomposition, independent of
    /// the cached `true_value`.
    pub fn to_int(&self) -> (r: usize)
        requires
            self.wf(),
        ensures
            r == self.raw(),
            r == self.true_value,
    {
        self.limit * self.overflow + self.value
    }

    /// Add the raw values and decompose the sum against `self`'s modulus.
    pub fn add(self, other: ULimInt) -> (r: Result<ULimInt, LimError>)
        requires
            self.wf(),
            other.wf(),
            self.raw() + other.raw() <= usize::MAX,
        ensures
            r == Ok::<ULimInt, LimError>(
                decompose((self.raw() + other.raw()) as nat, self.limit as nat),
            ),
            r matches Ok(b) ==> b.wf() && b.limit == self.limit
                && b.raw() == self.raw() + other.raw(),
    {
        proof {
            lemma_round_trip((self.raw() + other.raw()) as nat, self.limit as nat);
        }
        (self.true_value + other.true_value).to_limint(self.limit)
    }

    /// Subtract the raw values and decompose the difference against
    /// `self`'s modulus; a larger right operand is refused with
    /// `Underflow`.
    pub fn sub(self, other: ULimInt) -> (r: Result<ULimInt, LimError>)
        requires
            self.wf(),
            other.wf(),
        ensures
            self.raw() < other.raw() ==> r == Err::<ULimInt, LimError>(LimError::Underflow),
            self.raw() >= other.raw() ==> r == Ok::<ULimInt, LimError>(
                decompose((self.raw() - other.raw()) as nat, self.limit as nat),
            ),
            r matches Ok(b) ==> b.wf() && b.limit == self.limit
                && b.raw() == self.raw() - other.raw(),
    {
        if self.true_value < other.true_value {
            return Err(LimError::Underflow);
        }
        proof {
            lemma_round_trip((self.raw() - other.raw()) as nat, self.limit as nat);
        }
        (self.true_value - other.true_value).to_limint(self.limit)
    }

    /// Multiply the raw values and decompose the product against `self`'s
    /// modulus.
    pub fn mul(self, other: ULimInt) -> (r: Result<ULimInt, LimError>)
        requires
            self.wf(),
            other.wf(),
            self.raw() * other.raw() <= usize::MAX,
        ensures
            r == Ok::<ULimInt, LimError>(
                decompose((self.raw() * other.raw()) as nat, self.limit as nat),
            ),
            r matches Ok(b) ==> b.wf() && b.limit == self.limit
                && b.raw() == self.raw() * other.raw(),
    {
        proof {
            lemma_mul_nonnegative(self.raw(), other.raw());
            lemma_round_trip((self.raw() * other.raw()) as nat, self.limit as nat);
        }
        (self.true_value * other.true_value).to_limint(self.limit)
    }

    /// Divide the raw values (integer division) and decompose the quotient
    /// against `self`'s modulus; a right operand with raw value zero is
    /// refused with `DivisionByZero`.
    pub fn div(self, other: ULimInt) -> (r: Result<ULimInt, LimError>)
        requires
            self.wf(),
            other.wf(),
        ensures
            other.raw() == 0 ==> r == Err::<ULimInt, LimError>(LimError::DivisionByZero),
            other.raw() != 0 ==> r == Ok::<ULimInt, LimError>(
                decompose((self.raw() / other.raw()) as nat, self.limit as nat),
            ),
            r matches Ok(b) ==> b.wf() && b.limit == self.limit
                && b.raw() == self.raw() / other.raw(),
    {
        if other.true_value == 0 {
            return Err(LimError::DivisionByZero);
        }
        proof {
            lemma_div_nonincreasing(self.raw(), other.raw());
            lemma_round_trip((self.raw() / other.raw()) as nat, self.limit as nat);
        }
        (self.true_value / other.true_value).to_limint(self.limit)
    }
}

impl PartialEq for ULimInt {
    /// Two values are equal exactly when all four fields agree.
    fn eq(&self, other: &ULimInt) -> (r: bool) {
        self.true_value == other.true_value
            && self.limit == other.limit
            && self.value == other.value
            && self.overflow == other.overflow
    }
}

impl vstd::std_specs::cmp::PartialEqSpecImpl for ULimInt {
    open spec fn obeys_eq_spec() -> bool {
        true
    }

    open spec fn eq_spec(&self, other: &ULimInt) -> bool {
        &&& self.limit == other.limit
        &&& self.value == other.value
        &&& self.overflow == other.overflow
        &&& self.true_value == other.true_value
    }
}

/// Equality law: `==` is reflexive, and values it calls equal share
/// their modulus and reconstruct the same raw integer.
pub proof fn lemma_eq_consistent(a: ULimInt, b: ULimInt)
    ensures
        a.eq_spec(&a),
        a.eq_spec(&b) ==> a.limit == b.limit && a.raw() == b.raw(),
{
}

/// Decomposition bounds law: a well-formed value keeps its remainder
/// within `[0, limit)`, and its overflow is the quotient of the
/// reconstructed integer less the remainder.
pub proof fn lemma_decomposition_bounds(b: ULimInt)
    requires
        b.wf(),
    ensures
        0 <= b.value < b.limit,
        b.overflow == (b.raw() - b.value) / (b.limit as int),
{
    lemma_div_multiples_vanish(b.overflow as int, b.limit as int);
}

/// Round-trip law: decomposing any integer against any positive modulus
/// yields a well-formed value that reconstructs that integer exactly.
pub proof fn lemma_round_trip(raw: nat, limit: nat)
    requires
        0 < limit <= usize::MAX,
        raw <= usize::MAX,
    ensures
        decompose(raw, limit).wf(),
        decompose(raw, limit).raw() == raw,
        decompose(raw, limit).true_value == raw,
{
    lemma_fundamental_div_mod(raw as int, limit as int);
    lemma_mod_bound(raw as int, limit as int);
    lemma_div_nonincreasing(raw as int, limit as int);
}

/// The decomposition of the integer `raw` against the positive modulus
/// `limit`: remainder, quotient, and `raw` itself as the cached value.
pub open spec fn decompose(raw: nat, limit: nat) -> ULimInt
    recommends
        0 < limit <= usize::MAX,
        raw <= usize::MAX,
{
    ULimInt {
        limit: limit as usize,
        value: (raw % limit) as usize,
        overflow: (raw / limit) as usize,
        true_value: raw as usize,
    }
}

/// Conversion of a raw unsigned integer into its decomposition against a
/// modulus.
pub trait ToLimInt {
    /// The raw integer this source value stands for.
    spec fn raw_spec(&self) -> nat;

    /// Decompose the value against `limit`. A zero modulus is refused with
    /// `DivisionByZero`; any positive modulus succeeds.
    fn to_limint(&self, limit: usize) -> (r: Result<ULimInt, LimError>)
        requires
            self.raw_spec() <= usize::MAX,
        ensures
            limit == 0 ==> r == Err::<ULimInt, LimError>(LimError::DivisionByZero),
            0 < limit ==> r == Ok::<ULimInt, LimError>(decompose(self.raw_spec(), limit as nat)),
    ;
}

impl ToLimInt for usize {
    open spec fn raw_spec(&self) -> nat {
        *self as nat
    }

    fn to_limint(&self, limit: usize) -> (r: Result<ULimInt, LimError>) {
        if limit == 0 {
            return Err(LimError::DivisionByZero);
        }
        let overflow = *self / limit;
        let value = *self % limit;
        proof {
            lemma_fundamental_div_mod(*self as int, limit as int);
            lemma_mod_bound(*self as int, limit as int);
        }
        Ok(ULimInt { limit, value, overflow, true_value: limit * overflow + value })
    }
}

} // verus!
