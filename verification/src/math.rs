//! Polynomials over the scalar field, and their images in the group.
//!
//! A scalar polynomial is a coefficient vector `[a_0, ..., a_{t-1}]`; secret
//! sharing hands participant `p` the evaluation at `p`'s scalar. The group
//! polynomial is the coefficient-wise image under the generator, used as a
//! public commitment to the scalar polynomial. Contracts speak about the
//! sequence of coefficient values (for the scalar polynomial) and the
//! sequence of coefficient encodings (for the group polynomial).

use vstd::prelude::*;
use crate::scalars::{Scalar, scalar_order, scalar_from_u64, scalar_add, scalar_mul, scalar_random};
use crate::points::{Point, generator_bytes, identity_bytes, pt_add, pt_mul, generator_mul, point_add, point_mul, point_identity};

verus! {

/// The value at `x` of the polynomial with the given coefficient values,
/// low degree first, in the scalar field.
pub open spec fn poly_eval(c: Seq<nat>, x: nat) -> nat
    decreases c.len(),
{
    if c.len() == 0 {
        0
    } else {
        (c.first() + x * poly_eval(c.drop_first(), x)) % scalar_order()
    }
}

/// The encoding of the value at `x` of the group polynomial with the given
/// coefficient encodings, evaluated by Horner's rule over the group names.
pub open spec fn gpoly_eval(c: Seq<Seq<u8>>, x: Seq<u8>) -> Seq<u8>
    decreases c.len(),
{
    if c.len() == 0 {
        identity_bytes()
    } else {
        pt_add(pt_mul(gpoly_eval(c.drop_first(), x), x), c.first())
    }
}

/// The coefficient value at `k`, taking absent coefficients as zero.
pub open spec fn poly_coeff(c: Seq<nat>, k: int) -> nat {
    if 0 <= k < c.len() {
        c[k]
    } else {
        0
    }
}

/// A polynomial with coefficients in the scalar field.
#[derive(Debug)]
pub struct Polynomial {
    coefficients: Vec<Scalar>,
}

impl Polynomial {
    /// The coefficient values, constant term first.
    pub closed spec fn values(self) -> Seq<nat> {
        self.coefficients@.map_values(|s: Scalar| s.value())
    }

    /// The coefficient representations, constant term first.
    pub closed spec fn reprs(self) -> Seq<Seq<u8>> {
        self.coefficients@.map_values(|s: Scalar| s.repr())
    }

    /// Build a polynomial from its coefficients.
    pub fn from_coefficients(coefficients: Vec<Scalar>) -> (r: Polynomial)
        ensures
            r.values() == coefficients@.map_values(|s: Scalar| s.value()),
            r.reprs() == coefficients@.map_values(|s: Scalar| s.repr()),
    {
        Polynomial { coefficients }
    }

    /// The coefficient at a position.
    pub fn coefficient(&self, i: usize) -> (r: &Scalar)
        requires
            i < self.values().len(),
        ensures
            r.value() == self.values()[i as int],
            r.repr() == self.reprs()[i as int],
    {
        &self.coefficients[i]
    }

    /// A random polynomial with `size` coefficients.
    pub fn random(size: usize) -> (r: Polynomial)
        ensures
            r.values().len() == size,
    {
        let mut coefficients: Vec<Scalar> = Vec::new();
        let mut i: usize = 0;
        while i < size
            invariant
                i <= size,
                coefficients@.len() == i,
            decreases size - i,
        {
            coefficients.push(scalar_random());
            i = i + 1;
        }
        Polynomial { coefficients }
    }

    /// A polynomial whose constant term is `constant` and whose other
    /// coefficients are random, with `size` coefficients; a size of zero
    /// still yields the constant itself.
    pub fn extend_random(size: usize, constant: &Scalar) -> (r: Polynomial)
        ensures
            r.values().len() == if size == 0 { 1int } else { size as int },
            r.values().first() == constant.value(),
    {
        let mut coefficients: Vec<Scalar> = Vec::new();
        coefficients.push(constant.clone());
        let mut i: usize = 1;
        while i < size
            invariant
                1 <= i,
                size > 0 ==> i <= size,
                size == 0 ==> i == 1,
                coefficients@.len() == i,
                coefficients@.first().value() == constant.value(),
            decreases size - i,
        {
            coefficients.push(scalar_random());
            i = i + 1;
        }
        Polynomial { coefficients }
    }

    /// How many coefficients this polynomial has.
    pub fn len(&self) -> (r: usize)
        ensures
            r == self.values().len(),
    {
        self.coefficients.len()
    }

    /// The value at zero: the constant term.
    pub fn evaluate_zero(&self) -> (r: Scalar)
        ensures
            self.values().len() > 0 ==> r.value() == self.values().first(),
            self.values().len() == 0 ==> r.value() == 0,
    {
        if self.coefficients.len() == 0 {
            scalar_from_u64(0)
        } else {
            self.coefficients[0].clone()
        }
    }

    /// Replace the constant term.
    pub fn set_zero(&mut self, v: Scalar)
        ensures
            final(self).values().len() == if old(self).values().len() == 0 { 1int }
                else { old(self).values().len() as int },
            final(self).values().first() == v.value(),
            forall|k: int| 1 <= k < final(self).values().len()
                ==> final(self).values()[k] == old(self).values()[k],
    {
        if self.coefficients.len() == 0 {
            self.coefficients.push(v);
        } else {
            self.coefficients.set(0, v);
        }
    }

    /// Evaluate at `x` by Horner's rule.
    pub fn evaluate(&self, x: &Scalar) -> (r: Scalar)
        ensures
            r.value() == poly_eval(self.values(), x.value()),
    {
        let mut out = scalar_from_u64(0);
        let mut i: usize = self.coefficients.len();
        proof {
            assert(self.values().subrange(i as int, self.values().len() as int)
                =~= Seq::<nat>::empty());
        }
        while i > 0
            invariant
                i <= self.values().len(),
                self.values().len() == self.coefficients@.len(),
                out.value() == poly_eval(
                    self.values().subrange(i as int, self.values().len() as int),
                    x.value()),
                out.value() < scalar_order(),
            decreases i,
        {
            i = i - 1;
            let ghost rest = self.values().subrange(i + 1, self.values().len() as int);
            let tmp = scalar_mul(&out, x);
            let c = &self.coefficients[i];
            let ghost c_val = c.value();
            out = scalar_add(&tmp, c);
            proof {
                let here = self.values().subrange(i as int, self.values().len() as int);
                assert(here.first() == self.values()[i as int]);
                assert(here.drop_first() =~= rest);
                lemma_horner_step(c_val, x.value(), poly_eval(rest, x.value()),
                    tmp.value(), out.value());
            }
        }
        proof {
            assert(self.values().subrange(0, self.values().len() as int)
                =~= self.values());
        }
        out
    }

    /// The sum of two polynomials, coefficient-wise, padded to the longer.
    pub fn add(&self, other: &Polynomial) -> (r: Polynomial)
        ensures
            r.values().len() == if self.values().len() >= other.values().len()
                { self.values().len() } else { other.values().len() },
            forall|k: int| 0 <= k < r.values().len() ==> r.values()[k]
                == (poly_coeff(self.values(), k) + poly_coeff(other.values(), k))
                    % scalar_order(),
    {
        let n = if self.coefficients.len() >= other.coefficients.len() {
            self.coefficients.len()
        } else {
            other.coefficients.len()
        };
        let zero = scalar_from_u64(0);
        let mut out: Vec<Scalar> = Vec::new();
        let mut i: usize = 0;
        while i < n
            invariant
                i <= n,
                zero.value() == 0,
                n == if self.values().len() >= other.values().len()
                    { self.values().len() } else { other.values().len() },
                self.values().len() == self.coefficients@.len(),
                other.values().len() == other.coefficients@.len(),
                out@.len() == i,
                forall|k: int| 0 <= k < i ==> out@[k].value()
                    == (poly_coeff(self.values(), k) + poly_coeff(other.values(), k))
                        % scalar_order(),
            decreases n - i,
        {
            let a = if i < self.coefficients.len() { &self.coefficients[i] } else { &zero };
            let b = if i < other.coefficients.len() { &other.coefficients[i] } else { &zero };
            out.push(scalar_add(a, b));
            i = i + 1;
        }
        let r = Polynomial { coefficients: out };
        proof {
            assert(forall|k: int| 0 <= k < r.values().len() ==> r.values()[k]
                == (poly_coeff(self.values(), k) + poly_coeff(other.values(), k))
                    % scalar_order());
        }
        r
    }

    /// This polynomial scaled by a field element, coefficient-wise.
    pub fn scale(&self, scale: &Scalar) -> (r: Polynomial)
        ensures
            r.values().len() == self.values().len(),
            forall|k: int| 0 <= k < r.values().len() ==> r.values()[k]
                == (self.values()[k] * scale.value()) % scalar_order(),
    {
        let mut out: Vec<Scalar> = Vec::new();
        let mut i: usize = 0;
        while i < self.coefficients.len()
            invariant
                i <= self.coefficients@.len(),
                self.values().len() == self.coefficients@.len(),
                out@.len() == i,
                forall|k: int| 0 <= k < i ==> out@[k].value()
                    == (self.values()[k] * scale.value()) % scalar_order(),
            decreases self.coefficients@.len() - i,
        {
            out.push(scalar_mul(&self.coefficients[i], scale));
            i = i + 1;
        }
        let r = Polynomial { coefficients: out };
        proof {
            assert(forall|k: int| 0 <= k < r.values().len() ==> r.values()[k]
                == (self.values()[k] * scale.value()) % scalar_order());
        }
        r
    }

    /// The group polynomial whose coefficients are this polynomial's,
    /// multiplied onto the generator.
    pub fn commit(&self) -> (r: GroupPolynomial)
        ensures
            r.coeffs().len() == self.values().len(),
            forall|k: int| 0 <= k < r.coeffs().len() ==> r.coeffs()[k]
                == pt_mul(generator_bytes(), self.reprs()[k]),
    {
        let mut out: Vec<Point> = Vec::new();
        let mut i: usize = 0;
        while i < self.coefficients.len()
            invariant
                i <= self.coefficients@.len(),
                self.reprs().len() == self.coefficients@.len(),
                out@.len() == i,
                forall|k: int| 0 <= k < i ==> out@[k].repr()
                    == pt_mul(generator_bytes(), self.reprs()[k]),
            decreases self.coefficients@.len() - i,
        {
            out.push(generator_mul(&self.coefficients[i]));
            i = i + 1;
        }
        let r = GroupPolynomial { coefficients: out };
        proof {
            assert(forall|k: int| 0 <= k < r.coeffs().len() ==> r.coeffs()[k]
                == pt_mul(generator_bytes(), self.reprs()[k]));
        }
        r
    }
}


impl PartialEq for Polynomial {
    fn eq(&self, other: &Self) -> (r: bool) {
        if self.coefficients.len() != other.coefficients.len() {
            proof {
                assert(self.reprs().len() != other.reprs().len());
            }
            return false;
        }
        let mut i: usize = 0;
        while i < self.coefficients.len()
            invariant
                self.coefficients@.len() == other.coefficients@.len(),
                i <= self.coefficients@.len(),
                forall|k: int| 0 <= k < i
                    ==> self.coefficients@[k].repr() == other.coefficients@[k].repr(),
            decreases self.coefficients@.len() - i,
        {
            let a = self.coefficients[i].to_bytes();
            let b = other.coefficients[i].to_bytes();
            if !crate::scalars::bytes_eq(&a, &b) {
                proof {
                    assert(self.reprs()[i as int] != other.reprs()[i as int]);
                }
                return false;
            }
            i = i + 1;
        }
        proof {
            assert(self.reprs() =~= other.reprs());
        }
        true
    }
}

impl Eq for Polynomial {}

impl vstd::std_specs::cmp::PartialEqSpecImpl for Polynomial {
    open spec fn obeys_eq_spec() -> bool {
        true
    }

    open spec fn eq_spec(&self, other: &Self) -> bool {
        self.reprs() == other.reprs()
    }
}

impl Clone for Polynomial {
    fn clone(&self) -> (r: Self)
        ensures
            r.values() == self.values(),
            r.reprs() == self.reprs(),
    {
        let mut out: Vec<Scalar> = Vec::new();
        let mut i: usize = 0;
        while i < self.coefficients.len()
            invariant
                i <= self.coefficients@.len(),
                out@.len() == i,
                forall|k: int| 0 <= k < i ==> out@[k].repr() == self.coefficients@[k].repr(),
            decreases self.coefficients@.len() - i,
        {
            out.push(self.coefficients[i].clone());
            i = i + 1;
        }
        let r = Polynomial { coefficients: out };
        proof {
            assert(r.reprs() =~= self.reprs());
            assert(r.values() =~= self.values());
        }
        r
    }
}

proof fn lemma_horner_step(c: nat, x: nat, rest: nat, tmp: nat, out: nat)
    requires
        rest < scalar_order(),
        tmp == (rest * x) % scalar_order(),
        out == (tmp + c) % scalar_order(),
    ensures
        out == (c + x * rest) % scalar_order(),
{
    let n = scalar_order() as int;
    let ri = rest as int;
    let xi = x as int;
    let ci = c as int;
    assert((((ri * xi) % n) + ci) % n == (ri * xi + ci) % n) by {
        vstd::arithmetic::div_mod::lemma_add_mod_noop(ri * xi, ci, n);
        vstd::arithmetic::div_mod::lemma_mod_twice(ri * xi, n);
        vstd::arithmetic::div_mod::lemma_add_mod_noop((ri * xi) % n, ci, n);
        vstd::arithmetic::div_mod::lemma_mod_twice(ci, n);
    }
    assert(ri * xi == xi * ri) by {
        vstd::arithmetic::mul::lemma_mul_is_commutative(ri, xi);
    }
}

/// A polynomial whose coefficients are group elements.
#[derive(Debug)]
pub struct GroupPolynomial {
    coefficients: Vec<Point>,
}

impl GroupPolynomial {
    /// The encodings of the coefficients, constant term first.
    pub closed spec fn coeffs(self) -> Seq<Seq<u8>> {
        self.coefficients@.map_values(|p: Point| p.repr())
    }

    /// Build a group polynomial from its coefficients.
    pub fn from_coefficients(coefficients: Vec<Point>) -> (r: GroupPolynomial)
        ensures
            r.coeffs() == coefficients@.map_values(|p: Point| p.repr()),
    {
        GroupPolynomial { coefficients }
    }

    /// How many coefficients this polynomial has.
    pub fn len(&self) -> (r: usize)
        ensures
            r == self.coeffs().len(),
    {
        self.coefficients.len()
    }

    /// The coefficient at a position.
    pub fn coefficient(&self, i: usize) -> (r: &Point)
        requires
            i < self.coeffs().len(),
        ensures
            r.repr() == self.coeffs()[i as int],
    {
        &self.coefficients[i]
    }

    /// The sum of two group polynomials, coefficient-wise.
    pub fn add(&self, other: &GroupPolynomial) -> (r: GroupPolynomial)
        requires
            self.coeffs().len() == other.coeffs().len(),
        ensures
            r.coeffs().len() == self.coeffs().len(),
            forall|k: int| 0 <= k < r.coeffs().len() ==> r.coeffs()[k]
                == pt_add(self.coeffs()[k], other.coeffs()[k]),
    {
        let mut out: Vec<Point> = Vec::new();
        let mut i: usize = 0;
        while i < self.coefficients.len()
            invariant
                self.coeffs().len() == other.coeffs().len(),
                self.coeffs().len() == self.coefficients@.len(),
                other.coeffs().len() == other.coefficients@.len(),
                i <= self.coefficients@.len(),
                out@.len() == i,
                forall|k: int| 0 <= k < i ==> out@[k].repr()
                    == pt_add(self.coeffs()[k], other.coeffs()[k]),
            decreases self.coefficients@.len() - i,
        {
            out.push(point_add(&self.coefficients[i], &other.coefficients[i]));
            i = i + 1;
        }
        let r = GroupPolynomial { coefficients: out };
        proof {
            assert(forall|k: int| 0 <= k < r.coeffs().len() ==> r.coeffs()[k]
                == pt_add(self.coeffs()[k], other.coeffs()[k]));
        }
        r
    }

    /// The value at zero: the constant term.
    pub fn evaluate_zero(&self) -> (r: Point)
        ensures
            self.coeffs().len() > 0 ==> r.repr() == self.coeffs().first(),
            self.coeffs().len() == 0 ==> r.repr() == identity_bytes(),
    {
        if self.coefficients.len() == 0 {
            point_identity()
        } else {
            self.coefficients[0].clone()
        }
    }

    /// Replace the constant term.
    pub fn set_zero(&mut self, v: Point)
        ensures
            final(self).coeffs().len() == if old(self).coeffs().len() == 0 { 1int }
                else { old(self).coeffs().len() as int },
            final(self).coeffs().first() == v.repr(),
            forall|k: int| 1 <= k < final(self).coeffs().len()
                ==> final(self).coeffs()[k] == old(self).coeffs()[k],
    {
        if self.coefficients.len() == 0 {
            self.coefficients.push(v);
        } else {
            self.coefficients.set(0, v);
        }
    }

    /// Evaluate at `x` by Horner's rule over the group.
    pub fn evaluate(&self, x: &Scalar) -> (r: Point)
        ensures
            r.repr() == gpoly_eval(self.coeffs(), x.repr()),
    {
        let mut out = point_identity();
        let mut i: usize = self.coefficients.len();
        proof {
            assert(self.coeffs().subrange(i as int, self.coeffs().len() as int)
                =~= Seq::<Seq<u8>>::empty());
        }
        while i > 0
            invariant
                i <= self.coeffs().len(),
                self.coeffs().len() == self.coefficients@.len(),
                out.repr() == gpoly_eval(
                    self.coeffs().subrange(i as int, self.coeffs().len() as int),
                    x.repr()),
            decreases i,
        {
            i = i - 1;
            let ghost rest = self.coeffs().subrange(i + 1, self.coeffs().len() as int);
            let tmp = point_mul(&out, x);
            out = point_add(&tmp, &self.coefficients[i]);
            proof {
                let here = self.coeffs().subrange(i as int, self.coeffs().len() as int);
                assert(here.first() == self.coeffs()[i as int]);
                assert(here.drop_first() =~= rest);
            }
        }
        proof {
            assert(self.coeffs().subrange(0, self.coeffs().len() as int)
                =~= self.coeffs());
        }
        out
    }
}

impl Clone for GroupPolynomial {
    fn clone(&self) -> (r: Self)
        ensures
            r.coeffs() == self.coeffs(),
    {
        let mut out: Vec<Point> = Vec::new();
        let mut i: usize = 0;
        while i < self.coefficients.len()
            invariant
                i <= self.coefficients@.len(),
                out@.len() == i,
                forall|k: int| 0 <= k < i ==> out@[k].repr() == self.coeffs()[k],
            decreases self.coefficients@.len() - i,
        {
            out.push(self.coefficients[i].clone());
            i = i + 1;
        }
        let r = GroupPolynomial { coefficients: out };
        proof {
            assert(r.coeffs() =~= self.coeffs());
        }
        r
    }
}

} // verus!
