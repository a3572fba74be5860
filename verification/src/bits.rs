//! Fixed-width bit vectors and bit matrices.
//!
//! A `BitVector` holds one security parameter's worth of bits (128), stored
//! as two 64-bit words; a `DoubleBitVector` holds twice that, for unreduced
//! carry-less products. A `BitMatrix` is a list of `BitVector` rows. These
//! are the raw material of the oblivious-transfer extension pipeline.

use vstd::prelude::*;
use rand_core::RngCore;
use crate::runtime::{u64_le_bytes, read_u64_le, push_u64_le};

verus! {

/// The security parameter: the width of a `BitVector` in bits.
pub const SECURITY_PARAMETER: usize = 128;

/// The width of a `BitVector` in bytes.
pub const SEC_PARAM_8: usize = 16;

/// A vector of 128 bits.
#[derive(Debug, Clone, Copy, PartialEq, Eq, Structural)]
pub struct BitVector {
    pub lo: u64,
    pub hi: u64,
}

impl BitVector {
    /// The bit at position `j`: bit `j % 64` of the low or high word.
    pub open spec fn bit_spec(self, j: int) -> bool {
        if j < 64 {
            (self.lo >> j) & 1 == 1
        } else {
            (self.hi >> (j - 64)) & 1 == 1
        }
    }

    /// The low word.
    pub open spec fn lo_spec(self) -> u64 {
        self.lo
    }

    /// The high word.
    pub open spec fn hi_spec(self) -> u64 {
        self.hi
    }

    /// The all-zero vector.
    pub fn zero() -> (r: BitVector)
        ensures
            forall|j: int| 0 <= j < 128 ==> !r.bit_spec(j),
            r.lo_spec() == 0 && r.hi_spec() == 0,
    {
        proof {
            assert(forall|j: u64| j < 64 ==> (0u64 >> j) & 1 == 0) by (bit_vector);
        }
        BitVector { lo: 0, hi: 0 }
    }

    /// Build a vector directly from its two words.
    pub fn from_words(lo: u64, hi: u64) -> (r: BitVector)
        ensures
            r.lo_spec() == lo && r.hi_spec() == hi,
    {
        BitVector { lo, hi }
    }

    /// The bit at position `j`, as zero or one.
    pub fn bit(&self, j: usize) -> (r: u64)
        requires
            j < 128,
        ensures
            r == if self.bit_spec(j as int) { 1u64 } else { 0u64 },
    {
        proof {
            assert(forall|x: u64, j: u64| j < 64 ==> ((x >> j) & 1 == 0 || (x >> j) & 1 == 1))
                by (bit_vector);
        }
        if j < 64 {
            (self.lo >> (j as u64)) & 1
        } else {
            (self.hi >> ((j - 64) as u64)) & 1
        }
    }

    /// Read a vector from its 16-byte little-endian encoding.
    pub fn from_bytes(bytes: &Vec<u8>) -> (r: Option<BitVector>)
        ensures
            r is Some <==> bytes@.len() == 16,
            r matches Some(v) ==> bytes@ == u64_le_bytes(v.lo_spec()) + u64_le_bytes(v.hi_spec()),
    {
        if bytes.len() != 16 {
            return None;
        }
        let lo = read_u64_le(bytes, 0);
        let hi = read_u64_le(bytes, 8);
        proof {
            assert(bytes@ =~= u64_le_bytes(lo) + u64_le_bytes(hi));
        }
        Some(BitVector { lo, hi })
    }

    /// The 16-byte little-endian encoding.
    pub fn bytes(&self) -> (r: Vec<u8>)
        ensures
            r@ == u64_le_bytes(self.lo_spec()) + u64_le_bytes(self.hi_spec()),
            r@.len() == 16,
    {
        let mut out: Vec<u8> = Vec::new();
        push_u64_le(&mut out, self.lo);
        push_u64_le(&mut out, self.hi);
        out
    }

    /// A uniformly random vector, from the system RNG.
    pub fn random() -> (r: BitVector) {
        let lo = random_u64();
        let hi = random_u64();
        BitVector { lo, hi }
    }

    /// Replace this vector by its xor with another.
    pub fn xor_mut(&mut self, other: &BitVector)
        ensures
            *final(self) == old(self).xor_spec(*other),
    {
        self.lo = self.lo ^ other.lo;
        self.hi = self.hi ^ other.hi;
    }

    /// The xor of two vectors, bitwise.
    pub open spec fn xor_spec(self, other: BitVector) -> BitVector {
        BitVector { lo: self.lo ^ other.lo, hi: self.hi ^ other.hi }
    }

    /// The and of two vectors, bitwise.
    pub open spec fn and_spec(self, other: BitVector) -> BitVector {
        BitVector { lo: self.lo & other.lo, hi: self.hi & other.hi }
    }

    /// The complement of a vector, bitwise.
    pub open spec fn not_spec(self) -> BitVector {
        BitVector { lo: !self.lo, hi: !self.hi }
    }

    /// The xor of two vectors.
    pub fn xor(&self, other: &BitVector) -> (r: BitVector)
        ensures
            r == self.xor_spec(*other),
    {
        BitVector { lo: self.lo ^ other.lo, hi: self.hi ^ other.hi }
    }

    /// The complement of this vector.
    pub fn not(&self) -> (r: BitVector)
        ensures
            r == self.not_spec(),
    {
        BitVector { lo: !self.lo, hi: !self.hi }
    }

    /// Replace this vector by its and with another.
    pub fn and_mut(&mut self, other: &BitVector)
        ensures
            *final(self) == old(self).and_spec(*other),
    {
        self.lo = self.lo & other.lo;
        self.hi = self.hi & other.hi;
    }

    /// The and of two vectors.
    pub fn and(&self, other: &BitVector) -> (r: BitVector)
        ensures
            r == self.and_spec(*other),
    {
        BitVector { lo: self.lo & other.lo, hi: self.hi & other.hi }
    }

    /// Select between two vectors without branching on the choice: `a` when
    /// the choice bit is clear, `b` when it is set.
    pub fn conditional_select(a: &BitVector, b: &BitVector, choice: bool) -> (r: BitVector)
        ensures
            r == if choice { *b } else { *a },
    {
        let mask: u64 = if choice { 0xFFFF_FFFF_FFFF_FFFF } else { 0 };
        let lo = (a.lo & !mask) | (b.lo & mask);
        let hi = (a.hi & !mask) | (b.hi & mask);
        proof {
            assert(forall|x: u64, y: u64| (x & !0u64) | (y & 0u64) == x) by (bit_vector);
            assert(forall|x: u64, y: u64|
                (x & !0xFFFF_FFFF_FFFF_FFFFu64) | (y & 0xFFFF_FFFF_FFFF_FFFFu64) == y)
                by (bit_vector);
        }
        BitVector { lo, hi }
    }
}

/// The xor of two vectors flips exactly the bits where they differ.
pub proof fn lemma_xor_bits(a: BitVector, b: BitVector)
    ensures
        forall|j: int| 0 <= j < 128
            ==> (a.xor_spec(b).bit_spec(j) == (a.bit_spec(j) != b.bit_spec(j))),
{
    assert(forall|x: u64, y: u64, j: u64| j < 64
        ==> ((((x ^ y) >> j) & 1 == 1) == (((x >> j) & 1 == 1) != ((y >> j) & 1 == 1))))
        by (bit_vector);
    assert forall|j: int| 0 <= j < 128
        implies (a.xor_spec(b).bit_spec(j) == (a.bit_spec(j) != b.bit_spec(j))) by {
        if j < 64 {
            assert((((a.lo_spec() ^ b.lo_spec()) >> (j as u64)) & 1 == 1)
                == (((a.lo_spec() >> (j as u64)) & 1 == 1)
                    != ((b.lo_spec() >> (j as u64)) & 1 == 1)));
        } else {
            assert((((a.hi_spec() ^ b.hi_spec()) >> ((j - 64) as u64)) & 1 == 1)
                == (((a.hi_spec() >> ((j - 64) as u64)) & 1 == 1)
                    != ((b.hi_spec() >> ((j - 64) as u64)) & 1 == 1)));
        }
    }
}

/// The and of two vectors keeps exactly the bits set in both.
pub proof fn lemma_and_bits(a: BitVector, b: BitVector)
    ensures
        forall|j: int| 0 <= j < 128
            ==> (a.and_spec(b).bit_spec(j) == (a.bit_spec(j) && b.bit_spec(j))),
{
    assert(forall|x: u64, y: u64, j: u64| j < 64
        ==> ((((x & y) >> j) & 1 == 1) == (((x >> j) & 1 == 1) && ((y >> j) & 1 == 1))))
        by (bit_vector);
    assert forall|j: int| 0 <= j < 128
        implies (a.and_spec(b).bit_spec(j) == (a.bit_spec(j) && b.bit_spec(j))) by {
        if j < 64 {
            assert((((a.lo_spec() & b.lo_spec()) >> (j as u64)) & 1 == 1)
                == (((a.lo_spec() >> (j as u64)) & 1 == 1)
                    && ((b.lo_spec() >> (j as u64)) & 1 == 1)));
        } else {
            assert((((a.hi_spec() & b.hi_spec()) >> ((j - 64) as u64)) & 1 == 1)
                == (((a.hi_spec() >> ((j - 64) as u64)) & 1 == 1)
                    && ((b.hi_spec() >> ((j - 64) as u64)) & 1 == 1)));
        }
    }
}

/// Relies on `rand_core::OsRng::next_u64`: a word from the system RNG.
#[verifier::external_body]
fn random_u64() -> u64 {
    rand_core::OsRng.next_u64()
}

/// A vector of 256 bits: the unreduced result of a carry-less product.
#[derive(Debug, Clone, Copy, PartialEq, Eq, Structural)]
pub struct DoubleBitVector {
    pub w0: u64,
    pub w1: u64,
    pub w2: u64,
    pub w3: u64,
}

impl DoubleBitVector {
    /// The bit at position `j`, over 256 bits.
    pub open spec fn bit_spec(self, j: int) -> bool {
        if j < 64 {
            (self.w0 >> j) & 1 == 1
        } else if j < 128 {
            (self.w1 >> (j - 64)) & 1 == 1
        } else if j < 192 {
            (self.w2 >> (j - 128)) & 1 == 1
        } else {
            (self.w3 >> (j - 192)) & 1 == 1
        }
    }

    /// The all-zero vector.
    pub fn zero() -> (r: DoubleBitVector)
        ensures
            r == (DoubleBitVector { w0: 0, w1: 0, w2: 0, w3: 0 }),
    {
        DoubleBitVector { w0: 0, w1: 0, w2: 0, w3: 0 }
    }

    /// Build a vector directly from its four words.
    pub fn from_words(w0: u64, w1: u64, w2: u64, w3: u64) -> (r: DoubleBitVector)
        ensures
            r == (DoubleBitVector { w0, w1, w2, w3 }),
    {
        DoubleBitVector { w0, w1, w2, w3 }
    }

    /// The xor of two vectors, bitwise.
    pub open spec fn xor_spec(self, other: DoubleBitVector) -> DoubleBitVector {
        DoubleBitVector {
            w0: self.w0 ^ other.w0,
            w1: self.w1 ^ other.w1,
            w2: self.w2 ^ other.w2,
            w3: self.w3 ^ other.w3,
        }
    }

    /// Replace this vector by its xor with another.
    pub fn xor_mut(&mut self, other: &DoubleBitVector)
        ensures
            *final(self) == old(self).xor_spec(*other),
    {
        self.w0 = self.w0 ^ other.w0;
        self.w1 = self.w1 ^ other.w1;
        self.w2 = self.w2 ^ other.w2;
        self.w3 = self.w3 ^ other.w3;
    }

    /// The xor of two vectors.
    pub fn xor(&self, other: &DoubleBitVector) -> (r: DoubleBitVector)
        ensures
            r == self.xor_spec(*other),
    {
        DoubleBitVector {
            w0: self.w0 ^ other.w0,
            w1: self.w1 ^ other.w1,
            w2: self.w2 ^ other.w2,
            w3: self.w3 ^ other.w3,
        }
    }
}

/// A matrix whose rows are 128-bit vectors.
#[derive(Debug, Clone, PartialEq, Eq)]
pub struct BitMatrix {
    rows: Vec<BitVector>,
}

impl BitMatrix {
    /// The rows of the matrix.
    pub closed spec fn rows_spec(self) -> Seq<BitVector> {
        self.rows@
    }

    /// Build a matrix from a list of rows.
    pub fn from_rows(rows: Vec<BitVector>) -> (r: BitMatrix)
        ensures
            r.rows_spec() == rows@,
    {
        BitMatrix { rows }
    }

    /// A random matrix with a given number of rows.
    pub fn random(height: usize) -> (r: BitMatrix)
        ensures
            r.rows_spec().len() == height,
    {
        let mut rows: Vec<BitVector> = Vec::new();
        let mut i: usize = 0;
        while i < height
            invariant
                i <= height,
                rows@.len() == i,
            decreases height - i,
        {
            rows.push(BitVector::random());
            i = i + 1;
        }
        BitMatrix { rows }
    }

    /// The number of rows.
    pub fn height(&self) -> (r: usize)
        ensures
            r == self.rows_spec().len(),
    {
        self.rows.len()
    }

    /// The rows of the matrix.
    pub fn rows(&self) -> (r: &Vec<BitVector>)
        ensures
            r@ == self.rows_spec(),
    {
        &self.rows
    }

    /// The row at a position.
    pub fn row(&self, i: usize) -> (r: BitVector)
        requires
            i < self.rows_spec().len(),
        ensures
            r == self.rows_spec()[i as int],
    {
        self.rows[i]
    }

    /// Column `j`, gathered into 128-bit chunks: chunk `c` holds, at bit
    /// `i`, the bit at column `j` of row `128 c + i`. Trailing rows that do
    /// not fill a chunk are ignored, as in a matrix whose height is a
    /// multiple of 128 nothing is dropped.
    pub fn column_chunks(&self, j: usize) -> (r: Vec<BitVector>)
        requires
            j < 128,
        ensures
            r@.len() == self.rows_spec().len() / 128,
            forall|c: int, i: int| 0 <= c < r@.len() && 0 <= i < 128
                ==> r@[c].bit_spec(i) == self.rows_spec()[c * 128 + i].bit_spec(j as int),
    {
        let mut out: Vec<BitVector> = Vec::new();
        let total = self.rows.len();
        let chunks = total / 128;
        let mut c: usize = 0;
        while c < chunks
            invariant
                chunks == self.rows_spec().len() / 128,
                total == self.rows_spec().len(),
                j < 128,
                c <= chunks,
                out@.len() == c,
                forall|cc: int, i: int| 0 <= cc < c && 0 <= i < 128
                    ==> out@[cc].bit_spec(i)
                        == self.rows_spec()[cc * 128 + i].bit_spec(j as int),
            decreases chunks - c,
        {
            let mut chunk = BitVector::zero();
            let mut i: usize = 0;
            while i < 128
                invariant
                    chunks == self.rows_spec().len() / 128,
                    total == self.rows_spec().len(),
                    c < chunks,
                    j < 128,
                    i <= 128,
                    forall|k: int| 0 <= k < i ==> chunk.bit_spec(k)
                        == self.rows_spec()[c * 128 + k].bit_spec(j as int),
                    forall|k: int| i <= k < 128 ==> !chunk.bit_spec(k),
                decreases 128 - i,
            {
                proof {
                    vstd::arithmetic::div_mod::lemma_fundamental_div_mod(
                        total as int, 128);
                    assert(c * 128 + i < total) by (nonlinear_arith)
                        requires
                            c < chunks,
                            i < 128,
                            chunks == total / 128,
                            total as int == 128 * (total as int / 128)
                                + total as int % 128,
                            total as int % 128 >= 0,
                    ;
                }
                let row = self.rows[c * 128 + i];
                let b = row.bit(j);
                chunk = set_bit(chunk, i, b == 1);
                i = i + 1;
            }
            out.push(chunk);
            c = c + 1;
        }
        out
    }

    /// Replace this matrix by its row-wise xor with another.
    pub fn xor_mut(&mut self, other: &BitMatrix)
        ensures
            final(self).rows_spec().len() == old(self).rows_spec().len(),
            forall|k: int| 0 <= k < final(self).rows_spec().len()
                ==> final(self).rows_spec()[k] == if k < other.rows_spec().len() {
                    old(self).rows_spec()[k].xor_spec(other.rows_spec()[k])
                } else {
                    old(self).rows_spec()[k]
                },
    {
        let n = if self.rows.len() <= other.rows.len() {
            self.rows.len()
        } else {
            other.rows.len()
        };
        let mut i: usize = 0;
        while i < n
            invariant
                n <= old(self).rows_spec().len(),
                n <= other.rows_spec().len(),
                n == if old(self).rows_spec().len() <= other.rows_spec().len()
                    { old(self).rows_spec().len() } else { other.rows_spec().len() },
                self.rows@.len() == old(self).rows_spec().len(),
                i <= n,
                forall|k: int| 0 <= k < i ==> self.rows@[k]
                    == old(self).rows_spec()[k].xor_spec(other.rows_spec()[k]),
                forall|k: int| i <= k < self.rows@.len()
                    ==> self.rows@[k] == old(self).rows_spec()[k],
            decreases n - i,
        {
            let x = self.rows[i].xor(&other.rows[i]);
            self.rows.set(i, x);
            i = i + 1;
        }
    }

    /// The row-wise xor of two matrices of equal height.
    pub fn xor(&self, other: &BitMatrix) -> (r: BitMatrix)
        requires
            self.rows_spec().len() == other.rows_spec().len(),
        ensures
            r.rows_spec().len() == self.rows_spec().len(),
            forall|k: int| 0 <= k < r.rows_spec().len()
                ==> r.rows_spec()[k] == self.rows_spec()[k].xor_spec(other.rows_spec()[k]),
    {
        let mut rows: Vec<BitVector> = Vec::new();
        let mut i: usize = 0;
        while i < self.rows.len()
            invariant
                self.rows_spec().len() == other.rows_spec().len(),
                self.rows@.len() == self.rows_spec().len(),
                i <= self.rows_spec().len(),
                rows@.len() == i,
                forall|k: int| 0 <= k < i ==> rows@[k]
                    == self.rows_spec()[k].xor_spec(other.rows_spec()[k]),
            decreases self.rows@.len() - i,
        {
            rows.push(self.rows[i].xor(&other.rows[i]));
            i = i + 1;
        }
        BitMatrix { rows }
    }

    /// Replace each row by its and with a vector.
    pub fn and_vec_mut(&mut self, v: &BitVector)
        ensures
            final(self).rows_spec().len() == old(self).rows_spec().len(),
            forall|k: int| 0 <= k < final(self).rows_spec().len()
                ==> final(self).rows_spec()[k] == old(self).rows_spec()[k].and_spec(*v),
    {
        let n = self.rows.len();
        let mut i: usize = 0;
        while i < n
            invariant
                self.rows@.len() == n,
                n == old(self).rows_spec().len(),
                i <= n,
                forall|k: int| 0 <= k < i ==> self.rows@[k]
                    == old(self).rows_spec()[k].and_spec(*v),
                forall|k: int| i <= k < n ==> self.rows@[k] == old(self).rows_spec()[k],
            decreases n - i,
        {
            let x = self.rows[i].and(v);
            self.rows.set(i, x);
            i = i + 1;
        }
    }

    /// Each row and-ed with a vector.
    pub fn and_vec(&self, v: &BitVector) -> (r: BitMatrix)
        ensures
            r.rows_spec().len() == self.rows_spec().len(),
            forall|k: int| 0 <= k < r.rows_spec().len()
                ==> r.rows_spec()[k] == self.rows_spec()[k].and_spec(*v),
    {
        let mut rows: Vec<BitVector> = Vec::new();
        let mut i: usize = 0;
        while i < self.rows.len()
            invariant
                self.rows@.len() == self.rows_spec().len(),
                i <= self.rows_spec().len(),
                rows@.len() == i,
                forall|k: int| 0 <= k < i ==> rows@[k] == self.rows_spec()[k].and_spec(*v),
            decreases self.rows@.len() - i,
        {
            rows.push(self.rows[i].and(v));
            i = i + 1;
        }
        BitMatrix { rows }
    }
}

/// Setting one bit of a word changes that bit and no other.
proof fn lemma_set_bit_word(x: u64, j: u64, k: u64)
    requires
        j < 64,
        k < 64,
    ensures
        ((x | (1u64 << j)) >> j) & 1 == 1,
        ((x & !(1u64 << j)) >> j) & 1 == 0,
        k != j ==> ((x | (1u64 << j)) >> k) & 1 == (x >> k) & 1,
        k != j ==> ((x & !(1u64 << j)) >> k) & 1 == (x >> k) & 1,
{
    assert(((x | (1u64 << j)) >> j) & 1 == 1
        && ((x & !(1u64 << j)) >> j) & 1 == 0
        && (k != j ==> ((x | (1u64 << j)) >> k) & 1 == (x >> k) & 1)
        && (k != j ==> ((x & !(1u64 << j)) >> k) & 1 == (x >> k) & 1))
        by (bit_vector)
        requires
            j < 64,
            k < 64,
    ;
}

/// Set or clear the bit at position `j`.
pub fn set_bit(v: BitVector, j: usize, value: bool) -> (r: BitVector)
    requires
        j < 128,
    ensures
        r.bit_spec(j as int) == value,
        forall|k: int| 0 <= k < 128 && k != j ==> r.bit_spec(k) == v.bit_spec(k),
{
    let lo = v.lo_spec_exec();
    let hi = v.hi_spec_exec();
    if j < 64 {
        let mask: u64 = 1u64 << (j as u64);
        let nlo = if value { lo | mask } else { lo & !mask };
        let r = BitVector::from_words(nlo, hi);
        proof {
            lemma_set_bit_word(lo, j as u64, 0);
            assert forall|k: int| 0 <= k < 128 && k != j
                implies r.bit_spec(k) == v.bit_spec(k) by {
                if k < 64 {
                    lemma_set_bit_word(lo, j as u64, k as u64);
                }
            }
        }
        r
    } else {
        let mask: u64 = 1u64 << ((j - 64) as u64);
        let nhi = if value { hi | mask } else { hi & !mask };
        let r = BitVector::from_words(lo, nhi);
        proof {
            lemma_set_bit_word(hi, (j - 64) as u64, 0);
            assert forall|k: int| 0 <= k < 128 && k != j
                implies r.bit_spec(k) == v.bit_spec(k) by {
                if k >= 64 {
                    lemma_set_bit_word(hi, (j - 64) as u64, (k - 64) as u64);
                }
            }
        }
        r
    }
}

impl BitVector {
    /// The low word, as a value.
    pub fn lo_spec_exec(&self) -> (r: u64)
        ensures
            r == self.lo_spec(),
    {
        self.lo
    }

    /// The high word, as a value.
    pub fn hi_spec_exec(&self) -> (r: u64)
        ensures
            r == self.hi_spec(),
    {
        self.hi
    }
}

/// A bit matrix with exactly one security parameter's worth of rows.
#[derive(Debug, Clone, PartialEq, Eq)]
pub struct SquareBitMatrix {
    pub matrix: BitMatrix,
}

impl SquareBitMatrix {
    /// Wrap a matrix; fails unless it has exactly 128 rows.
    pub fn new(matrix: BitMatrix) -> (r: Option<SquareBitMatrix>)
        ensures
            r is Some <==> matrix.rows_spec().len() == 128,
            r matches Some(m) ==> m.matrix.rows_spec() == matrix.rows_spec(),
    {
        if matrix.height() != 128 {
            return None;
        }
        Some(SquareBitMatrix { matrix })
    }
}

/// A non-empty vector of choice bits, stored in 128-bit chunks.
#[derive(Debug, Clone)]
pub struct ChoiceVector {
    chunks: Vec<BitVector>,
}

impl ChoiceVector {
    /// The chunks of 128 choice bits each.
    pub closed spec fn chunks_spec(self) -> Seq<BitVector> {
        self.chunks@
    }

    /// The choice bit at a position.
    pub open spec fn bit_spec(self, i: int) -> bool {
        self.chunks_spec()[i / 128].bit_spec(i % 128)
    }

    /// A random vector of `size` bits, which must be a positive multiple
    /// of 128.
    pub fn random(size: usize) -> (r: ChoiceVector)
        requires
            size > 0,
            size % 128 == 0,
        ensures
            r.chunks_spec().len() == size / 128,
    {
        let n = size / 128;
        let mut chunks: Vec<BitVector> = Vec::new();
        let mut i: usize = 0;
        while i < n
            invariant
                i <= n,
                chunks@.len() == i,
            decreases n - i,
        {
            chunks.push(BitVector::random());
            i = i + 1;
        }
        ChoiceVector { chunks }
    }

    /// Build a choice vector from its chunks.
    pub fn from_chunks(chunks: Vec<BitVector>) -> (r: ChoiceVector)
        ensures
            r.chunks_spec() == chunks@,
    {
        ChoiceVector { chunks }
    }

    /// The 128-bit chunks of this vector.
    pub fn chunks(&self) -> (r: &Vec<BitVector>)
        ensures
            r@ == self.chunks_spec(),
    {
        &self.chunks
    }

    /// The choice bit at a position.
    pub fn bit(&self, i: usize) -> (r: bool)
        requires
            i / 128 < self.chunks_spec().len(),
        ensures
            r == self.bit_spec(i as int),
    {
        let chunk = self.chunks[i / 128];
        let b = chunk.bit(i % 128);
        b == 1
    }
}

/// Bit `i` of the carry-less product of `a` and `b`, restricted to the
/// first `n` coefficient bits of `a`: the xor over `j < n` of
/// `a_j` and `b_{i-j}`.
pub open spec fn gf_partial(a: BitVector, b: BitVector, n: int, i: int) -> bool
    decreases n,
{
    if n <= 0 {
        false
    } else {
        gf_partial(a, b, n - 1, i)
            != (a.bit_spec(n - 1) && 0 <= i - (n - 1) < 128 && b.bit_spec(i - (n - 1)))
    }
}

/// Bit `i` of the full 256-bit carry-less product of `a` and `b`.
pub open spec fn gf_bit(a: BitVector, b: BitVector, i: int) -> bool {
    gf_partial(a, b, 128, i)
}

/// Shifting a pair of words left by one moves every bit up by one.
proof fn lemma_shl_pair(x: u64, y: u64, k: u64)
    requires
        k < 64,
    ensures
        ((((x << 1u64) | (y >> 63u64)) >> k) & 1 == 1)
            == (if k == 0 { (y >> 63u64) & 1 == 1 } else { (x >> (k - 1) as u64) & 1 == 1 }),
        (((x << 1u64) >> k) & 1 == 1)
            == (k != 0 && (x >> (k - 1) as u64) & 1 == 1),
{
    assert(((((x << 1u64) | (y >> 63u64)) >> k) & 1 == 1)
        == (if k == 0 { (y >> 63u64) & 1 == 1 } else { (x >> vstd::prelude::sub(k, 1) as u64) & 1 == 1 })
        && ((((x << 1u64) >> k) & 1 == 1)
            == (k != 0 && (x >> vstd::prelude::sub(k, 1) as u64) & 1 == 1)))
        by (bit_vector)
        requires
            k < 64,
    ;
}

/// The xor of two double vectors flips exactly the bits where they differ.
pub proof fn lemma_dxor_bits(a: DoubleBitVector, b: DoubleBitVector)
    ensures
        forall|j: int| 0 <= j < 256
            ==> (a.xor_spec(b).bit_spec(j) == (a.bit_spec(j) != b.bit_spec(j))),
{
    assert(forall|x: u64, y: u64, j: u64| j < 64
        ==> ((((x ^ y) >> j) & 1 == 1) == (((x >> j) & 1 == 1) != ((y >> j) & 1 == 1))))
        by (bit_vector);
}

/// Every bit of the zero double vector is clear.
pub proof fn lemma_dzero_bits()
    ensures
        forall|j: int| 0 <= j < 256
            ==> !(DoubleBitVector { w0: 0, w1: 0, w2: 0, w3: 0 }).bit_spec(j),
{
    assert(forall|j: u64| j < 64 ==> (0u64 >> j) & 1 == 0) by (bit_vector);
}

impl DoubleBitVector {
    /// Shift left by one bit, dropping the top bit.
    fn shl1(&self) -> (r: DoubleBitVector)
        ensures
            forall|i: int| 0 <= i < 256
                ==> r.bit_spec(i) == (i >= 1 && self.bit_spec(i - 1)),
    {
        let r = DoubleBitVector {
            w0: self.w0 << 1u64,
            w1: (self.w1 << 1u64) | (self.w0 >> 63u64),
            w2: (self.w2 << 1u64) | (self.w1 >> 63u64),
            w3: (self.w3 << 1u64) | (self.w2 >> 63u64),
        };
        proof {
            assert forall|i: int| 0 <= i < 256
                implies r.bit_spec(i) == (i >= 1 && self.bit_spec(i - 1)) by {
                if i < 64 {
                    lemma_shl_pair(self.w0, 0, i as u64);
                } else if i < 128 {
                    lemma_shl_pair(self.w1, self.w0, (i - 64) as u64);
                } else if i < 192 {
                    lemma_shl_pair(self.w2, self.w1, (i - 128) as u64);
                } else {
                    lemma_shl_pair(self.w3, self.w2, (i - 192) as u64);
                }
                assert(forall|x: u64| (x >> 63u64) & 1 == 1 ==> (x >> 63u64) & 1 == 1);
            }
        }
        r
    }
}

impl BitVector {
    /// The carry-less (polynomial) product over GF(2), unreduced: bit `i`
    /// of the result is the xor over all `j` of `a_j b_{i-j}`. The result
    /// is double width, which suffices for the consistency checks that
    /// compare two unreduced products.
    pub fn gf_mul(&self, other: &BitVector) -> (r: DoubleBitVector)
        ensures
            forall|i: int| 0 <= i < 256 ==> r.bit_spec(i) == gf_bit(*self, *other, i),
    {
        let mut acc = DoubleBitVector::zero();
        let mut cur = DoubleBitVector::from_words(other.lo, other.hi, 0, 0);
        proof {
            lemma_dzero_bits();
            assert(forall|j: u64| j < 64 ==> (0u64 >> j) & 1 == 0) by (bit_vector);
            assert forall|i: int| 0 <= i < 256
                implies cur.bit_spec(i) == (0 <= i < 128 && other.bit_spec(i)) by {
            }
        }
        let mut j: usize = 0;
        while j < 128
            invariant
                j <= 128,
                forall|i: int| 0 <= i < 256
                    ==> acc.bit_spec(i) == gf_partial(*self, *other, j as int, i),
                forall|i: int| 0 <= i < 256
                    ==> cur.bit_spec(i) == (0 <= i - j < 128 && other.bit_spec(i - j)),
            decreases 128 - j,
        {
            let ghost old_acc = acc;
            let ghost old_cur = cur;
            let set = self.bit(j) == 1;
            if set {
                acc = acc.xor(&cur);
                proof {
                    lemma_dxor_bits(old_acc, old_cur);
                }
            }
            proof {
                assert forall|i: int| 0 <= i < 256
                    implies acc.bit_spec(i) == gf_partial(*self, *other, j + 1, i) by {
                    assert(gf_partial(*self, *other, j + 1, i) == (
                        gf_partial(*self, *other, j as int, i)
                            != (self.bit_spec(j as int) && 0 <= i - j < 128
                                && other.bit_spec(i - j))));
                    if set {
                        assert(acc == old_acc.xor_spec(old_cur));
                        assert(acc.bit_spec(i)
                            == (old_acc.bit_spec(i) != old_cur.bit_spec(i)));
                    } else {
                        assert(acc == old_acc);
                    }
                }
            }
            cur = cur.shl1();
            j = j + 1;
        }
        acc
    }
}

/// The bit at position `i` of a byte string, least significant bit first
/// within each byte.
pub open spec fn byte_bit(s: Seq<u8>, i: int) -> bool {
    (s[i / 8] >> ((i % 8) as u8)) & 1 == 1
}

/// What the sponge-keyed pseudorandom generator expands a row seed to,
/// given the session identifier and the output length.
pub uninterp spec fn prg_of(seed_lo: u64, seed_hi: u64, sid: Seq<u8>, nbytes: int) -> Seq<u8>;

/// Relies on `ck_meow::Meow`: the expansion of a row seed under a session
/// identifier, a deterministic function of seed, identifier and length.
#[verifier::external_body]
fn prg_expand(seed: &BitVector, sid: &Vec<u8>, nbytes: usize) -> (r: Vec<u8>)
    ensures
        r@ == prg_of(seed.lo_spec(), seed.hi_spec(), sid@, nbytes as int),
        r@.len() == nbytes,
{
    let mut meow = ck_meow::Meow::new(b"cait-sith v0.8.0 correlated OT PRG");
    meow.meta_ad(b"sid", false);
    meow.ad(sid, false);
    meow.meta_ad(b"row", false);
    meow.ad(&seed.lo.to_le_bytes(), false);
    meow.ad(&seed.hi.to_le_bytes(), true);
    let mut out = vec![0u8; nbytes];
    meow.prf(&mut out, false);
    out
}

impl SquareBitMatrix {
    /// Expand each of the 128 row seeds to `rows` bits with the sponge
    /// PRG, then transpose: row `i` of the output holds, at bit `j`, bit
    /// `i` of the expansion of seed row `j`.
    pub fn expand_transpose(&self, sid: &Vec<u8>, rows: usize) -> (r: BitMatrix)
        requires
            self.matrix.rows_spec().len() == 128,
            rows % 128 == 0,
            rows + 7 < usize::MAX,
        ensures
            r.rows_spec().len() == rows,
            forall|i: int, j: int| 0 <= i < rows && 0 <= j < 128
                ==> r.rows_spec()[i].bit_spec(j) == byte_bit(
                    prg_of(self.matrix.rows_spec()[j].lo_spec(),
                        self.matrix.rows_spec()[j].hi_spec(), sid@, ((rows + 7) / 8) as int),
                    i),
    {
        let nbytes = (rows + 7) / 8;
        let mut out: Vec<BitVector> = Vec::new();
        let mut i0: usize = 0;
        while i0 < rows
            invariant
                i0 <= rows,
                out@.len() == i0,
                forall|i: int, j: int| 0 <= i < i0 && 0 <= j < 128
                    ==> !out@[i].bit_spec(j),
            decreases rows - i0,
        {
            out.push(BitVector::zero());
            i0 = i0 + 1;
        }
        let mut j: usize = 0;
        while j < 128
            invariant
                j <= 128,
                out@.len() == rows,
                nbytes == (rows + 7) / 8,
                rows % 128 == 0,
                rows + 7 < usize::MAX,
                self.matrix.rows_spec().len() == 128,
                forall|i: int, jj: int| 0 <= i < rows && 0 <= jj < j
                    ==> out@[i].bit_spec(jj) == byte_bit(
                        prg_of(self.matrix.rows_spec()[jj].lo_spec(),
                            self.matrix.rows_spec()[jj].hi_spec(), sid@, nbytes as int),
                        i),
                forall|i: int, jj: int| 0 <= i < rows && j <= jj < 128
                    ==> !out@[i].bit_spec(jj),
            decreases 128 - j,
        {
            let row = self.matrix.row(j);
            let expanded = prg_expand(&row, sid, nbytes);
            let ghost stream = expanded@;
            let mut i: usize = 0;
            while i < rows
                invariant
                    i <= rows,
                    j < 128,
                    out@.len() == rows,
                    nbytes == (rows + 7) / 8,
                    rows % 128 == 0,
                    rows + 7 < usize::MAX,
                    self.matrix.rows_spec().len() == 128,
                    expanded@ == stream,
                    stream == prg_of(self.matrix.rows_spec()[j as int].lo_spec(),
                        self.matrix.rows_spec()[j as int].hi_spec(), sid@, nbytes as int),
                    stream.len() == nbytes,
                    forall|ii: int, jj: int| 0 <= ii < rows && 0 <= jj < j
                        ==> out@[ii].bit_spec(jj) == byte_bit(
                            prg_of(self.matrix.rows_spec()[jj].lo_spec(),
                                self.matrix.rows_spec()[jj].hi_spec(), sid@, nbytes as int),
                            ii),
                    forall|ii: int| 0 <= ii < i
                        ==> out@[ii].bit_spec(j as int) == byte_bit(stream, ii),
                    forall|ii: int, jj: int| 0 <= ii < rows && j < jj < 128
                        ==> !out@[ii].bit_spec(jj),
                    forall|ii: int| i <= ii < rows ==> !out@[ii].bit_spec(j as int),
                decreases rows - i,
            {
                proof {
                    assert(i / 8 < nbytes) by (nonlinear_arith)
                        requires
                            i < rows,
                            nbytes == (rows + 7) / 8,
                            rows + 7 < usize::MAX,
                    ;
                }
                let byte = expanded[i / 8];
                let b = (byte >> ((i % 8) as u8)) & 1;
                let updated = set_bit(out[i], j, b == 1);
                out.set(i, updated);
                proof {
                    assert((b == 1) == byte_bit(stream, i as int));
                }
                i = i + 1;
            }
            j = j + 1;
        }
        BitMatrix::from_rows(out)
    }
}

/// Copy a list of rows.
pub fn copy_rows(rows: &Vec<BitVector>) -> (r: Vec<BitVector>)
    ensures
        r@ == rows@,
{
    let mut out: Vec<BitVector> = Vec::new();
    let mut i: usize = 0;
    while i < rows.len()
        invariant
            i <= rows@.len(),
            out@ == rows@.subrange(0, i as int),
        decreases rows@.len() - i,
    {
        out.push(rows[i]);
        proof {
            assert(out@ =~= rows@.subrange(0, i + 1));
        }
        i = i + 1;
    }
    proof {
        assert(out@ =~= rows@);
    }
    out
}

/// The little-endian encoding of a double vector: its four words.
pub open spec fn enc_double(d: DoubleBitVector) -> Seq<u8> {
    u64_le_bytes(d.w0) + u64_le_bytes(d.w1) + u64_le_bytes(d.w2) + u64_le_bytes(d.w3)
}

impl DoubleBitVector {
    /// The 32-byte little-endian encoding.
    pub fn bytes(&self) -> (r: Vec<u8>)
        ensures
            r@ == enc_double(*self),
            r@.len() == 32,
    {
        let mut out: Vec<u8> = Vec::new();
        push_u64_le(&mut out, self.w0);
        push_u64_le(&mut out, self.w1);
        push_u64_le(&mut out, self.w2);
        push_u64_le(&mut out, self.w3);
        out
    }

    /// Read a double vector from 32 bytes at `at`.
    pub fn read(b: &Vec<u8>, at: usize) -> (r: DoubleBitVector)
        requires
            at + 32 <= b@.len(),
        ensures
            enc_double(r) == b@.subrange(at as int, at + 32),
    {
        let total = b.len();
        proof {
            assert(at + 32 <= total);
        }
        let w0 = read_u64_le(b, at);
        let w1 = read_u64_le(b, at + 8);
        let w2 = read_u64_le(b, at + 16);
        let w3 = read_u64_le(b, at + 24);
        let r = DoubleBitVector { w0, w1, w2, w3 };
        proof {
            assert(enc_double(r) =~= b@.subrange(at as int, at + 32));
        }
        r
    }
}

/// The concatenated encodings of a list of rows.
pub open spec fn enc_rows(rows: Seq<BitVector>) -> Seq<u8>
    decreases rows.len(),
{
    if rows.len() == 0 {
        Seq::empty()
    } else {
        enc_rows(rows.drop_last()) + u64_le_bytes(rows.last().lo_spec())
            + u64_le_bytes(rows.last().hi_spec())
    }
}

impl BitMatrix {
    /// Encode the matrix: a row count, then each 16-byte row.
    pub fn to_bytes(&self) -> (r: Vec<u8>)
        ensures
            r@ == u64_le_bytes(self.rows_spec().len() as u64) + enc_rows(self.rows_spec()),
    {
        let n = self.rows.len();
        let mut out: Vec<u8> = Vec::new();
        push_u64_le(&mut out, n as u64);
        let mut i: usize = 0;
        proof {
            assert(enc_rows(self.rows_spec().subrange(0, 0)) =~= Seq::<u8>::empty());
            assert(out@ =~= u64_le_bytes(n as u64)
                + enc_rows(self.rows_spec().subrange(0, 0)));
        }
        while i < n
            invariant
                n == self.rows_spec().len(),
                i <= n,
                out@ == u64_le_bytes(n as u64)
                    + enc_rows(self.rows_spec().subrange(0, i as int)),
            decreases n - i,
        {
            let row = self.rows[i];
            push_u64_le(&mut out, row.lo);
            push_u64_le(&mut out, row.hi);
            proof {
                let pre = self.rows_spec().subrange(0, i as int);
                let cur = self.rows_spec().subrange(0, i + 1);
                assert(cur.drop_last() =~= pre);
                assert(cur.last() == self.rows_spec()[i as int]);
            }
            i = i + 1;
        }
        proof {
            assert(self.rows_spec().subrange(0, n as int) =~= self.rows_spec());
        }
        out
    }

    /// Decode a matrix: succeeds exactly when the buffer is a count
    /// followed by that many 16-byte rows, with nothing trailing.
    pub fn from_bytes(b: &Vec<u8>) -> (r: Option<BitMatrix>)
        ensures
            r matches Some(m) ==> b@ == u64_le_bytes(m.rows_spec().len() as u64)
                + enc_rows(m.rows_spec()),
    {
        let total = b.len();
        if total < 8 {
            return None;
        }
        let count64 = read_u64_le(b, 0);
        if count64 > total as u64 {
            return None;
        }
        let count = count64 as usize;
        if count > (total - 8) / 16 {
            return None;
        }
        if total != 8 + count * 16 {
            return None;
        }
        let mut rows: Vec<BitVector> = Vec::new();
        let mut i: usize = 0;
        proof {
            assert(enc_rows(rows@) =~= Seq::<u8>::empty());
            assert(b@.subrange(8, 8) =~= enc_rows(rows@));
        }
        while i < count
            invariant
                total == b@.len(),
                total == 8 + count * 16,
                count <= total,
                i <= count,
                rows@.len() == i,
                b@.subrange(8, 8 + i * 16) == enc_rows(rows@),
            decreases count - i,
        {
            proof {
                assert(8 + i * 16 + 16 <= total) by (nonlinear_arith)
                    requires
                        i < count,
                        total == 8 + count * 16,
                ;
            }
            let at = 8 + i * 16;
            let lo = read_u64_le(b, at);
            let hi = read_u64_le(b, at + 8);
            let ghost pre = rows@;
            rows.push(BitVector { lo, hi });
            proof {
                assert(rows@.drop_last() =~= pre);
                assert(b@.subrange(8, 8 + (i + 1) * 16)
                    =~= b@.subrange(8, 8 + i * 16)
                        + b@.subrange(at as int, at + 8)
                        + b@.subrange(at + 8, at + 16));
                assert(b@.subrange(at as int, at + 8) =~= u64_le_bytes(lo));
                assert(b@.subrange(at + 8, at + 16) =~= u64_le_bytes(hi));
            }
            i = i + 1;
        }
        let m = BitMatrix { rows };
        proof {
            assert(b@ =~= b@.subrange(0, 8) + b@.subrange(8, total as int));
            assert(b@.subrange(0, 8) =~= u64_le_bytes(count64));
            assert(8 + count * 16 == total);
            assert(b@.subrange(8, 8 + count as int * 16) == enc_rows(m.rows_spec()));
        }
        Some(m)
    }
}

} // verus!
