//! A deterministic binary encoding for protocol messages.
//!
//! Fixed-width fields (scalars, commitments, digests) are written raw;
//! points are written with a one-byte length prefix; sequences with a
//! 64-bit little-endian count. Every decoder validates what it reads, so a
//! decoded value is always well formed, and decoding is the inverse of
//! encoding.

use vstd::prelude::*;
use crate::scalars::{Scalar, be_val, scalar_order};
use crate::points::{Point, valid_point};
use crate::math::GroupPolynomial;
use crate::runtime::{u64_le_bytes, push_u64_le, read_u64_le};

verus! {

/// The encoding of a point: its length, then its bytes.
pub open spec fn enc_point(p: Seq<u8>) -> Seq<u8> {
    seq![p.len() as u8] + p
}

/// The encoding of a list of points: a count, then each point.
pub open spec fn enc_points(ps: Seq<Seq<u8>>) -> Seq<u8> {
    u64_le_bytes(ps.len() as u64) + enc_points_body(ps)
}

/// The concatenation of the point encodings.
pub open spec fn enc_points_body(ps: Seq<Seq<u8>>) -> Seq<u8>
    decreases ps.len(),
{
    if ps.len() == 0 {
        Seq::empty()
    } else {
        enc_points_body(ps.drop_last()) + enc_point(ps.last())
    }
}

/// Append a copy of `b`.
pub fn append_bytes(out: &mut Vec<u8>, b: &Vec<u8>)
    ensures
        final(out)@ == old(out)@ + b@,
{
    let mut i: usize = 0;
    while i < b.len()
        invariant
            i <= b@.len(),
            out@ == old(out)@ + b@.subrange(0, i as int),
        decreases b@.len() - i,
    {
        out.push(b[i]);
        proof {
            assert(out@ =~= old(out)@ + b@.subrange(0, i + 1));
        }
        i = i + 1;
    }
    proof {
        assert(out@ =~= old(out)@ + b@);
    }
}

/// Append a scalar's 32-byte representation.
pub fn append_scalar(out: &mut Vec<u8>, s: &Scalar)
    ensures
        final(out)@ == old(out)@ + s.repr(),
{
    let b = s.to_bytes();
    append_bytes(out, &b);
}

/// Append a point with its one-byte length prefix.
pub fn append_point(out: &mut Vec<u8>, p: &Point)
    ensures
        final(out)@ == old(out)@ + enc_point(p.repr()),
{
    let b = p.to_bytes();
    proof {
        use_type_invariant(p);
        p.lemma_canonical();
    }
    out.push(b.len() as u8);
    append_bytes(out, &b);
    proof {
        assert(final(out)@ =~= old(out)@ + enc_point(p.repr()));
    }
}

/// Read `n` bytes at `at`.
pub fn take_bytes(b: &Vec<u8>, at: usize, n: usize) -> (r: Vec<u8>)
    requires
        at + n <= b@.len(),
    ensures
        r@ == b@.subrange(at as int, at as int + n as int),
{
    let total = b.len();
    let mut out: Vec<u8> = Vec::new();
    let mut i: usize = 0;
    while i < n
        invariant
            at + n <= total,
            total == b@.len(),
            i <= n,
            out@ == b@.subrange(at as int, at as int + i as int),
        decreases n - i,
    {
        out.push(b[at + i]);
        proof {
            assert(out@ =~= b@.subrange(at as int, at as int + i + 1));
        }
        i = i + 1;
    }
    out
}

/// Read a scalar at `at`, validating its canonical form.
pub fn read_scalar(b: &Vec<u8>, at: usize) -> (r: Option<Scalar>)
    requires
        at + 32 <= b@.len(),
    ensures
        r is Some <==> be_val(b@.subrange(at as int, at as int + 32)) < scalar_order(),
        r matches Some(s) ==> s.repr() == b@.subrange(at as int, at as int + 32),
{
    let bytes = take_bytes(b, at, 32);
    Scalar::from_bytes(&bytes)
}

/// Read a point at `at` (length prefix plus body), validating the encoding.
///
/// On success also returns the position just past the point.
pub fn read_point(b: &Vec<u8>, at: usize) -> (r: Option<(Point, usize)>)
    requires
        at <= b@.len(),
    ensures
        r matches Some((p, end)) ==> {
            &&& at < end <= b@.len()
            &&& valid_point(p.repr())
            &&& at + 1 + p.repr().len() == end
            &&& b@.subrange(at as int, end as int) == enc_point(p.repr())
        },
{
    let total = b.len();
    if at >= total {
        return None;
    }
    let len = b[at] as usize;
    if len > total - at - 1 {
        return None;
    }
    let body = take_bytes(b, at + 1, len);
    match crate::points::point_from_bytes(&body) {
        Some(p) => {
            // Only accept the canonical form: what the point re-encodes to
            // must be what was read.
            let back = p.to_bytes();
            if crate::scalars::bytes_eq(&back, &body) {
                let end = at + 1 + len;
                proof {
                    assert(b@.subrange(at as int, end as int)
                        =~= enc_point(p.repr()));
                }
                Some((p, end))
            } else {
                None
            }
        }
        None => None,
    }
}

/// Encode a group polynomial: the coefficient count, then each coefficient
/// as a length-prefixed point.
pub fn encode_group_poly(gp: &GroupPolynomial) -> (r: Vec<u8>)
    ensures
        r@ == enc_points(gp.coeffs()),
{
    let n = gp.len();
    let mut out: Vec<u8> = Vec::new();
    push_u64_le(&mut out, n as u64);
    let mut i: usize = 0;
    proof {
        assert(enc_points_body(gp.coeffs().subrange(0, 0)) =~= Seq::<u8>::empty());
        assert(out@ =~= u64_le_bytes(n as u64) + enc_points_body(gp.coeffs().subrange(0, 0)));
    }
    while i < n
        invariant
            n == gp.coeffs().len(),
            i <= n,
            out@ == u64_le_bytes(n as u64) + enc_points_body(gp.coeffs().subrange(0, i as int)),
        decreases n - i,
    {
        append_point(&mut out, gp.coefficient(i));
        proof {
            let pre = gp.coeffs().subrange(0, i as int);
            let cur = gp.coeffs().subrange(0, i + 1);
            assert(cur.drop_last() =~= pre);
            assert(cur.last() == gp.coeffs()[i as int]);
        }
        i = i + 1;
    }
    proof {
        assert(gp.coeffs().subrange(0, n as int) =~= gp.coeffs());
    }
    out
}

/// Read a group polynomial at `at`: a count, then that many points, each
/// validated. On success also returns the position just past the list.
pub fn read_group_poly(b: &Vec<u8>, at: usize) -> (r: Option<(GroupPolynomial, usize)>)
    requires
        at <= b@.len(),
    ensures
        r matches Some((gp, end)) ==> {
            &&& at < end <= b@.len()
            &&& b@.subrange(at as int, end as int) == enc_points(gp.coeffs())
            &&& forall|k: int| 0 <= k < gp.coeffs().len()
                ==> valid_point(#[trigger] gp.coeffs()[k])
        },
{
    let total = b.len();
    if total < 8 || at > total - 8 {
        return None;
    }
    let count64 = read_u64_le(b, at);
    if count64 > total as u64 {
        return None;
    }
    let count = count64 as usize;
    let mut points: Vec<Point> = Vec::new();
    let mut pos: usize = at + 8;
    let mut i: usize = 0;
    proof {
        assert(enc_points_body(points@.map_values(|p: Point| p.repr()))
            =~= Seq::<u8>::empty());
        assert(b@.subrange(at + 8, pos as int)
            =~= enc_points_body(points@.map_values(|p: Point| p.repr())));
    }
    while i < count
        invariant
            at + 8 <= pos <= total,
            total == b@.len(),
            count <= total,
            i <= count,
            points@.len() == i,
            b@.subrange(at + 8, pos as int)
                == enc_points_body(points@.map_values(|p: Point| p.repr())),
            forall|k: int| 0 <= k < points@.len()
                ==> valid_point(#[trigger] points@[k].repr()),
        decreases count - i,
    {
        match read_point(b, pos) {
            Some((p, end)) => {
                let ghost pre = points@.map_values(|q: Point| q.repr());
                points.push(p);
                proof {
                    let cur = points@.map_values(|q: Point| q.repr());
                    assert(cur.drop_last() =~= pre);
                    assert(cur.last() == points@.last().repr());
                    assert(b@.subrange(at + 8, end as int)
                        =~= b@.subrange(at + 8, pos as int)
                            + b@.subrange(pos as int, end as int));
                }
                pos = end;
            }
            None => {
                return None;
            }
        }
        i = i + 1;
    }
    let gp = GroupPolynomial::from_coefficients(points);
    proof {
        assert(b@.subrange(at as int, pos as int)
            =~= b@.subrange(at as int, at + 8) + b@.subrange(at + 8, pos as int));
        assert(b@.subrange(at as int, at + 8) =~= u64_le_bytes(count64));
        assert(gp.coeffs().len() as u64 == count64);
        assert(b@.subrange(at as int, pos as int) =~= enc_points(gp.coeffs()));
    }
    Some((gp, pos))
}

/// Encode a list of points with the count-prefixed framing.
pub fn encode_point_list(points: &Vec<Point>) -> (r: Vec<u8>)
    ensures
        r@ == enc_points(points@.map_values(|p: Point| p.repr())),
{
    let n = points.len();
    let mut out: Vec<u8> = Vec::new();
    push_u64_le(&mut out, n as u64);
    let mut i: usize = 0;
    proof {
        assert(enc_points_body(points@.subrange(0, 0).map_values(|p: Point| p.repr()))
            =~= Seq::<u8>::empty());
        assert(out@ =~= u64_le_bytes(n as u64)
            + enc_points_body(points@.subrange(0, 0).map_values(|p: Point| p.repr())));
    }
    while i < n
        invariant
            n == points@.len(),
            i <= n,
            out@ == u64_le_bytes(n as u64)
                + enc_points_body(points@.subrange(0, i as int).map_values(
                    |p: Point| p.repr())),
        decreases n - i,
    {
        append_point(&mut out, &points[i]);
        proof {
            let pre = points@.subrange(0, i as int).map_values(|p: Point| p.repr());
            let cur = points@.subrange(0, i + 1).map_values(|p: Point| p.repr());
            assert(cur.drop_last() =~= pre);
            assert(cur.last() == points@[i as int].repr());
        }
        i = i + 1;
    }
    proof {
        assert(points@.subrange(0, n as int) =~= points@);
    }
    out
}

/// Read a whole buffer as a list of points, with nothing trailing.
pub fn read_point_list(b: &Vec<u8>) -> (r: Option<Vec<Point>>)
    ensures
        r matches Some(ps) ==> b@ == enc_points(ps@.map_values(|p: Point| p.repr())),
{
    match read_group_poly(b, 0) {
        Some((gp, end)) => {
            if end != b.len() {
                return None;
            }
            let n = gp.len();
            let mut out: Vec<Point> = Vec::new();
            let mut i: usize = 0;
            while i < n
                invariant
                    n == gp.coeffs().len(),
                    i <= n,
                    out@.len() == i,
                    forall|k: int| 0 <= k < i
                        ==> (#[trigger] out@[k]).repr() == gp.coeffs()[k],
                decreases n - i,
            {
                out.push(gp.coefficient(i).clone());
                i = i + 1;
            }
            proof {
                assert(out@.map_values(|p: Point| p.repr()) =~= gp.coeffs());
            }
            Some(out)
        }
        None => None,
    }
}

} // verus!
