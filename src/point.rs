//! Points of the Pallas curve, held as their 32-byte compressed encoding: the
//! x-coordinate in little-endian order, with the parity of y in the top bit.
use crate::field::{base_modulus, le_nat, Fp, Fq};
use ff::PrimeField;
use group::cofactor::CofactorCurveAffine;
use group::{Curve, GroupEncoding};
use pasta_curves::arithmetic::{CurveAffine, CurveExt};
use pasta_curves::pallas;
use vstd::prelude::*;

verus! {

/// The x-coordinate that a compressed encoding carries (the top bit cleared).
pub open spec fn encoded_x(s: Seq<u8>) -> Seq<u8> {
    s.update(31, (s[31] % 128) as u8)
}

/// The parity bit of y that a compressed encoding carries.
pub open spec fn encoded_sign(s: Seq<u8>) -> bool {
    s[31] >= 128
}

/// `y^2 = x^3 + 5` has a solution over the base field.
pub open spec fn on_curve_x(x: nat) -> bool {
    exists|y: nat|
        y < base_modulus() && #[trigger] ((y * y) % base_modulus()) == (x * x * x + 5)
            % base_modulus()
}

/// A string that decodes to a Pallas point: all zeros for the identity, or the
/// x-coordinate of a point on `y^2 = x^3 + 5`.
pub open spec fn point_encoding_valid(s: Seq<u8>) -> bool {
    &&& s.len() == 32
    &&& le_nat(encoded_x(s)) < base_modulus()
    &&& (le_nat(encoded_x(s)) == 0 && !encoded_sign(s)) || on_curve_x(le_nat(encoded_x(s)))
}

/// A domain prefix that hash-to-curve accepts: ASCII, and short enough that
/// the prefix with the curve name and the fixed suffix stays below 256 bytes.
pub open spec fn domain_ok(domain: Seq<char>) -> bool {
    domain.len() < 228 && forall|i: int| 0 <= i < domain.len() ==> (#[trigger] domain[i]) < 128 as char
}

/// The encoding of the identity element.
pub open spec fn identity_encoding() -> Seq<u8> {
    Seq::new(32, |i: int| 0u8)
}

/// What the group law of pasta_curves gives for `a + b`.
pub uninterp spec fn point_add_of(a: Seq<u8>, b: Seq<u8>) -> Seq<u8>;

/// What the group law of pasta_curves gives for `a - b`.
pub uninterp spec fn point_sub_of(a: Seq<u8>, b: Seq<u8>) -> Seq<u8>;

/// What scalar multiplication of pasta_curves gives for `[s] p`.
pub uninterp spec fn point_mul_of(p: Seq<u8>, s: Seq<u8>) -> Seq<u8>;

/// What pasta_curves' hash-to-curve gives under a domain prefix.
pub uninterp spec fn hash_to_curve_of(domain: Seq<char>, msg: Seq<u8>) -> Seq<u8>;

/// The y-coordinate of a point other than the identity.
pub uninterp spec fn point_y_of(p: Seq<u8>) -> Seq<u8>;

/// A point of the Pallas curve.
#[derive(Clone, Copy, Debug, PartialEq, Eq, Hash)]
pub struct Point {
    pub(crate) bytes: [u8; 32],
}

impl View for Point {
    type V = Seq<u8>;

    closed spec fn view(&self) -> Seq<u8> {
        self.bytes@
    }
}

/// Relies on pasta_curves' `Add` on `pallas::Point`, with `GroupEncoding` to
/// move between points and their encodings.
#[verifier::external_body]
fn pallas_add(a: &Point, b: &Point) -> (r: Point)
    requires
        a.wf(),
        b.wf(),
    ensures
        r.wf(),
        r@ == point_add_of(a@, b@),
{
    let x = pallas::Point::from_bytes(&a.bytes).unwrap();
    let y = pallas::Point::from_bytes(&b.bytes).unwrap();
    Point { bytes: (x + y).to_bytes() }
}

/// Relies on pasta_curves' `Sub` on `pallas::Point`, with `GroupEncoding` to
/// move between points and their encodings.
#[verifier::external_body]
fn pallas_sub(a: &Point, b: &Point) -> (r: Point)
    requires
        a.wf(),
        b.wf(),
    ensures
        r.wf(),
        r@ == point_sub_of(a@, b@),
{
    let x = pallas::Point::from_bytes(&a.bytes).unwrap();
    let y = pallas::Point::from_bytes(&b.bytes).unwrap();
    Point { bytes: (x - y).to_bytes() }
}

/// Relies on pasta_curves' `Mul<Fq>` on `pallas::Point`, with `GroupEncoding`
/// to move between points and their encodings.
#[verifier::external_body]
fn pallas_mul(p: &Point, s: &Fq) -> (r: Point)
    requires
        p.wf(),
        s.wf(),
    ensures
        r.wf(),
        r@ == point_mul_of(p@, s@),
{
    let x = pallas::Point::from_bytes(&p.bytes).unwrap();
    let k = pallas::Scalar::from_repr(s.bytes).unwrap();
    Point { bytes: (x * k).to_bytes() }
}

/// Relies on pasta_curves' `CurveExt::hash_to_curve` for `pallas::Point`.
#[verifier::external_body]
fn pallas_hash_to_curve(domain: &str, msg: &[u8]) -> (r: Point)
    requires
        domain_ok(domain@),
    ensures
        r.wf(),
        r@ == hash_to_curve_of(domain@, msg@),
{
    Point { bytes: pallas::Point::hash_to_curve(domain)(msg).to_bytes() }
}

/// Relies on pasta_curves' `CurveAffine::coordinates`, which is defined for
/// every point but the identity.
#[verifier::external_body]
fn pallas_y(p: &Point) -> (r: Fp)
    requires
        p.wf(),
        p@ != identity_encoding(),
    ensures
        r.wf(),
        r@ == point_y_of(p@),
{
    let a = pallas::Point::from_bytes(&p.bytes).unwrap().to_affine();
    Fp { bytes: a.coordinates().unwrap().y().to_repr() }
}

impl Point {
    pub open spec fn wf(&self) -> bool {
        point_encoding_valid(self@)
    }

    /// The identity element.
    pub fn identity() -> (r: Point)
        ensures
            r.wf(),
            r@ == identity_encoding(),
    {
        let r = Point { bytes: [0u8; 32] };
        assert(r.bytes@ == r@);
        proof {
            assert(r@ =~= identity_encoding());
            assert(encoded_x(r@) =~= identity_encoding());
            crate::field::lemma_le_nat_zeros(32);
        }
        r
    }

    /// Tells whether this is the identity element.
    pub fn is_identity(&self) -> (r: bool)
        ensures
            r == (self@ == identity_encoding()),
    {
        let mut i: usize = 0;
        while i < 32
            invariant
                i <= 32,
                self@.len() == 32,
                forall|j: int| 0 <= j < i ==> self@[j] == 0u8,
            decreases 32 - i,
        {
            if self.bytes[i] != 0 {
                assert(self@[i as int] != identity_encoding()[i as int]);
                return false;
            }
            i = i + 1;
        }
        assert(self@ =~= identity_encoding());
        true
    }

    /// The compressed encoding.
    pub fn to_bytes(&self) -> (r: [u8; 32])
        ensures
            r@ == self@,
    {
        self.bytes
    }

    /// `self + other`.
    pub fn add(&self, other: &Point) -> (r: Point)
        requires
            self.wf(),
            other.wf(),
        ensures
            r.wf(),
            r@ == point_add_of(self@, other@),
    {
        pallas_add(self, other)
    }

    /// `self - other`.
    pub fn sub(&self, other: &Point) -> (r: Point)
        requires
            self.wf(),
            other.wf(),
        ensures
            r.wf(),
            r@ == point_sub_of(self@, other@),
    {
        pallas_sub(self, other)
    }

    /// `[s] self`.
    pub fn mul(&self, s: &Fq) -> (r: Point)
        requires
            self.wf(),
            s.wf(),
        ensures
            r.wf(),
            r@ == point_mul_of(self@, s@),
    {
        pallas_mul(self, s)
    }

    /// Hashes a message to a point under a domain prefix.
    pub fn hash_to_curve(domain: &str, msg: &[u8]) -> (r: Point)
        requires
            domain_ok(domain@),
        ensures
            r.wf(),
            r@ == hash_to_curve_of(domain@, msg@),
    {
        pallas_hash_to_curve(domain, msg)
    }

    /// The affine x-coordinate; zero for the identity.
    pub fn get_x(&self) -> (r: Fp)
        requires
            self.wf(),
        ensures
            r.wf(),
            r@ == encoded_x(self@),
            self@ == identity_encoding() ==> r.value() == 0,
    {
        let mut b = self.bytes;
        b[31] = b[31] % 128;
        assert(b@ =~= encoded_x(self@));
        let r = Fp::from_canonical(b);
        proof {
            if self@ == identity_encoding() {
                assert(encoded_x(self@) =~= identity_encoding());
                crate::field::lemma_le_nat_zeros(32);
            }
        }
        r
    }

    /// The affine y-coordinate; zero for the identity.
    pub fn get_y(&self) -> (r: Fp)
        requires
            self.wf(),
        ensures
            r.wf(),
            self@ == identity_encoding() ==> r.value() == 0,
            self@ != identity_encoding() ==> r@ == point_y_of(self@),
    {
        if self.is_identity() {
            Fp::zero()
        } else {
            pallas_y(self)
        }
    }
}

} // verus!
