//! Elements of the Pallas base field (`Fp`) and scalar field (`Fq`), held as
//! their canonical 32-byte little-endian representations.
use ff::{Field, FromUniformBytes, PrimeField};
use pasta_curves::pallas;
use vstd::prelude::*;

verus! {

/// The modulus of the Pallas base field.
pub open spec fn base_modulus() -> nat {
    0x40000000000000000000000000000000224698fc094cf91b992d30ed00000001nat
}

/// The modulus of the Pallas scalar field.
pub open spec fn scalar_modulus() -> nat {
    0x40000000000000000000000000000000224698fc0994a8dd8c46eb2100000001nat
}

/// The integer that a little-endian byte string stands for.
pub open spec fn le_nat(s: Seq<u8>) -> nat
    decreases s.len(),
{
    if s.len() == 0 {
        0
    } else {
        s[0] as nat + 256 * le_nat(s.subrange(1, s.len() as int))
    }
}

/// `256^n`.
pub open spec fn pow256(n: nat) -> nat
    decreases n,
{
    if n == 0 {
        1
    } else {
        256 * pow256((n - 1) as nat)
    }
}

/// `256^8 = 2^64`.
pub proof fn lemma_pow256_8()
    ensures
        pow256(8) == 0x1_0000_0000_0000_0000nat,
{
    reveal_with_fuel(pow256, 9);
}

/// `256^n` grows with `n`.
pub proof fn lemma_pow256_monotone(a: nat, b: nat)
    requires
        a <= b,
    ensures
        pow256(a) <= pow256(b),
    decreases b,
{
    if a < b {
        lemma_pow256_monotone(a, (b - 1) as nat);
    }
}

/// The `len`-byte little-endian string of `n`.
pub open spec fn le_bytes(n: nat, len: nat) -> Seq<u8> {
    choose|s: Seq<u8>| s.len() == len && le_nat(s) == n
}

/// A canonical representation of a base-field element.
pub open spec fn base_repr_valid(s: Seq<u8>) -> bool {
    s.len() == 32 && le_nat(s) < base_modulus()
}

/// A canonical representation of a scalar-field element.
pub open spec fn scalar_repr_valid(s: Seq<u8>) -> bool {
    s.len() == 32 && le_nat(s) < scalar_modulus()
}

/// An element of the Pallas base field.
#[derive(Clone, Copy, Debug, PartialEq, Eq, Hash)]
pub struct Fp {
    pub(crate) bytes: [u8; 32],
}

/// An element of the Pallas scalar field.
#[derive(Clone, Copy, Debug, PartialEq, Eq, Hash)]
pub struct Fq {
    pub(crate) bytes: [u8; 32],
}

impl View for Fp {
    type V = Seq<u8>;

    closed spec fn view(&self) -> Seq<u8> {
        self.bytes@
    }
}

impl View for Fq {
    type V = Seq<u8>;

    closed spec fn view(&self) -> Seq<u8> {
        self.bytes@
    }
}

/// Relies on `PrimeField::from_repr` of pasta_curves' `Fp`: it accepts exactly
/// the little-endian strings below the modulus.
#[verifier::external_body]
fn base_repr_is_canonical(bytes: [u8; 32]) -> (r: bool)
    ensures
        r == (le_nat(bytes@) < base_modulus()),
{
    bool::from(pallas::Base::from_repr(bytes).is_some())
}

/// Relies on `PrimeField::from_repr` of pasta_curves' `Fq`: it accepts exactly
/// the little-endian strings below the modulus.
#[verifier::external_body]
fn scalar_repr_is_canonical(bytes: [u8; 32]) -> (r: bool)
    ensures
        r == (le_nat(bytes@) < scalar_modulus()),
{
    bool::from(pallas::Scalar::from_repr(bytes).is_some())
}

/// Relies on `FromUniformBytes::from_uniform_bytes` of pasta_curves' `Fp`: the
/// 512-bit little-endian integer reduced by the modulus.
#[verifier::external_body]
fn base_from_wide(bytes: &[u8; 64]) -> (r: Fp)
    ensures
        r.wf(),
        r.value() == le_nat(bytes@) % base_modulus(),
{
    Fp { bytes: pallas::Base::from_uniform_bytes(bytes).to_repr() }
}

/// Relies on `FromUniformBytes::from_uniform_bytes` of pasta_curves' `Fq`: the
/// 512-bit little-endian integer reduced by the modulus.
#[verifier::external_body]
fn scalar_from_wide(bytes: &[u8; 64]) -> (r: Fq)
    ensures
        r.wf(),
        r.value() == le_nat(bytes@) % scalar_modulus(),
{
    Fq { bytes: pallas::Scalar::from_uniform_bytes(bytes).to_repr() }
}

/// Relies on `From<u64>` of pasta_curves' `Fp`: the integer itself.
#[verifier::external_body]
fn base_from_u64(v: u64) -> (r: Fp)
    ensures
        r.wf(),
        r.value() == v as nat,
{
    Fp { bytes: pallas::Base::from(v).to_repr() }
}

/// Relies on `PrimeField::from_u128` of pasta_curves' `Fp`: the integer itself.
#[verifier::external_body]
fn base_from_u128(v: u128) -> (r: Fp)
    ensures
        r.wf(),
        r.value() == v as nat,
{
    Fp { bytes: pallas::Base::from_u128(v).to_repr() }
}

/// Relies on `From<u64>` of pasta_curves' `Fq`: the integer itself.
#[verifier::external_body]
fn scalar_from_u64(v: u64) -> (r: Fq)
    ensures
        r.wf(),
        r.value() == v as nat,
{
    Fq { bytes: pallas::Scalar::from(v).to_repr() }
}

/// Relies on `Field::square` of pasta_curves' `Fp`: the product with itself.
#[verifier::external_body]
fn base_square(a: &Fp) -> (r: Fp)
    requires
        a.wf(),
    ensures
        r.wf(),
        r.value() == (a.value() * a.value()) % base_modulus(),
{
    let x = pallas::Base::from_repr(a.bytes).unwrap();
    Fp { bytes: x.square().to_repr() }
}

/// Relies on `Add` of pasta_curves' `Fp`: the sum reduced by the modulus.
#[verifier::external_body]
fn base_add(a: &Fp, b: &Fp) -> (r: Fp)
    requires
        a.wf(),
        b.wf(),
    ensures
        r.wf(),
        r.value() == (a.value() + b.value()) % base_modulus(),
{
    let x = pallas::Base::from_repr(a.bytes).unwrap();
    let y = pallas::Base::from_repr(b.bytes).unwrap();
    Fp { bytes: (x + y).to_repr() }
}

/// Relies on `Add` of pasta_curves' `Fq`: the sum reduced by the modulus.
#[verifier::external_body]
fn scalar_add(a: &Fq, b: &Fq) -> (r: Fq)
    requires
        a.wf(),
        b.wf(),
    ensures
        r.wf(),
        r.value() == (a.value() + b.value()) % scalar_modulus(),
{
    let x = pallas::Scalar::from_repr(a.bytes).unwrap();
    let y = pallas::Scalar::from_repr(b.bytes).unwrap();
    Fq { bytes: (x + y).to_repr() }
}

/// The element `2^128 + value` when `flag` is set, `value` otherwise: folds a
/// flag and a 64-bit amount into one base-field element.
pub open spec fn composed_value(flag: bool, value: u64) -> nat {
    if flag {
        0x1_0000_0000_0000_0000_0000_0000_0000_0000nat + value as nat
    } else {
        value as nat
    }
}

impl Fp {
    pub open spec fn wf(&self) -> bool {
        base_repr_valid(self@)
    }

    pub open spec fn value(&self) -> nat {
        le_nat(self@)
    }

    /// The zero element.
    pub fn zero() -> (r: Fp)
        ensures
            r.wf(),
            r@ == Seq::new(32, |i: int| 0u8),
            r.value() == 0,
    {
        let r = Fp { bytes: [0u8; 32] };
        assert(r.bytes@ == r@);
        proof {
            assert(r@ =~= Seq::new(32, |i: int| 0u8));
            lemma_le_nat_zeros(32);
        }
        r
    }

    /// The element with a representation already known to be canonical.
    pub(crate) fn from_canonical(bytes: [u8; 32]) -> (r: Fp)
        requires
            base_repr_valid(bytes@),
        ensures
            r@ == bytes@,
    {
        Fp { bytes }
    }

    /// The element for a 64-bit unsigned integer.
    pub fn from_u64(v: u64) -> (r: Fp)
        ensures
            r.wf(),
            r.value() == v as nat,
    {
        base_from_u64(v)
    }

    /// Parses a canonical representation; any string at or above the modulus
    /// is refused.
    pub fn from_repr(bytes: [u8; 32]) -> (r: Option<Fp>)
        ensures
            r is Some <==> base_repr_valid(bytes@),
            r matches Some(f) ==> f@ == bytes@,
    {
        if base_repr_is_canonical(bytes) {
            Some(Fp { bytes })
        } else {
            None
        }
    }

    /// The canonical 32-byte little-endian representation.
    pub fn to_repr(&self) -> (r: [u8; 32])
        ensures
            r@ == self@,
    {
        self.bytes
    }

    /// Folds a flag and an amount into `2^128 + value` or `value`.
    pub fn compose_flag_value(flag: bool, value: u64) -> (r: Fp)
        ensures
            r.wf(),
            r.value() == composed_value(flag, value),
            r@ == le_bytes(composed_value(flag, value), 32),
    {
        let r = Fp::compose_value(flag, value);
        proof {
            lemma_le_bytes_of(r@);
        }
        r
    }

    fn compose_value(flag: bool, value: u64) -> (r: Fp)
        ensures
            r.wf(),
            r.value() == composed_value(flag, value),
    {
        let v = base_from_u64(value);
        if flag {
            let shift = base_from_u128(0x1_0000_0000_0000_0000u128);
            let high = base_square(&shift);
            let r = base_add(&high, &v);
            proof {
                assert(0x1_0000_0000_0000_0000nat * 0x1_0000_0000_0000_0000nat
                    == 0x1_0000_0000_0000_0000_0000_0000_0000_0000nat) by (nonlinear_arith);
                assert((0x1_0000_0000_0000_0000_0000_0000_0000_0000nat + value as nat)
                    < base_modulus());
            }
            r
        } else {
            v
        }
    }
}

impl Fq {
    pub open spec fn wf(&self) -> bool {
        scalar_repr_valid(self@)
    }

    pub open spec fn value(&self) -> nat {
        le_nat(self@)
    }

    /// The zero scalar.
    pub fn zero() -> (r: Fq)
        ensures
            r.wf(),
            r.value() == 0,
    {
        let r = Fq { bytes: [0u8; 32] };
        assert(r.bytes@ == r@);
        proof {
            assert(r@ =~= Seq::new(32, |i: int| 0u8));
            lemma_le_nat_zeros(32);
        }
        r
    }

    /// The scalar for a 64-bit unsigned integer.
    pub fn from_u64(v: u64) -> (r: Fq)
        ensures
            r.wf(),
            r.value() == v as nat,
            r@ == le_bytes(v as nat, 32),
    {
        let r = scalar_from_u64(v);
        proof {
            lemma_le_bytes_of(r@);
        }
        r
    }

    /// Parses a canonical representation; any string at or above the modulus
    /// is refused.
    pub fn from_repr(bytes: [u8; 32]) -> (r: Option<Fq>)
        ensures
            r is Some <==> scalar_repr_valid(bytes@),
            r matches Some(f) ==> f@ == bytes@,
    {
        if scalar_repr_is_canonical(bytes) {
            Some(Fq { bytes })
        } else {
            None
        }
    }

    /// The canonical 32-byte little-endian representation.
    pub fn to_repr(&self) -> (r: [u8; 32])
        ensures
            r@ == self@,
    {
        self.bytes
    }

    /// The sum of two scalars.
    pub fn add(&self, other: &Fq) -> (r: Fq)
        requires
            self.wf(),
            other.wf(),
        ensures
            r.wf(),
            r.value() == (self.value() + other.value()) % scalar_modulus(),
    {
        scalar_add(self, other)
    }
}

/// Appends a byte slice to a vector.
pub(crate) fn append_bytes(v: &mut Vec<u8>, s: &[u8])
    ensures
        final(v)@ == old(v)@ + s@,
{
    let mut i: usize = 0;
    while i < s.len()
        invariant
            i <= s@.len(),
            v@ == old(v)@ + s@.subrange(0, i as int),
        decreases s@.len() - i,
    {
        v.push(s[i]);
        i = i + 1;
        assert(v@ =~= old(v)@ + s@.subrange(0, i as int));
    }
    assert(s@.subrange(0, s@.len() as int) =~= s@);
}

/// Reduces 64 little-endian bytes into the base field.
pub fn base_from_uniform_bytes(bytes: &[u8; 64]) -> (r: Fp)
    ensures
        r.wf(),
        r.value() == le_nat(bytes@) % base_modulus(),
{
    base_from_wide(bytes)
}

/// Reduces 64 little-endian bytes into the scalar field.
pub fn scalar_from_uniform_bytes(bytes: &[u8; 64]) -> (r: Fq)
    ensures
        r.wf(),
        r.value() == le_nat(bytes@) % scalar_modulus(),
{
    scalar_from_wide(bytes)
}

/// A string of zero bytes stands for zero.
pub proof fn lemma_le_nat_zeros(n: nat)
    ensures
        le_nat(Seq::new(n, |i: int| 0u8)) == 0,
    decreases n,
{
    if n > 0 {
        let s = Seq::new(n, |i: int| 0u8);
        assert(s.subrange(1, s.len() as int) =~= Seq::new((n - 1) as nat, |i: int| 0u8));
        lemma_le_nat_zeros((n - 1) as nat);
    }
}

/// Two strings of one length that stand for one integer are equal.
pub proof fn lemma_le_nat_injective(s: Seq<u8>, t: Seq<u8>)
    requires
        s.len() == t.len(),
        le_nat(s) == le_nat(t),
    ensures
        s == t,
    decreases s.len(),
{
    if s.len() > 0 {
        let s1 = s.subrange(1, s.len() as int);
        let t1 = t.subrange(1, t.len() as int);
        vstd::arithmetic::div_mod::lemma_fundamental_div_mod_converse(
            le_nat(s) as int,
            256,
            le_nat(s1) as int,
            s[0] as int,
        );
        vstd::arithmetic::div_mod::lemma_fundamental_div_mod_converse(
            le_nat(t) as int,
            256,
            le_nat(t1) as int,
            t[0] as int,
        );
        lemma_le_nat_injective(s1, t1);
        assert(s =~= seq![s[0]] + s1);
        assert(t =~= seq![t[0]] + t1);
    }
}

/// A string is the little-endian string of the integer it stands for.
pub proof fn lemma_le_bytes_of(s: Seq<u8>)
    ensures
        le_bytes(le_nat(s), s.len()) == s,
{
    let c = le_bytes(le_nat(s), s.len());
    assert(s.len() == s.len() && le_nat(s) == le_nat(s));
    lemma_le_nat_injective(c, s);
}

/// Appending a byte adds it at the next power of 256.
pub proof fn lemma_le_nat_push(s: Seq<u8>, d: u8)
    ensures
        le_nat(s.push(d)) == le_nat(s) + pow256(s.len()) * d,
    decreases s.len(),
{
    let sp = s.push(d);
    if s.len() == 0 {
        assert(sp.subrange(1, 1) =~= Seq::<u8>::empty());
        assert(le_nat(sp) == sp[0] as nat + 256 * le_nat(sp.subrange(1, 1)));
        assert(le_nat(sp.subrange(1, 1)) == 0);
        assert(le_nat(s) == 0);
        assert(pow256(0) == 1);
        assert(sp[0] == d);
    } else {
        let t = s.subrange(1, s.len() as int);
        assert(sp.subrange(1, sp.len() as int) =~= t.push(d));
        lemma_le_nat_push(t, d);
        let p = pow256((s.len() - 1) as nat);
        assert(pow256(s.len()) == 256 * p);
        assert(le_nat(sp) == sp[0] as nat + 256 * le_nat(t.push(d)));
        assert(le_nat(s) == s[0] as nat + 256 * le_nat(t));
        assert(t.len() == (s.len() - 1) as nat);
        assert(le_nat(t.push(d)) == le_nat(t) + p * d);
        let a = le_nat(t);
        let s0 = s[0] as nat;
        let q = pow256(s.len());
        assert(s0 + 256 * (a + p * d) == (s0 + 256 * a) + q * d) by (nonlinear_arith)
            requires
                q == 256 * p,
        ;
        assert(sp[0] == s[0]);
    }
}

/// An `n`-byte string stands for an integer below `256^n`.
pub proof fn lemma_le_nat_bound(s: Seq<u8>)
    ensures
        le_nat(s) < pow256(s.len()),
    decreases s.len(),
{
    if s.len() > 0 {
        let t = s.subrange(1, s.len() as int);
        lemma_le_nat_bound(t);
        let p = pow256(t.len());
        let l = le_nat(t);
        assert(s[0] as nat + 256 * l < 256 * p) by (nonlinear_arith)
            requires
                l < p,
                s[0] < 256,
        ;
    }
}

proof fn le_witness(n: nat, len: nat) -> (s: Seq<u8>)
    requires
        n < pow256(len),
    ensures
        s.len() == len,
        le_nat(s) == n,
    decreases len,
{
    if len == 0 {
        Seq::empty()
    } else {
        let p = pow256((len - 1) as nat);
        assert(n / 256 < p) by (nonlinear_arith)
            requires
                n < 256 * p,
        ;
        let t = le_witness(n / 256, (len - 1) as nat);
        let s = seq![(n % 256) as u8] + t;
        assert(s.subrange(1, s.len() as int) =~= t);
        s
    }
}

/// Below `256^len`, `le_bytes` gives a string that stands for `n`.
pub proof fn lemma_le_bytes_spec(n: nat, len: nat)
    requires
        n < pow256(len),
    ensures
        le_bytes(n, len).len() == len,
        le_nat(le_bytes(n, len)) == n,
{
    let w = le_witness(n, len);
    assert(w.len() == len && le_nat(w) == n);
}

/// A base-field element is determined by its representation.
pub proof fn lemma_base_view_injective(a: Fp, b: Fp)
    requires
        a@ == b@,
    ensures
        a == b,
{
    assert(a.bytes@ == b.bytes@);
    assert(a.bytes == b.bytes);
}

/// Two composed values agree only when both flag and amount agree.
pub proof fn lemma_composed_value_injective(f1: bool, v1: u64, f2: bool, v2: u64)
    requires
        composed_value(f1, v1) == composed_value(f2, v2),
    ensures
        f1 == f2,
        v1 == v2,
{
}

} // verus!
