//! The hash functions that the derivations are built on: Poseidon over the
//! base field, and BLAKE2b with a 64-byte output for seed expansion.
use crate::field::Fp;
use ff::PrimeField;
use halo2_gadgets::poseidon::primitives as poseidon;
use pasta_curves::pallas;
use vstd::prelude::*;

verus! {

/// What Poseidon (P128Pow5T3, constant input length) gives on the canonical
/// representations of its inputs.
pub uninterp spec fn poseidon_of(inputs: Seq<Seq<u8>>) -> Seq<u8>;

/// What BLAKE2b with a 64-byte output gives under a personalization string.
pub uninterp spec fn blake2b_512_of(personal: Seq<u8>, input: Seq<u8>) -> Seq<u8>;

/// The representations of a sequence of base-field elements.
pub open spec fn reprs<const L: usize>(msg: [Fp; L]) -> Seq<Seq<u8>> {
    msg@.map_values(|e: Fp| e@)
}

/// Relies on halo2_gadgets' `poseidon::primitives::Hash::hash` with the
/// P128Pow5T3 parameters and a constant-length domain: a base-field element
/// that depends on the inputs alone.
#[verifier::external_body]
pub(crate) fn poseidon_hash<const L: usize>(msg: [Fp; L]) -> (r: Fp)
    requires
        L > 0,
        forall|i: int| 0 <= i < L ==> (#[trigger] msg@[i]).wf(),
    ensures
        r.wf(),
        r@ == poseidon_of(reprs(msg)),
{
    let m = msg.map(|e| pallas::Base::from_repr(e.bytes).unwrap());
    let h = poseidon::Hash::<_, poseidon::P128Pow5T3, poseidon::ConstantLength<L>, 3, 2>::init().hash(m);
    Fp { bytes: h.to_repr() }
}

/// Relies on blake2b_simd's `Params::hash` with a 64-byte output and the given
/// personalization (at most 16 bytes).
#[verifier::external_body]
pub(crate) fn blake2b_512(personal: &[u8], input: &[u8]) -> (r: [u8; 64])
    requires
        personal@.len() <= 16,
    ensures
        r@ == blake2b_512_of(personal@, input@),
{
    *blake2b_simd::Params::new().hash_length(64).personal(personal).hash(input).as_array()
}

} // verus!
