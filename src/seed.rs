//! Seed expansion: every per-note secret is BLAKE2b over a domain tag, the
//! seed and (for psi and rcm) rho, reduced into the target field.
use crate::field::{
    append_bytes, base_from_uniform_bytes, base_modulus, le_nat, scalar_from_uniform_bytes, scalar_modulus, Fp,
    Fq,
};
use crate::hash::{blake2b_512, blake2b_512_of};
use crate::nullifier::Nullifier;
use vstd::prelude::*;

verus! {

/// Domain tag of `psi`.
pub const PRF_EXPAND_PSI: u8 = 0;

/// Domain tag of `rcm`.
pub const PRF_EXPAND_RCM: u8 = 1;

/// Domain tag of public-input padding.
pub const PRF_EXPAND_PUBLIC_INPUT_PADDING: u8 = 2;

/// Domain tag of the value-commitment blinding scalar.
pub const PRF_EXPAND_VCM_R: u8 = 3;

/// The personalization string "Taiga_ExpandSeed".
pub open spec fn prf_personalization() -> Seq<u8> {
    seq![84u8, 97, 105, 103, 97, 95, 69, 120, 112, 97, 110, 100, 83, 101, 101, 100]
}

/// The 64 bytes that seed expansion yields for a prefix, a seed and a suffix.
pub open spec fn prf_expand_of(prefix: Seq<u8>, seed: Seq<u8>, suffix: Seq<u8>) -> Seq<u8> {
    blake2b_512_of(prf_personalization(), prefix + seed + suffix)
}

/// Seed expansion reduced into the base field.
pub open spec fn prf_base(prefix: Seq<u8>, seed: Seq<u8>, suffix: Seq<u8>) -> nat {
    le_nat(prf_expand_of(prefix, seed, suffix)) % base_modulus()
}

/// Seed expansion reduced into the scalar field.
pub open spec fn prf_scalar(prefix: Seq<u8>, seed: Seq<u8>, suffix: Seq<u8>) -> nat {
    le_nat(prf_expand_of(prefix, seed, suffix)) % scalar_modulus()
}

/// The psi of a note with this seed and rho.
pub open spec fn psi_of(seed: Seq<u8>, rho: Seq<u8>) -> nat {
    prf_base(seq![PRF_EXPAND_PSI], seed, rho)
}

/// The rcm of a note with this seed and rho.
pub open spec fn rcm_of(seed: Seq<u8>, rho: Seq<u8>) -> nat {
    prf_base(seq![PRF_EXPAND_RCM], seed, rho)
}

/// The padding value at position `i`.
pub open spec fn padding_of(seed: Seq<u8>, i: int) -> nat {
    prf_base(seq![PRF_EXPAND_PUBLIC_INPUT_PADDING, (i % 256) as u8], seed, Seq::empty())
}

/// 32 bytes of entropy from which one note's secrets are derived.
#[derive(Clone, Copy, Debug, Default)]
pub struct RandomSeed(pub [u8; 32]);

impl View for RandomSeed {
    type V = Seq<u8>;

    open spec fn view(&self) -> Seq<u8> {
        self.0@
    }
}

/// Relies on rand's `random`, which draws from the thread-local generator
/// (ChaCha seeded from the operating system); nothing is known of the bytes.
#[verifier::external_body]
fn fresh_seed_bytes() -> (r: [u8; 32]) {
    rand::random::<[u8; 32]>()
}

fn personalization() -> (r: [u8; 16])
    ensures
        r@ == prf_personalization(),
{
    let r = [84u8, 97, 105, 103, 97, 95, 69, 120, 112, 97, 110, 100, 83, 101, 101, 100];
    assert(r@ =~= prf_personalization());
    r
}

/// BLAKE2b over `prefix || seed || suffix` under the expansion personalization.
fn prf_expand(prefix: &[u8], seed: &[u8; 32], suffix: &[u8]) -> (r: [u8; 64])
    ensures
        r@ == prf_expand_of(prefix@, seed@, suffix@),
{
    let mut msg: Vec<u8> = Vec::new();
    append_bytes(&mut msg, prefix);
    append_bytes(&mut msg, seed.as_slice());
    append_bytes(&mut msg, suffix);
    let p = personalization();
    blake2b_512(p.as_slice(), msg.as_slice())
}

impl RandomSeed {
    /// A fresh seed from a cryptographically secure generator.
    pub fn random() -> (r: RandomSeed) {
        RandomSeed(fresh_seed_bytes())
    }

    /// A seed with the given bytes.
    pub fn from_bytes(rseed: [u8; 32]) -> (r: RandomSeed)
        ensures
            r@ == rseed@,
    {
        RandomSeed(rseed)
    }

    /// The note secret psi for this seed and rho.
    pub fn get_psi(&self, rho: &Nullifier) -> (r: Fp)
        ensures
            r.wf(),
            r.value() == psi_of(self@, rho@),
    {
        let rho_bytes = rho.to_bytes();
        let h = prf_expand(&[PRF_EXPAND_PSI], &self.0, rho_bytes.as_slice());
        assert(seq![PRF_EXPAND_PSI] =~= [PRF_EXPAND_PSI]@);
        base_from_uniform_bytes(&h)
    }

    /// The commitment trapdoor rcm for this seed and rho.
    pub fn get_rcm(&self, rho: &Nullifier) -> (r: Fp)
        ensures
            r.wf(),
            r.value() == rcm_of(self@, rho@),
    {
        let rho_bytes = rho.to_bytes();
        let h = prf_expand(&[PRF_EXPAND_RCM], &self.0, rho_bytes.as_slice());
        assert(seq![PRF_EXPAND_RCM] =~= [PRF_EXPAND_RCM]@);
        base_from_uniform_bytes(&h)
    }

    /// `padding_len` pseudorandom public-input padding values; the position
    /// enters the hash as one byte.
    pub fn get_random_padding(&self, padding_len: usize) -> (r: Vec<Fp>)
        ensures
            r@.len() == padding_len,
            forall|i: int|
                0 <= i < padding_len ==> (#[trigger] r@[i]).wf() && r@[i].value() == padding_of(
                    self@,
                    i,
                ),
    {
        let mut out: Vec<Fp> = Vec::new();
        let mut i: usize = 0;
        while i < padding_len
            invariant
                i <= padding_len,
                out@.len() == i,
                forall|j: int|
                    0 <= j < i ==> (#[trigger] out@[j]).wf() && out@[j].value() == padding_of(
                        self@,
                        j,
                    ),
            decreases padding_len - i,
        {
            let idx: u8 = (i % 256) as u8;
            let prefix = [PRF_EXPAND_PUBLIC_INPUT_PADDING, idx];
            let empty: [u8; 0] = [];
            let h = prf_expand(prefix.as_slice(), &self.0, empty.as_slice());
            assert(prefix@ =~= seq![PRF_EXPAND_PUBLIC_INPUT_PADDING, (i as int % 256) as u8]);
            assert(empty@ =~= Seq::<u8>::empty());
            out.push(base_from_uniform_bytes(&h));
            i = i + 1;
        }
        out
    }

    /// The value-commitment blinding scalar; it does not depend on rho.
    pub fn get_rcv(&self) -> (r: Fq)
        ensures
            r.wf(),
            r.value() == prf_scalar(seq![PRF_EXPAND_VCM_R], self@, Seq::empty()),
    {
        let empty: [u8; 0] = [];
        let h = prf_expand(&[PRF_EXPAND_VCM_R], &self.0, empty.as_slice());
        assert(seq![PRF_EXPAND_VCM_R] =~= [PRF_EXPAND_VCM_R]@);
        assert(empty@ =~= Seq::<u8>::empty());
        scalar_from_uniform_bytes(&h)
    }

    /// The blinding of a validity-predicate commitment, under the given tag.
    pub fn get_vp_cm_r(&self, tag: u8) -> (r: Fp)
        ensures
            r.wf(),
            r.value() == prf_base(seq![tag], self@, Seq::empty()),
    {
        let empty: [u8; 0] = [];
        let h = prf_expand(&[tag], &self.0, empty.as_slice());
        assert(seq![tag] =~= [tag]@);
        assert(empty@ =~= Seq::<u8>::empty());
        base_from_uniform_bytes(&h)
    }
}

/// psi and rcm are expanded from different inputs for every seed and rho:
/// their domain tags differ, so neither is the other's hash input.
pub proof fn lemma_psi_rcm_domain_separated(seed: Seq<u8>, rho: Seq<u8>)
    ensures
        seq![PRF_EXPAND_PSI] + seed + rho != seq![PRF_EXPAND_RCM] + seed + rho,
{
    assert((seq![PRF_EXPAND_PSI] + seed + rho)[0] == PRF_EXPAND_PSI);
    assert((seq![PRF_EXPAND_RCM] + seed + rho)[0] == PRF_EXPAND_RCM);
}

} // verus!
