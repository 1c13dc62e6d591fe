//! Nullifiers and the container of the key that derives them.
use crate::field::{base_repr_valid, Fp};
use crate::hash::{poseidon_hash, poseidon_of};
use vstd::prelude::*;

verus! {

/// The tag published when a note is spent.
#[derive(Clone, Copy, Debug, PartialEq, Eq, Hash)]
pub struct Nullifier(pub Fp);

/// Either the secret nullifier key itself, or a commitment to it.
#[derive(Clone, Copy, Debug, PartialEq, Eq)]
pub enum NullifierKeyContainer {
    /// A commitment to the key: enough to check a key, not to derive a nullifier.
    Commitment(Fp),
    /// The key.
    Key(Fp),
}

/// The commitment to a nullifier key: Poseidon over the key and zero.
pub open spec fn nk_commitment_of(nk: Seq<u8>) -> Seq<u8> {
    poseidon_of(seq![nk, Seq::new(32, |i: int| 0u8)])
}

/// The nullifier of a note: Poseidon over key, rho, psi and commitment.
pub open spec fn nullifier_of(nk: Seq<u8>, rho: Seq<u8>, psi: Seq<u8>, cm: Seq<u8>) -> Seq<u8> {
    poseidon_of(seq![nk, rho, psi, cm])
}

impl Default for Nullifier {
    /// The zero nullifier.
    fn default() -> (r: Nullifier)
        ensures
            r.wf() && r.0.value() == 0,
    {
        Nullifier(Fp::zero())
    }
}

impl Default for NullifierKeyContainer {
    /// The zero key.
    fn default() -> (r: NullifierKeyContainer)
        ensures
            r matches NullifierKeyContainer::Key(k) && k.wf() && k.value() == 0,
    {
        NullifierKeyContainer::Key(Fp::zero())
    }
}

impl NullifierKeyContainer {
    pub open spec fn wf(&self) -> bool {
        match self {
            NullifierKeyContainer::Commitment(c) => c.wf(),
            NullifierKeyContainer::Key(k) => k.wf(),
        }
    }

    /// The commitment that a note carries, whichever form the container has.
    pub open spec fn commitment_spec(&self) -> Seq<u8> {
        match self {
            NullifierKeyContainer::Commitment(c) => c@,
            NullifierKeyContainer::Key(k) => nk_commitment_of(k@),
        }
    }

    /// A container that holds the key.
    pub fn from_key(key: Fp) -> (r: NullifierKeyContainer)
        ensures
            r == NullifierKeyContainer::Key(key),
    {
        NullifierKeyContainer::Key(key)
    }

    /// A container that holds only a commitment to the key.
    pub fn from_commitment(cm: Fp) -> (r: NullifierKeyContainer)
        ensures
            r == NullifierKeyContainer::Commitment(cm),
    {
        NullifierKeyContainer::Commitment(cm)
    }

    /// The key, when the container holds it.
    pub fn get_nk(&self) -> (r: Option<Fp>)
        ensures
            r is Some <==> self is Key,
            *self matches NullifierKeyContainer::Key(k) ==> r == Some(k),
    {
        match self {
            NullifierKeyContainer::Commitment(_) => None,
            NullifierKeyContainer::Key(k) => Some(*k),
        }
    }

    /// The commitment to the key: the one held, or the one computed from the key.
    pub fn get_commitment(&self) -> (r: Fp)
        requires
            self.wf(),
        ensures
            r.wf(),
            r@ == self.commitment_spec(),
    {
        match self {
            NullifierKeyContainer::Commitment(c) => *c,
            NullifierKeyContainer::Key(k) => {
                let z = Fp::zero();
                let r = poseidon_hash([*k, z]);
                assert(crate::hash::reprs([*k, z]) =~= seq![k@, Seq::new(32, |i: int| 0u8)]);
                r
            },
        }
    }
}

impl View for Nullifier {
    type V = Seq<u8>;

    open spec fn view(&self) -> Seq<u8> {
        self.0@
    }
}

impl Nullifier {
    pub open spec fn wf(&self) -> bool {
        self.0.wf()
    }

    /// Derives the nullifier from the key, rho, psi and the note commitment;
    /// `None` when the container holds only a commitment to the key.
    pub fn derive(nk: &NullifierKeyContainer, rho: &Fp, psi: &Fp, cm: &Fp) -> (r: Option<
        Nullifier,
    >)
        requires
            nk.wf(),
            rho.wf(),
            psi.wf(),
            cm.wf(),
        ensures
            r is Some <==> nk is Key,
            r matches Some(n) ==> n.wf() && (*nk matches NullifierKeyContainer::Key(k)
                && n@ == nullifier_of(k@, rho@, psi@, cm@)),
    {
        match nk {
            NullifierKeyContainer::Commitment(_) => None,
            NullifierKeyContainer::Key(k) => {
                let h = poseidon_hash([*k, *rho, *psi, *cm]);
                assert(crate::hash::reprs([*k, *rho, *psi, *cm]) =~= seq![k@, rho@, psi@, cm@]);
                Some(Nullifier(h))
            },
        }
    }

    /// The field element.
    pub fn inner(&self) -> (r: Fp)
        ensures
            r == self.0,
    {
        self.0
    }

    /// The canonical 32-byte representation.
    pub fn to_bytes(&self) -> (r: [u8; 32])
        ensures
            r@ == self@,
    {
        self.0.to_repr()
    }

    /// Parses a canonical representation.
    pub fn from_bytes(bytes: [u8; 32]) -> (r: Option<Nullifier>)
        ensures
            r is Some <==> base_repr_valid(bytes@),
            r matches Some(n) ==> n@ == bytes@ && n.wf(),
    {
        match Fp::from_repr(bytes) {
            Some(f) => Some(Nullifier(f)),
            None => None,
        }
    }
}

} // verus!
