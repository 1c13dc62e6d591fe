//! Notes, note types and note commitments.
use crate::field::{
    base_repr_valid, composed_value, lemma_base_view_injective, lemma_composed_value_injective,
    lemma_le_bytes_spec, lemma_pow256_monotone, le_bytes, pow256, Fp,
};
use crate::hash::{poseidon_hash, poseidon_of, reprs};
use crate::nullifier::{nullifier_of, Nullifier, NullifierKeyContainer};
use crate::point::{hash_to_curve_of, Point};
use crate::seed::{psi_of, rcm_of, RandomSeed};
use vstd::prelude::*;

verus! {

/// A commitment to a note.
#[derive(Clone, Copy, Debug, PartialEq, Eq, Hash)]
pub struct NoteCommitment(pub Fp);

/// What a note's asset type is derived from.
#[derive(Clone, Copy, Debug, PartialEq, Eq, Hash)]
pub struct NoteType {
    /// The compressed verifying key of the application's validity predicate.
    pub app_vk: Fp,
    /// Application data that takes part in the type derivation.
    pub app_data_static: Fp,
}

/// A note.
#[derive(Clone, Copy, Debug, PartialEq, Eq)]
pub struct Note {
    pub note_type: NoteType,
    /// Application data that does not take part in the type derivation.
    pub app_data_dynamic: Fp,
    /// The amount of the note.
    pub value: u64,
    /// The nullifier key, or a commitment to it.
    pub nk_container: NullifierKeyContainer,
    /// The nullifier of the note spent alongside this one.
    pub rho: Nullifier,
    /// The secret that the nullifier is derived with.
    pub psi: Fp,
    /// The trapdoor of the note commitment.
    pub rcm: Fp,
    /// Whether membership of an input note in the commitment tree is checked.
    pub is_merkle_checked: bool,
}

/// The domain prefix of the note-type derivation.
pub open spec fn note_type_domain() -> Seq<char> {
    "taiga:NoteType"@
}

/// The curve point of a note type.
pub open spec fn note_type_point_of(app_vk: Seq<u8>, app_data_static: Seq<u8>) -> Seq<u8> {
    hash_to_curve_of(note_type_domain(), app_vk + app_data_static)
}

/// What a note commitment hashes, in order.
pub open spec fn commitment_inputs(n: Note) -> Seq<Seq<u8>> {
    seq![
        n.note_type.app_vk@,
        n.note_type.app_data_static@,
        n.app_data_dynamic@,
        n.nk_container.commitment_spec(),
        n.rho@,
        n.psi@,
        le_bytes(composed_value(n.is_merkle_checked, n.value), 32),
        n.rcm@,
    ]
}

/// The commitment of a note.
pub open spec fn commitment_of(n: Note) -> Seq<u8> {
    poseidon_of(commitment_inputs(n))
}

/// The nullifier of a note whose container holds the key.
pub open spec fn note_nullifier_of(n: Note) -> Seq<u8> {
    nullifier_of(n.nk_container->Key_0@, n.rho@, n.psi@, commitment_of(n))
}

impl View for NoteCommitment {
    type V = Seq<u8>;

    open spec fn view(&self) -> Seq<u8> {
        self.0@
    }
}

impl NoteCommitment {
    /// The field element.
    pub fn inner(&self) -> (r: Fp)
        ensures
            r == self.0,
    {
        self.0
    }

    /// The canonical 32-byte representation.
    pub fn to_bytes(&self) -> (r: [u8; 32])
        ensures
            r@ == self@,
    {
        self.0.to_repr()
    }

    /// Parses a canonical representation.
    pub fn from_bytes(bytes: [u8; 32]) -> (r: Option<NoteCommitment>)
        ensures
            r is Some <==> base_repr_valid(bytes@),
            r matches Some(c) ==> c@ == bytes@ && c.0.wf(),
    {
        match Fp::from_repr(bytes) {
            Some(f) => Some(NoteCommitment(f)),
            None => None,
        }
    }
}

impl NoteType {
    pub open spec fn wf(&self) -> bool {
        self.app_vk.wf() && self.app_data_static.wf()
    }

    pub fn new(vk: Fp, data: Fp) -> (r: NoteType)
        ensures
            r.app_vk == vk,
            r.app_data_static == data,
    {
        NoteType { app_vk: vk, app_data_static: data }
    }

    /// The curve point that stands for this asset type: pasta_curves'
    /// BLAKE2b-based hash-to-curve of `app_vk || app_data_static` under the
    /// domain prefix "taiga:NoteType". This is not a Poseidon-based
    /// hash-to-curve, so these points (and the value commitments built on
    /// them) differ from those of a Poseidon-based derivation.
    pub fn derive_note_type(&self) -> (r: Point)
        ensures
            r.wf(),
            r@ == note_type_point_of(self.app_vk@, self.app_data_static@),
    {
        let mut msg: Vec<u8> = Vec::new();
        let a = self.app_vk.to_repr();
        let b = self.app_data_static.to_repr();
        let mut i: usize = 0;
        while i < 32
            invariant
                i <= 32,
                a@ == self.app_vk@,
                msg@ == a@.subrange(0, i as int),
            decreases 32 - i,
        {
            msg.push(a[i]);
            i = i + 1;
            assert(msg@ =~= a@.subrange(0, i as int));
        }
        let mut j: usize = 0;
        while j < 32
            invariant
                j <= 32,
                a@ == self.app_vk@,
                b@ == self.app_data_static@,
                msg@ == a@ + b@.subrange(0, j as int),
            decreases 32 - j,
        {
            msg.push(b[j]);
            j = j + 1;
            assert(msg@ =~= a@ + b@.subrange(0, j as int));
        }
        assert(msg@ =~= self.app_vk@ + self.app_data_static@);
        proof {
            reveal_strlit("taiga:NoteType");
        }
        Point::hash_to_curve("taiga:NoteType", msg.as_slice())
    }
}

impl Note {
    pub open spec fn wf(&self) -> bool {
        &&& self.note_type.wf()
        &&& self.app_data_dynamic.wf()
        &&& self.nk_container.wf()
        &&& self.rho.wf()
        &&& self.psi.wf()
        &&& self.rcm.wf()
    }

    /// An input note: the key is held, and psi and rcm are expanded from the
    /// seed and rho.
    pub fn new_input_note(
        app_vk: Fp,
        app_data_static: Fp,
        app_data_dynamic: Fp,
        value: u64,
        nk: Fp,
        rho: Nullifier,
        is_merkle_checked: bool,
        rseed: RandomSeed,
    ) -> (r: Note)
        ensures
            r.note_type == NoteType::new_spec(app_vk, app_data_static),
            r.app_data_dynamic == app_data_dynamic,
            r.value == value,
            r.nk_container == NullifierKeyContainer::Key(nk),
            r.rho == rho,
            r.is_merkle_checked == is_merkle_checked,
            r.psi.wf() && r.psi.value() == psi_of(rseed@, rho@),
            r.rcm.wf() && r.rcm.value() == rcm_of(rseed@, rho@),
    {
        let note_type = NoteType::new(app_vk, app_data_static);
        Note {
            note_type,
            app_data_dynamic,
            value,
            nk_container: NullifierKeyContainer::Key(nk),
            is_merkle_checked,
            psi: rseed.get_psi(&rho),
            rcm: rseed.get_rcm(&rho),
            rho,
        }
    }

    /// An output note: only a commitment to the recipient's key is held, and
    /// rho, psi and rcm stay zero until the note is bound to an input note.
    pub fn new_output_note(
        app_vk: Fp,
        app_data_static: Fp,
        app_data_dynamic: Fp,
        value: u64,
        nk_com: Fp,
        is_merkle_checked: bool,
    ) -> (r: Note)
        ensures
            r.note_type == NoteType::new_spec(app_vk, app_data_static),
            r.app_data_dynamic == app_data_dynamic,
            r.value == value,
            r.nk_container == NullifierKeyContainer::Commitment(nk_com),
            r.is_merkle_checked == is_merkle_checked,
            r.rho.wf() && r.rho.0.value() == 0,
            r.psi.wf() && r.psi.value() == 0,
            r.rcm.wf() && r.rcm.value() == 0,
    {
        let note_type = NoteType::new(app_vk, app_data_static);
        Note {
            note_type,
            app_data_dynamic,
            value,
            nk_container: NullifierKeyContainer::Commitment(nk_com),
            is_merkle_checked,
            psi: Fp::zero(),
            rcm: Fp::zero(),
            rho: Nullifier(Fp::zero()),
        }
    }

    /// A note with every field given.
    pub fn from_full(
        app_vk: Fp,
        app_data_static: Fp,
        app_data_dynamic: Fp,
        value: u64,
        nk_container: NullifierKeyContainer,
        rho: Nullifier,
        is_merkle_checked: bool,
        psi: Fp,
        rcm: Fp,
    ) -> (r: Note)
        ensures
            r == (Note {
                note_type: NoteType::new_spec(app_vk, app_data_static),
                app_data_dynamic,
                value,
                nk_container,
                rho,
                psi,
                rcm,
                is_merkle_checked,
            }),
    {
        let note_type = NoteType::new(app_vk, app_data_static);
        Note { note_type, app_data_dynamic, value, nk_container, is_merkle_checked, psi, rcm, rho }
    }

    /// A padding note: zero value, unchecked membership, the trivial
    /// predicate's key as application, and the given random values for the
    /// rest.
    pub fn random_padding_note(
        trivial_vp_vk: Fp,
        app_data_static: Fp,
        app_data_dynamic: Fp,
        rho: Fp,
        nk: Fp,
        rseed: RandomSeed,
    ) -> (r: Note)
        ensures
            r.note_type == NoteType::new_spec(trivial_vp_vk, app_data_static),
            r.app_data_dynamic == app_data_dynamic,
            r.value == 0,
            r.nk_container == NullifierKeyContainer::Key(nk),
            r.rho == Nullifier(rho),
            r.is_merkle_checked == false,
            r.psi.wf() && r.psi.value() == psi_of(rseed@, rho@),
            r.rcm.wf() && r.rcm.value() == rcm_of(rseed@, rho@),
    {
        let note_type = NoteType::new(trivial_vp_vk, app_data_static);
        let rho = Nullifier(rho);
        Note {
            note_type,
            app_data_dynamic,
            value: 0,
            nk_container: NullifierKeyContainer::from_key(nk),
            psi: rseed.get_psi(&rho),
            rcm: rseed.get_rcm(&rho),
            rho,
            is_merkle_checked: false,
        }
    }

    /// The note commitment: Poseidon over every field, with the flag and the
    /// value folded into one element.
    pub fn commitment(&self) -> (r: NoteCommitment)
        requires
            self.wf(),
        ensures
            r.0.wf(),
            r@ == commitment_of(*self),
    {
        let composed = Fp::compose_flag_value(self.is_merkle_checked, self.value);
        let nk_cm = self.nk_container.get_commitment();
        let msg = [
            self.note_type.app_vk,
            self.note_type.app_data_static,
            self.app_data_dynamic,
            nk_cm,
            self.rho.0,
            self.psi,
            composed,
            self.rcm,
        ];
        let h = poseidon_hash(msg);
        assert(reprs(msg) =~= commitment_inputs(*self));
        NoteCommitment(h)
    }

    /// The nullifier; `None` when only a commitment to the key is held.
    pub fn get_nf(&self) -> (r: Option<Nullifier>)
        requires
            self.wf(),
        ensures
            r is Some <==> self.nk_container is Key,
            r matches Some(n) ==> n.wf() && n@ == note_nullifier_of(*self),
    {
        let cm = self.commitment();
        Nullifier::derive(&self.nk_container, &self.rho.0, &self.psi, &cm.0)
    }

    /// The nullifier key, when held.
    pub fn get_nk(&self) -> (r: Option<Fp>)
        ensures
            r is Some <==> self.nk_container is Key,
            self.nk_container matches NullifierKeyContainer::Key(k) ==> r == Some(k),
    {
        self.nk_container.get_nk()
    }

    /// The commitment to the nullifier key.
    pub fn get_nk_commitment(&self) -> (r: Fp)
        requires
            self.wf(),
        ensures
            r.wf(),
            r@ == self.nk_container.commitment_spec(),
    {
        self.nk_container.get_commitment()
    }

    /// The curve point of the note's type.
    pub fn get_note_type(&self) -> (r: Point)
        ensures
            r.wf(),
            r@ == note_type_point_of(self.note_type.app_vk@, self.note_type.app_data_static@),
    {
        self.note_type.derive_note_type()
    }

    pub fn get_app_vk(&self) -> (r: Fp)
        ensures
            r == self.note_type.app_vk,
    {
        self.note_type.app_vk
    }

    pub fn get_app_data_static(&self) -> (r: Fp)
        ensures
            r == self.note_type.app_data_static,
    {
        self.note_type.app_data_static
    }

    pub fn get_psi(&self) -> (r: Fp)
        ensures
            r == self.psi,
    {
        self.psi
    }

    pub fn get_rcm(&self) -> (r: Fp)
        ensures
            r == self.rcm,
    {
        self.rcm
    }

    /// Binds this output note to an input note: rho becomes the input's
    /// nullifier, and psi and rcm are expanded from the fresh seed and that rho.
    pub fn set_rho(&mut self, input_note: &Note, rseed: RandomSeed)
        requires
            input_note.wf(),
            input_note.nk_container is Key,
        ensures
            final(self).rho.wf(),
            final(self).rho@ == note_nullifier_of(*input_note),
            final(self).psi.wf() && final(self).psi.value() == psi_of(rseed@, final(self).rho@),
            final(self).rcm.wf() && final(self).rcm.value() == rcm_of(rseed@, final(self).rho@),
            final(self).note_type == old(self).note_type,
            final(self).app_data_dynamic == old(self).app_data_dynamic,
            final(self).value == old(self).value,
            final(self).nk_container == old(self).nk_container,
            final(self).is_merkle_checked == old(self).is_merkle_checked,
    {
        let nf = input_note.get_nf();
        match nf {
            Some(rho) => {
                self.rho = rho;
                self.psi = rseed.get_psi(&rho);
                self.rcm = rseed.get_rcm(&rho);
            },
            None => {},
        }
    }
}

/// The commitment is a function of the note: equal notes commit alike.
pub proof fn lemma_commitment_deterministic(n1: Note, n2: Note)
    requires
        n1 == n2,
    ensures
        commitment_of(n1) == commitment_of(n2),
{
}

/// The hash input of a commitment determines the note, up to the form of the
/// key container (a key and a commitment to it commit alike): two well-formed
/// notes that differ elsewhere hand Poseidon different inputs.
pub proof fn lemma_commitment_inputs_binding(n1: Note, n2: Note)
    requires
        n1.wf(),
        n2.wf(),
        commitment_inputs(n1) == commitment_inputs(n2),
    ensures
        n1.note_type == n2.note_type,
        n1.app_data_dynamic == n2.app_data_dynamic,
        n1.value == n2.value,
        n1.is_merkle_checked == n2.is_merkle_checked,
        n1.nk_container.commitment_spec() == n2.nk_container.commitment_spec(),
        n1.rho == n2.rho,
        n1.psi == n2.psi,
        n1.rcm == n2.rcm,
{
    let c1 = composed_value(n1.is_merkle_checked, n1.value);
    let c2 = composed_value(n2.is_merkle_checked, n2.value);
    assert(pow256(17) == 0x1_0000_0000_0000_0000_0000_0000_0000_0000_00nat) by {
        reveal_with_fuel(pow256, 18);
    }
    lemma_pow256_monotone(17, 32);
    lemma_le_bytes_spec(c1, 32);
    lemma_le_bytes_spec(c2, 32);
    assert(commitment_inputs(n1)[6] == commitment_inputs(n2)[6]);
    lemma_composed_value_injective(n1.is_merkle_checked, n1.value, n2.is_merkle_checked, n2.value);
    assert(commitment_inputs(n1)[0] == commitment_inputs(n2)[0]);
    assert(commitment_inputs(n1)[1] == commitment_inputs(n2)[1]);
    assert(commitment_inputs(n1)[2] == commitment_inputs(n2)[2]);
    assert(commitment_inputs(n1)[3] == commitment_inputs(n2)[3]);
    assert(commitment_inputs(n1)[4] == commitment_inputs(n2)[4]);
    assert(commitment_inputs(n1)[5] == commitment_inputs(n2)[5]);
    assert(commitment_inputs(n1)[7] == commitment_inputs(n2)[7]);
    lemma_base_view_injective(n1.note_type.app_vk, n2.note_type.app_vk);
    lemma_base_view_injective(n1.note_type.app_data_static, n2.note_type.app_data_static);
    lemma_base_view_injective(n1.app_data_dynamic, n2.app_data_dynamic);
    lemma_base_view_injective(n1.rho.0, n2.rho.0);
    lemma_base_view_injective(n1.psi, n2.psi);
    lemma_base_view_injective(n1.rcm, n2.rcm);
}

impl Default for NoteCommitment {
    /// The zero commitment.
    fn default() -> (r: NoteCommitment)
        ensures
            r.0.wf() && r.0.value() == 0,
    {
        NoteCommitment(Fp::zero())
    }
}

impl Default for NoteType {
    /// Zero key and zero static data.
    fn default() -> (r: NoteType)
        ensures
            r.wf() && r.app_vk.value() == 0 && r.app_data_static.value() == 0,
    {
        NoteType { app_vk: Fp::zero(), app_data_static: Fp::zero() }
    }
}

impl Default for Note {
    /// The note with every field zero, a zero key and the flag unset.
    fn default() -> (r: Note)
        ensures
            r.is_zero_note(),
    {
        Note {
            note_type: NoteType::default(),
            app_data_dynamic: Fp::zero(),
            value: 0,
            nk_container: NullifierKeyContainer::default(),
            rho: Nullifier::default(),
            psi: Fp::zero(),
            rcm: Fp::zero(),
            is_merkle_checked: false,
        }
    }
}

impl Note {
    /// Every field is zero, the container holds a zero key, and the flag is
    /// unset.
    pub open spec fn is_zero_note(&self) -> bool {
        &&& self.wf()
        &&& self.note_type.app_vk.value() == 0
        &&& self.note_type.app_data_static.value() == 0
        &&& self.app_data_dynamic.value() == 0
        &&& self.value == 0
        &&& (self.nk_container matches NullifierKeyContainer::Key(k) && k.value() == 0)
        &&& self.rho.0.value() == 0
        &&& self.psi.value() == 0
        &&& self.rcm.value() == 0
        &&& !self.is_merkle_checked
    }
}

impl NoteType {
    pub open spec fn new_spec(vk: Fp, data: Fp) -> NoteType {
        NoteType { app_vk: vk, app_data_static: data }
    }
}

} // verus!
