//! Binding a note to its validity predicates: one application predicate and
//! any number of dynamic ones, each turned into verifying data by the proof
//! system in the order stored.
use crate::field::Fp;
use crate::note::{commitment_of, note_nullifier_of, Note};
use vstd::prelude::*;

verus! {

/// The number of input notes, and of output notes, in an action.
pub const NUM_NOTE: usize = 2;

/// A validity-predicate circuit instance, as the proof system sees it.
pub trait ValidityPredicate {
    /// What the proof system yields for the instance.
    type VerifyingInfo;

    /// `info` is verifying data that the proof system may yield for the
    /// instance (proving draws randomness, so there may be many).
    spec fn verifying_info_valid(&self, info: Self::VerifyingInfo) -> bool;

    /// Runs the proof system on the instance.
    fn get_verifying_info(&self) -> (r: Self::VerifyingInfo)
        ensures
            self.verifying_info_valid(r),
    ;
}

/// The predicate of padding notes: it constrains nothing, and its one public
/// input is the identity of the note it is bound to.
#[derive(Clone, Debug)]
pub struct TrivialValidityPredicateCircuit {
    pub owned_note_pub_id: Fp,
    pub input_notes: [Note; NUM_NOTE],
    pub output_notes: [Note; NUM_NOTE],
}

impl Default for TrivialValidityPredicateCircuit {
    /// Zero note identity, and default notes on both sides.
    fn default() -> (r: TrivialValidityPredicateCircuit)
        ensures
            r.owned_note_pub_id.wf() && r.owned_note_pub_id.value() == 0,
            forall|i: int| 0 <= i < NUM_NOTE ==> (#[trigger] r.input_notes@[i]).is_zero_note(),
            forall|i: int| 0 <= i < NUM_NOTE ==> (#[trigger] r.output_notes@[i]).is_zero_note(),
    {
        let n = Note::default();
        TrivialValidityPredicateCircuit {
            owned_note_pub_id: Fp::zero(),
            input_notes: [n, n],
            output_notes: [n, n],
        }
    }
}

impl TrivialValidityPredicateCircuit {
    pub fn new(owned_note_pub_id: Fp, input_notes: [Note; NUM_NOTE], output_notes: [Note; NUM_NOTE]) -> (r:
        TrivialValidityPredicateCircuit)
        ensures
            r.owned_note_pub_id == owned_note_pub_id,
            r.input_notes == input_notes,
            r.output_notes == output_notes,
    {
        TrivialValidityPredicateCircuit { owned_note_pub_id, input_notes, output_notes }
    }

    /// The identity of the note that the predicate is bound to.
    pub fn get_owned_note_pub_id(&self) -> (r: Fp)
        ensures
            r == self.owned_note_pub_id,
    {
        self.owned_note_pub_id
    }
}

/// This impl stands in for the proof system: a trivial predicate imposes no
/// constraint, and what it publishes is the owned note's identity, which is
/// what it yields here.
impl ValidityPredicate for TrivialValidityPredicateCircuit {
    type VerifyingInfo = Fp;

    open spec fn verifying_info_valid(&self, info: Fp) -> bool {
        info == self.owned_note_pub_id
    }

    fn get_verifying_info(&self) -> (r: Fp) {
        self.owned_note_pub_id
    }
}

/// The verifying data of all the predicates of one note, in order.
#[derive(Clone, Debug)]
pub struct NoteVPVerifyingInfoSet<I> {
    pub app_vp_verifying_info: I,
    pub app_dynamic_vp_verifying_info: Vec<I>,
}

impl<I> NoteVPVerifyingInfoSet<I> {
    /// The number of predicates covered.
    pub open spec fn len_spec(&self) -> nat {
        1 + self.app_dynamic_vp_verifying_info@.len()
    }

    pub fn new(app_vp_verifying_info: I, app_dynamic_vp_verifying_info: Vec<I>) -> (r:
        NoteVPVerifyingInfoSet<I>)
        ensures
            r.app_vp_verifying_info == app_vp_verifying_info,
            r.app_dynamic_vp_verifying_info@ == app_dynamic_vp_verifying_info@,
    {
        NoteVPVerifyingInfoSet { app_vp_verifying_info, app_dynamic_vp_verifying_info }
    }

    /// The number of predicates covered: one more than the dynamic ones.
    pub fn len(&self) -> (r: usize)
        requires
            self.app_dynamic_vp_verifying_info@.len() < usize::MAX,
        ensures
            r == self.len_spec(),
    {
        1 + self.app_dynamic_vp_verifying_info.len()
    }
}

/// One application predicate and the dynamic predicates of a note.
#[derive(Clone)]
pub struct NoteValidityPredicates<V> {
    application_vp: V,
    dynamic_vps: Vec<V>,
}

impl<V: ValidityPredicate> NoteValidityPredicates<V> {
    pub closed spec fn application_vp_spec(&self) -> V {
        self.application_vp
    }

    pub closed spec fn dynamic_vps_spec(&self) -> Seq<V> {
        self.dynamic_vps@
    }

    pub fn new(application_vp: V, dynamic_vps: Vec<V>) -> (r: NoteValidityPredicates<V>)
        ensures
            r.application_vp_spec() == application_vp,
            r.dynamic_vps_spec() == dynamic_vps@,
    {
        NoteValidityPredicates { application_vp, dynamic_vps }
    }

    /// Runs the proof system on the application predicate, then on each
    /// dynamic predicate in order; none is skipped.
    pub fn build(&self) -> (r: NoteVPVerifyingInfoSet<V::VerifyingInfo>)
        ensures
            self.application_vp_spec().verifying_info_valid(r.app_vp_verifying_info),
            r.app_dynamic_vp_verifying_info@.len() == self.dynamic_vps_spec().len(),
            forall|i: int|
                0 <= i < self.dynamic_vps_spec().len() ==> self.dynamic_vps_spec()[i].verifying_info_valid(
                    #[trigger] r.app_dynamic_vp_verifying_info@[i],
                ),
            r.len_spec() == 1 + self.dynamic_vps_spec().len(),
    {
        let app = self.application_vp.get_verifying_info();
        let mut dynamic: Vec<V::VerifyingInfo> = Vec::new();
        let mut i: usize = 0;
        while i < self.dynamic_vps.len()
            invariant
                i <= self.dynamic_vps@.len(),
                dynamic@.len() == i,
                forall|j: int|
                    0 <= j < i ==> self.dynamic_vps@[j].verifying_info_valid(#[trigger] dynamic@[j]),
            decreases self.dynamic_vps@.len() - i,
        {
            dynamic.push(self.dynamic_vps[i].get_verifying_info());
            i = i + 1;
        }
        NoteVPVerifyingInfoSet::new(app, dynamic)
    }
}

impl NoteValidityPredicates<TrivialValidityPredicateCircuit> {
    /// The predicates of an input padding note: the trivial predicate, bound
    /// to the note's nullifier, and no dynamic predicate.
    pub fn create_input_padding_note_vps(
        note: &Note,
        input_notes: [Note; NUM_NOTE],
        output_notes: [Note; NUM_NOTE],
    ) -> (r: NoteValidityPredicates<TrivialValidityPredicateCircuit>)
        requires
            note.wf(),
            note.nk_container is Key,
        ensures
            r.application_vp_spec().owned_note_pub_id@ == note_nullifier_of(*note),
            r.application_vp_spec().input_notes == input_notes,
            r.application_vp_spec().output_notes == output_notes,
            r.dynamic_vps_spec().len() == 0,
    {
        let note_id = match note.get_nf() {
            Some(nf) => nf.inner(),
            None => Fp::zero(),
        };
        let application_vp = TrivialValidityPredicateCircuit::new(note_id, input_notes, output_notes);
        NoteValidityPredicates::new(application_vp, Vec::new())
    }

    /// The predicates of an output padding note: the trivial predicate, bound
    /// to the note's commitment, and no dynamic predicate.
    pub fn create_output_padding_note_vps(
        note: &Note,
        input_notes: [Note; NUM_NOTE],
        output_notes: [Note; NUM_NOTE],
    ) -> (r: NoteValidityPredicates<TrivialValidityPredicateCircuit>)
        requires
            note.wf(),
        ensures
            r.application_vp_spec().owned_note_pub_id@ == commitment_of(*note),
            r.application_vp_spec().input_notes == input_notes,
            r.application_vp_spec().output_notes == output_notes,
            r.dynamic_vps_spec().len() == 0,
    {
        let note_id = note.commitment().inner();
        let application_vp = TrivialValidityPredicateCircuit::new(note_id, input_notes, output_notes);
        NoteValidityPredicates::new(application_vp, Vec::new())
    }
}

/// A padding note's bundle has the shape of every other note's: its set
/// holds exactly one entry, for the trivial predicate and no dynamic one.
pub proof fn lemma_padding_bundle_shape(
    vps: NoteValidityPredicates<TrivialValidityPredicateCircuit>,
    set: NoteVPVerifyingInfoSet<Fp>,
)
    requires
        vps.dynamic_vps_spec().len() == 0,
        set.app_dynamic_vp_verifying_info@.len() == vps.dynamic_vps_spec().len(),
    ensures
        set.len_spec() == 1,
{
}

} // verus!
