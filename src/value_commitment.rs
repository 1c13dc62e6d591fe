//! Value commitments: `[v_in] B_in - [v_out] B_out + [r] R`, where `B` is the
//! point of a note's type and `R` a fixed generator for the blinding.
use crate::field::{le_bytes, Fp, Fq};
use crate::note::{note_type_point_of, Note};
use crate::point::{
    encoded_x, hash_to_curve_of, identity_encoding, point_add_of, point_mul_of, point_sub_of,
    point_y_of, Point,
};
use vstd::prelude::*;

verus! {

/// The domain prefix of the blinding generator.
pub open spec fn blinding_generator_domain() -> Seq<char> {
    "taiga:ValueCommitmentR"@
}

/// The blinding generator `R`.
pub open spec fn blinding_generator() -> Seq<u8> {
    hash_to_curve_of(blinding_generator_domain(), seq![114u8])
}

/// The type point of a note.
pub open spec fn value_base_of(n: Note) -> Seq<u8> {
    note_type_point_of(n.note_type.app_vk@, n.note_type.app_data_static@)
}

/// The value commitment of an input note, an output note and a blinding scalar.
pub open spec fn value_commitment_of(input: Note, output: Note, blind: Seq<u8>) -> Seq<u8> {
    point_add_of(
        point_sub_of(
            point_mul_of(value_base_of(input), le_bytes(input.value as nat, 32)),
            point_mul_of(value_base_of(output), le_bytes(output.value as nat, 32)),
        ),
        point_mul_of(blinding_generator(), blind),
    )
}

/// A commitment to the value moved by one input/output pair.
#[derive(Clone, Copy, Debug, PartialEq, Eq)]
pub struct ValueCommitment(pub Point);

/// The blinding generator `R`: pasta_curves' hash-to-curve of the byte `r`
/// under the domain prefix "taiga:ValueCommitmentR", a point whose discrete
/// logarithm to any type point is unknown.
pub fn blinding_generator_point() -> (r: Point)
    ensures
        r.wf(),
        r@ == blinding_generator(),
{
    let msg = [114u8];
    assert(msg@ =~= seq![114u8]);
    proof {
        reveal_strlit("taiga:ValueCommitmentR");
    }
    Point::hash_to_curve("taiga:ValueCommitmentR", msg.as_slice())
}

impl ValueCommitment {
    /// `[v_in] B_in - [v_out] B_out + [blind_r] R`.
    pub fn new(input_note: &Note, output_note: &Note, blind_r: &Fq) -> (r: ValueCommitment)
        requires
            blind_r.wf(),
        ensures
            r.0.wf(),
            r.0@ == value_commitment_of(*input_note, *output_note, blind_r@),
    {
        let base_input = input_note.get_note_type();
        let base_output = output_note.get_note_type();
        let v_in = Fq::from_u64(input_note.value);
        let v_out = Fq::from_u64(output_note.value);
        let a = base_input.mul(&v_in);
        let b = base_output.mul(&v_out);
        let g = blinding_generator_point();
        let c = g.mul(blind_r);
        ValueCommitment(a.sub(&b).add(&c))
    }

    /// The sum of two value commitments.
    pub fn add(&self, other: &ValueCommitment) -> (r: ValueCommitment)
        requires
            self.0.wf(),
            other.0.wf(),
        ensures
            r.0.wf(),
            r.0@ == point_add_of(self.0@, other.0@),
    {
        ValueCommitment(self.0.add(&other.0))
    }

    /// Whether this is the identity element, as for a balanced pair with zero
    /// blinding.
    pub fn is_identity(&self) -> (r: bool)
        ensures
            r == (self.0@ == identity_encoding()),
    {
        self.0.is_identity()
    }

    /// The affine x-coordinate; zero for the identity.
    pub fn get_x(&self) -> (r: Fp)
        requires
            self.0.wf(),
        ensures
            r.wf(),
            r@ == encoded_x(self.0@),
            self.0@ == identity_encoding() ==> r.value() == 0,
    {
        self.0.get_x()
    }

    /// The affine y-coordinate; zero for the identity.
    pub fn get_y(&self) -> (r: Fp)
        requires
            self.0.wf(),
        ensures
            r.wf(),
            self.0@ == identity_encoding() ==> r.value() == 0,
            self.0@ != identity_encoding() ==> r@ == point_y_of(self.0@),
    {
        self.0.get_y()
    }
}

} // verus!
