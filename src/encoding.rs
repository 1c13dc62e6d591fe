//! The canonical byte encoding of a note: `app_vk`, `app_data_static`,
//! `app_data_dynamic` (32 bytes each), `value` (8 bytes, little-endian), the
//! key-container tag (1 for a commitment, 2 for a key) and its 32-byte
//! payload, `rho`, `psi`, `rcm` (32 bytes each), and `is_merkle_checked` as
//! one byte (0 or 1): 234 bytes in all.
use crate::field::{
    append_bytes, base_repr_valid, le_bytes, le_nat, lemma_base_view_injective, lemma_le_bytes_of,
    lemma_le_bytes_spec, lemma_le_nat_bound, lemma_le_nat_push, lemma_pow256_8, lemma_pow256_monotone, pow256, Fp,
};
use crate::note::{Note, NoteType};
use crate::nullifier::{Nullifier, NullifierKeyContainer};
use vstd::prelude::*;

verus! {

/// The length of an encoded note.
pub const NOTE_ENCODING_LEN: usize = 234;

/// Why a byte string is not the encoding of a note.
#[derive(Clone, Copy, Debug, PartialEq, Eq)]
pub enum DecodeError {
    /// The string is not 234 bytes long.
    InvalidLength,
    /// The key-container tag is neither 1 nor 2, or the flag byte neither 0 nor 1.
    InvalidTag,
    /// A field element is at or above the modulus.
    NotInField,
}

/// The tag of a key container.
pub open spec fn nk_tag(c: NullifierKeyContainer) -> u8 {
    match c {
        NullifierKeyContainer::Commitment(_) => 1,
        NullifierKeyContainer::Key(_) => 2,
    }
}

/// The field element that a key container carries.
pub open spec fn nk_payload(c: NullifierKeyContainer) -> Fp {
    match c {
        NullifierKeyContainer::Commitment(v) => v,
        NullifierKeyContainer::Key(v) => v,
    }
}

/// The encoding of a note.
pub open spec fn encode_spec(n: Note) -> Seq<u8> {
    n.note_type.app_vk@ + n.note_type.app_data_static@ + n.app_data_dynamic@ + le_bytes(
        n.value as nat,
        8,
    ) + seq![nk_tag(n.nk_container)] + nk_payload(n.nk_container)@ + n.rho@ + n.psi@ + n.rcm@
        + seq![if n.is_merkle_checked { 1u8 } else { 0u8 }]
}

/// The 32 bytes at `off`.
pub open spec fn chunk(b: Seq<u8>, off: int) -> Seq<u8> {
    b.subrange(off, off + 32)
}

/// The tag bytes of a 234-byte string are ones that a note encodes to.
pub open spec fn tags_valid(b: Seq<u8>) -> bool {
    (b[104] == 1 || b[104] == 2) && (b[233] == 0 || b[233] == 1)
}

/// Every field element of a 234-byte string is canonical.
pub open spec fn fields_canonical(b: Seq<u8>) -> bool {
    &&& base_repr_valid(chunk(b, 0))
    &&& base_repr_valid(chunk(b, 32))
    &&& base_repr_valid(chunk(b, 64))
    &&& base_repr_valid(chunk(b, 105))
    &&& base_repr_valid(chunk(b, 137))
    &&& base_repr_valid(chunk(b, 169))
    &&& base_repr_valid(chunk(b, 201))
}

/// A string that decodes to a note.
pub open spec fn encoding_valid(b: Seq<u8>) -> bool {
    b.len() == 234 && tags_valid(b) && fields_canonical(b)
}

fn u64_to_le(v: u64) -> (r: Vec<u8>)
    ensures
        r@ == le_bytes(v as nat, 8),
{
    let mut out: Vec<u8> = Vec::new();
    let mut x: u64 = v;
    let mut i: usize = 0;
    proof {
        lemma_pow256_8();
        assert(out@ =~= Seq::<u8>::empty());
        assert(pow256(0) == 1);
    }
    while i < 8
        invariant
            i <= 8,
            out@.len() == i,
            v as nat == le_nat(out@) + pow256(i as nat) * x,
            x < pow256((8 - i) as nat),
        decreases 8 - i,
    {
        let d: u8 = (x % 256) as u8;
        proof {
            lemma_le_nat_push(out@, d);
            let p = pow256(i as nat);
            let q = pow256((8 - i - 1) as nat);
            assert(pow256((i + 1) as nat) == 256 * p);
            assert(pow256((8 - i) as nat) == 256 * q);
            let xx = x as nat;
            assert(p * xx == p * (xx % 256) + (256 * p) * (xx / 256)) by (nonlinear_arith);
            assert(xx / 256 < q) by (nonlinear_arith)
                requires
                    xx < 256 * q,
            ;
        }
        out.push(d);
        x = x / 256;
        i = i + 1;
    }
    proof {
        assert(pow256(0) == 1);
        lemma_le_bytes_of(out@);
    }
    out
}

fn u64_from_le(b: &[u8], off: usize) -> (r: u64)
    requires
        off + 8 <= b@.len(),
    ensures
        r as nat == le_nat(b@.subrange(off as int, off + 8)),
{
    let mut x: u64 = 0;
    let mut i: usize = 8;
    let len = b.len();
    proof {
        assert(b@.subrange(off + 8, off + 8) =~= Seq::<u8>::empty());
    }
    while i > 0
        invariant
            i <= 8,
            off + 8 <= b@.len(),
            len == b@.len(),
            x as nat == le_nat(b@.subrange(off + i, off + 8)),
        decreases i,
    {
        proof {
            let s = b@.subrange(off + i - 1, off + 8);
            assert(s.subrange(1, s.len() as int) =~= b@.subrange(off + i, off + 8));
            lemma_le_nat_bound(s);
            assert(pow256(s.len()) <= pow256(8)) by {
                lemma_pow256_monotone(s.len(), 8);
            }
            lemma_pow256_8();
        }
        x = x * 256 + b[off + i - 1] as u64;
        i = i - 1;
    }
    x
}

fn read32(b: &[u8], off: usize) -> (r: [u8; 32])
    requires
        off + 32 <= b@.len(),
    ensures
        r@ == chunk(b@, off as int),
{
    let mut r = [0u8; 32];
    let mut i: usize = 0;
    let len = b.len();
    while i < 32
        invariant
            i <= 32,
            len == b@.len(),
            off + 32 <= b@.len(),
            r@.len() == 32,
            forall|j: int| 0 <= j < i ==> r@[j] == b@[off + j],
        decreases 32 - i,
    {
        r[i] = b[off + i];
        i = i + 1;
    }
    assert(r@ =~= chunk(b@, off as int));
    r
}

impl Note {
    /// The canonical encoding.
    pub fn to_bytes(&self) -> (r: Vec<u8>)
        ensures
            r@ == encode_spec(*self),
    {
        let mut out: Vec<u8> = Vec::new();
        let a = self.note_type.app_vk.to_repr();
        append_bytes(&mut out, a.as_slice());
        let a = self.note_type.app_data_static.to_repr();
        append_bytes(&mut out, a.as_slice());
        let a = self.app_data_dynamic.to_repr();
        append_bytes(&mut out, a.as_slice());
        let v = u64_to_le(self.value);
        append_bytes(&mut out, v.as_slice());
        let (tag, payload) = match self.nk_container {
            NullifierKeyContainer::Commitment(c) => (1u8, c),
            NullifierKeyContainer::Key(k) => (2u8, k),
        };
        out.push(tag);
        let a = payload.to_repr();
        append_bytes(&mut out, a.as_slice());
        let a = self.rho.0.to_repr();
        append_bytes(&mut out, a.as_slice());
        let a = self.psi.to_repr();
        append_bytes(&mut out, a.as_slice());
        let a = self.rcm.to_repr();
        append_bytes(&mut out, a.as_slice());
        out.push(if self.is_merkle_checked { 1u8 } else { 0u8 });
        assert(out@ =~= encode_spec(*self));
        out
    }

    /// Decodes a note. The length is checked first, then the tag bytes, then
    /// that every field element is canonical.
    pub fn from_bytes(b: &[u8]) -> (r: Result<Note, DecodeError>)
        ensures
            r == Err::<Note, DecodeError>(DecodeError::InvalidLength) <==> b@.len() != 234,
            r == Err::<Note, DecodeError>(DecodeError::InvalidTag) <==> b@.len() == 234
                && !tags_valid(b@),
            r == Err::<Note, DecodeError>(DecodeError::NotInField) <==> b@.len() == 234
                && tags_valid(b@) && !fields_canonical(b@),
            r is Ok <==> encoding_valid(b@),
            r matches Ok(n) ==> n.wf() && encode_spec(n) == b@,
    {
        if b.len() != NOTE_ENCODING_LEN {
            return Err(DecodeError::InvalidLength);
        }
        let tag = b[104];
        let flag = b[233];
        if !((tag == 1 || tag == 2) && (flag == 0 || flag == 1)) {
            return Err(DecodeError::InvalidTag);
        }
        let vk = Fp::from_repr(read32(b, 0));
        let st = Fp::from_repr(read32(b, 32));
        let dy = Fp::from_repr(read32(b, 64));
        let nk = Fp::from_repr(read32(b, 105));
        let rho = Fp::from_repr(read32(b, 137));
        let psi = Fp::from_repr(read32(b, 169));
        let rcm = Fp::from_repr(read32(b, 201));
        match (vk, st, dy, nk, rho, psi, rcm) {
            (Some(vk), Some(st), Some(dy), Some(nk), Some(rho), Some(psi), Some(rcm)) => {
                let value = u64_from_le(b, 96);
                let nk_container = if tag == 1 {
                    NullifierKeyContainer::Commitment(nk)
                } else {
                    NullifierKeyContainer::Key(nk)
                };
                let n = Note {
                    note_type: NoteType { app_vk: vk, app_data_static: st },
                    app_data_dynamic: dy,
                    value,
                    nk_container,
                    rho: Nullifier(rho),
                    psi,
                    rcm,
                    is_merkle_checked: flag == 1,
                };
                proof {
                    lemma_le_bytes_of(b@.subrange(96, 104));
                    assert(encode_spec(n) =~= b@);
                }
                Ok(n)
            },
            _ => Err(DecodeError::NotInField),
        }
    }
}

/// The encoding of a well-formed note is one that decodes.
pub proof fn lemma_encoding_valid(n: Note)
    requires
        n.wf(),
    ensures
        encoding_valid(encode_spec(n)),
{
    let e = encode_spec(n);
    lemma_pow256_8();
    lemma_le_bytes_spec(n.value as nat, 8);
    assert(e.len() == 234);
    assert(chunk(e, 0) =~= n.note_type.app_vk@);
    assert(chunk(e, 32) =~= n.note_type.app_data_static@);
    assert(chunk(e, 64) =~= n.app_data_dynamic@);
    assert(chunk(e, 105) =~= nk_payload(n.nk_container)@);
    assert(chunk(e, 137) =~= n.rho@);
    assert(chunk(e, 169) =~= n.psi@);
    assert(chunk(e, 201) =~= n.rcm@);
}

/// Two well-formed notes with one encoding are the same note.
pub proof fn lemma_encoding_injective(n: Note, m: Note)
    requires
        n.wf(),
        m.wf(),
        encode_spec(n) == encode_spec(m),
    ensures
        n == m,
{
    let e = encode_spec(n);
    let f = encode_spec(m);
    lemma_pow256_8();
    lemma_le_bytes_spec(n.value as nat, 8);
    lemma_le_bytes_spec(m.value as nat, 8);
    assert(chunk(e, 0) =~= n.note_type.app_vk@);
    assert(chunk(f, 0) =~= m.note_type.app_vk@);
    assert(chunk(e, 32) =~= n.note_type.app_data_static@);
    assert(chunk(f, 32) =~= m.note_type.app_data_static@);
    assert(chunk(e, 64) =~= n.app_data_dynamic@);
    assert(chunk(f, 64) =~= m.app_data_dynamic@);
    assert(e.subrange(96, 104) =~= le_bytes(n.value as nat, 8));
    assert(f.subrange(96, 104) =~= le_bytes(m.value as nat, 8));
    assert(chunk(e, 105) =~= nk_payload(n.nk_container)@);
    assert(chunk(f, 105) =~= nk_payload(m.nk_container)@);
    assert(chunk(e, 137) =~= n.rho@);
    assert(chunk(f, 137) =~= m.rho@);
    assert(chunk(e, 169) =~= n.psi@);
    assert(chunk(f, 169) =~= m.psi@);
    assert(chunk(e, 201) =~= n.rcm@);
    assert(chunk(f, 201) =~= m.rcm@);
    assert(e[104] == nk_tag(n.nk_container));
    assert(f[104] == nk_tag(m.nk_container));
    assert(e[233] == f[233]);
    lemma_base_view_injective(n.note_type.app_vk, m.note_type.app_vk);
    lemma_base_view_injective(n.note_type.app_data_static, m.note_type.app_data_static);
    lemma_base_view_injective(n.app_data_dynamic, m.app_data_dynamic);
    lemma_base_view_injective(nk_payload(n.nk_container), nk_payload(m.nk_container));
    lemma_base_view_injective(n.rho.0, m.rho.0);
    lemma_base_view_injective(n.psi, m.psi);
    lemma_base_view_injective(n.rcm, m.rcm);
    assert(le_bytes(n.value as nat, 8) == le_bytes(m.value as nat, 8));
    assert(n.value == m.value);
    assert(n.is_merkle_checked == m.is_merkle_checked);
    assert(n.nk_container == m.nk_container);
    assert(n.note_type == m.note_type);
    assert(n.rho == m.rho);
}


/// Decoding the encoding of a well-formed note gives that note back: the
/// encoding is one that decodes, and the only well-formed note with that
/// encoding is the note itself.
pub proof fn lemma_round_trip(n: Note)
    requires
        n.wf(),
    ensures
        encoding_valid(encode_spec(n)),
        forall|m: Note| #![auto] m.wf() && encode_spec(m) == encode_spec(n) ==> m == n,
{
    lemma_encoding_valid(n);
    assert forall|m: Note| #![auto] m.wf() && encode_spec(m) == encode_spec(n) implies m == n by {
        lemma_encoding_injective(m, n);
    }
}

} // verus!
