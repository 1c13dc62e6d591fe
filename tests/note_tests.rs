use rand::RngCore;
use taiga_note::encoding::DecodeError;
use taiga_note::field::{base_from_uniform_bytes, Fp, Fq};
use taiga_note::merkle::{MerklePath, LR};
use taiga_note::note::{Note, NoteCommitment, NoteType};
use taiga_note::nullifier::{Nullifier, NullifierKeyContainer};
use taiga_note::seed::RandomSeed;
use taiga_note::token::{Token, ValidityPredicateDescription};
use taiga_note::value_commitment::ValueCommitment;
use taiga_note::vp::{NoteValidityPredicates, TrivialValidityPredicateCircuit, ValidityPredicate};

fn random_fp<R: RngCore>(rng: &mut R) -> Fp {
    let mut b = [0u8; 64];
    rng.fill_bytes(&mut b);
    base_from_uniform_bytes(&b)
}

fn random_seed<R: RngCore>(rng: &mut R) -> RandomSeed {
    let mut b = [0u8; 32];
    rng.fill_bytes(&mut b);
    RandomSeed::from_bytes(b)
}

fn random_note<R: RngCore>(rng: &mut R) -> Note {
    let rho = Nullifier(random_fp(rng));
    let rseed = random_seed(rng);
    Note {
        note_type: NoteType::new(random_fp(rng), random_fp(rng)),
        app_data_dynamic: random_fp(rng),
        value: rng.next_u64(),
        nk_container: NullifierKeyContainer::from_key(random_fp(rng)),
        is_merkle_checked: true,
        psi: rseed.get_psi(&rho),
        rcm: rseed.get_rcm(&rho),
        rho,
    }
}

fn input_note(vk: Fp, data: Fp, value: u64, rng: &mut impl RngCore) -> Note {
    let rho = Nullifier(random_fp(rng));
    Note::new_input_note(vk, data, Fp::zero(), value, random_fp(rng), rho, true, random_seed(rng))
}

fn output_note(vk: Fp, data: Fp, value: u64, rng: &mut impl RngCore) -> Note {
    Note::new_output_note(vk, data, Fp::zero(), value, random_fp(rng), true)
}

#[test]
fn note_borsh_serialization_test() {
    let mut rng = rand::thread_rng();
    let input_note = random_note(&mut rng);
    {
        let bytes = input_note.to_bytes();
        let de_note = Note::from_bytes(&bytes).unwrap();
        assert_eq!(input_note, de_note);
    }

    let mut output_note = input_note;
    {
        output_note.nk_container = NullifierKeyContainer::from_commitment(random_fp(&mut rng));
        let bytes = output_note.to_bytes();
        let de_note = Note::from_bytes(&bytes).unwrap();
        assert_eq!(output_note, de_note);
    }

    let icm = input_note.commitment();
    {
        let de_icm = NoteCommitment::from_bytes(icm.to_bytes()).unwrap();
        assert_eq!(icm, de_icm);
    }

    let ocm = output_note.commitment();
    {
        let de_ocm = NoteCommitment::from_bytes(ocm.to_bytes()).unwrap();
        assert_eq!(ocm, de_ocm);
    }
}

#[test]
fn encoding_layout_and_length() {
    let n = Note::from_full(
        Fp::from_u64(1),
        Fp::from_u64(2),
        Fp::from_u64(3),
        0x0102030405060708,
        NullifierKeyContainer::from_key(Fp::from_u64(4)),
        Nullifier(Fp::from_u64(5)),
        true,
        Fp::from_u64(6),
        Fp::from_u64(7),
    );
    let b = n.to_bytes();
    assert_eq!(b.len(), 234);
    assert_eq!(b[0], 1);
    assert_eq!(b[32], 2);
    assert_eq!(b[64], 3);
    assert_eq!(&b[96..104], &[8, 7, 6, 5, 4, 3, 2, 1]);
    assert_eq!(b[104], 2);
    assert_eq!(b[105], 4);
    assert_eq!(b[137], 5);
    assert_eq!(b[169], 6);
    assert_eq!(b[201], 7);
    assert_eq!(b[233], 1);
    assert_eq!(Note::from_bytes(&b), Ok(n));
}

#[test]
fn decode_rejects_non_canonical_field() {
    let mut rng = rand::thread_rng();
    let n = random_note(&mut rng);
    let mut b = n.to_bytes();
    // psi set to the modulus
    let p: [u8; 32] = [
        0x01, 0x00, 0x00, 0x00, 0xed, 0x30, 0x2d, 0x99, 0x1b, 0xf9, 0x4c, 0x09, 0xfc, 0x98, 0x46,
        0x22, 0x00, 0x00, 0x00, 0x00, 0x00, 0x00, 0x00, 0x00, 0x00, 0x00, 0x00, 0x00, 0x00, 0x00,
        0x00, 0x40,
    ];
    assert!(Fp::from_repr(p).is_none());
    b[169..201].copy_from_slice(&p);
    assert_eq!(Note::from_bytes(&b), Err(DecodeError::NotInField));
    let mut below = p;
    below[0] = 0;
    assert!(Fp::from_repr(below).is_some());
}

#[test]
fn decode_rejects_bad_tags_and_lengths() {
    let mut rng = rand::thread_rng();
    let b = random_note(&mut rng).to_bytes();
    assert_eq!(Note::from_bytes(&b[..233]), Err(DecodeError::InvalidLength));
    assert_eq!(Note::from_bytes(&[]), Err(DecodeError::InvalidLength));
    let mut longer = b.clone();
    longer.push(0);
    assert_eq!(Note::from_bytes(&longer), Err(DecodeError::InvalidLength));
    let mut bad_tag = b.clone();
    bad_tag[104] = 3;
    assert_eq!(Note::from_bytes(&bad_tag), Err(DecodeError::InvalidTag));
    let mut bad_flag = b.clone();
    bad_flag[233] = 2;
    assert_eq!(Note::from_bytes(&bad_flag), Err(DecodeError::InvalidTag));
}

#[test]
fn commitment_is_deterministic_and_binding() {
    let mut rng = rand::thread_rng();
    let n = random_note(&mut rng);
    assert_eq!(n.commitment(), n.commitment());
    let mut m = n;
    m.value = n.value ^ 1;
    assert_ne!(n.commitment(), m.commitment());
    let mut f = n;
    f.is_merkle_checked = false;
    assert_ne!(n.commitment(), f.commitment());
    let mut d = n;
    d.app_data_dynamic = random_fp(&mut rng);
    assert_ne!(n.commitment(), d.commitment());
}

#[test]
fn key_and_its_commitment_commit_alike() {
    let mut rng = rand::thread_rng();
    let n = random_note(&mut rng);
    let mut m = n;
    m.nk_container = NullifierKeyContainer::from_commitment(n.get_nk_commitment());
    assert_eq!(n.commitment(), m.commitment());
    assert!(m.get_nf().is_none());
}

#[test]
fn nullifier_availability_gating() {
    let mut rng = rand::thread_rng();
    let n = random_note(&mut rng);
    assert!(n.get_nf().is_some());
    assert!(n.get_nk().is_some());
    let o = output_note(random_fp(&mut rng), random_fp(&mut rng), 5, &mut rng);
    assert!(o.get_nf().is_none());
    assert!(o.get_nk().is_none());
    let mut unchecked = n;
    unchecked.is_merkle_checked = false;
    assert!(unchecked.get_nf().is_some());
}

#[test]
fn psi_and_rcm_are_domain_separated() {
    let mut rng = rand::thread_rng();
    for _ in 0..10000 {
        let seed = random_seed(&mut rng);
        let rho = Nullifier(random_fp(&mut rng));
        assert_ne!(seed.get_psi(&rho), seed.get_rcm(&rho));
    }
    let seed = random_seed(&mut rng);
    let rho1 = Nullifier(Fp::from_u64(1));
    let rho2 = Nullifier(Fp::from_u64(2));
    assert_ne!(seed.get_psi(&rho1), seed.get_psi(&rho2));
    assert_ne!(seed.get_rcm(&rho1), seed.get_rcm(&rho2));
}

#[test]
fn seed_expansion_is_deterministic() {
    let seed = RandomSeed::from_bytes([7u8; 32]);
    let rho = Nullifier(Fp::from_u64(9));
    assert_eq!(seed.get_psi(&rho), RandomSeed::from_bytes([7u8; 32]).get_psi(&rho));
    assert_ne!(seed.get_psi(&rho), Fp::zero());
    assert_ne!(seed.get_vp_cm_r(4), seed.get_vp_cm_r(5));
    assert_ne!(seed.get_rcv(), Fq::zero());
}

#[test]
fn random_padding_values() {
    let seed = RandomSeed::from_bytes([3u8; 32]);
    let pad = seed.get_random_padding(5);
    assert_eq!(pad.len(), 5);
    for i in 0..5 {
        for j in 0..i {
            assert_ne!(pad[i], pad[j]);
        }
        assert_ne!(pad[i], Fp::zero());
    }
    assert_eq!(seed.get_random_padding(0).len(), 0);
    let long = seed.get_random_padding(257);
    assert_eq!(long[256], long[0]);
}

#[test]
fn set_rho_chains_the_action() {
    let mut rng = rand::thread_rng();
    let input = random_note(&mut rng);
    let mut output = output_note(random_fp(&mut rng), random_fp(&mut rng), 10, &mut rng);
    let rseed = random_seed(&mut rng);
    output.set_rho(&input, rseed);
    assert_eq!(output.rho, input.get_nf().unwrap());
    assert_eq!(output.psi, rseed.get_psi(&output.rho));
    assert_eq!(output.rcm, rseed.get_rcm(&output.rho));
    assert_eq!(output.value, 10);
}

#[test]
fn value_commitment_homomorphism() {
    let mut rng = rand::thread_rng();
    let vk = random_fp(&mut rng);
    let data = random_fp(&mut rng);
    let in1 = input_note(vk, data, 30, &mut rng);
    let out1 = output_note(vk, data, 10, &mut rng);
    let in2 = input_note(vk, data, 5, &mut rng);
    let out2 = output_note(vk, data, 7, &mut rng);
    let in_all = input_note(vk, data, 35, &mut rng);
    let out_all = output_note(vk, data, 17, &mut rng);
    let b1 = Fq::from_u64(11);
    let b2 = Fq::from_u64(13);
    let lhs = ValueCommitment::new(&in1, &out1, &b1).add(&ValueCommitment::new(&in2, &out2, &b2));
    let rhs = ValueCommitment::new(&in_all, &out_all, &b1.add(&b2));
    assert_eq!(lhs, rhs);
    assert_eq!(lhs.get_x(), rhs.get_x());
    assert_eq!(lhs.get_y(), rhs.get_y());
}

#[test]
fn balanced_pair_commits_to_identity() {
    let mut rng = rand::thread_rng();
    let vk = random_fp(&mut rng);
    let data = random_fp(&mut rng);
    let i = input_note(vk, data, 42, &mut rng);
    let o = output_note(vk, data, 42, &mut rng);
    let vc = ValueCommitment::new(&i, &o, &Fq::zero());
    assert!(vc.is_identity());
    assert_eq!(vc.get_x(), Fp::zero());
    assert_eq!(vc.get_y(), Fp::zero());
    let unbalanced = ValueCommitment::new(&i, &output_note(vk, data, 41, &mut rng), &Fq::zero());
    assert!(!unbalanced.is_identity());
    assert_ne!(unbalanced.get_x(), Fp::zero());
}

#[test]
fn different_types_do_not_cancel() {
    let mut rng = rand::thread_rng();
    let vk = random_fp(&mut rng);
    let i = input_note(vk, Fp::from_u64(1), 42, &mut rng);
    let o = output_note(vk, Fp::from_u64(2), 42, &mut rng);
    assert!(!ValueCommitment::new(&i, &o, &Fq::zero()).is_identity());
    assert_ne!(i.get_note_type(), o.get_note_type());
    let mut d = i;
    d.app_data_dynamic = random_fp(&mut rng);
    assert_eq!(i.get_note_type(), d.get_note_type());
}

#[test]
fn padding_note_bundles_have_one_entry() {
    let mut rng = rand::thread_rng();
    let trivial_vk = random_fp(&mut rng);
    let pad = Note::random_padding_note(
        trivial_vk,
        random_fp(&mut rng),
        random_fp(&mut rng),
        random_fp(&mut rng),
        random_fp(&mut rng),
        random_seed(&mut rng),
    );
    assert_eq!(pad.value, 0);
    assert!(!pad.is_merkle_checked);
    assert_eq!(pad.get_app_vk(), trivial_vk);
    let inputs = [random_note(&mut rng), random_note(&mut rng)];
    let outputs = [random_note(&mut rng), random_note(&mut rng)];
    let in_vps =
        NoteValidityPredicates::create_input_padding_note_vps(&pad, inputs.clone(), outputs.clone());
    let in_set = in_vps.build();
    assert_eq!(in_set.len(), 1);
    assert_eq!(in_set.app_vp_verifying_info, pad.get_nf().unwrap().inner());
    let out_vps = NoteValidityPredicates::create_output_padding_note_vps(&pad, inputs, outputs);
    let out_set = out_vps.build();
    assert_eq!(out_set.len(), 1);
    assert_eq!(out_set.app_vp_verifying_info, pad.commitment().inner());
}

#[test]
fn bundle_keeps_dynamic_order() {
    let mut rng = rand::thread_rng();
    let notes = [random_note(&mut rng), random_note(&mut rng)];
    let vp = |k: u64| TrivialValidityPredicateCircuit::new(Fp::from_u64(k), notes, notes);
    let vps = NoteValidityPredicates::new(vp(1), vec![vp(2), vp(3), vp(4)]);
    let set = vps.build();
    assert_eq!(set.len(), 4);
    assert_eq!(set.app_vp_verifying_info, Fp::from_u64(1));
    assert_eq!(
        set.app_dynamic_vp_verifying_info,
        vec![Fp::from_u64(2), Fp::from_u64(3), Fp::from_u64(4)]
    );
    assert_eq!(vp(5).get_verifying_info(), Fp::from_u64(5));
}

#[test]
fn merkle_root_follows_the_path() {
    let mut rng = rand::thread_rng();
    let n = random_note(&mut rng);
    let cm = n.commitment().inner();
    let empty = MerklePath::from_path(vec![]);
    assert_eq!(n.calculate_root(&empty).0, cm);
    let s1 = random_fp(&mut rng);
    let s2 = random_fp(&mut rng);
    let right = MerklePath::from_path(vec![(s1, LR::R), (s2, LR::L)]);
    let left = MerklePath::from_path(vec![(s1, LR::L), (s2, LR::L)]);
    assert_ne!(n.calculate_root(&right), n.calculate_root(&left));
    assert_eq!(n.calculate_root(&right), right.root(cm));
}

#[test]
fn constructors_fill_fields() {
    let mut rng = rand::thread_rng();
    let vk = random_fp(&mut rng);
    let data = random_fp(&mut rng);
    let o = output_note(vk, data, 3, &mut rng);
    assert_eq!(o.get_app_vk(), vk);
    assert_eq!(o.get_app_data_static(), data);
    assert_eq!(o.get_psi(), Fp::zero());
    assert_eq!(o.get_rcm(), Fp::zero());
    assert_eq!(o.rho, Nullifier(Fp::zero()));
    let rho = Nullifier(random_fp(&mut rng));
    let seed = random_seed(&mut rng);
    let i = Note::new_input_note(vk, data, Fp::zero(), 3, Fp::from_u64(8), rho, false, seed);
    assert_eq!(i.get_psi(), seed.get_psi(&rho));
    assert_eq!(i.get_rcm(), seed.get_rcm(&rho));
    assert_eq!(i.get_nk(), Some(Fp::from_u64(8)));
    assert_eq!(Nullifier::from_bytes(rho.to_bytes()), Some(rho));
}

#[test]
fn token_address() {
    let t = Token::new(ValidityPredicateDescription::Compressed(Fp::from_u64(9)));
    assert_eq!(t.address(), Fp::from_u64(9));
    assert_eq!(Token::default().address(), Fp::from_u64(1));
    assert_eq!(Token::dummy(Fp::from_u64(4)).address(), Fp::from_u64(4));
}

#[test]
fn composed_flag_value_layout() {
    let plain = Fp::compose_flag_value(false, 5).to_repr();
    let mut expected = [0u8; 32];
    expected[0] = 5;
    assert_eq!(plain, expected);
    let flagged = Fp::compose_flag_value(true, 0x0102).to_repr();
    expected[0] = 0x02;
    expected[1] = 0x01;
    expected[16] = 1;
    assert_eq!(flagged, expected);
}

#[test]
fn scalar_sum_and_wide_reduction() {
    assert_eq!(Fq::from_u64(11).add(&Fq::from_u64(13)), Fq::from_u64(24));
    let mut wide = [0u8; 64];
    wide[0] = 200;
    assert_eq!(base_from_uniform_bytes(&wide), Fp::from_u64(200));
    assert_eq!(
        taiga_note::field::scalar_from_uniform_bytes(&wide),
        Fq::from_u64(200)
    );
    let mut r = [0u8; 32];
    r[0] = 77;
    assert_eq!(Fp::from_repr(r), Some(Fp::from_u64(77)));
    assert_eq!(Fq::from_repr(r), Some(Fq::from_u64(77)));
}

#[test]
fn coordinates_of_a_non_identity_point() {
    let mut rng = rand::thread_rng();
    let n = random_note(&mut rng);
    let p = n.get_note_type();
    assert!(!p.is_identity());
    assert_ne!(p.get_y(), Fp::zero());
    let q = NoteType::new(Fp::from_u64(1), Fp::from_u64(2)).derive_note_type();
    assert_ne!(p.get_y(), q.get_y());
    assert_ne!(p.get_x(), q.get_x());
    assert_eq!(p.add(&q).sub(&q), p);
    assert_eq!(p.mul(&Fq::from_u64(2)), p.add(&p));
}

#[test]
fn fresh_seeds_differ() {
    let a = RandomSeed::random();
    let b = RandomSeed::random();
    assert_ne!(a.0, b.0);
}

#[test]
fn defaults_are_zero() {
    let n = Note::default();
    assert_eq!(n.value, 0);
    assert!(!n.is_merkle_checked);
    assert_eq!(n.app_data_dynamic, Fp::zero());
    assert_eq!(n.psi, Fp::zero());
    assert_eq!(n.rcm, Fp::zero());
    assert_eq!(n.rho, Nullifier::default());
    assert_eq!(n.rho, Nullifier(Fp::zero()));
    assert_eq!(n.nk_container, NullifierKeyContainer::Key(Fp::zero()));
    assert_eq!(NullifierKeyContainer::default(), NullifierKeyContainer::Key(Fp::zero()));
    assert_eq!(n.note_type, NoteType::default());
    assert_eq!(NoteType::default().app_vk, Fp::zero());
    assert_eq!(NoteCommitment::default().inner(), Fp::zero());
    let c = TrivialValidityPredicateCircuit::default();
    assert_eq!(c.owned_note_pub_id, Fp::zero());
    assert_eq!(c.input_notes, [n, n]);
    assert_eq!(c.output_notes, [n, n]);
    assert!(n.get_nf().is_some());
}
