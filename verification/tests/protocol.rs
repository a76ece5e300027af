use curve25519_dalek::constants::RISTRETTO_BASEPOINT_POINT;
use curve25519_dalek::ristretto::CompressedRistretto;
use curve25519_dalek::ristretto::RistrettoPoint;
use curve25519_dalek::scalar::Scalar;
use rand_core::OsRng;
use zk_consistency::audit::audit_decryption;
use zk_consistency::audit::twisted_elgamal_decrypt;
use zk_consistency::codec::point_for;
use zk_consistency::codec::Message;
use zk_consistency::keys::KeyPair;
use zk_consistency::scheme::commit_with;
use zk_consistency::scheme::encrypt_with;
use zk_consistency::scheme::pedersen_generator;
use zk_consistency::scheme::ProtocolScheme;
use zk_consistency::sigma::verify;
use zk_consistency::sigma::ConsistencyProof;
use zk_consistency::sigma::Statement;

fn honest_instance(m: u64) -> (KeyPair, Message, ProtocolScheme, ConsistencyProof) {
    let kp = KeyPair::generate();
    let msg = Message::encode(m);
    let scheme = ProtocolScheme::setup_with_pk(&msg, &kp.pk);
    let proof = ConsistencyProof::build(&msg, &scheme);
    (kp, msg, scheme, proof)
}

#[test]
fn scenario_a_full_run() {
    let amount: u64 = 1_000_000;
    let (kp, _msg, scheme, proof) = honest_instance(amount);
    let st = scheme.statement();
    assert!(verify(&st, &proof));
    let decrypted = twisted_elgamal_decrypt(&kp.get_secret(), &scheme.ct);
    assert_eq!(decrypted, point_for(amount));
    assert!(audit_decryption(&kp.get_secret(), &scheme.ct, amount));
}

#[test]
fn scenario_b_bumped_response_rejected() {
    let (_kp, _msg, scheme, proof) = honest_instance(1_000_000);
    let st = scheme.statement();
    assert!(verify(&st, &proof));
    let tampered = ConsistencyProof {
        a1: proof.a1,
        a2: proof.a2,
        a3: proof.a3,
        e: proof.e,
        zm: proof.zm + Scalar::ONE,
        zr: proof.zr,
        zr_prime: proof.zr_prime,
    };
    assert!(!verify(&st, &tampered));
}

#[test]
fn scenario_c_inconsistent_witness_rejected() {
    let kp = KeyPair::generate();
    let msg_ct = Message::encode(6);
    let msg_cm = Message::encode(5);
    let r = Scalar::random(&mut OsRng);
    let r_prime = Scalar::random(&mut OsRng);
    let ct = encrypt_with(&msg_ct, &kp.pk, &r);
    let commitment = commit_with(&msg_cm, &r_prime);
    let scheme = ProtocolScheme { pk: kp.pk, ct, pedersen_commitment: commitment, r, r_prime };
    let proof = ConsistencyProof::build(&msg_ct, &scheme);
    let st = scheme.statement();
    assert!(!verify(&st, &proof));
}

#[test]
fn completeness_across_messages() {
    for m in [0u64, 1, 6, 42, 1_000_000, u64::MAX] {
        let (_kp, _msg, scheme, proof) = honest_instance(m);
        let st = scheme.statement();
        assert!(verify(&st, &proof));
    }
}

#[test]
fn soundness_random_trials() {
    for trial in 0..8u64 {
        let kp = KeyPair::generate();
        let m = 100 + trial;
        let msg_ct = Message::encode(m);
        let msg_cm = Message::encode(m + 1);
        let r = Scalar::random(&mut OsRng);
        let r_prime = Scalar::random(&mut OsRng);
        let ct = encrypt_with(&msg_ct, &kp.pk, &r);
        let commitment = commit_with(&msg_cm, &r_prime);
        let scheme = ProtocolScheme { pk: kp.pk, ct, pedersen_commitment: commitment, r, r_prime };
        let proof_over_ct = ConsistencyProof::build(&msg_ct, &scheme);
        let proof_over_cm = ConsistencyProof::build(&msg_cm, &scheme);
        let st = scheme.statement();
        assert!(!verify(&st, &proof_over_ct));
        assert!(!verify(&st, &proof_over_cm));
    }
}

/// Flip single bytes of a compressed point until the flip still decodes to a
/// valid group element; return the first few such tampered points.
fn valid_byte_flips(p: &RistrettoPoint) -> Vec<RistrettoPoint> {
    let bytes = p.compress().to_bytes();
    let mut out = Vec::new();
    for i in 0..32 {
        for bit in 0..8u8 {
            let mut flipped = bytes;
            flipped[i] ^= 1 << bit;
            if let Some(q) = CompressedRistretto(flipped).decompress() {
                out.push(q);
                if out.len() >= 2 {
                    return out;
                }
            }
        }
    }
    out
}

#[test]
fn transcript_binding_rejects_any_flipped_public_value() {
    let (_kp, _msg, scheme, proof) = honest_instance(77);
    let st = scheme.statement();
    assert!(verify(&st, &proof));

    let mut tampered_statements: Vec<Statement> = Vec::new();
    for pk in valid_byte_flips(&st.pk) {
        tampered_statements.push(Statement { pk, ct: scheme.statement().ct, commitment: st.commitment });
    }
    for c1 in valid_byte_flips(&st.ct.c1) {
        let mut s = scheme.statement();
        s.ct.c1 = c1;
        tampered_statements.push(s);
    }
    for c2 in valid_byte_flips(&st.ct.c2) {
        let mut s = scheme.statement();
        s.ct.c2 = c2;
        tampered_statements.push(s);
    }
    for cm in valid_byte_flips(&st.commitment) {
        let mut s = scheme.statement();
        s.commitment = cm;
        tampered_statements.push(s);
    }
    assert!(!tampered_statements.is_empty());
    for s in &tampered_statements {
        assert!(!verify(s, &proof));
    }

    let mut tampered_proofs: Vec<ConsistencyProof> = Vec::new();
    for a1 in valid_byte_flips(&proof.a1) {
        tampered_proofs.push(ConsistencyProof { a1, ..clone_proof(&proof) });
    }
    for a2 in valid_byte_flips(&proof.a2) {
        tampered_proofs.push(ConsistencyProof { a2, ..clone_proof(&proof) });
    }
    for a3 in valid_byte_flips(&proof.a3) {
        tampered_proofs.push(ConsistencyProof { a3, ..clone_proof(&proof) });
    }
    assert!(!tampered_proofs.is_empty());
    for p in &tampered_proofs {
        assert!(!verify(&st, p));
    }
}

fn clone_proof(p: &ConsistencyProof) -> ConsistencyProof {
    ConsistencyProof {
        a1: p.a1,
        a2: p.a2,
        a3: p.a3,
        e: p.e,
        zm: p.zm,
        zr: p.zr,
        zr_prime: p.zr_prime,
    }
}

#[test]
fn round_trip_many_pairs() {
    for m in [0u64, 1, 5, 6, 1_000_000, u64::MAX] {
        let kp = KeyPair::generate();
        let msg = Message::encode(m);
        let r = Scalar::random(&mut OsRng);
        let ct = encrypt_with(&msg, &kp.pk, &r);
        let decrypted = twisted_elgamal_decrypt(&kp.get_secret(), &ct);
        assert_eq!(decrypted, point_for(m));
        assert!(audit_decryption(&kp.get_secret(), &ct, m));
    }
}

#[test]
fn verification_is_deterministic() {
    let (_kp, _msg, scheme, proof) = honest_instance(321);
    let st1 = scheme.statement();
    let st2 = scheme.statement();
    let first = verify(&st1, &proof);
    assert!(first);
    for _ in 0..3 {
        assert_eq!(verify(&st1, &proof), first);
        assert_eq!(verify(&st2, &proof), first);
    }
}

#[test]
fn decryption_mismatch_is_a_verdict() {
    let (kp, _msg, scheme, _proof) = honest_instance(500);
    // A false candidate.
    assert!(!audit_decryption(&kp.get_secret(), &scheme.ct, 501));
    // The wrong key.
    let other = KeyPair::generate();
    assert!(!audit_decryption(&other.get_secret(), &scheme.ct, 500));
}

#[test]
fn message_encoding_is_value_times_basepoint() {
    assert_eq!(point_for(0), RISTRETTO_BASEPOINT_POINT * Scalar::ZERO);
    assert_eq!(point_for(1), RISTRETTO_BASEPOINT_POINT);
    assert_eq!(point_for(7), RISTRETTO_BASEPOINT_POINT * Scalar::from(7u64));
    let msg = Message::encode(9);
    assert_eq!(msg.scalar, Scalar::from(9u64));
    assert_eq!(msg.point, point_for(9));
    assert_ne!(point_for(2), point_for(3));
}

#[test]
fn commitment_blinds_with_the_second_generator() {
    let msg = Message::encode(11);
    // Zero randomness leaves the bare message encoding.
    assert_eq!(commit_with(&msg, &Scalar::ZERO), point_for(11));
    // Unit randomness shifts it by exactly the Pedersen generator.
    let h = pedersen_generator();
    assert_eq!(commit_with(&msg, &Scalar::ONE), point_for(11) + h);
    assert_ne!(h, RISTRETTO_BASEPOINT_POINT);
    assert_ne!(commit_with(&msg, &Scalar::ONE), point_for(11));
    // Deriving the generator twice gives the same element.
    assert_eq!(pedersen_generator(), h);
}

#[test]
fn keypair_public_key_matches_secret() {
    let kp = KeyPair::generate();
    assert_eq!(kp.pk, RISTRETTO_BASEPOINT_POINT * kp.get_secret());
    // Two generations almost surely differ.
    let other = KeyPair::generate();
    assert_ne!(kp.pk, other.pk);
}
