use curve25519_dalek::scalar::Scalar;
use rand_core::OsRng;
use zk_consistency::codec::Message;
use zk_consistency::keys::KeyPair;
use zk_consistency::scheme::ProtocolScheme;
use zk_consistency::sigma::verify;
use zk_consistency::sigma::ConsistencyProof;
use zk_consistency::sigma::Statement;
use zk_consistency::wire::decode_ciphertext;
use zk_consistency::wire::decode_commitment;
use zk_consistency::wire::decode_proof;
use zk_consistency::wire::encode_ciphertext;
use zk_consistency::wire::encode_commitment;
use zk_consistency::wire::encode_proof;
use zk_consistency::wire::WireError;

fn honest_instance(m: u64) -> (KeyPair, ProtocolScheme, ConsistencyProof) {
    let kp = KeyPair::generate();
    let msg = Message::encode(m);
    let scheme = ProtocolScheme::setup_with_pk(&msg, &kp.pk);
    let proof = ConsistencyProof::build(&msg, &scheme);
    (kp, scheme, proof)
}

#[test]
fn ciphertext_round_trip() {
    let (_kp, scheme, _proof) = honest_instance(12345);
    let bytes = encode_ciphertext(&scheme.ct);
    assert_eq!(bytes.len(), 64);
    let decoded = decode_ciphertext(&bytes).unwrap();
    assert_eq!(decoded.c1, scheme.ct.c1);
    assert_eq!(decoded.c2, scheme.ct.c2);
}

#[test]
fn commitment_round_trip() {
    let (_kp, scheme, _proof) = honest_instance(4);
    let bytes = encode_commitment(&scheme.pedersen_commitment);
    assert_eq!(bytes.len(), 32);
    let decoded = decode_commitment(&bytes).unwrap();
    assert_eq!(decoded, scheme.pedersen_commitment);
}

#[test]
fn proof_round_trip_still_verifies() {
    let (_kp, scheme, proof) = honest_instance(777);
    let bytes = encode_proof(&proof);
    assert_eq!(bytes.len(), 224);
    let decoded = decode_proof(&bytes).unwrap();
    assert_eq!(decoded.a1, proof.a1);
    assert_eq!(decoded.a2, proof.a2);
    assert_eq!(decoded.a3, proof.a3);
    assert_eq!(decoded.e, proof.e);
    assert_eq!(decoded.zm, proof.zm);
    assert_eq!(decoded.zr, proof.zr);
    assert_eq!(decoded.zr_prime, proof.zr_prime);
    let st = scheme.statement();
    assert!(verify(&st, &decoded));
}

#[test]
fn statement_pieces_cross_the_wire() {
    let (_kp, scheme, proof) = honest_instance(31);
    let st = scheme.statement();
    let ct = decode_ciphertext(&encode_ciphertext(&st.ct)).unwrap();
    let commitment = decode_commitment(&encode_commitment(&st.commitment)).unwrap();
    let rebuilt = Statement { pk: st.pk, ct, commitment };
    assert!(verify(&rebuilt, &proof));
}

#[test]
fn wrong_length_is_malformed() {
    assert!(matches!(decode_ciphertext(&[0u8; 63]), Err(WireError::MalformedInput)));
    assert!(matches!(decode_commitment(&[]), Err(WireError::MalformedInput)));
    assert!(decode_proof(&[0u8; 225]).is_err());
}

#[test]
fn invalid_point_bytes_are_malformed() {
    // All-ones bytes are no canonical Ristretto encoding.
    let junk = [0xffu8; 32];
    assert!(matches!(decode_commitment(&junk), Err(WireError::MalformedInput)));
    let mut ct_bytes = [0u8; 64];
    ct_bytes[..32].copy_from_slice(&junk);
    assert!(matches!(decode_ciphertext(&ct_bytes), Err(WireError::MalformedInput)));
}

#[test]
fn out_of_range_scalar_is_malformed() {
    let (_kp, _scheme, proof) = honest_instance(9);
    let mut bytes = encode_proof(&proof);
    // Overwrite the challenge field with an integer far above the group
    // order: a non-canonical scalar must be rejected, fail-closed.
    for b in bytes[96..128].iter_mut() {
        *b = 0xff;
    }
    assert!(matches!(decode_proof(&bytes), Err(WireError::MalformedInput)));
}

#[test]
fn canonical_scalar_bytes_round_trip() {
    let (_kp, _scheme, proof) = honest_instance(55);
    let bytes = encode_proof(&proof);
    // The scalar fields are the canonical little-endian encodings.
    let mut e_bytes = [0u8; 32];
    e_bytes.copy_from_slice(&bytes[96..128]);
    assert_eq!(Scalar::from_canonical_bytes(e_bytes).unwrap(), proof.e);
    let mut zm_bytes = [0u8; 32];
    zm_bytes.copy_from_slice(&bytes[128..160]);
    assert_eq!(Scalar::from_canonical_bytes(zm_bytes).unwrap(), proof.zm);
}

#[test]
fn tampered_wire_proof_is_rejected_not_misread() {
    let (_kp, scheme, proof) = honest_instance(1000);
    let st = scheme.statement();
    let mut bytes = encode_proof(&proof);
    // Replace the response `zm` with a different canonical scalar.
    let other = Scalar::random(&mut OsRng);
    bytes[128..160].copy_from_slice(&other.to_bytes());
    match decode_proof(&bytes) {
        Ok(decoded) => {
            // Decoding may succeed — the bytes are well-formed — but the
            // proof they carry must no longer verify.
            assert!(!verify(&st, &decoded));
        }
        Err(e) => assert_eq!(e, WireError::MalformedInput),
    }
}
