//! The canonical wire format. Every scalar and group element crosses a
//! process boundary as its fixed-width 32-byte encoding, and a composite
//! structure as the plain concatenation of its fields in declaration order;
//! no length prefixes, since every field has fixed width. Decoding is
//! fail-closed: bytes that hold an out-of-range scalar or no valid group
//! element are rejected before any arithmetic runs.

use vstd::prelude::*;
use vstd::slice::slice_subrange;
use crate::algebra::group_order;
use crate::algebra::le_bytes_val;
use crate::group::encodes_point;
use crate::group::point_compress;
use crate::group::point_decompress;
use crate::group::point_dlog;
use crate::group::point_encoding;
use crate::group::scalar_from_canonical;
use crate::group::scalar_to_bytes;
use crate::group::scalar_val;
use crate::scheme::CipherText;
use crate::sigma::ConsistencyProof;
use curve25519_dalek::ristretto::RistrettoPoint;
use curve25519_dalek::scalar::Scalar;

verus! {

/// Rejection at the deserialization boundary: the bytes do not hold a valid
/// value.
#[derive(Clone, Copy, Debug, PartialEq, Eq, Structural)]
pub enum WireError {
    MalformedInput,
}

/// The bytes canonically encode some group element.
pub open spec fn valid_point_encoding(b: Seq<u8>) -> bool {
    exists|q: RistrettoPoint| b == #[trigger] point_encoding(point_dlog(q))
}

/// The bytes read, little-endian, as a canonical field element.
pub open spec fn valid_scalar_encoding(b: Seq<u8>) -> bool {
    b.len() == 32 && le_bytes_val(b) < group_order()
}

/// The bytes are a well-formed ciphertext: two valid element encodings.
pub open spec fn valid_ciphertext_encoding(b: Seq<u8>) -> bool {
    &&& b.len() == 64
    &&& valid_point_encoding(b.subrange(0, 32))
    &&& valid_point_encoding(b.subrange(32, 64))
}

/// The bytes are a well-formed proof: three valid element encodings
/// followed by four canonical scalar encodings.
pub open spec fn valid_proof_encoding(b: Seq<u8>) -> bool {
    &&& b.len() == 224
    &&& valid_point_encoding(b.subrange(0, 32))
    &&& valid_point_encoding(b.subrange(32, 64))
    &&& valid_point_encoding(b.subrange(64, 96))
    &&& valid_scalar_encoding(b.subrange(96, 128))
    &&& valid_scalar_encoding(b.subrange(128, 160))
    &&& valid_scalar_encoding(b.subrange(160, 192))
    &&& valid_scalar_encoding(b.subrange(192, 224))
}

/// Append one 32-byte block to a byte string.
pub(crate) fn append_block(t: &mut Vec<u8>, block: &[u8; 32])
    ensures
        final(t)@ == old(t)@ + block@,
{
    let mut i: usize = 0;
    while i < 32
        invariant
            i <= 32,
            t@ == old(t)@ + block@.subrange(0, i as int),
        decreases 32 - i,
    {
        t.push(block[i]);
        proof {
            assert(block@.subrange(0, i + 1) =~= block@.subrange(0, i as int) + seq![
                block@[i as int],
            ]);
        }
        i = i + 1;
    }
    proof {
        assert(block@.subrange(0, 32) =~= block@);
    }
}

/// Serialize a commitment: the 32-byte encoding of its single element.
pub fn encode_commitment(c: &RistrettoPoint) -> (v: Vec<u8>)
    ensures
        encodes_point(v@, *c),
{
    let mut v: Vec<u8> = Vec::new();
    append_block(&mut v, &point_compress(c));
    proof {
        assert(v@ =~= point_encoding(point_dlog(*c)));
    }
    v
}

/// Deserialize a commitment, fail-closed.
pub fn decode_commitment(bytes: &[u8]) -> (r: Result<RistrettoPoint, WireError>)
    ensures
        r matches Ok(c) ==> encodes_point(bytes@, c),
        r is Err <==> !(bytes@.len() == 32 && valid_point_encoding(bytes@)),
{
    if bytes.len() != 32 {
        return Err(WireError::MalformedInput);
    }
    match point_decompress(bytes) {
        Some(p) => Ok(p),
        None => Err(WireError::MalformedInput),
    }
}

/// Serialize a ciphertext: `C1` then `C2`.
pub fn encode_ciphertext(ct: &CipherText) -> (v: Vec<u8>)
    ensures
        v@.len() == 64,
        encodes_point(v@.subrange(0, 32), ct.c1),
        encodes_point(v@.subrange(32, 64), ct.c2),
{
    let mut v: Vec<u8> = Vec::new();
    let b1 = point_compress(&ct.c1);
    let b2 = point_compress(&ct.c2);
    append_block(&mut v, &b1);
    append_block(&mut v, &b2);
    proof {
        assert(v@.subrange(0, 32) =~= b1@);
        assert(v@.subrange(32, 64) =~= b2@);
    }
    v
}

/// Deserialize a ciphertext, fail-closed.
pub fn decode_ciphertext(bytes: &[u8]) -> (r: Result<CipherText, WireError>)
    ensures
        r matches Ok(ct) ==> (encodes_point(bytes@.subrange(0, 32), ct.c1) && encodes_point(
            bytes@.subrange(32, 64),
            ct.c2,
        )),
        r is Err <==> !valid_ciphertext_encoding(bytes@),
{
    if bytes.len() != 64 {
        return Err(WireError::MalformedInput);
    }
    let c1 = match point_decompress(slice_subrange(bytes, 0, 32)) {
        Some(p) => p,
        None => {
            return Err(WireError::MalformedInput);
        },
    };
    let c2 = match point_decompress(slice_subrange(bytes, 32, 64)) {
        Some(p) => p,
        None => {
            return Err(WireError::MalformedInput);
        },
    };
    Ok(CipherText { c1, c2 })
}

/// Serialize a proof: `A1`, `A2`, `A3`, then `e`, `zm`, `zr`, `zr'`.
pub fn encode_proof(pr: &ConsistencyProof) -> (v: Vec<u8>)
    ensures
        v@.len() == 224,
        encodes_point(v@.subrange(0, 32), pr.a1),
        encodes_point(v@.subrange(32, 64), pr.a2),
        encodes_point(v@.subrange(64, 96), pr.a3),
        le_bytes_val(v@.subrange(96, 128)) == scalar_val(pr.e),
        le_bytes_val(v@.subrange(128, 160)) == scalar_val(pr.zm),
        le_bytes_val(v@.subrange(160, 192)) == scalar_val(pr.zr),
        le_bytes_val(v@.subrange(192, 224)) == scalar_val(pr.zr_prime),
{
    let mut v: Vec<u8> = Vec::new();
    let b1 = point_compress(&pr.a1);
    let b2 = point_compress(&pr.a2);
    let b3 = point_compress(&pr.a3);
    let b4 = scalar_to_bytes(&pr.e);
    let b5 = scalar_to_bytes(&pr.zm);
    let b6 = scalar_to_bytes(&pr.zr);
    let b7 = scalar_to_bytes(&pr.zr_prime);
    append_block(&mut v, &b1);
    append_block(&mut v, &b2);
    append_block(&mut v, &b3);
    append_block(&mut v, &b4);
    append_block(&mut v, &b5);
    append_block(&mut v, &b6);
    append_block(&mut v, &b7);
    proof {
        assert(v@.subrange(0, 32) =~= b1@);
        assert(v@.subrange(32, 64) =~= b2@);
        assert(v@.subrange(64, 96) =~= b3@);
        assert(v@.subrange(96, 128) =~= b4@);
        assert(v@.subrange(128, 160) =~= b5@);
        assert(v@.subrange(160, 192) =~= b6@);
        assert(v@.subrange(192, 224) =~= b7@);
    }
    v
}

/// Deserialize a proof, fail-closed: every element must decompress and
/// every scalar must be canonical before a proof value exists at all.
pub fn decode_proof(bytes: &[u8]) -> (r: Result<ConsistencyProof, WireError>)
    ensures
        r matches Ok(pr) ==> (encodes_point(bytes@.subrange(0, 32), pr.a1) && encodes_point(
            bytes@.subrange(32, 64),
            pr.a2,
        ) && encodes_point(bytes@.subrange(64, 96), pr.a3) && scalar_val(pr.e) == le_bytes_val(
            bytes@.subrange(96, 128),
        ) && scalar_val(pr.zm) == le_bytes_val(bytes@.subrange(128, 160)) && scalar_val(pr.zr)
            == le_bytes_val(bytes@.subrange(160, 192)) && scalar_val(pr.zr_prime) == le_bytes_val(
            bytes@.subrange(192, 224),
        ) && pr.wf()),
        r is Err <==> !valid_proof_encoding(bytes@),
{
    if bytes.len() != 224 {
        return Err(WireError::MalformedInput);
    }
    let a1 = match point_decompress(slice_subrange(bytes, 0, 32)) {
        Some(p) => p,
        None => {
            return Err(WireError::MalformedInput);
        },
    };
    let a2 = match point_decompress(slice_subrange(bytes, 32, 64)) {
        Some(p) => p,
        None => {
            return Err(WireError::MalformedInput);
        },
    };
    let a3 = match point_decompress(slice_subrange(bytes, 64, 96)) {
        Some(p) => p,
        None => {
            return Err(WireError::MalformedInput);
        },
    };
    let e = match scalar_from_canonical(slice_subrange(bytes, 96, 128)) {
        Some(s) => s,
        None => {
            return Err(WireError::MalformedInput);
        },
    };
    let zm = match scalar_from_canonical(slice_subrange(bytes, 128, 160)) {
        Some(s) => s,
        None => {
            return Err(WireError::MalformedInput);
        },
    };
    let zr = match scalar_from_canonical(slice_subrange(bytes, 160, 192)) {
        Some(s) => s,
        None => {
            return Err(WireError::MalformedInput);
        },
    };
    let zr_prime = match scalar_from_canonical(slice_subrange(bytes, 192, 224)) {
        Some(s) => s,
        None => {
            return Err(WireError::MalformedInput);
        },
    };
    Ok(ConsistencyProof { a1, a2, a3, e, zm, zr, zr_prime })
}

} // verus!
