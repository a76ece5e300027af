//! The trusted boundary around the group arithmetic: curve25519-dalek's
//! Ristretto group and scalar field, SHA-512 from the sha2 crate, and the
//! operating-system randomness source. Every verified function of this
//! library reaches the group only through the wrappers here; each wrapper's
//! contract states, over the models `scalar_val` and `point_dlog`, what the
//! wrapped call computes.

use vstd::prelude::*;
use crate::algebra::group_order;
use crate::algebra::le_bytes_val;
use crate::algebra::md;
use curve25519_dalek::ristretto::RistrettoPoint;
use curve25519_dalek::scalar::Scalar;
use curve25519_dalek::traits::MultiscalarMul;
use rand_core::OsRng;
use sha2::Digest;

verus! {

#[verifier::external_type_specification]
#[verifier::external_body]
pub struct ExScalar(Scalar);

#[verifier::external_type_specification]
#[verifier::external_body]
pub struct ExRistrettoPoint(RistrettoPoint);

/// Model of a scalar: the canonical integer in `[0, group_order())` that it
/// represents. Well-defined for every scalar this library handles, because
/// each constructor curve25519-dalek offers short of `from_bits` (which this
/// library never calls) returns a scalar in reduced form.
pub uninterp spec fn scalar_val(s: Scalar) -> nat;

/// Model of a group element: its discrete logarithm with respect to the
/// basepoint `G`, in `[0, group_order())`. Well-defined because the
/// Ristretto group is cyclic of prime order.
pub uninterp spec fn point_dlog(p: RistrettoPoint) -> nat;

/// The SHA-512 digest of a byte sequence, as a name: a fixed function of its
/// input alone, not restated here.
pub uninterp spec fn sha512_digest(input: Seq<u8>) -> Seq<u8>;

/// The discrete log of the group element that Ristretto's hash-to-group map
/// sends a byte sequence to: a fixed function of its input alone.
pub uninterp spec fn hash_point_dlog(input: Seq<u8>) -> nat;

/// The canonical 32-byte compressed encoding of the group element whose
/// discrete log is `x`: a fixed function of the element alone.
pub uninterp spec fn point_encoding(x: nat) -> Seq<u8>;

/// The bytes are the canonical encoding of `p` and of no other element:
/// what compression emits and decompression requires.
pub open spec fn encodes_point(b: Seq<u8>, p: RistrettoPoint) -> bool {
    &&& b == point_encoding(point_dlog(p))
    &&& forall|q: RistrettoPoint|
        b == #[trigger] point_encoding(point_dlog(q)) ==> point_dlog(q) == point_dlog(p)
}

/// Relies on `<Scalar as From<u64>>::from`: the scalar representing the
/// given integer, already canonical since the group order exceeds `u64`.
#[verifier::external_body]
pub(crate) fn scalar_from_u64(v: u64) -> (s: Scalar)
    ensures
        scalar_val(s) == v as nat,
{
    Scalar::from(v)
}

/// Relies on `Scalar::random` over the operating-system randomness source
/// `rand_core::OsRng`: a scalar drawn uniformly below the group order.
/// Nothing holds of the value beyond its range.
#[verifier::external_body]
pub(crate) fn scalar_random() -> (s: Scalar)
    ensures
        scalar_val(s) < group_order(),
{
    Scalar::random(&mut OsRng)
}

/// Relies on `<&Scalar as Add>::add` (curve25519-dalek): addition modulo the
/// group order.
#[verifier::external_body]
pub(crate) fn scalar_add(a: &Scalar, b: &Scalar) -> (s: Scalar)
    ensures
        scalar_val(s) == md((scalar_val(*a) + scalar_val(*b)) as int),
{
    a + b
}

/// Relies on `<&Scalar as Mul>::mul` (curve25519-dalek): multiplication
/// modulo the group order.
#[verifier::external_body]
pub(crate) fn scalar_mul(a: &Scalar, b: &Scalar) -> (s: Scalar)
    ensures
        scalar_val(s) == md((scalar_val(*a) * scalar_val(*b)) as int),
{
    a * b
}

/// Relies on `Scalar::from_bytes_mod_order_wide`: reduction of a 512-bit
/// little-endian integer modulo the group order.
#[verifier::external_body]
pub(crate) fn scalar_from_wide(bytes: &[u8; 64]) -> (s: Scalar)
    ensures
        scalar_val(s) == md(le_bytes_val(bytes@) as int),
        scalar_val(s) < group_order(),
{
    Scalar::from_bytes_mod_order_wide(bytes)
}

/// Relies on `<Scalar as PartialEq>::eq`: equality of canonical scalars is
/// equality of the integers they represent.
#[verifier::external_body]
pub(crate) fn scalar_eq(a: &Scalar, b: &Scalar) -> (r: bool)
    ensures
        r == (scalar_val(*a) == scalar_val(*b)),
{
    a == b
}

/// Relies on `Scalar` being `Copy`: a bitwise copy represents the same
/// integer.
#[verifier::external_body]
pub(crate) fn scalar_copy(a: &Scalar) -> (s: Scalar)
    ensures
        s == *a,
{
    *a
}

/// Relies on the constant `RISTRETTO_BASEPOINT_POINT`: the basepoint `G`
/// itself, of discrete log one by definition.
#[verifier::external_body]
pub(crate) fn basepoint() -> (p: RistrettoPoint)
    ensures
        point_dlog(p) == 1,
{
    curve25519_dalek::constants::RISTRETTO_BASEPOINT_POINT
}

/// Relies on `<&RistrettoPoint as Add>::add`: group addition adds discrete
/// logs modulo the group order.
#[verifier::external_body]
pub(crate) fn point_add(a: &RistrettoPoint, b: &RistrettoPoint) -> (p: RistrettoPoint)
    ensures
        point_dlog(p) == md((point_dlog(*a) + point_dlog(*b)) as int),
{
    a + b
}

/// Relies on `<&RistrettoPoint as Sub>::sub`: group subtraction subtracts
/// discrete logs modulo the group order.
#[verifier::external_body]
pub(crate) fn point_sub(a: &RistrettoPoint, b: &RistrettoPoint) -> (p: RistrettoPoint)
    ensures
        point_dlog(p) == md(point_dlog(*a) - point_dlog(*b)),
{
    a - b
}

/// Relies on `<&RistrettoPoint as Mul<&Scalar>>::mul`: scalar multiplication
/// multiplies the discrete log by the scalar, modulo the group order.
#[verifier::external_body]
pub(crate) fn point_mul(s: &Scalar, p: &RistrettoPoint) -> (q: RistrettoPoint)
    ensures
        point_dlog(q) == md((scalar_val(*s) * point_dlog(*p)) as int),
{
    p * s
}

/// Relies on `RistrettoPoint::multiscalar_mul` with two terms: the weighted
/// sum `s1·P1 + s2·P2`, whose discrete log is the weighted sum of the
/// discrete logs modulo the group order.
#[verifier::external_body]
pub(crate) fn multiscalar_mul_two(
    s1: &Scalar,
    p1: &RistrettoPoint,
    s2: &Scalar,
    p2: &RistrettoPoint,
) -> (q: RistrettoPoint)
    ensures
        point_dlog(q) == md(
            (scalar_val(*s1) * point_dlog(*p1) + scalar_val(*s2) * point_dlog(*p2)) as int,
        ),
{
    RistrettoPoint::multiscalar_mul([s1, s2], [p1, p2])
}

/// Relies on `<RistrettoPoint as PartialEq>::eq`: Ristretto equality is
/// equality in the group, and in a cyclic group of prime order two elements
/// are equal exactly when their discrete logs are.
#[verifier::external_body]
pub(crate) fn point_eq(a: &RistrettoPoint, b: &RistrettoPoint) -> (r: bool)
    ensures
        r == (point_dlog(*a) == point_dlog(*b)),
{
    a == b
}

/// Relies on `RistrettoPoint` being `Copy`: a bitwise copy is the same group
/// element.
#[verifier::external_body]
pub(crate) fn point_copy(a: &RistrettoPoint) -> (p: RistrettoPoint)
    ensures
        p == *a,
{
    *a
}

/// Relies on `RistrettoPoint::compress` (with `CompressedRistretto`'s
/// byte accessor): the canonical 32-byte encoding of the element. The
/// encoding is canonical, so any element it also encodes is this one.
#[verifier::external_body]
pub(crate) fn point_compress(p: &RistrettoPoint) -> (r: [u8; 32])
    ensures
        encodes_point(r@, *p),
{
    p.compress().to_bytes()
}

/// Relies on `CompressedRistretto::decompress` (after
/// `CompressedRistretto::from_slice` on the 32 given bytes): the element the
/// bytes canonically encode, or nothing when they encode no element.
/// Decompression inverts compression.
#[verifier::external_body]
pub(crate) fn point_decompress(b: &[u8]) -> (r: Option<RistrettoPoint>)
    requires
        b@.len() == 32,
    ensures
        r matches Some(p) ==> encodes_point(b@, p),
        forall|q: RistrettoPoint| b@ == #[trigger] point_encoding(point_dlog(q)) ==> r is Some,
{
    curve25519_dalek::ristretto::CompressedRistretto::from_slice(b).unwrap().decompress()
}

/// Relies on `Scalar::to_bytes`: the canonical 32-byte little-endian
/// encoding of the scalar's integer.
#[verifier::external_body]
pub(crate) fn scalar_to_bytes(s: &Scalar) -> (r: [u8; 32])
    ensures
        le_bytes_val(r@) == scalar_val(*s),
{
    s.to_bytes()
}

/// Relies on `Scalar::from_canonical_bytes` on the 32 given bytes: the
/// scalar the bytes encode, exactly when they read, little-endian, as an
/// integer below the group order.
#[verifier::external_body]
pub(crate) fn scalar_from_canonical(b: &[u8]) -> (r: Option<Scalar>)
    requires
        b@.len() == 32,
    ensures
        r is Some <==> le_bytes_val(b@) < group_order(),
        r matches Some(s) ==> scalar_val(s) == le_bytes_val(b@),
{
    let bytes: [u8; 32] = b.try_into().unwrap();
    Scalar::from_canonical_bytes(bytes).into()
}

/// Relies on `RistrettoPoint::hash_from_bytes::<Sha512>`: a group element
/// derived deterministically from the input bytes, with no known discrete
/// log relation to the basepoint.
#[verifier::external_body]
pub(crate) fn hash_to_point(input: &[u8]) -> (p: RistrettoPoint)
    ensures
        point_dlog(p) == hash_point_dlog(input@),
        point_dlog(p) < group_order(),
{
    RistrettoPoint::hash_from_bytes::<sha2::Sha512>(input)
}

/// Relies on `sha2::Sha512::digest`: the SHA-512 digest of the input, 64
/// bytes, a function of the input alone.
#[verifier::external_body]
pub(crate) fn sha512(input: &[u8]) -> (r: [u8; 64])
    ensures
        r@ == sha512_digest(input@),
{
    let mut out = [0u8; 64];
    out.copy_from_slice(&sha2::Sha512::digest(input));
    out
}

} // verus!
