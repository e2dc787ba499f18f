//! Scalars and compressed points of the Ristretto group, as the bytes that
//! stand for them, and the group operations on them.

use crate::utils::le_value;
use vstd::prelude::*;

verus! {

/// The order of the Ristretto group: `2^252 + 27742317777372353535851937790883648493`.
pub open spec fn group_order() -> nat {
    (0x4000_0000_0000_0000_0000_0000_0000_0000nat * 0x4000_0000_0000_0000_0000_0000_0000_0000nat
        + 27742317777372353535851937790883648493nat) as nat
}

/// An integer modulo the group order, as its 32 bytes, least significant first.
#[derive(Clone, Copy, Debug, PartialEq, Eq)]
pub struct Scalar {
    pub bytes: [u8; 32],
}

impl View for Scalar {
    type V = nat;

    /// The integer that the bytes write.
    open spec fn view(&self) -> nat {
        le_value(self.bytes@)
    }
}

/// A point of the Ristretto group in its 32-byte wire format. Not every
/// 32 bytes encode a point.
#[derive(Clone, Copy, Debug, PartialEq, Eq)]
pub struct CompressedRistretto(pub [u8; 32]);

impl View for CompressedRistretto {
    type V = Seq<u8>;

    open spec fn view(&self) -> Seq<u8> {
        self.0@
    }
}

/// Whether `CompressedRistretto::decompress` of `curve25519_dalek` accepts
/// `encoding` as the canonical encoding of a point.
pub uninterp spec fn ristretto_decodes(encoding: Seq<u8>) -> bool;

/// The encoding of the sum of the points that `a` and `b` encode.
pub uninterp spec fn ristretto_sum(a: Seq<u8>, b: Seq<u8>) -> Seq<u8>;

/// The encoding of `scalar` times the point that `point` encodes.
pub uninterp spec fn ristretto_scaled(scalar: nat, point: Seq<u8>) -> Seq<u8>;

/// The encoding of the Pedersen commitment to `value` under `blinding`, with
/// the default generators of `bulletproofs`.
pub uninterp spec fn pedersen_commitment(value: nat, blinding: nat) -> Seq<u8>;

/// The scalar that stands for a 64-bit number.
///
/// Calls `Scalar::from(u64)` of `curve25519_dalek`. Trusted: the scalar's
/// integer is the number given.
#[verifier::external_body]
pub(crate) fn scalar_from_u64(x: u64) -> (s: Scalar)
    ensures
        s@ == x,
{
    Scalar { bytes: curve25519_dalek::scalar::Scalar::from(x).to_bytes() }
}

/// The scalar that stands for a 128-bit number.
///
/// Calls `Scalar::from(u128)` of `curve25519_dalek`. Trusted: the scalar's
/// integer is the number given.
#[verifier::external_body]
pub(crate) fn scalar_from_u128(x: u128) -> (s: Scalar)
    ensures
        s@ == x,
{
    Scalar { bytes: curve25519_dalek::scalar::Scalar::from(x).to_bytes() }
}

/// Adds two scalars modulo the group order.
///
/// Calls the `+` of `curve25519_dalek`'s `Scalar` on the two scalars reduced
/// modulo the group order. Trusted: the result is the sum modulo the order.
#[verifier::external_body]
pub(crate) fn scalar_add(a: &Scalar, b: &Scalar) -> (s: Scalar)
    ensures
        s@ == (a@ + b@) % group_order(),
{
    let x = curve25519_dalek::scalar::Scalar::from_bytes_mod_order(a.bytes);
    let y = curve25519_dalek::scalar::Scalar::from_bytes_mod_order(b.bytes);
    Scalar { bytes: (x + y).to_bytes() }
}

/// Multiplies two scalars modulo the group order.
///
/// Calls the `*` of `curve25519_dalek`'s `Scalar` on the two scalars reduced
/// modulo the group order. Trusted: the result is the product modulo the order.
#[verifier::external_body]
pub(crate) fn scalar_mul(a: &Scalar, b: &Scalar) -> (s: Scalar)
    ensures
        s@ == (a@ * b@) % group_order(),
{
    let x = curve25519_dalek::scalar::Scalar::from_bytes_mod_order(a.bytes);
    let y = curve25519_dalek::scalar::Scalar::from_bytes_mod_order(b.bytes);
    Scalar { bytes: (x * y).to_bytes() }
}

/// Commits to `value` under `blinding`.
///
/// Calls `PedersenGens::default().commit` of `bulletproofs` and compresses the
/// point. Trusted: the encoding depends on the two scalars' integers alone,
/// and it decodes, being the encoding of a point.
#[verifier::external_body]
pub(crate) fn pedersen_commit(value: &Scalar, blinding: &Scalar) -> (c: CompressedRistretto)
    ensures
        c@ == pedersen_commitment(value@, blinding@),
        ristretto_decodes(c@),
{
    let v = curve25519_dalek::scalar::Scalar::from_bytes_mod_order(value.bytes);
    let b = curve25519_dalek::scalar::Scalar::from_bytes_mod_order(blinding.bytes);
    CompressedRistretto(bulletproofs::PedersenGens::default().commit(v, b).compress().to_bytes())
}

/// Adds two points given by their encodings; `None` where one of them
/// encodes no point.
///
/// Calls `decompress`, the `+` of `RistrettoPoint` and `compress` of
/// `curve25519_dalek`. Trusted: the sum's encoding depends on the two
/// encodings alone, and it decodes.
#[verifier::external_body]
pub(crate) fn point_add(a: &CompressedRistretto, b: &CompressedRistretto) -> (r: Option<
    CompressedRistretto,
>)
    ensures
        r is Some <==> (ristretto_decodes(a@) && ristretto_decodes(b@)),
        r is Some ==> r->0@ == ristretto_sum(a@, b@),
        r is Some ==> ristretto_decodes(r->0@),
{
    let p = curve25519_dalek::ristretto::CompressedRistretto(a.0).decompress()?;
    let q = curve25519_dalek::ristretto::CompressedRistretto(b.0).decompress()?;
    Some(CompressedRistretto((p + q).compress().to_bytes()))
}

/// Multiplies a point given by its encoding by a scalar; `None` where the
/// encoding is that of no point.
///
/// Calls `decompress`, the `*` of `Scalar` with `RistrettoPoint` and
/// `compress` of `curve25519_dalek`. Trusted: the product's encoding depends on
/// the scalar's integer and the point's encoding alone, and it decodes.
#[verifier::external_body]
pub(crate) fn point_scale(scalar: &Scalar, point: &CompressedRistretto) -> (r: Option<
    CompressedRistretto,
>)
    ensures
        r is Some <==> ristretto_decodes(point@),
        r is Some ==> r->0@ == ristretto_scaled(scalar@, point@),
        r is Some ==> ristretto_decodes(r->0@),
{
    let s = curve25519_dalek::scalar::Scalar::from_bytes_mod_order(scalar.bytes);
    let p = curve25519_dalek::ristretto::CompressedRistretto(point.0).decompress()?;
    Some(CompressedRistretto((s * p).compress().to_bytes()))
}

} // verus!
