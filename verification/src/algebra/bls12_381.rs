//! Scalars and compressed group elements of the curve BLS12-381, as the
//! numbers and bytes that stand for them.

use crate::utils::{be_value, u64_to_bigendian_u8array, u8_be_slice_to_u32, u8_be_slice_to_u64};
use pairing::bls12_381::{Fr, FrRepr, G1Compressed, G2Compressed};
use pairing::{EncodedPoint, Field, PrimeField};
use vstd::prelude::*;
use vstd::slice::slice_subrange;

verus! {

/// The number that four 64-bit limbs write, least significant limb first.
pub open spec fn limbs_value(limbs: Seq<u64>) -> nat {
    (limbs[0] as nat) + 0x1_0000_0000_0000_0000 * ((limbs[1] as nat) + 0x1_0000_0000_0000_0000 * ((
    limbs[2] as nat) + 0x1_0000_0000_0000_0000 * (limbs[3] as nat)))
}

/// The order of the scalar field of BLS12-381:
/// `0x73eda753299d7d483339d80809a1d80553bda402fffe5bfeffffffff00000001`.
pub open spec fn scalar_field_order() -> nat {
    limbs_value(
        seq![
            0xffff_ffff_0000_0001u64,
            0x53bd_a402_fffe_5bfeu64,
            0x3339_d808_09a1_d805u64,
            0x73ed_a753_299d_7d48u64,
        ],
    )
}

/// An element of the scalar field of BLS12-381, as the four limbs of its
/// least representative, least significant limb first.
#[derive(Clone, Copy, Debug, PartialEq, Eq)]
pub struct BLSScalar {
    pub repr: [u64; 4],
}

impl View for BLSScalar {
    type V = nat;

    /// The number that the limbs write.
    open spec fn view(&self) -> nat {
        limbs_value(self.repr@)
    }
}

/// A compressed encoding of an element of the group G1 of BLS12-381.
#[derive(Clone, Copy, Debug, PartialEq, Eq)]
pub struct BLSG1 {
    pub compressed: [u8; 48],
}

/// A compressed encoding of an element of the group G2 of BLS12-381.
#[derive(Clone, Copy, Debug, PartialEq, Eq)]
pub struct BLSG2 {
    pub compressed: [u8; 96],
}

/// The scalar that `Fr::rand` of `pairing` draws from the ChaCha generator
/// of `rand` seeded with `seed`.
pub uninterp spec fn chacha_scalar(seed: Seq<u32>) -> nat;

/// Whether `G1Compressed::into_affine` of `pairing` accepts `encoding` as
/// that of an element of G1.
pub uninterp spec fn g1_decodes(encoding: Seq<u8>) -> bool;

/// Whether `G2Compressed::into_affine` of `pairing` accepts `encoding` as
/// that of an element of G2.
pub uninterp spec fn g2_decodes(encoding: Seq<u8>) -> bool;

/// Draws a scalar from the ChaCha generator seeded with `seed`.
///
/// Calls `ChaChaRng::from_seed` of `rand` and `Fr::rand` of `pairing`.
/// Trusted: the scalar depends on the seed alone, and is below the order.
#[verifier::external_body]
fn scalar_from_seed(seed: &[u32]) -> (s: BLSScalar)
    ensures
        s@ == chacha_scalar(seed@),
        s.well_formed(),
{
    let mut prng: rand::ChaChaRng = rand::SeedableRng::from_seed(seed);
    let drawn: Fr = rand::Rand::rand(&mut prng);
    BLSScalar { repr: drawn.into_repr().0 }
}

/// Whether the bytes encode an element of G1.
///
/// Calls `G1Compressed::into_affine` of `pairing`. Trusted: the answer
/// depends on the bytes alone.
#[verifier::external_body]
fn g1_is_encoded(bytes: &[u8; 48]) -> (valid: bool)
    ensures
        valid == g1_decodes(bytes@),
{
    let mut encoding = G1Compressed::empty();
    encoding.as_mut().copy_from_slice(bytes);
    encoding.into_affine().is_ok()
}

/// Whether the bytes encode an element of G2.
///
/// Calls `G2Compressed::into_affine` of `pairing`. Trusted: the answer
/// depends on the bytes alone.
#[verifier::external_body]
fn g2_is_encoded(bytes: &[u8; 96]) -> (valid: bool)
    ensures
        valid == g2_decodes(bytes@),
{
    let mut encoding = G2Compressed::empty();
    encoding.as_mut().copy_from_slice(bytes);
    encoding.into_affine().is_ok()
}

/// Adds two scalars.
///
/// Calls `add_assign` of `pairing`'s `Fr`. Trusted: the result is the sum
/// modulo the order of the field, in its least representative. The
/// `requires` leaves out limbs that are no field element, which
/// `Fr::from_repr` refuses.
#[verifier::external_body]
fn fr_add(a: &BLSScalar, b: &BLSScalar) -> (s: BLSScalar)
    requires
        a.well_formed(),
        b.well_formed(),
    ensures
        s@ == (a@ + b@) % scalar_field_order(),
        s.well_formed(),
{
    let mut m = Fr::from_repr(FrRepr(a.repr)).unwrap();
    m.add_assign(&Fr::from_repr(FrRepr(b.repr)).unwrap());
    BLSScalar { repr: m.into_repr().0 }
}

/// Multiplies two scalars.
///
/// Calls `mul_assign` of `pairing`'s `Fr`. Trusted: the result is the
/// product modulo the order of the field, in its least representative. The
/// `requires` leaves out limbs that are no field element, which
/// `Fr::from_repr` refuses.
#[verifier::external_body]
fn fr_mul(a: &BLSScalar, b: &BLSScalar) -> (s: BLSScalar)
    requires
        a.well_formed(),
        b.well_formed(),
    ensures
        s@ == (a@ * b@) % scalar_field_order(),
        s.well_formed(),
{
    let mut m = Fr::from_repr(FrRepr(a.repr)).unwrap();
    m.mul_assign(&Fr::from_repr(FrRepr(b.repr)).unwrap());
    BLSScalar { repr: m.into_repr().0 }
}

impl BLSScalar {
    /// The limbs are those of a number below the order of the field.
    pub open spec fn well_formed(&self) -> bool {
        self@ < scalar_field_order()
    }

    /// The sum of two scalars, modulo the order of the field.
    pub fn add(&self, b: &BLSScalar) -> (s: BLSScalar)
        requires
            self.well_formed(),
            b.well_formed(),
        ensures
            s@ == (self@ + b@) % scalar_field_order(),
            s.well_formed(),
    {
        fr_add(self, b)
    }

    /// The product of two scalars, modulo the order of the field.
    pub fn mul(&self, b: &BLSScalar) -> (s: BLSScalar)
        requires
            self.well_formed(),
            b.well_formed(),
        ensures
            s@ == (self@ * b@) % scalar_field_order(),
            s.well_formed(),
    {
        fr_mul(self, b)
    }

    /// The scalar that stands for a 32-bit number.
    pub fn from_u32(value: u32) -> (s: BLSScalar)
        ensures
            s@ == value,
            s.well_formed(),
    {
        Self::from_u64(value as u64)
    }

    /// The scalar that stands for a 64-bit number, summed from the powers
    /// of two of its binary digits.
    pub fn from_u64(value: u64) -> (s: BLSScalar)
        ensures
            s@ == value,
            s.well_formed(),
    {
        let mut v = value;
        let mut result = BLSScalar { repr: [0, 0, 0, 0] };
        let mut two_pow_i = BLSScalar { repr: [1, 0, 0, 0] };
        let ghost mut power: nat = 1;
        proof {
            lemma_scalar_field_order_is_large();
            assert(result.repr@ =~= seq![0u64, 0u64, 0u64, 0u64]);
            assert(two_pow_i.repr@ =~= seq![1u64, 0u64, 0u64, 0u64]);
            assert(power * v == v) by (nonlinear_arith)
                requires
                    power == 1,
            ;
        }
        while v != 0
            invariant
                result@ + power * v == value,
                two_pow_i@ == power,
                1 <= power <= 0x2_0000_0000_0000_0000,
                v > 0 ==> power <= value,
                scalar_field_order() > 0x4_0000_0000_0000_0000,
            decreases v,
        {
            let ghost half = v >> 1;
            let ghost digit = v & 1;
            proof {
                assert(v == 2 * (v >> 1) + (v & 1) && (v & 1) <= 1 && (v >> 1) < v) by (bit_vector)
                    requires
                        v != 0,
                ;
                assert(power * v == (2 * power) * half + power * digit) by (nonlinear_arith)
                    requires
                        v == 2 * half + digit,
                ;
                assert(power * digit <= power * v && power * v >= power) by (nonlinear_arith)
                    requires
                        digit <= v,
                        v >= 1,
                ;
                assert(half > 0 ==> 2 * power <= (2 * power) * half) by (nonlinear_arith);
                vstd::arithmetic::div_mod::lemma_small_mod(
                    result@ + power,
                    scalar_field_order(),
                );
                vstd::arithmetic::div_mod::lemma_small_mod(power + power, scalar_field_order());
            }
            if v & 1 == 1u64 {
                result = result.add(&two_pow_i);
            }
            v = v >> 1;
            two_pow_i = two_pow_i.add(&two_pow_i);
            proof {
                power = 2 * power;
            }
        }
        assert(power * 0 == 0);
        result
    }

    /// The scalar that the ChaCha generator gives for a 64-byte digest, of
    /// which each four bytes, most significant first, make one word of the
    /// seed.
    pub fn from_hash(digest: &[u8]) -> (s: BLSScalar)
        requires
            digest@.len() == 64,
        ensures
            s@ == chacha_scalar(seed_words(digest@)),
            s.well_formed(),
    {
        let seed = words_of(digest);
        scalar_from_seed(seed.as_slice())
    }

    /// The scalar that the ChaCha generator gives for 16 random bytes, of
    /// which each four bytes, most significant first, make one word of the
    /// seed.
    pub fn from_random_bytes(random_bytes: &[u8; 16]) -> (s: BLSScalar)
        ensures
            s@ == chacha_scalar(seed_words(random_bytes@)),
            s.well_formed(),
    {
        let seed = words_of(random_bytes.as_slice());
        scalar_from_seed(seed.as_slice())
    }

    /// The 32 bytes of the scalar: its four limbs in order, least
    /// significant limb first, each with its most significant byte first.
    pub fn to_bytes(&self) -> (bytes: Vec<u8>)
        ensures
            bytes@.len() == 32,
            forall|k: int|
                0 <= k < 4 ==> be_value(#[trigger] bytes@.subrange(8 * k, 8 * k + 8))
                    == self.repr[k],
    {
        let mut v: Vec<u8> = Vec::new();
        let mut i: usize = 0;
        while i < 4
            invariant
                i <= 4,
                v@.len() == 8 * i,
                forall|k: int|
                    0 <= k < i ==> be_value(#[trigger] v@.subrange(8 * k, 8 * k + 8))
                        == self.repr[k],
            decreases 4 - i,
        {
            let array = u64_to_bigendian_u8array(self.repr[i]);
            let ghost before = v@;
            let mut j: usize = 0;
            while j < 8
                invariant
                    j <= 8,
                    v@ == before + array@.take(j as int),
                decreases 8 - j,
            {
                v.push(array[j]);
                j += 1;
                assert(v@ =~= before + array@.take(j as int));
            }
            proof {
                assert(array@.take(8) =~= array@);
                assert(v@.subrange(8 * i as int, 8 * i as int + 8) =~= array@);
                assert forall|k: int| 0 <= k < i implies be_value(
                    #[trigger] v@.subrange(8 * k, 8 * k + 8),
                ) == self.repr[k] by {
                    assert(v@.subrange(8 * k, 8 * k + 8) =~= before.subrange(8 * k, 8 * k + 8));
                }
            }
            i += 1;
        }
        v
    }

    /// The scalar whose 32 bytes are the first of `bytes`, as `to_bytes`
    /// writes them. The limbs must be those of a number below the order.
    pub fn from_bytes(bytes: &[u8]) -> (s: BLSScalar)
        requires
            bytes@.len() >= 32,
            limbs_value(
                Seq::new(4, |k: int| be_value(bytes@.subrange(8 * k, 8 * k + 8)) as u64),
            ) < scalar_field_order(),
        ensures
            forall|k: int|
                0 <= k < 4 ==> s.repr[k] == be_value(#[trigger] bytes@.subrange(8 * k, 8 * k + 8)),
            s.well_formed(),
    {
        let mut repr_array = [0u64;4];
        let mut i: usize = 0;
        while i < 4
            invariant
                i <= 4,
                bytes@.len() >= 32,
                forall|k: int|
                    0 <= k < i ==> repr_array[k] == be_value(
                        #[trigger] bytes@.subrange(8 * k, 8 * k + 8),
                    ),
            decreases 4 - i,
        {
            let slice = slice_subrange(bytes, i * 8, i * 8 + 8);
            repr_array[i] = u8_be_slice_to_u64(slice);
            i += 1;
        }
        proof {
            assert(repr_array@ =~= Seq::new(
                4,
                |k: int| be_value(bytes@.subrange(8 * k, 8 * k + 8)) as u64,
            ));
        }
        BLSScalar { repr: repr_array }
    }
}

/// The order of the scalar field is above `2^66`.
pub proof fn lemma_scalar_field_order_is_large()
    ensures
        scalar_field_order() > 0x4_0000_0000_0000_0000,
{
    let limbs = seq![
        0xffff_ffff_0000_0001u64,
        0x53bd_a402_fffe_5bfeu64,
        0x3339_d808_09a1_d805u64,
        0x73ed_a753_299d_7d48u64,
    ];
    assert(limbs[1] == 0x53bd_a402_fffe_5bfeu64);
    assert(limbs[2] == 0x3339_d808_09a1_d805u64);
    assert(limbs[3] == 0x73ed_a753_299d_7d48u64);
}

/// The words that a seed's bytes make: each four bytes, most significant
/// first, one word.
pub open spec fn seed_words(bytes: Seq<u8>) -> Seq<u32> {
    Seq::new(bytes.len() / 4, |i: int| be_value(bytes.subrange(4 * i, 4 * i + 4)) as u32)
}

/// The words that a seed's bytes make.
fn words_of(bytes: &[u8]) -> (seed: Vec<u32>)
    ensures
        seed@ == seed_words(bytes@),
{
    let n = bytes.len() / 4;
    let mut seed: Vec<u32> = Vec::new();
    let mut i: usize = 0;
    while i < n
        invariant
            i <= n,
            n == bytes@.len() / 4,
            4 * n <= bytes@.len() <= usize::MAX,
            seed@.len() == i,
            forall|k: int| 0 <= k < i ==> seed@[k] == seed_words(bytes@)[k],
        decreases n - i,
    {
        let start = i * 4;
        seed.push(u8_be_slice_to_u32(slice_subrange(bytes, start, start + 4)));
        i += 1;
    }
    assert(seed@ =~= seed_words(bytes@));
    seed
}

impl BLSG1 {
    /// The element whose compressed encoding is the first 48 of `bytes`;
    /// `None` where there are fewer bytes or they encode no element.
    pub fn from_compressed_bytes(bytes: &[u8]) -> (r: Option<BLSG1>)
        ensures
            r is Some <==> bytes@.len() >= 48 && g1_decodes(bytes@.take(48)),
            r is Some ==> r->0.compressed@ == bytes@.take(48),
    {
        if bytes.len() < 48 {
            return None;
        }
        let mut compressed = [0u8;48];
        let mut i: usize = 0;
        while i < 48
            invariant
                i <= 48,
                bytes@.len() >= 48,
                forall|k: int| 0 <= k < i ==> compressed[k] == bytes@[k],
            decreases 48 - i,
        {
            compressed[i] = bytes[i];
            i += 1;
        }
        assert(compressed@ =~= bytes@.take(48));
        if g1_is_encoded(&compressed) {
            Some(BLSG1 { compressed })
        } else {
            None
        }
    }

    /// The compressed encoding of the element.
    pub fn to_compressed_bytes(&self) -> (bytes: Vec<u8>)
        ensures
            bytes@ == self.compressed@,
    {
        let mut v: Vec<u8> = Vec::new();
        let mut i: usize = 0;
        while i < 48
            invariant
                i <= 48,
                v@ == self.compressed@.take(i as int),
            decreases 48 - i,
        {
            v.push(self.compressed[i]);
            i += 1;
            assert(v@ =~= self.compressed@.take(i as int));
        }
        assert(self.compressed@.take(48) =~= self.compressed@);
        v
    }
}

impl BLSG2 {
    /// The element whose compressed encoding is the first 96 of `bytes`;
    /// `None` where there are fewer bytes or they encode no element.
    pub fn from_compressed_bytes(bytes: &[u8]) -> (r: Option<BLSG2>)
        ensures
            r is Some <==> bytes@.len() >= 96 && g2_decodes(bytes@.take(96)),
            r is Some ==> r->0.compressed@ == bytes@.take(96),
    {
        if bytes.len() < 96 {
            return None;
        }
        let mut compressed = [0u8;96];
        let mut i: usize = 0;
        while i < 96
            invariant
                i <= 96,
                bytes@.len() >= 96,
                forall|k: int| 0 <= k < i ==> compressed[k] == bytes@[k],
            decreases 96 - i,
        {
            compressed[i] = bytes[i];
            i += 1;
        }
        assert(compressed@ =~= bytes@.take(96));
        if g2_is_encoded(&compressed) {
            Some(BLSG2 { compressed })
        } else {
            None
        }
    }

    /// The compressed encoding of the element.
    pub fn to_compressed_bytes(&self) -> (bytes: Vec<u8>)
        ensures
            bytes@ == self.compressed@,
    {
        let mut v: Vec<u8> = Vec::new();
        let mut i: usize = 0;
        while i < 96
            invariant
                i <= 96,
                v@ == self.compressed@.take(i as int),
            decreases 96 - i,
        {
            v.push(self.compressed[i]);
            i += 1;
            assert(v@ =~= self.compressed@.take(i as int));
        }
        assert(self.compressed@.take(96) =~= self.compressed@);
        v
    }
}

} // verus!
