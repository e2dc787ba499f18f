use pairing::bls12_381::{Fr, FrRepr, G1, G2};
use pairing::{CurveAffine, CurveProjective, EncodedPoint, Field, PrimeField};
use zei::algebra::bls12_381::{BLSScalar, BLSG1, BLSG2};

fn fr(s: &BLSScalar) -> Fr {
    Fr::from_repr(FrRepr(s.repr)).unwrap()
}

fn minus_one() -> BLSScalar {
    let mut m = Fr::one();
    m.negate();
    BLSScalar { repr: m.into_repr().0 }
}

#[test]
fn scalars_of_numbers_are_the_numbers() {
    assert_eq!([0, 0, 0, 0], BLSScalar::from_u64(0).repr);
    assert_eq!([1, 0, 0, 0], BLSScalar::from_u64(1).repr);
    assert_eq!([0xDEAD_BEEF_0000_1234, 0, 0, 0], BLSScalar::from_u64(0xDEAD_BEEF_0000_1234).repr);
    assert_eq!([u64::MAX, 0, 0, 0], BLSScalar::from_u64(u64::MAX).repr);
    assert_eq!([u32::MAX as u64, 0, 0, 0], BLSScalar::from_u32(u32::MAX).repr);
    assert_eq!([7, 0, 0, 0], BLSScalar::from_u32(7).repr);
    assert_eq!(Fr::from_repr(FrRepr::from(77)).unwrap(), fr(&BLSScalar::from_u64(77)));
}

#[test]
fn scalar_arithmetic_is_modulo_the_order() {
    let a = BLSScalar::from_u64(u64::MAX);
    let b = BLSScalar::from_u64(2);
    assert_eq!([1, 1, 0, 0], a.add(&b).repr);
    assert_eq!([u64::MAX - 1, 1, 0, 0], a.mul(&b).repr);
    assert_eq!([1, u64::MAX - 1, 0, 0], a.mul(&a).repr);
    assert_eq!([0, 0, 0, 0], minus_one().add(&BLSScalar::from_u64(1)).repr);
    assert_eq!([4, 0, 0, 0], minus_one().add(&BLSScalar::from_u64(5)).repr);
    assert_eq!([1, 0, 0, 0], minus_one().mul(&minus_one()).repr);
    assert_eq!(
        [0xffff_ffff_0000_0000, 0x53bd_a402_fffe_5bfe, 0x3339_d808_09a1_d805, 0x73ed_a753_299d_7d48],
        minus_one().repr
    );
    let mut sum = fr(&a);
    sum.add_assign(&fr(&minus_one()));
    assert_eq!(sum.into_repr().0, a.add(&minus_one()).repr);
}

#[test]
fn scalars_are_written_limb_by_limb() {
    let s = BLSScalar { repr: [0x0102_0304_0506_0708, 0x1112_1314_1516_1718, 0, 0x2122_2324_2526_2728] };
    let bytes = s.to_bytes();
    assert_eq!(
        vec![
            1, 2, 3, 4, 5, 6, 7, 8, 0x11, 0x12, 0x13, 0x14, 0x15, 0x16, 0x17, 0x18, 0, 0, 0, 0, 0,
            0, 0, 0, 0x21, 0x22, 0x23, 0x24, 0x25, 0x26, 0x27, 0x28
        ],
        bytes
    );
    assert_eq!(s, BLSScalar::from_bytes(&bytes));
    let mut longer = bytes.clone();
    longer.extend_from_slice(&[9, 9, 9]);
    assert_eq!(s, BLSScalar::from_bytes(&longer));
    assert_eq!(minus_one(), BLSScalar::from_bytes(&minus_one().to_bytes()));
    assert_eq!(vec![0u8; 32], BLSScalar::from_u64(0).to_bytes());
}

#[test]
fn scalars_of_digests_follow_the_generator() {
    let mut digest = [0u8; 64];
    for (i, b) in digest.iter_mut().enumerate() {
        *b = (3 * i + 1) as u8;
    }
    let mut seed = [0u32; 16];
    for i in 0..16 {
        seed[i] = u32::from_be_bytes([digest[4 * i], digest[4 * i + 1], digest[4 * i + 2], digest[4 * i + 3]]);
    }
    let mut prng: rand::ChaChaRng = rand::SeedableRng::from_seed(&seed[..]);
    let expected: Fr = rand::Rand::rand(&mut prng);
    let s = BLSScalar::from_hash(&digest);
    assert_eq!(expected, fr(&s));
    assert_eq!(s, BLSScalar::from_hash(&digest));
    let mut other = digest;
    other[0] ^= 1;
    assert_ne!(s, BLSScalar::from_hash(&other));
    let mut random_bytes = [0u8; 16];
    random_bytes.copy_from_slice(&digest[..16]);
    let mut prng: rand::ChaChaRng = rand::SeedableRng::from_seed(&seed[..4]);
    let expected: Fr = rand::Rand::rand(&mut prng);
    assert_eq!(expected, fr(&BLSScalar::from_random_bytes(&random_bytes)));
}

#[test]
fn group_elements_are_read_from_valid_encodings_only() {
    let base = G1::one().into_affine().into_compressed();
    let read = BLSG1::from_compressed_bytes(base.as_ref()).unwrap();
    assert_eq!(base.as_ref(), &read.compressed[..]);
    assert_eq!(base.as_ref().to_vec(), read.to_compressed_bytes());
    let mut longer = base.as_ref().to_vec();
    longer.push(1);
    assert_eq!(Some(read), BLSG1::from_compressed_bytes(&longer));
    assert_eq!(None, BLSG1::from_compressed_bytes(&base.as_ref()[..47]));
    assert_eq!(None, BLSG1::from_compressed_bytes(&[0u8; 48]));
    assert_eq!(None, BLSG1::from_compressed_bytes(&[0xFFu8; 48]));
    let identity = G1::zero().into_affine().into_compressed();
    assert_eq!(0xC0, identity.as_ref()[0]);
    assert!(BLSG1::from_compressed_bytes(identity.as_ref()).is_some());

    let base = G2::one().into_affine().into_compressed();
    let read = BLSG2::from_compressed_bytes(base.as_ref()).unwrap();
    assert_eq!(base.as_ref(), &read.compressed[..]);
    assert_eq!(base.as_ref().to_vec(), read.to_compressed_bytes());
    assert_eq!(None, BLSG2::from_compressed_bytes(&base.as_ref()[..95]));
    assert_eq!(None, BLSG2::from_compressed_bytes(&[0u8; 96]));
    let mut tampered = base.as_ref().to_vec();
    tampered[0] &= 0x7F;
    assert_eq!(None, BLSG2::from_compressed_bytes(&tampered));
    let identity = G2::zero().into_affine().into_compressed();
    assert!(BLSG2::from_compressed_bytes(identity.as_ref()).is_some());
}

#[test]
fn test_scalar_ops() {
    let a = BLSScalar::from_u32(40);
    let b = BLSScalar::from_u32(60);
    assert_eq!(BLSScalar::from_u32(100), a.add(&b));
    let a = BLSScalar::from_u32(10);
    let b = BLSScalar::from_u32(40);
    assert_eq!(BLSScalar::from_u32(400), a.mul(&b));
    let a = BLSScalar::from_u64(u32::MAX as u64);
    let b = BLSScalar::from_u32(1);
    assert_eq!(BLSScalar::from_u64(1u64 << 32), a.add(&b));
    assert_eq!(BLSScalar::from_u64(0), a.mul(&BLSScalar::from_u32(0)));
    assert_eq!(a, a.mul(&b));
    assert_eq!(a, a.add(&BLSScalar::from_u32(0)));
}

#[test]
fn test_scalar_serialization() {
    let a = BLSScalar::from_u32(100);
    let bytes = a.to_bytes();
    let b = BLSScalar::from_bytes(bytes.as_slice());
    assert_eq!(a, b);
    let a = minus_one();
    let bytes = a.to_bytes();
    assert_eq!(32, bytes.len());
    assert_eq!(a, BLSScalar::from_bytes(bytes.as_slice()));
}
