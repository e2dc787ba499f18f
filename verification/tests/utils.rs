use zei::utils::{b64dec, b64enc, u8_le_slice_to_u32, u8_le_slice_to_u64};

#[test]
fn test_u8_be_slice_to_u32() {
    let array = [0xFA as u8, 0x01 as u8, 0xC6 as u8, 0x73 as u8];
    let n = zei::utils::u8_be_slice_to_u32(&array);
    assert_eq!(0xFA01C673, n);
}

#[test]
fn u8_be_slice_to_u64() {
    let array = [0xFA as u8, 0x01 as u8, 0xC6 as u8, 0x73 as u8, 0x22, 0xE4, 0x98, 0xA2];
    let n = zei::utils::u8_be_slice_to_u64(&array);
    assert_eq!(0xFA01C67322E498A2, n);
}

#[test]
fn min_greater_equal_power_of_two() {
    assert_eq!(16, zei::utils::min_greater_equal_power_of_two(16));
    assert_eq!(16, zei::utils::min_greater_equal_power_of_two(15));
    assert_eq!(16, zei::utils::min_greater_equal_power_of_two(9));
    assert_eq!(8, zei::utils::min_greater_equal_power_of_two(8));
    assert_eq!(8, zei::utils::min_greater_equal_power_of_two(6));
    assert_eq!(8, zei::utils::min_greater_equal_power_of_two(5));
    assert_eq!(4, zei::utils::min_greater_equal_power_of_two(4));
    assert_eq!(4, zei::utils::min_greater_equal_power_of_two(3));
    assert_eq!(2, zei::utils::min_greater_equal_power_of_two(2));
    assert_eq!(1, zei::utils::min_greater_equal_power_of_two(1));
    assert_eq!(0, zei::utils::min_greater_equal_power_of_two(0));
}

#[test]
fn u64_to_u32_pair() {
    assert_eq!((32, 0), zei::utils::u64_to_u32_pair(32u64));
    assert_eq!(
        (0xFFFFFFFF, 0xFFFFFFFF),
        zei::utils::u64_to_u32_pair(0xFFFFFFFFFFFFFFFFu64)
    );
    assert_eq!(
        (0, 0xFFFFFFFF),
        zei::utils::u64_to_u32_pair(0xFFFFFFFF00000000u64)
    );
}

#[test]
fn the_two_halves_of_an_amount_make_the_amount() {
    for a in [0u64, 1, 0xFFFF_FFFF, 0x1_0000_0000, 0x1234_5678_9ABC_DEF0, u64::MAX - 1, u64::MAX] {
        let (low, high) = zei::utils::u64_to_u32_pair(a);
        assert_eq!((a & 0xFFFF_FFFF) as u32, low);
        assert_eq!((a >> 32) as u32, high);
        assert_eq!(a as u128, low as u128 + (1u128 << 32) * high as u128);
    }
}

#[test]
fn le_slices_read_least_significant_byte_first() {
    assert_eq!(0x73C601FA, u8_le_slice_to_u32(&[0xFA, 0x01, 0xC6, 0x73]));
    assert_eq!(
        0xA298E42273C601FA,
        u8_le_slice_to_u64(&[0xFA, 0x01, 0xC6, 0x73, 0x22, 0xE4, 0x98, 0xA2])
    );
}

#[test]
fn power_of_two_beyond_32_bits_saturates() {
    assert_eq!(0x8000_0000, zei::utils::min_greater_equal_power_of_two(0x8000_0000));
    assert_eq!(0x8000_0000, zei::utils::min_greater_equal_power_of_two(0x4000_0001));
    assert_eq!(u32::MAX, zei::utils::min_greater_equal_power_of_two(0x8000_0001));
    assert_eq!(u32::MAX, zei::utils::min_greater_equal_power_of_two(u32::MAX));
}

#[test]
fn base64_is_url_safe_with_padding() {
    assert_eq!("aGVsbG8gaW50ZXJuZXR-Cg==", b64enc(b"hello internet~\n"));
    assert_eq!(b"hello internet~\n".to_vec(), b64dec(b"aGVsbG8gaW50ZXJuZXR-Cg==").unwrap());
    assert_eq!("-_8=", b64enc(&[0xfb, 0xff]));
    assert!(b64dec(b"+/8=").is_err());
    assert!(b64dec(b"!!!!").is_err());
    assert_eq!(Vec::<u8>::new(), b64dec(b"").unwrap());
}

#[test]
fn wide_numbers_are_read_and_written() {
    assert_eq!(
        [0xFA, 0x01, 0xC6, 0x73, 0x22, 0xE4, 0x98, 0xA2],
        zei::utils::u64_to_bigendian_u8array(0xFA01C67322E498A2)
    );
    assert_eq!([0u8; 8], zei::utils::u64_to_bigendian_u8array(0));
    assert_eq!([0xFFu8; 8], zei::utils::u64_to_bigendian_u8array(u64::MAX));
    let mut bytes = [0u8; 16];
    bytes[0] = 0x01;
    bytes[15] = 0x80;
    assert_eq!((0x80u128 << 120) + 1, zei::utils::u8_le_slice_to_u128(&bytes));
    assert_eq!(u128::MAX, zei::utils::u8_le_slice_to_u128(&[0xFF; 16]));
}
