use local::connect::wire::{
    put_bool, put_run, put_u16, put_u32, put_u64, take_bool, take_byte, take_octets16,
    take_octets4, take_run, take_u16, take_u32, take_u64, DecodeError,
};

#[test]
fn u16_is_little_endian() {
    let mut out = vec![9u8];
    put_u16(&mut out, 0x1dfe);
    assert_eq!(out, vec![9, 0xfe, 0x1d]);
    assert_eq!(take_u16(&[0xfe, 0x1d, 7]), Ok((0x1dfe, &[7u8][..])));
    assert_eq!(take_u16(&[0xfe]), Err(DecodeError::Truncated));
}

#[test]
fn u32_is_little_endian() {
    let mut out = Vec::new();
    put_u32(&mut out, 0x0403_0201);
    assert_eq!(out, vec![1, 2, 3, 4]);
    assert_eq!(out, 0x0403_0201u32.to_le_bytes());
    assert_eq!(take_u32(&[1, 2, 3, 4]), Ok((0x0403_0201, &[][..])));
    assert_eq!(take_u32(&[0xff, 0xff, 0xff, 0xff, 5]), Ok((u32::MAX, &[5u8][..])));
    assert_eq!(take_u32(&[1, 2, 3]), Err(DecodeError::Truncated));
}

#[test]
fn u64_is_little_endian() {
    let mut out = Vec::new();
    put_u64(&mut out, 0x0807_0605_0403_0201);
    assert_eq!(out, vec![1, 2, 3, 4, 5, 6, 7, 8]);
    assert_eq!(take_u64(&out), Ok((0x0807_0605_0403_0201, &[][..])));
    let mut all = Vec::new();
    put_u64(&mut all, u64::MAX);
    assert_eq!(all, vec![0xff; 8]);
    assert_eq!(take_u64(&all), Ok((u64::MAX, &[][..])));
    assert_eq!(take_u64(&[1, 2, 3, 4, 5, 6, 7]), Err(DecodeError::Truncated));
}

#[test]
fn integers_agree_with_std_on_many_values() {
    let mut v: u64 = 1;
    for _ in 0..200 {
        v = v.wrapping_mul(6364136223846793005).wrapping_add(1442695040888963407);
        let mut out = Vec::new();
        put_u64(&mut out, v);
        assert_eq!(out, v.to_le_bytes());
        assert_eq!(take_u64(&out), Ok((v, &[][..])));
        let w = (v >> 17) as u32;
        let mut out = Vec::new();
        put_u32(&mut out, w);
        assert_eq!(out, w.to_le_bytes());
        assert_eq!(take_u32(&out), Ok((w, &[][..])));
        let h = (v >> 40) as u16;
        let mut out = Vec::new();
        put_u16(&mut out, h);
        assert_eq!(out, h.to_le_bytes());
        assert_eq!(take_u16(&out), Ok((h, &[][..])));
    }
}

#[test]
fn bool_is_one_byte_zero_or_one() {
    let mut out = Vec::new();
    put_bool(&mut out, true);
    put_bool(&mut out, false);
    assert_eq!(out, vec![1, 0]);
    assert_eq!(take_bool(&[1, 9]), Ok((true, &[9u8][..])));
    assert_eq!(take_bool(&[0]), Ok((false, &[][..])));
    assert_eq!(take_bool(&[2]), Err(DecodeError::InvalidBool));
    assert_eq!(take_bool(&[]), Err(DecodeError::Truncated));
}

#[test]
fn bytes_and_runs() {
    assert_eq!(take_byte(&[7, 8]), Ok((7, &[8u8][..])));
    assert_eq!(take_byte(&[]), Err(DecodeError::Truncated));
    let mut out = vec![1u8];
    put_run(&mut out, &[2, 3, 4]);
    assert_eq!(out, vec![1, 2, 3, 4]);
    assert_eq!(take_run(&out, 3), Ok((&[1u8, 2, 3][..], &[4u8][..])));
    assert_eq!(take_run(&out, 4), Ok((&[1u8, 2, 3, 4][..], &[][..])));
    assert_eq!(take_run(&out, 0), Ok((&[][..], &[1u8, 2, 3, 4][..])));
    assert_eq!(take_run(&out, 5), Err(DecodeError::Truncated));
}

#[test]
fn octets_are_read_in_order() {
    assert_eq!(take_octets4(&[1, 2, 3, 4, 5]), Ok(([1, 2, 3, 4], &[5u8][..])));
    assert_eq!(take_octets4(&[1, 2, 3]), Err(DecodeError::Truncated));
    let sixteen: Vec<u8> = (10..27).collect();
    let expected: [u8; 16] = [10, 11, 12, 13, 14, 15, 16, 17, 18, 19, 20, 21, 22, 23, 24, 25];
    assert_eq!(take_octets16(&sixteen), Ok((expected, &[26u8][..])));
    assert_eq!(take_octets16(&sixteen[..15]), Err(DecodeError::Truncated));
}
