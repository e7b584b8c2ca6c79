use heed_codec::{BigEndian, Bytes, LittleEndian, Str, Unit, I32, I64, U32, U64};

#[test]
fn unit_encodes_empty() {
    assert_eq!(Unit::bytes_encode(&()), Some(Vec::new()));
}

#[test]
fn unit_decodes_only_empty() {
    let empty: Vec<u8> = Vec::new();
    assert_eq!(Unit::bytes_decode(&empty), Some(()));
    assert_eq!(Unit::bytes_decode(&[0u8]), None);
}

#[test]
fn bytes_identity() {
    let data: Vec<u8> = vec![7, 0, 255];
    assert_eq!(Bytes::bytes_encode(&data), Some(&data[..]));
    assert_eq!(Bytes::bytes_decode(&data), Some(&data[..]));
}

#[test]
fn u32_big_endian_bytes() {
    let enc = U32::<BigEndian>::bytes_encode(&0x0102_0304).unwrap();
    assert_eq!(enc, vec![1u8, 2, 3, 4]);
    assert_eq!(U32::<BigEndian>::bytes_decode(&enc), Some(0x0102_0304));
}

#[test]
fn u32_little_endian_bytes() {
    let enc = U32::<LittleEndian>::bytes_encode(&0x0102_0304).unwrap();
    assert_eq!(enc, vec![4u8, 3, 2, 1]);
    assert_eq!(U32::<LittleEndian>::bytes_decode(&enc), Some(0x0102_0304));
}

#[test]
fn u32_wrong_lengths() {
    assert_eq!(U32::<BigEndian>::bytes_decode(&[1u8, 2, 3]), None);
    assert_eq!(U32::<BigEndian>::bytes_decode(&[1u8, 2, 3, 4, 5]), None);
    assert_eq!(U32::<LittleEndian>::bytes_decode(&[1u8, 2, 3]), None);
    assert_eq!(U32::<LittleEndian>::bytes_decode(&[1u8, 2, 3, 4, 5]), None);
}

#[test]
fn u64_both_orders() {
    let x: u64 = 0x0102_0304_0506_0708;
    let be = U64::<BigEndian>::bytes_encode(&x).unwrap();
    assert_eq!(be, vec![1u8, 2, 3, 4, 5, 6, 7, 8]);
    let le = U64::<LittleEndian>::bytes_encode(&x).unwrap();
    assert_eq!(le, vec![8u8, 7, 6, 5, 4, 3, 2, 1]);
    assert_eq!(U64::<BigEndian>::bytes_decode(&be), Some(x));
    assert_eq!(U64::<LittleEndian>::bytes_decode(&le), Some(x));
}

#[test]
fn u64_wrong_lengths() {
    assert_eq!(U64::<BigEndian>::bytes_decode(&[0u8; 7]), None);
    assert_eq!(U64::<BigEndian>::bytes_decode(&[0u8; 9]), None);
    assert_eq!(U64::<LittleEndian>::bytes_decode(&[0u8; 7]), None);
    assert_eq!(U64::<LittleEndian>::bytes_decode(&[0u8; 9]), None);
}

#[test]
fn i32_negative_round_trip() {
    let be = I32::<BigEndian>::bytes_encode(&-2).unwrap();
    assert_eq!(be, vec![0xffu8, 0xff, 0xff, 0xfe]);
    assert_eq!(I32::<BigEndian>::bytes_decode(&be), Some(-2));
    let le = I32::<LittleEndian>::bytes_encode(&i32::MIN).unwrap();
    assert_eq!(le, vec![0u8, 0, 0, 0x80]);
    assert_eq!(I32::<LittleEndian>::bytes_decode(&le), Some(i32::MIN));
}

#[test]
fn i32_wrong_lengths() {
    assert_eq!(I32::<BigEndian>::bytes_decode(&[0u8; 3]), None);
    assert_eq!(I32::<BigEndian>::bytes_decode(&[0u8; 5]), None);
    assert_eq!(I32::<LittleEndian>::bytes_decode(&[0u8; 3]), None);
    assert_eq!(I32::<LittleEndian>::bytes_decode(&[0u8; 5]), None);
}

#[test]
fn i64_values() {
    let be = I64::<BigEndian>::bytes_encode(&68).unwrap();
    assert_eq!(be, vec![0u8, 0, 0, 0, 0, 0, 0, 68]);
    assert_eq!(I64::<BigEndian>::bytes_decode(&be), Some(68));
    let le = I64::<LittleEndian>::bytes_encode(&-1).unwrap();
    assert_eq!(le, vec![0xffu8; 8]);
    assert_eq!(I64::<LittleEndian>::bytes_decode(&le), Some(-1));
}

#[test]
fn i64_wrong_lengths() {
    assert_eq!(I64::<BigEndian>::bytes_decode(&[0u8; 7]), None);
    assert_eq!(I64::<BigEndian>::bytes_decode(&[0u8; 9]), None);
    assert_eq!(I64::<LittleEndian>::bytes_decode(&[0u8; 7]), None);
    assert_eq!(I64::<LittleEndian>::bytes_decode(&[0u8; 9]), None);
}

#[test]
fn big_endian_keys_sort_as_numbers() {
    let a = U32::<BigEndian>::bytes_encode(&255).unwrap();
    let b = U32::<BigEndian>::bytes_encode(&256).unwrap();
    assert!(a < b);
}

#[test]
fn str_round_trip() {
    let enc = Str::bytes_encode("héllo").unwrap();
    assert_eq!(enc, "héllo".as_bytes());
    assert_eq!(Str::bytes_decode(enc), Some("héllo"));
}

#[test]
fn str_rejects_invalid_utf8() {
    assert_eq!(Str::bytes_decode(&[0xffu8, 0x61]), None);
    assert_eq!(Str::bytes_decode(&[0xc3u8]), None);
}

#[test]
fn str_empty() {
    let empty: Vec<u8> = Vec::new();
    assert_eq!(Str::bytes_decode(&empty), Some(""));
}
