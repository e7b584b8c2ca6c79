use heed_codec::UnalignedSlice;

#[test]
fn bytes_round_trip() {
    let data: Vec<u8> = vec![0, 1, 2, 255];
    let enc = UnalignedSlice::<u8>::bytes_encode(&data).unwrap();
    assert_eq!(enc, &[0u8, 1, 2, 255][..]);
    let dec = UnalignedSlice::<u8>::bytes_decode(enc).unwrap();
    assert_eq!(dec, &data[..]);
}

#[test]
fn bytes_decode_empty() {
    let empty: Vec<u8> = Vec::new();
    assert_eq!(UnalignedSlice::<u8>::bytes_decode(&empty), Some(&[][..]));
}

#[test]
fn signed_bytes_encode_twos_complement() {
    let data: Vec<i8> = vec![-1, 0, 127, -128];
    let enc = UnalignedSlice::<i8>::bytes_encode(&data).unwrap();
    assert_eq!(enc, &[255u8, 0, 127, 128][..]);
    let dec = UnalignedSlice::<i8>::bytes_decode(enc).unwrap();
    assert_eq!(dec, &data[..]);
}

#[test]
fn signed_bytes_decode() {
    let raw: Vec<u8> = vec![200, 5];
    assert_eq!(UnalignedSlice::<i8>::bytes_decode(&raw), Some(&[-56i8, 5][..]));
}

#[test]
fn arrays_encode_end_to_end() {
    let data: Vec<[u8; 2]> = vec![[1, 2], [3, 4], [5, 6]];
    let enc = UnalignedSlice::<[u8; 2]>::bytes_encode(&data).unwrap();
    assert_eq!(enc, &[1u8, 2, 3, 4, 5, 6][..]);
}

#[test]
fn arrays_round_trip() {
    let data: Vec<[u8; 4]> = vec![[9, 8, 7, 6], [0, 0, 0, 1]];
    let enc = UnalignedSlice::<[u8; 4]>::bytes_encode(&data).unwrap();
    let dec = UnalignedSlice::<[u8; 4]>::bytes_decode(enc).unwrap();
    assert_eq!(dec, &data[..]);
}

#[test]
fn arrays_decode_exact_multiple() {
    let raw: Vec<u8> = vec![1, 2, 3, 4];
    let dec = UnalignedSlice::<[u8; 2]>::bytes_decode(&raw).unwrap();
    assert_eq!(dec, &[[1u8, 2], [3, 4]][..]);
}

#[test]
fn arrays_decode_one_byte_short() {
    let raw: Vec<u8> = vec![1, 2, 3];
    assert_eq!(UnalignedSlice::<[u8; 4]>::bytes_decode(&raw), None);
}

#[test]
fn arrays_decode_one_byte_long() {
    let raw: Vec<u8> = vec![1, 2, 3, 4, 5];
    assert_eq!(UnalignedSlice::<[u8; 4]>::bytes_decode(&raw), None);
}

#[test]
fn arrays_decode_empty() {
    let raw: Vec<u8> = Vec::new();
    let dec = UnalignedSlice::<[u8; 3]>::bytes_decode(&raw).unwrap();
    assert_eq!(dec.len(), 0);
}
