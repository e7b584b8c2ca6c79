//! Codecs between plain values and the bytes the store keeps: the unit
//! value, raw bytes, UTF-8 text and fixed-width integers in a chosen byte
//! order. Decoding checks the length and shape of its input and refuses,
//! rather than misreads, anything else.

use vstd::prelude::*;
use vstd::utf8::{
    decode_utf8, encode_utf8, encode_utf8_decode_utf8, encode_utf8_valid_utf8, valid_utf8,
};

verus! {

/// Codec of the unit value: it is stored as no bytes at all.
pub struct Unit;

impl Unit {
    /// Encodes the unit value as the empty byte string.
    pub fn bytes_encode(_item: &()) -> (r: Option<Vec<u8>>)
        ensures
            r is Some && r->0@.len() == 0,
    {
        Some(Vec::new())
    }

    /// Decodes only the empty byte string.
    pub fn bytes_decode(bytes: &[u8]) -> (r: Option<()>)
        ensures
            r is Some <==> bytes@.len() == 0,
    {
        if bytes.len() == 0 {
            Some(())
        } else {
            None
        }
    }
}

/// Codec of raw bytes, stored as they are.
pub struct Bytes;

impl Bytes {
    /// Encodes a byte string as itself, without copying.
    pub fn bytes_encode(item: &[u8]) -> (r: Option<&[u8]>)
        ensures
            r is Some && r->0@ == item@,
    {
        Some(item)
    }

    /// Decodes any byte string as itself, without copying.
    pub fn bytes_decode(bytes: &[u8]) -> (r: Option<&[u8]>)
        ensures
            r is Some && r->0@ == bytes@,
    {
        Some(bytes)
    }
}

/// Most significant byte first.
pub struct BigEndian;

/// Least significant byte first.
pub struct LittleEndian;

/// Codec of a `u32` in four bytes, in the byte order `O`.
pub struct U32<O>(pub std::marker::PhantomData<O>);

/// The four bytes of `x`, most significant first.
pub open spec fn u32_be_bytes(x: u32) -> Seq<u8> {
    seq![(x >> 24u32) as u8, (x >> 16u32) as u8, (x >> 8u32) as u8, x as u8]
}

/// The four bytes of `x`, least significant first.
pub open spec fn u32_le_bytes(x: u32) -> Seq<u8> {
    u32_be_bytes(x).reverse()
}

/// Two `u32` with the same four bytes are equal.
pub proof fn lemma_u32_bytes_injective(x: u32, y: u32)
    requires
        u32_be_bytes(x) == u32_be_bytes(y),
    ensures
        x == y,
{
    assert(u32_be_bytes(x)[0] == u32_be_bytes(y)[0]);
    assert(u32_be_bytes(x)[1] == u32_be_bytes(y)[1]);
    assert(u32_be_bytes(x)[2] == u32_be_bytes(y)[2]);
    assert(u32_be_bytes(x)[3] == u32_be_bytes(y)[3]);
    assert(x == y) by (bit_vector)
        requires
            (x >> 24u32) as u8 == (y >> 24u32) as u8,
            (x >> 16u32) as u8 == (y >> 16u32) as u8,
            (x >> 8u32) as u8 == (y >> 8u32) as u8,
            x as u8 == y as u8,
    ;
}

/// The `u32` whose bytes, most significant first, are `b0 b1 b2 b3`.
fn u32_from_be(b0: u8, b1: u8, b2: u8, b3: u8) -> (r: u32)
    ensures
        u32_be_bytes(r) == seq![b0, b1, b2, b3],
{
    let r: u32 = ((b0 as u32) << 24u32) | ((b1 as u32) << 16u32) | ((b2 as u32) << 8u32) | (
    b3 as u32);
    assert((r >> 24u32) as u8 == b0 && (r >> 16u32) as u8 == b1 && (r >> 8u32) as u8 == b2
        && r as u8 == b3) by (bit_vector)
        requires
            r == ((b0 as u32) << 24u32) | ((b1 as u32) << 16u32) | ((b2 as u32) << 8u32) | (
            b3 as u32),
    ;
    assert(u32_be_bytes(r) =~= seq![b0, b1, b2, b3]);
    r
}

impl U32<BigEndian> {
    /// Encodes `item` in four bytes, most significant first.
    pub fn bytes_encode(item: &u32) -> (r: Option<Vec<u8>>)
        ensures
            r is Some && r->0@ == u32_be_bytes(*item),
    {
        let x = *item;
        let v = vec![(x >> 24u32) as u8, (x >> 16u32) as u8, (x >> 8u32) as u8, x as u8];
        assert(v@ =~= u32_be_bytes(x));
        Some(v)
    }

    /// Decodes exactly four bytes, most significant first.
    pub fn bytes_decode(bytes: &[u8]) -> (r: Option<u32>)
        ensures
            r is Some <==> bytes@.len() == 4,
            r is Some ==> u32_be_bytes(r->0) == bytes@,
    {
        if bytes.len() != 4 {
            return None;
        }
        let r = u32_from_be(bytes[0], bytes[1], bytes[2], bytes[3]);
        assert(bytes@ =~= seq![bytes@[0], bytes@[1], bytes@[2], bytes@[3]]);
        Some(r)
    }
}

impl U32<LittleEndian> {
    /// Encodes `item` in four bytes, least significant first.
    pub fn bytes_encode(item: &u32) -> (r: Option<Vec<u8>>)
        ensures
            r is Some && r->0@ == u32_le_bytes(*item),
    {
        let x = *item;
        let v = vec![x as u8, (x >> 8u32) as u8, (x >> 16u32) as u8, (x >> 24u32) as u8];
        assert(v@ =~= u32_le_bytes(x));
        Some(v)
    }

    /// Decodes exactly four bytes, least significant first.
    pub fn bytes_decode(bytes: &[u8]) -> (r: Option<u32>)
        ensures
            r is Some <==> bytes@.len() == 4,
            r is Some ==> u32_le_bytes(r->0) == bytes@,
    {
        if bytes.len() != 4 {
            return None;
        }
        let r = u32_from_be(bytes[3], bytes[2], bytes[1], bytes[0]);
        assert(u32_le_bytes(r) =~= bytes@);
        Some(r)
    }
}

/// Decoding the four bytes of `x`, in either order, gives back `x`: any
/// value whose bytes are those of `x` is `x`.
pub proof fn lemma_round_trip_u32(x: u32, decoded: u32)
    requires
        u32_be_bytes(decoded) == u32_be_bytes(x) || u32_le_bytes(decoded) == u32_le_bytes(x),
    ensures
        u32_be_bytes(x).len() == 4,
        u32_le_bytes(x).len() == 4,
        decoded == x,
{
    if u32_le_bytes(decoded) == u32_le_bytes(x) {
        assert(u32_be_bytes(decoded) =~= u32_le_bytes(decoded).reverse());
        assert(u32_be_bytes(x) =~= u32_le_bytes(x).reverse());
    }
    lemma_u32_bytes_injective(decoded, x);
}

/// Codec of a `u64` in eight bytes, in the byte order `O`.
pub struct U64<O>(pub std::marker::PhantomData<O>);

/// The eight bytes of `x`, most significant first.
pub open spec fn u64_be_bytes(x: u64) -> Seq<u8> {
    seq![(x >> 56u64) as u8, (x >> 48u64) as u8, (x >> 40u64) as u8, (x >> 32u64) as u8, (x >> 24u64) as u8, (x >> 16u64) as u8, (x >> 8u64) as u8, x as u8]
}

/// The eight bytes of `x`, least significant first.
pub open spec fn u64_le_bytes(x: u64) -> Seq<u8> {
    u64_be_bytes(x).reverse()
}

/// Two `u64` with the same eight bytes are equal.
pub proof fn lemma_u64_bytes_injective(x: u64, y: u64)
    requires
        u64_be_bytes(x) == u64_be_bytes(y),
    ensures
        x == y,
{
    assert(u64_be_bytes(x)[0] == u64_be_bytes(y)[0]);
    assert(u64_be_bytes(x)[1] == u64_be_bytes(y)[1]);
    assert(u64_be_bytes(x)[2] == u64_be_bytes(y)[2]);
    assert(u64_be_bytes(x)[3] == u64_be_bytes(y)[3]);
    assert(u64_be_bytes(x)[4] == u64_be_bytes(y)[4]);
    assert(u64_be_bytes(x)[5] == u64_be_bytes(y)[5]);
    assert(u64_be_bytes(x)[6] == u64_be_bytes(y)[6]);
    assert(u64_be_bytes(x)[7] == u64_be_bytes(y)[7]);
    assert(x == y) by (bit_vector)
        requires
            (x >> 56u64) as u8 == (y >> 56u64) as u8,
            (x >> 48u64) as u8 == (y >> 48u64) as u8,
            (x >> 40u64) as u8 == (y >> 40u64) as u8,
            (x >> 32u64) as u8 == (y >> 32u64) as u8,
            (x >> 24u64) as u8 == (y >> 24u64) as u8,
            (x >> 16u64) as u8 == (y >> 16u64) as u8,
            (x >> 8u64) as u8 == (y >> 8u64) as u8,
            x as u8 == y as u8,
    ;
}

/// The `u64` whose bytes, most significant first, are `b0` to `b7`.
fn u64_from_be(b0: u8, b1: u8, b2: u8, b3: u8, b4: u8, b5: u8, b6: u8, b7: u8) -> (r: u64)
    ensures
        u64_be_bytes(r) == seq![b0, b1, b2, b3, b4, b5, b6, b7],
{
    let r: u64 = ((b0 as u64) << 56u64) | ((b1 as u64) << 48u64) | ((b2 as u64) << 40u64) | ((b3 as u64) << 32u64) | ((b4 as u64) << 24u64) | ((b5 as u64) << 16u64) | ((b6 as u64) << 8u64) | (b7 as u64);
    assert((r >> 56u64) as u8 == b0 && (r >> 48u64) as u8 == b1 && (r >> 40u64) as u8 == b2 && (r >> 32u64) as u8 == b3 && (r >> 24u64) as u8 == b4 && (r >> 16u64) as u8 == b5 && (r >> 8u64) as u8 == b6 && r as u8 == b7) by (bit_vector)
        requires
            r == ((b0 as u64) << 56u64) | ((b1 as u64) << 48u64) | ((b2 as u64) << 40u64) | ((b3 as u64) << 32u64) | ((b4 as u64) << 24u64) | ((b5 as u64) << 16u64) | ((b6 as u64) << 8u64) | (b7 as u64),
    ;
    assert(u64_be_bytes(r) =~= seq![b0, b1, b2, b3, b4, b5, b6, b7]);
    r
}

impl U64<BigEndian> {
    /// Encodes `item` in eight bytes, most significant first.
    pub fn bytes_encode(item: &u64) -> (r: Option<Vec<u8>>)
        ensures
            r is Some && r->0@ == u64_be_bytes(*item),
    {
        let x = *item;
        let v = vec![(x >> 56u64) as u8, (x >> 48u64) as u8, (x >> 40u64) as u8, (x >> 32u64) as u8, (x >> 24u64) as u8, (x >> 16u64) as u8, (x >> 8u64) as u8, x as u8];
        assert(v@ =~= u64_be_bytes(x));
        Some(v)
    }

    /// Decodes exactly eight bytes, most significant first.
    pub fn bytes_decode(bytes: &[u8]) -> (r: Option<u64>)
        ensures
            r is Some <==> bytes@.len() == 8,
            r is Some ==> u64_be_bytes(r->0) == bytes@,
    {
        if bytes.len() != 8 {
            return None;
        }
        let r = u64_from_be(bytes[0], bytes[1], bytes[2], bytes[3], bytes[4], bytes[5], bytes[6], bytes[7]);
        assert(bytes@ =~= seq![bytes@[0], bytes@[1], bytes@[2], bytes@[3], bytes@[4], bytes@[5], bytes@[6], bytes@[7]]);
        Some(r)
    }
}

impl U64<LittleEndian> {
    /// Encodes `item` in eight bytes, least significant first.
    pub fn bytes_encode(item: &u64) -> (r: Option<Vec<u8>>)
        ensures
            r is Some && r->0@ == u64_le_bytes(*item),
    {
        let x = *item;
        let v = vec![x as u8, (x >> 8u64) as u8, (x >> 16u64) as u8, (x >> 24u64) as u8, (x >> 32u64) as u8, (x >> 40u64) as u8, (x >> 48u64) as u8, (x >> 56u64) as u8];
        assert(v@ =~= u64_le_bytes(x));
        Some(v)
    }

    /// Decodes exactly eight bytes, least significant first.
    pub fn bytes_decode(bytes: &[u8]) -> (r: Option<u64>)
        ensures
            r is Some <==> bytes@.len() == 8,
            r is Some ==> u64_le_bytes(r->0) == bytes@,
    {
        if bytes.len() != 8 {
            return None;
        }
        let r = u64_from_be(bytes[7], bytes[6], bytes[5], bytes[4], bytes[3], bytes[2], bytes[1], bytes[0]);
        assert(u64_le_bytes(r) =~= bytes@);
        Some(r)
    }
}

/// Decoding the eight bytes of `x`, in either order, gives back `x`: any
/// value whose bytes are those of `x` is `x`.
pub proof fn lemma_round_trip_u64(x: u64, decoded: u64)
    requires
        u64_be_bytes(decoded) == u64_be_bytes(x) || u64_le_bytes(decoded) == u64_le_bytes(x),
    ensures
        u64_be_bytes(x).len() == 8,
        u64_le_bytes(x).len() == 8,
        decoded == x,
{
    if u64_le_bytes(decoded) == u64_le_bytes(x) {
        assert(u64_be_bytes(decoded) =~= u64_le_bytes(decoded).reverse());
        assert(u64_be_bytes(x) =~= u64_le_bytes(x).reverse());
    }
    lemma_u64_bytes_injective(decoded, x);
}

/// Codec of an `i32` in 4 bytes of its two's complement form, in the byte
/// order `O`.
pub struct I32<O>(pub std::marker::PhantomData<O>);

/// The 4 bytes of `x`, most significant first.
pub open spec fn i32_be_bytes(x: i32) -> Seq<u8> {
    u32_be_bytes(x as u32)
}

/// The 4 bytes of `x`, least significant first.
pub open spec fn i32_le_bytes(x: i32) -> Seq<u8> {
    u32_le_bytes(x as u32)
}

/// The `i32` with the bits of `u`.
fn i32_of_bits(u: u32) -> (r: i32)
    ensures
        r as u32 == u,
{
    let r = u as i32;
    assert((u as i32) as u32 == u) by (bit_vector);
    r
}

impl I32<BigEndian> {
    /// Encodes `item` in 4 bytes, most significant first.
    pub fn bytes_encode(item: &i32) -> (r: Option<Vec<u8>>)
        ensures
            r is Some && r->0@ == i32_be_bytes(*item),
    {
        U32::<BigEndian>::bytes_encode(&(*item as u32))
    }

    /// Decodes exactly 4 bytes, most significant first.
    pub fn bytes_decode(bytes: &[u8]) -> (r: Option<i32>)
        ensures
            r is Some <==> bytes@.len() == 4,
            r is Some ==> i32_be_bytes(r->0) == bytes@,
    {
        match U32::<BigEndian>::bytes_decode(bytes) {
            Some(u) => Some(i32_of_bits(u)),
            None => None,
        }
    }
}

impl I32<LittleEndian> {
    /// Encodes `item` in 4 bytes, least significant first.
    pub fn bytes_encode(item: &i32) -> (r: Option<Vec<u8>>)
        ensures
            r is Some && r->0@ == i32_le_bytes(*item),
    {
        U32::<LittleEndian>::bytes_encode(&(*item as u32))
    }

    /// Decodes exactly 4 bytes, least significant first.
    pub fn bytes_decode(bytes: &[u8]) -> (r: Option<i32>)
        ensures
            r is Some <==> bytes@.len() == 4,
            r is Some ==> i32_le_bytes(r->0) == bytes@,
    {
        match U32::<LittleEndian>::bytes_decode(bytes) {
            Some(u) => Some(i32_of_bits(u)),
            None => None,
        }
    }
}

/// Decoding the 4 bytes of `x`, in either order, gives back `x`: any
/// value whose bytes are those of `x` is `x`.
pub proof fn lemma_round_trip_i32(x: i32, decoded: i32)
    requires
        i32_be_bytes(decoded) == i32_be_bytes(x) || i32_le_bytes(decoded) == i32_le_bytes(x),
    ensures
        i32_be_bytes(x).len() == 4,
        i32_le_bytes(x).len() == 4,
        decoded == x,
{
    lemma_round_trip_u32(x as u32, decoded as u32);
    let (a, b) = (x, decoded);
    assert(a == b) by (bit_vector)
        requires
            a as u32 == b as u32,
    ;
}

/// Codec of an `i64` in 8 bytes of its two's complement form, in the byte
/// order `O`.
pub struct I64<O>(pub std::marker::PhantomData<O>);

/// The 8 bytes of `x`, most significant first.
pub open spec fn i64_be_bytes(x: i64) -> Seq<u8> {
    u64_be_bytes(x as u64)
}

/// The 8 bytes of `x`, least significant first.
pub open spec fn i64_le_bytes(x: i64) -> Seq<u8> {
    u64_le_bytes(x as u64)
}

/// The `i64` with the bits of `u`.
fn i64_of_bits(u: u64) -> (r: i64)
    ensures
        r as u64 == u,
{
    let r = u as i64;
    assert((u as i64) as u64 == u) by (bit_vector);
    r
}

impl I64<BigEndian> {
    /// Encodes `item` in 8 bytes, most significant first.
    pub fn bytes_encode(item: &i64) -> (r: Option<Vec<u8>>)
        ensures
            r is Some && r->0@ == i64_be_bytes(*item),
    {
        U64::<BigEndian>::bytes_encode(&(*item as u64))
    }

    /// Decodes exactly 8 bytes, most significant first.
    pub fn bytes_decode(bytes: &[u8]) -> (r: Option<i64>)
        ensures
            r is Some <==> bytes@.len() == 8,
            r is Some ==> i64_be_bytes(r->0) == bytes@,
    {
        match U64::<BigEndian>::bytes_decode(bytes) {
            Some(u) => Some(i64_of_bits(u)),
            None => None,
        }
    }
}

impl I64<LittleEndian> {
    /// Encodes `item` in 8 bytes, least significant first.
    pub fn bytes_encode(item: &i64) -> (r: Option<Vec<u8>>)
        ensures
            r is Some && r->0@ == i64_le_bytes(*item),
    {
        U64::<LittleEndian>::bytes_encode(&(*item as u64))
    }

    /// Decodes exactly 8 bytes, least significant first.
    pub fn bytes_decode(bytes: &[u8]) -> (r: Option<i64>)
        ensures
            r is Some <==> bytes@.len() == 8,
            r is Some ==> i64_le_bytes(r->0) == bytes@,
    {
        match U64::<LittleEndian>::bytes_decode(bytes) {
            Some(u) => Some(i64_of_bits(u)),
            None => None,
        }
    }
}

/// Decoding the 8 bytes of `x`, in either order, gives back `x`: any
/// value whose bytes are those of `x` is `x`.
pub proof fn lemma_round_trip_i64(x: i64, decoded: i64)
    requires
        i64_be_bytes(decoded) == i64_be_bytes(x) || i64_le_bytes(decoded) == i64_le_bytes(x),
    ensures
        i64_be_bytes(x).len() == 8,
        i64_le_bytes(x).len() == 8,
        decoded == x,
{
    lemma_round_trip_u64(x as u64, decoded as u64);
    let (a, b) = (x, decoded);
    assert(a == b) by (bit_vector)
        requires
            a as u64 == b as u64,
    ;
}

/// Codec of UTF-8 text, stored as its bytes without copying.
pub struct Str;

/// Relies on `std::str::from_utf8`: it succeeds exactly on valid UTF-8 and
/// then views the same bytes as text.
#[verifier::external_body]
fn str_from_utf8(v: &[u8]) -> (r: Option<&str>)
    ensures
        r is Some <==> valid_utf8(v@),
        r is Some ==> encode_utf8(r->0@) == v@,
{
    std::str::from_utf8(v).ok()
}

impl Str {
    /// Encodes text as its UTF-8 bytes.
    pub fn bytes_encode(item: &str) -> (r: Option<&[u8]>)
        ensures
            r is Some && r->0@ == encode_utf8(item@),
    {
        Some(item.as_bytes())
    }

    /// Decodes valid UTF-8 as the text it spells; other bytes are refused.
    pub fn bytes_decode(bytes: &[u8]) -> (r: Option<&str>)
        ensures
            r is Some <==> valid_utf8(bytes@),
            r is Some ==> r->0@ == decode_utf8(bytes@),
    {
        let r = str_from_utf8(bytes);
        proof {
            if r is Some {
                encode_utf8_decode_utf8(r->0@);
            }
        }
        r
    }
}

/// The bytes of any text are valid UTF-8 and decode back to that text.
pub proof fn lemma_round_trip_str(s: Seq<char>)
    ensures
        valid_utf8(encode_utf8(s)),
        decode_utf8(encode_utf8(s)) == s,
{
    encode_utf8_valid_utf8(s);
    encode_utf8_decode_utf8(s);
}

} // verus!
