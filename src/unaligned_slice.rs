//! Zero-copy codec of slices whose elements have no alignment requirement
//! and no padding, so that any byte buffer of a fitting length is a valid
//! slice of them.

use vstd::prelude::*;

verus! {

/// Codec that views a slice of unaligned, padding-free elements as the
/// bytes that make it up, and a byte buffer as such a slice, without copying.
pub struct UnalignedSlice<T>(pub std::marker::PhantomData<T>);

/// The bytes of `s`, one per element.
pub open spec fn bytes_of_i8(s: Seq<i8>) -> Seq<u8> {
    s.map_values(|x: i8| x as u8)
}

/// The elements whose bytes are `b`, one per byte.
pub open spec fn i8s_of(b: Seq<u8>) -> Seq<i8> {
    b.map_values(|x: u8| x as i8)
}

/// Reading back the bytes of signed elements gives the same elements, and
/// encoding the elements read from bytes gives the same bytes.
pub proof fn lemma_round_trip_i8(x: Seq<i8>, b: Seq<u8>)
    ensures
        i8s_of(bytes_of_i8(x)) == x,
        bytes_of_i8(i8s_of(b)) == b,
{
    assert forall|i: int| 0 <= i < x.len() implies ((x[i] as u8) as i8) == x[i] by {
        let v = x[i];
        assert(((v as u8) as i8) == v) by (bit_vector);
    }
    assert forall|i: int| 0 <= i < b.len() implies ((b[i] as i8) as u8) == b[i] by {
        let v = b[i];
        assert(((v as i8) as u8) == v) by (bit_vector);
    }
    assert(i8s_of(bytes_of_i8(x)) =~= x);
    assert(bytes_of_i8(i8s_of(b)) =~= b);
}

/// Relies on zerocopy's `AsBytes::as_bytes` for `[u8]`: the same bytes.
#[verifier::external_body]
fn u8s_as_bytes(item: &[u8]) -> (r: &[u8])
    ensures
        r@ == item@,
{
    <[u8] as zerocopy::AsBytes>::as_bytes(item)
}

/// Relies on zerocopy's `LayoutVerified::new_slice_unaligned` and
/// `into_slice` for `[u8]`: every length is a multiple of one byte.
#[verifier::external_body]
fn u8s_from_bytes(bytes: &[u8]) -> (r: Option<&[u8]>)
    ensures
        r is Some && r->0@ == bytes@,
{
    zerocopy::LayoutVerified::<_, [u8]>::new_slice_unaligned(bytes)
        .map(zerocopy::LayoutVerified::into_slice)
}

/// Relies on zerocopy's `AsBytes::as_bytes` for `[i8]`: each element as the
/// byte of its two's complement form.
#[verifier::external_body]
fn i8s_as_bytes(item: &[i8]) -> (r: &[u8])
    ensures
        r@ == bytes_of_i8(item@),
{
    <[i8] as zerocopy::AsBytes>::as_bytes(item)
}

/// Relies on zerocopy's `LayoutVerified::new_slice_unaligned` and
/// `into_slice` for `[i8]`: each byte read as one element.
#[verifier::external_body]
fn i8s_from_bytes(bytes: &[u8]) -> (r: Option<&[i8]>)
    ensures
        r is Some && r->0@ == i8s_of(bytes@),
{
    zerocopy::LayoutVerified::<_, [i8]>::new_slice_unaligned(bytes)
        .map(zerocopy::LayoutVerified::into_slice)
}

impl UnalignedSlice<u8> {
    /// Encodes a byte slice as itself.
    pub fn bytes_encode(item: &[u8]) -> (r: Option<&[u8]>)
        ensures
            r is Some && r->0@ == item@,
    {
        Some(u8s_as_bytes(item))
    }

    /// Decodes any byte buffer as itself.
    pub fn bytes_decode(bytes: &[u8]) -> (r: Option<&[u8]>)
        ensures
            r is Some && r->0@ == bytes@,
    {
        u8s_from_bytes(bytes)
    }
}

impl UnalignedSlice<i8> {
    /// Encodes each element as its two's complement byte.
    pub fn bytes_encode(item: &[i8]) -> (r: Option<&[u8]>)
        ensures
            r is Some && r->0@ == bytes_of_i8(item@),
    {
        Some(i8s_as_bytes(item))
    }

    /// Decodes each byte as one element.
    pub fn bytes_decode(bytes: &[u8]) -> (r: Option<&[i8]>)
        ensures
            r is Some && r->0@ == i8s_of(bytes@),
    {
        i8s_from_bytes(bytes)
    }
}

/// The bytes of `s`: each element's bytes, in order.
pub open spec fn array_bytes<const N: usize>(s: Seq<[u8; N]>) -> Seq<u8> {
    s.map_values(|a: [u8; N]| a@).flatten()
}

/// The encoding of `n` elements of `N` bytes is `n * N` bytes long.
pub proof fn lemma_array_bytes_len<const N: usize>(s: Seq<[u8; N]>)
    ensures
        array_bytes(s).len() == s.len() * N,
    decreases s.len(),
{
    broadcast use vstd::array::group_array_axioms;

    if s.len() > 0 {
        let f = |a: [u8; N]| a@;
        assert(s.map_values(f).drop_first() =~= s.drop_first().map_values(f));
        assert(array_bytes(s) == s[0]@ + array_bytes(s.drop_first()));
        assert(s[0]@.len() == N);
        lemma_array_bytes_len(s.drop_first());
        let n = s.len() as int;
        assert(array_bytes(s.drop_first()).len() == (n - 1) * N);
        assert(array_bytes(s).len() == N + (n - 1) * N);
        assert((n - 1) * N + N == n * N) by (nonlinear_arith);
    } else {
        assert(s.map_values(|a: [u8; N]| a@).len() == 0);
        assert(array_bytes(s) =~= Seq::<u8>::empty());
    }
}

/// Two element sequences with the same encoding are equal.
pub proof fn lemma_array_bytes_injective<const N: usize>(x: Seq<[u8; N]>, y: Seq<[u8; N]>)
    requires
        N > 0,
        array_bytes(x) == array_bytes(y),
    ensures
        x == y,
    decreases x.len(),
{
    broadcast use vstd::array::group_array_axioms;

    lemma_array_bytes_len(x);
    lemma_array_bytes_len(y);
    assert(x.len() * N == y.len() * N);
    assert(x.len() == y.len()) by (nonlinear_arith)
        requires
            x.len() * N == y.len() * N,
            N > 0,
    ;
    if x.len() > 0 {
        let f = |a: [u8; N]| a@;
        assert(x.map_values(f).drop_first() =~= x.drop_first().map_values(f));
        assert(y.map_values(f).drop_first() =~= y.drop_first().map_values(f));
        let bx = array_bytes(x);
        assert(bx == x[0]@ + array_bytes(x.drop_first()));
        assert(bx == y[0]@ + array_bytes(y.drop_first()));
        assert(x[0]@ =~= bx.subrange(0, N as int));
        assert(y[0]@ =~= bx.subrange(0, N as int));
        assert(x[0] =~= y[0]);
        assert(array_bytes(x.drop_first()) =~= bx.subrange(N as int, bx.len() as int));
        assert(array_bytes(y.drop_first()) =~= bx.subrange(N as int, bx.len() as int));
        lemma_array_bytes_injective(x.drop_first(), y.drop_first());
        assert forall|i: int| 0 < i < x.len() implies x[i] == y[i] by {
            assert(x[i] == x.drop_first()[i - 1]);
            assert(y[i] == y.drop_first()[i - 1]);
        }
        assert(x =~= y);
    }
}

/// Relies on zerocopy's `AsBytes::as_bytes` for `[[u8; N]]`: the elements'
/// bytes laid end to end.
#[verifier::external_body]
fn arrays_as_bytes<const N: usize>(item: &[[u8; N]]) -> (r: &[u8])
    ensures
        r@ == array_bytes(item@),
{
    <[[u8; N]] as zerocopy::AsBytes>::as_bytes(item)
}

/// Relies on zerocopy's `LayoutVerified::new_slice_unaligned` and
/// `into_slice` for `[[u8; N]]`: `None` exactly when the length is not a
/// multiple of `N`, else the same bytes read as elements. It panics when `N`
/// is zero.
#[verifier::external_body]
fn arrays_from_bytes<const N: usize>(bytes: &[u8]) -> (r: Option<&[[u8; N]]>)
    requires
        N > 0,
    ensures
        r is Some <==> bytes@.len() % (N as nat) == 0,
        r is Some ==> array_bytes(r->0@) == bytes@,
{
    zerocopy::LayoutVerified::<_, [[u8; N]]>::new_slice_unaligned(bytes)
        .map(zerocopy::LayoutVerified::into_slice)
}

impl<const N: usize> UnalignedSlice<[u8; N]> {
    /// Encodes the elements as their bytes laid end to end.
    pub fn bytes_encode(item: &[[u8; N]]) -> (r: Option<&[u8]>)
        ensures
            r is Some && r->0@ == array_bytes(item@),
    {
        Some(arrays_as_bytes(item))
    }

    /// Decodes a buffer whose length is a multiple of `N` as the elements
    /// it holds; any other length is refused.
    pub fn bytes_decode(bytes: &[u8]) -> (r: Option<&[[u8; N]]>)
        requires
            N > 0,
        ensures
            r is Some <==> bytes@.len() % (N as nat) == 0,
            r is Some ==> array_bytes(r->0@) == bytes@,
    {
        arrays_from_bytes(bytes)
    }
}

/// Decoding what was encoded gives back the elements, whatever they are.
pub proof fn lemma_round_trip_arrays<const N: usize>(x: Seq<[u8; N]>, decoded: Seq<[u8; N]>)
    requires
        N > 0,
        array_bytes(decoded) == array_bytes(x),
    ensures
        array_bytes(x).len() % (N as nat) == 0,
        decoded == x,
{
    lemma_array_bytes_len(x);
    vstd::arithmetic::div_mod::lemma_mod_multiples_basic(x.len() as int, N as int);
    lemma_array_bytes_injective(decoded, x);
}

} // verus!
