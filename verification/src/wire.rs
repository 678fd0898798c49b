//! Little-endian integers, four-byte alignment and the [`Payload`] trait that
//! every encodable part of a message implements.

use byteorder::{ByteOrder, LittleEndian, WriteBytesExt};
use vstd::prelude::*;
use vstd::slice::slice_subrange;

verus! {

/// `n` rounded up to the next multiple of four.
pub open spec fn align4(n: int) -> int {
    (n + 3) / 4 * 4
}

/// The two bytes of `v`, least significant first.
pub open spec fn le16(v: u16) -> Seq<u8> {
    seq![(v % 256) as u8, (v / 256) as u8]
}

/// The four bytes of `v`, least significant first.
pub open spec fn le32(v: u32) -> Seq<u8> {
    seq![
        (v % 256) as u8,
        (v / 0x100 % 256) as u8,
        (v / 0x1_0000 % 256) as u8,
        (v / 0x100_0000) as u8,
    ]
}

/// The eight bytes of `v`, least significant first.
pub open spec fn le64(v: u64) -> Seq<u8> {
    le32((v % 0x1_0000_0000) as u32) + le32((v / 0x1_0000_0000) as u32)
}

/// `n` zero bytes.
pub open spec fn zeros(n: nat) -> Seq<u8> {
    Seq::new(n, |i: int| 0u8)
}

/// The number whose little-endian bytes are `s[at]` and `s[at + 1]`.
pub open spec fn u16_at(s: Seq<u8>, at: int) -> u16 {
    (s[at] + 0x100 * s[at + 1]) as u16
}

/// The number whose little-endian bytes are `s[at] .. s[at + 3]`.
pub open spec fn u32_at(s: Seq<u8>, at: int) -> u32 {
    (s[at] + 0x100 * s[at + 1] + 0x1_0000 * s[at + 2] + 0x100_0000 * s[at + 3]) as u32
}

/// The number whose little-endian bytes are `s[at] .. s[at + 7]`.
pub open spec fn u64_at(s: Seq<u8>, at: int) -> u64 {
    (u32_at(s, at) + 0x1_0000_0000 * u32_at(s, at + 4)) as u64
}

/// Calls `byteorder::LittleEndian::read_u16`, which reads the first two bytes
/// of `buf` as a little-endian number and panics on a shorter slice.
#[verifier::external_body]
fn read_u16(buf: &[u8]) -> (v: u16)
    requires
        buf@.len() >= 2,
    ensures
        v == u16_at(buf@, 0),
{
    LittleEndian::read_u16(buf)
}

/// Calls `byteorder::LittleEndian::read_u32`, which reads the first four bytes
/// of `buf` as a little-endian number and panics on a shorter slice.
#[verifier::external_body]
fn read_u32(buf: &[u8]) -> (v: u32)
    requires
        buf@.len() >= 4,
    ensures
        v == u32_at(buf@, 0),
{
    LittleEndian::read_u32(buf)
}

/// Calls `byteorder::LittleEndian::read_u64`, which reads the first eight
/// bytes of `buf` as a little-endian number and panics on a shorter slice.
#[verifier::external_body]
fn read_u64(buf: &[u8]) -> (v: u64)
    requires
        buf@.len() >= 8,
    ensures
        v == u64_at(buf@, 0),
{
    LittleEndian::read_u64(buf)
}

/// Calls `byteorder::WriteBytesExt::write_u16` with `LittleEndian` on a
/// `Vec<u8>`, which appends the two bytes of `v`, least significant first.
/// Writing to a `Vec<u8>` never reports an error.
#[verifier::external_body]
pub(crate) fn put_u16(out: &mut Vec<u8>, v: u16)
    ensures
        final(out)@ == old(out)@ + le16(v),
{
    let _ = out.write_u16::<LittleEndian>(v);
}

/// Calls `byteorder::WriteBytesExt::write_u32` with `LittleEndian` on a
/// `Vec<u8>`, which appends the four bytes of `v`, least significant first.
/// Writing to a `Vec<u8>` never reports an error.
#[verifier::external_body]
pub(crate) fn put_u32(out: &mut Vec<u8>, v: u32)
    ensures
        final(out)@ == old(out)@ + le32(v),
{
    let _ = out.write_u32::<LittleEndian>(v);
}

/// Calls `byteorder::WriteBytesExt::write_u64` with `LittleEndian` on a
/// `Vec<u8>`, which appends the eight bytes of `v`, least significant first.
/// Writing to a `Vec<u8>` never reports an error.
#[verifier::external_body]
pub(crate) fn put_u64(out: &mut Vec<u8>, v: u64)
    ensures
        final(out)@ == old(out)@ + le64(v),
{
    let _ = out.write_u64::<LittleEndian>(v);
}

/// Reads the little-endian `u16` at offset `at` of `buf`.
pub fn get_u16(buf: &[u8], at: usize) -> (v: u16)
    requires
        at + 2 <= buf.len(),
    ensures
        v == u16_at(buf@, at as int),
{
    read_u16(slice_subrange(buf, at, at + 2))
}

/// Reads the little-endian `u32` at offset `at` of `buf`.
pub fn get_u32(buf: &[u8], at: usize) -> (v: u32)
    requires
        at + 4 <= buf.len(),
    ensures
        v == u32_at(buf@, at as int),
{
    read_u32(slice_subrange(buf, at, at + 4))
}

/// Reads the little-endian `u64` at offset `at` of `buf`.
pub fn get_u64(buf: &[u8], at: usize) -> (v: u64)
    requires
        at + 8 <= buf.len(),
    ensures
        v == u64_at(buf@, at as int),
{
    read_u64(slice_subrange(buf, at, at + 8))
}

/// Copies the `N` bytes at offset `at` of `buf`.
pub fn get_array<const N: usize>(buf: &[u8], at: usize) -> (bytes: [u8; N])
    requires
        at + N <= buf.len(),
    ensures
        bytes@ == buf@.subrange(at as int, at + N),
{
    let mut bytes: [u8; N] = [0u8; N];
    let mut i: usize = 0;
    while i < N
        invariant
            i <= N,
            at + N <= buf.len(),
            forall|j: int| 0 <= j < i ==> bytes@[j] == buf@[at + j],
        decreases N - i,
    {
        bytes[i] = buf[at + i];
        i = i + 1;
    }
    assert(bytes@ =~= buf@.subrange(at as int, at + N));
    bytes
}

/// Appends `bytes` to `out`.
pub fn put_bytes(out: &mut Vec<u8>, bytes: &[u8])
    ensures
        final(out)@ == old(out)@ + bytes@,
{
    out.extend_from_slice(bytes);
    assert(out@ =~= old(out)@ + bytes@);
}

/// Appends `count` zero bytes to `out`.
pub fn put_zeros(out: &mut Vec<u8>, count: usize)
    ensures
        final(out)@ == old(out)@ + zeros(count as nat),
{
    let mut done: usize = 0;
    while done < count
        invariant
            done <= count,
            out@ == old(out)@ + zeros(done as nat),
        decreases count - done,
    {
        out.push(0u8);
        done = done + 1;
        assert(out@ =~= old(out)@ + zeros(done as nat));
    }
}

/// `n` rounded up to the next multiple of four.
pub fn align4_of(n: usize) -> (r: usize)
    requires
        n + 3 <= usize::MAX,
    ensures
        r == align4(n as int),
        n <= r < n + 4,
        r % 4 == 0,
{
    (n + 3) / 4 * 4
}

/// A part of a message that has an encoding.
pub trait Payload {
    /// Whether the lengths recorded in the value agree with its encoding, and
    /// the encoding is short enough to be measured.
    spec fn wf(&self) -> bool;

    /// The bytes this value is encoded as.
    spec fn wire(&self) -> Seq<u8>;

    /// The length of the encoding.
    fn wire_len(&self) -> (n: usize)
        requires
            self.wf(),
        ensures
            n == self.wire().len(),
    ;

    /// Appends the encoding to `out`.
    fn put(&self, out: &mut Vec<u8>)
        requires
            self.wf(),
        ensures
            final(out)@ == old(out)@ + self.wire(),
    ;
}

impl Payload for () {
    open spec fn wf(&self) -> bool {
        true
    }

    open spec fn wire(&self) -> Seq<u8> {
        Seq::empty()
    }

    fn wire_len(&self) -> (n: usize) {
        0
    }

    fn put(&self, out: &mut Vec<u8>) {
        assert(out@ =~= old(out)@ + Seq::<u8>::empty());
    }
}

impl Payload for u32 {
    open spec fn wf(&self) -> bool {
        true
    }

    open spec fn wire(&self) -> Seq<u8> {
        le32(*self)
    }

    fn wire_len(&self) -> (n: usize) {
        4
    }

    fn put(&self, out: &mut Vec<u8>) {
        put_u32(out, *self);
    }
}

impl Payload for u64 {
    open spec fn wf(&self) -> bool {
        true
    }

    open spec fn wire(&self) -> Seq<u8> {
        le64(*self)
    }

    fn wire_len(&self) -> (n: usize) {
        8
    }

    fn put(&self, out: &mut Vec<u8>) {
        put_u64(out, *self);
    }
}

impl Payload for Vec<u8> {
    open spec fn wf(&self) -> bool {
        true
    }

    open spec fn wire(&self) -> Seq<u8> {
        self@
    }

    fn wire_len(&self) -> (n: usize) {
        self.len()
    }

    fn put(&self, out: &mut Vec<u8>) {
        put_bytes(out, self.as_slice());
    }
}

impl<const N: usize> Payload for [u8; N] {
    open spec fn wf(&self) -> bool {
        true
    }

    open spec fn wire(&self) -> Seq<u8> {
        self@
    }

    fn wire_len(&self) -> (n: usize) {
        N
    }

    fn put(&self, out: &mut Vec<u8>) {
        put_bytes(out, self.as_slice());
    }
}

/// The encoding of `value` as a buffer of its own.
pub fn encode<T: Payload>(value: &T) -> (bytes: Vec<u8>)
    requires
        value.wf(),
    ensures
        bytes@ == value.wire(),
{
    let mut out: Vec<u8> = Vec::new();
    value.put(&mut out);
    assert(out@ =~= value.wire());
    out
}

/// Reading back what was written gives the number that was written.
pub proof fn lemma_le16_round_trip(v: u16)
    ensures
        le16(v).len() == 2,
        u16_at(le16(v), 0) == v,
{
}

/// Reading back what was written gives the number that was written.
pub proof fn lemma_le32_round_trip(v: u32)
    ensures
        le32(v).len() == 4,
        u32_at(le32(v), 0) == v,
{
}

/// Reading back what was written gives the number that was written.
pub proof fn lemma_le64_round_trip(v: u64)
    ensures
        le64(v).len() == 8,
        u64_at(le64(v), 0) == v,
{
    let lo = (v % 0x1_0000_0000) as u32;
    let hi = (v / 0x1_0000_0000) as u32;
    lemma_le32_round_trip(lo);
    lemma_le32_round_trip(hi);
    assert(u32_at(le64(v), 0) == u32_at(le32(lo), 0));
    assert(u32_at(le64(v), 4) == u32_at(le32(hi), 0));
}

} // verus!
