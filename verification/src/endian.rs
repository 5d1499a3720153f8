use vstd::prelude::*;
use byteorder::{BigEndian, ByteOrder};
use vstd::slice::slice_subrange;

verus! {

/// The 16-bit value whose big-endian image starts at `at`.
pub open spec fn be_u16(bytes: Seq<u8>, at: int) -> u16 {
    ((bytes[at] as u16) << 8) | (bytes[at + 1] as u16)
}

/// The 32-bit value whose big-endian image starts at `at`.
pub open spec fn be_u32(bytes: Seq<u8>, at: int) -> u32 {
    ((bytes[at] as u32) << 24) | ((bytes[at + 1] as u32) << 16) | ((bytes[at + 2] as u32) << 8) | (bytes[at + 3] as u32)
}

/// The 64-bit value whose big-endian image starts at `at`.
pub open spec fn be_u64(bytes: Seq<u8>, at: int) -> u64 {
    ((be_u32(bytes, at) as u64) << 32) | (be_u32(bytes, at + 4) as u64)
}

/// The big-endian image of a 16-bit value.
pub open spec fn be_image_u16(n: u16) -> Seq<u8> {
    seq![(n >> 8) as u8, (n & 0xFF) as u8]
}

/// The big-endian image of a 32-bit value.
pub open spec fn be_image_u32(n: u32) -> Seq<u8> {
    seq![(n >> 24) as u8, ((n >> 16) & 0xFF) as u8, ((n >> 8) & 0xFF) as u8, (n & 0xFF) as u8]
}

/// The big-endian image of a 64-bit value.
pub open spec fn be_image_u64(n: u64) -> Seq<u8> {
    be_image_u32((n >> 32) as u32) + be_image_u32((n & 0xFFFF_FFFF) as u32)
}

/// The bytes `mem` with `image` laid over them from `at` on.
pub open spec fn overlaid(mem: Seq<u8>, at: int, image: Seq<u8>) -> Seq<u8> {
    Seq::new(mem.len(), |i: int| if at <= i < at + image.len() { image[i - at] } else { mem[i] })
}

/// A 16-bit value is read back from its big-endian image.
pub proof fn lemma_u16_round_trip(mem: Seq<u8>, at: int, n: u16)
    requires
        0 <= at,
        at + 2 <= mem.len(),
    ensures
        be_u16(overlaid(mem, at, be_image_u16(n)), at) == n,
{
    let high: u8 = (n >> 8) as u8;
    let low: u8 = (n & 0xFF) as u8;
    assert(overlaid(mem, at, be_image_u16(n))[at] == high);
    assert(overlaid(mem, at, be_image_u16(n))[at + 1] == low);
    assert((((n >> 8) as u8 as u16) << 8) | ((n & 0xFF) as u8 as u16) == n) by (bit_vector);
}

/// A 32-bit value is read back from its big-endian image.
pub proof fn lemma_u32_round_trip(mem: Seq<u8>, at: int, n: u32)
    requires
        0 <= at,
        at + 4 <= mem.len(),
    ensures
        be_u32(overlaid(mem, at, be_image_u32(n)), at) == n,
{
    let written = overlaid(mem, at, be_image_u32(n));
    assert(written[at] == (n >> 24) as u8);
    assert(written[at + 1] == ((n >> 16) & 0xFF) as u8);
    assert(written[at + 2] == ((n >> 8) & 0xFF) as u8);
    assert(written[at + 3] == (n & 0xFF) as u8);
    assert((((n >> 24) as u8 as u32) << 24) | ((((n >> 16) & 0xFF) as u8 as u32) << 16) | ((((n >> 8) & 0xFF) as u8 as u32) << 8) | ((n
        & 0xFF) as u8 as u32) == n) by (bit_vector);
}

/// A write of an image leaves every byte outside the image as it was.
pub proof fn lemma_overlaid_elsewhere(mem: Seq<u8>, at: int, image: Seq<u8>, i: int)
    requires
        0 <= i < mem.len(),
        i < at || at + image.len() <= i,
    ensures
        overlaid(mem, at, image)[i] == mem[i],
        overlaid(mem, at, image).len() == mem.len(),
{
}

/// `byteorder::BigEndian::read_u16`: the value whose big-endian image the
/// first two bytes of `buf` are.
#[verifier::external_body]
fn byteorder_read_u16(buf: &[u8]) -> (r: u16)
    requires
        buf@.len() >= 2,
    ensures
        r == be_u16(buf@, 0),
{
    BigEndian::read_u16(buf)
}

/// `byteorder::BigEndian::read_u32`: the value whose big-endian image the
/// first four bytes of `buf` are.
#[verifier::external_body]
fn byteorder_read_u32(buf: &[u8]) -> (r: u32)
    requires
        buf@.len() >= 4,
    ensures
        r == be_u32(buf@, 0),
{
    BigEndian::read_u32(buf)
}

/// `byteorder::BigEndian::read_u64`: the value whose big-endian image the
/// first eight bytes of `buf` are.
#[verifier::external_body]
fn byteorder_read_u64(buf: &[u8]) -> (r: u64)
    requires
        buf@.len() >= 8,
    ensures
        r == be_u64(buf@, 0),
{
    BigEndian::read_u64(buf)
}

/// `byteorder::BigEndian::write_u16`: the first two bytes of `buf` become
/// the big-endian image of `n`, and no other byte changes.
#[verifier::external_body]
fn byteorder_write_u16(buf: &mut [u8], n: u16)
    requires
        old(buf)@.len() >= 2,
    ensures
        final(buf)@ == overlaid(old(buf)@, 0, be_image_u16(n)),
{
    BigEndian::write_u16(buf, n)
}

/// `byteorder::BigEndian::write_u32`: the first four bytes of `buf` become
/// the big-endian image of `n`, and no other byte changes.
#[verifier::external_body]
fn byteorder_write_u32(buf: &mut [u8], n: u32)
    requires
        old(buf)@.len() >= 4,
    ensures
        final(buf)@ == overlaid(old(buf)@, 0, be_image_u32(n)),
{
    BigEndian::write_u32(buf, n)
}

/// `byteorder::BigEndian::write_u64`: the first eight bytes of `buf` become
/// the big-endian image of `n`, and no other byte changes.
#[verifier::external_body]
fn byteorder_write_u64(buf: &mut [u8], n: u64)
    requires
        old(buf)@.len() >= 8,
    ensures
        final(buf)@ == overlaid(old(buf)@, 0, be_image_u64(n)),
{
    BigEndian::write_u64(buf, n)
}

/// Reads the big-endian 16-bit value at `at`.
pub fn read_be_u16(buf: &[u8], at: usize) -> (r: u16)
    requires
        at + 2 <= buf@.len(),
    ensures
        r == be_u16(buf@, at as int),
{
    byteorder_read_u16(slice_subrange(buf, at, buf.len()))
}

/// Reads the big-endian 32-bit value at `at`.
pub fn read_be_u32(buf: &[u8], at: usize) -> (r: u32)
    requires
        at + 4 <= buf@.len(),
    ensures
        r == be_u32(buf@, at as int),
{
    byteorder_read_u32(slice_subrange(buf, at, buf.len()))
}

/// Reads the big-endian 64-bit value at `at`.
pub fn read_be_u64(buf: &[u8], at: usize) -> (r: u64)
    requires
        at + 8 <= buf@.len(),
    ensures
        r == be_u64(buf@, at as int),
{
    byteorder_read_u64(slice_subrange(buf, at, buf.len()))
}

/// Writes the big-endian image of `n` at `at`.
pub fn write_be_u16(buf: &mut Vec<u8>, at: usize, n: u16)
    requires
        at + 2 <= old(buf)@.len(),
    ensures
        final(buf)@ == overlaid(old(buf)@, at as int, be_image_u16(n)),
{
    let whole: &mut [u8] = buf.as_mut_slice();
    let (head, rest) = whole.split_at_mut(at);
    byteorder_write_u16(rest, n);
    assert(buf@ =~= overlaid(old(buf)@, at as int, be_image_u16(n)));
}

/// Writes the big-endian image of `n` at `at`.
pub fn write_be_u32(buf: &mut Vec<u8>, at: usize, n: u32)
    requires
        at + 4 <= old(buf)@.len(),
    ensures
        final(buf)@ == overlaid(old(buf)@, at as int, be_image_u32(n)),
{
    let whole: &mut [u8] = buf.as_mut_slice();
    let (head, rest) = whole.split_at_mut(at);
    byteorder_write_u32(rest, n);
    assert(buf@ =~= overlaid(old(buf)@, at as int, be_image_u32(n)));
}

/// Writes the big-endian image of `n` at `at`.
pub fn write_be_u64(buf: &mut Vec<u8>, at: usize, n: u64)
    requires
        at + 8 <= old(buf)@.len(),
    ensures
        final(buf)@ == overlaid(old(buf)@, at as int, be_image_u64(n)),
{
    let whole: &mut [u8] = buf.as_mut_slice();
    let (head, rest) = whole.split_at_mut(at);
    byteorder_write_u64(rest, n);
    assert(buf@ =~= overlaid(old(buf)@, at as int, be_image_u64(n)));
}

} // verus!
