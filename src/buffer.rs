//! The byte buffer of the `bytebuffer` crate, as the digest uses it: a byte
//! vector with a write cursor, a read cursor and a byte order.
use vstd::prelude::*;
use bytebuffer::ByteBuffer;

verus! {

#[verifier::external_type_specification]
#[verifier::external_body]
pub struct ExByteBuffer(ByteBuffer);

/// The bytes that a buffer holds.
pub uninterp spec fn buf_data(b: ByteBuffer) -> Seq<u8>;

/// Where the next write starts.
pub uninterp spec fn buf_wpos(b: ByteBuffer) -> nat;

/// Where the next read starts.
pub uninterp spec fn buf_rpos(b: ByteBuffer) -> nat;

/// Whether multi-byte numbers are written and read little-endian.
pub uninterp spec fn buf_little(b: ByteBuffer) -> bool;

/// Whether no partial byte is pending for bitwise reading or writing.
pub uninterp spec fn buf_bits_clear(b: ByteBuffer) -> bool;

/// A buffer whose cursors lie inside its bytes, with no partial byte pending.
pub open spec fn buf_ok(b: ByteBuffer) -> bool {
    buf_bits_clear(b) && buf_wpos(b) <= buf_data(b).len() && buf_rpos(b) <= buf_data(b).len()
}

/// `data` with `bytes` written at `pos`, grown where the write runs past its end.
pub open spec fn overwrite(data: Seq<u8>, pos: int, bytes: Seq<u8>) -> Seq<u8> {
    let n = if pos + bytes.len() > data.len() { pos + bytes.len() } else { data.len() as int };
    Seq::new(n as nat, |i: int| if pos <= i < pos + bytes.len() { bytes[i - pos] } else { data[i] })
}

/// The four bytes of `v`, least significant first.
pub open spec fn u32_le_bytes(v: u32) -> Seq<u8> {
    seq![(v & 0xff) as u8, ((v >> 8) & 0xff) as u8, ((v >> 16) & 0xff) as u8, ((v >> 24) & 0xff) as u8]
}

/// The eight bytes of `v`, least significant first.
pub open spec fn u64_le_bytes(v: u64) -> Seq<u8> {
    seq![
        (v & 0xff) as u8, ((v >> 8) & 0xff) as u8, ((v >> 16) & 0xff) as u8,
        ((v >> 24) & 0xff) as u8, ((v >> 32) & 0xff) as u8, ((v >> 40) & 0xff) as u8,
        ((v >> 48) & 0xff) as u8, ((v >> 56) & 0xff) as u8,
    ]
}

/// The 32-bit number whose little-endian bytes are `s[0..4]`.
pub open spec fn le_u32(s: Seq<u8>) -> u32 {
    (s[0] as u32) | ((s[1] as u32) << 8) | ((s[2] as u32) << 16) | ((s[3] as u32) << 24)
}

/// Relies on `ByteBuffer::new`: no bytes, both cursors at zero, big-endian,
/// no partial byte pending.
#[verifier::external_body]
pub(crate) fn buffer_new() -> (b: ByteBuffer)
    ensures
        buf_data(b) == Seq::<u8>::empty(),
        buf_wpos(b) == 0,
        buf_rpos(b) == 0,
        !buf_little(b),
        buf_bits_clear(b),
{
    ByteBuffer::new()
}

/// Relies on `ByteBuffer::set_endian`: only the byte order changes.
#[verifier::external_body]
pub(crate) fn set_little_endian(b: &mut ByteBuffer)
    ensures
        buf_data(*final(b)) == buf_data(*old(b)),
        buf_wpos(*final(b)) == buf_wpos(*old(b)),
        buf_rpos(*final(b)) == buf_rpos(*old(b)),
        buf_bits_clear(*final(b)) == buf_bits_clear(*old(b)),
        buf_little(*final(b)),
{
    b.set_endian(bytebuffer::Endian::LittleEndian)
}

/// Relies on `ByteBuffer::resize`: zero bytes are appended up to `size`
/// (it subtracts the current length from `size`, so it may not shrink).
#[verifier::external_body]
pub(crate) fn resize(b: &mut ByteBuffer, size: usize)
    requires
        size >= buf_data(*old(b)).len(),
    ensures
        buf_data(*final(b)) == buf_data(*old(b)) + Seq::new(
            (size - buf_data(*old(b)).len()) as nat,
            |i: int| 0u8,
        ),
        buf_wpos(*final(b)) == buf_wpos(*old(b)),
        buf_rpos(*final(b)) == buf_rpos(*old(b)),
        buf_little(*final(b)) == buf_little(*old(b)),
        buf_bits_clear(*final(b)) == buf_bits_clear(*old(b)),
{
    b.resize(size)
}

/// Relies on `ByteBuffer::write_bytes`: the bytes go at the write cursor,
/// the buffer grows where needed, and the cursor moves past them.
#[verifier::external_body]
pub(crate) fn write_bytes(b: &mut ByteBuffer, bytes: &[u8])
    requires
        buf_ok(*old(b)),
        buf_wpos(*old(b)) + bytes@.len() <= usize::MAX,
    ensures
        buf_data(*final(b)) == overwrite(buf_data(*old(b)), buf_wpos(*old(b)) as int, bytes@),
        buf_wpos(*final(b)) == buf_wpos(*old(b)) + bytes@.len(),
        buf_rpos(*final(b)) == buf_rpos(*old(b)),
        buf_little(*final(b)) == buf_little(*old(b)),
        buf_bits_clear(*final(b)),
{
    b.write_bytes(bytes)
}

/// Relies on `ByteBuffer::write_u8`: one byte written as `write_bytes` does.
#[verifier::external_body]
pub(crate) fn write_u8(b: &mut ByteBuffer, v: u8)
    requires
        buf_ok(*old(b)),
        buf_wpos(*old(b)) + 1 <= usize::MAX,
    ensures
        buf_data(*final(b)) == overwrite(buf_data(*old(b)), buf_wpos(*old(b)) as int, seq![v]),
        buf_wpos(*final(b)) == buf_wpos(*old(b)) + 1,
        buf_rpos(*final(b)) == buf_rpos(*old(b)),
        buf_little(*final(b)) == buf_little(*old(b)),
        buf_bits_clear(*final(b)),
{
    b.write_u8(v)
}

/// Relies on `ByteBuffer::write_u32`: in little-endian order, the four bytes
/// of `v` written as `write_bytes` does.
#[verifier::external_body]
pub(crate) fn write_u32(b: &mut ByteBuffer, v: u32)
    requires
        buf_ok(*old(b)),
        buf_little(*old(b)),
        buf_wpos(*old(b)) + 4 <= usize::MAX,
    ensures
        buf_data(*final(b)) == overwrite(buf_data(*old(b)), buf_wpos(*old(b)) as int, u32_le_bytes(v)),
        buf_wpos(*final(b)) == buf_wpos(*old(b)) + 4,
        buf_rpos(*final(b)) == buf_rpos(*old(b)),
        buf_little(*final(b)),
        buf_bits_clear(*final(b)),
{
    b.write_u32(v)
}

/// Relies on `ByteBuffer::write_u64`: in little-endian order, the eight bytes
/// of `v` written as `write_bytes` does.
#[verifier::external_body]
pub(crate) fn write_u64(b: &mut ByteBuffer, v: u64)
    requires
        buf_ok(*old(b)),
        buf_little(*old(b)),
        buf_wpos(*old(b)) + 8 <= usize::MAX,
    ensures
        buf_data(*final(b)) == overwrite(buf_data(*old(b)), buf_wpos(*old(b)) as int, u64_le_bytes(v)),
        buf_wpos(*final(b)) == buf_wpos(*old(b)) + 8,
        buf_rpos(*final(b)) == buf_rpos(*old(b)),
        buf_little(*final(b)),
        buf_bits_clear(*final(b)),
{
    b.write_u64(v)
}

/// Relies on `ByteBuffer::set_wpos`: the write cursor goes to `pos`, or to the
/// end of the bytes if `pos` lies past it.
#[verifier::external_body]
pub(crate) fn set_wpos(b: &mut ByteBuffer, pos: usize)
    ensures
        buf_data(*final(b)) == buf_data(*old(b)),
        buf_wpos(*final(b)) == if pos <= buf_data(*old(b)).len() { pos as nat } else { buf_data(*old(b)).len() },
        buf_rpos(*final(b)) == buf_rpos(*old(b)),
        buf_little(*final(b)) == buf_little(*old(b)),
        buf_bits_clear(*final(b)) == buf_bits_clear(*old(b)),
{
    b.set_wpos(pos)
}

/// Relies on `ByteBuffer::read_u32`: in little-endian order, the number in the
/// four bytes at the read cursor, which moves past them; an error, with the
/// cursor left where it was, where fewer than four bytes remain.
#[verifier::external_body]
pub(crate) fn read_u32(b: &mut ByteBuffer) -> (r: Option<u32>)
    requires
        buf_ok(*old(b)),
        buf_little(*old(b)),
    ensures
        buf_data(*final(b)) == buf_data(*old(b)),
        buf_wpos(*final(b)) == buf_wpos(*old(b)),
        buf_little(*final(b)),
        buf_bits_clear(*final(b)),
        r.is_some() <==> buf_rpos(*old(b)) + 4 <= buf_data(*old(b)).len(),
        r.is_some() ==> r.unwrap() == le_u32(
            buf_data(*old(b)).subrange(buf_rpos(*old(b)) as int, buf_rpos(*old(b)) + 4int),
        ) && buf_rpos(*final(b)) == buf_rpos(*old(b)) + 4,
        r.is_none() ==> buf_rpos(*final(b)) == buf_rpos(*old(b)),
{
    b.read_u32().ok()
}

/// Relies on `ByteBuffer::get_rpos`: the read cursor.
#[verifier::external_body]
pub(crate) fn get_rpos(b: &ByteBuffer) -> (r: usize)
    ensures
        r == buf_rpos(*b),
{
    b.get_rpos()
}

/// Relies on `ByteBuffer::len`: the number of bytes held.
#[verifier::external_body]
pub(crate) fn buffer_len(b: &ByteBuffer) -> (r: usize)
    ensures
        r == buf_data(*b).len(),
{
    b.len()
}

/// Relies on `ByteBuffer::into_vec`: the bytes held.
#[verifier::external_body]
pub(crate) fn into_vec(b: ByteBuffer) -> (r: Vec<u8>)
    ensures
        r@ == buf_data(b),
{
    b.into_vec()
}

} // verus!
