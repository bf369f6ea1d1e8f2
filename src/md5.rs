//! The digest itself: framing, the block compression and its 64 rounds, and
//! the final serialisation of the state, each with its mathematical model.
use vstd::prelude::*;
use vstd::string::StringSliceAdditionalSpecFns;
use bytebuffer::ByteBuffer;
use crate::hex::{hex_of, is_lower_hex, lemma_hex_digits, to_hex_string};
use crate::buffer::{
    buf_data, buf_little, buf_ok, buf_rpos, buffer_len, buffer_new,
    get_rpos, into_vec, le_u32, read_u32, resize, set_little_endian, set_wpos,
    u32_le_bytes, u64_le_bytes, write_bytes, write_u32, write_u64, write_u8,
};

verus! {

/// The running state (A, B, C, D).
pub type DigestState = (u32, u32, u32, u32);

/// The state every digest starts from.
pub open spec fn initial_state() -> DigestState {
    (0x67452301u32, 0xefcdab89u32, 0x98badcfeu32, 0x10325476u32)
}

/// The 64 round constants, entry i being the integer part of 2^32 * |sin(i + 1)|.
pub open spec fn round_constants() -> Seq<u32> {
    seq![
        0xd76aa478, 0xe8c7b756, 0x242070db, 0xc1bdceee,
        0xf57c0faf, 0x4787c62a, 0xa8304613, 0xfd469501,
        0x698098d8, 0x8b44f7af, 0xffff5bb1, 0x895cd7be,
        0x6b901122, 0xfd987193, 0xa679438e, 0x49b40821,
        0xf61e2562, 0xc040b340, 0x265e5a51, 0xe9b6c7aa,
        0xd62f105d, 0x02441453, 0xd8a1e681, 0xe7d3fbc8,
        0x21e1cde6, 0xc33707d6, 0xf4d50d87, 0x455a14ed,
        0xa9e3e905, 0xfcefa3f8, 0x676f02d9, 0x8d2a4c8a,
        0xfffa3942, 0x8771f681, 0x6d9d6122, 0xfde5380c,
        0xa4beea44, 0x4bdecfa9, 0xf6bb4b60, 0xbebfbc70,
        0x289b7ec6, 0xeaa127fa, 0xd4ef3085, 0x04881d05,
        0xd9d4d039, 0xe6db99e5, 0x1fa27cf8, 0xc4ac5665,
        0xf4292244, 0x432aff97, 0xab9423a7, 0xfc93a039,
        0x655b59c3, 0x8f0ccc92, 0xffeff47d, 0x85845dd1,
        0x6fa87e4f, 0xfe2ce6e0, 0xa3014314, 0x4e0811a1,
        0xf7537e82, 0xbd3af235, 0x2ad7d2bb, 0xeb86d391
    ]
}

/// The left rotation of round i: four amounts per group of sixteen rounds,
/// taken in turn.
pub open spec fn shift_amount(i: int) -> u32 {
    let r = i % 4;
    if i < 16 {
        if r == 0 { 7 } else if r == 1 { 12 } else if r == 2 { 17 } else { 22 }
    } else if i < 32 {
        if r == 0 { 5 } else if r == 1 { 9 } else if r == 2 { 14 } else { 20 }
    } else if i < 48 {
        if r == 0 { 4 } else if r == 1 { 11 } else if r == 2 { 16 } else { 23 }
    } else {
        if r == 0 { 6 } else if r == 1 { 10 } else if r == 2 { 15 } else { 21 }
    }
}

/// The nonlinear function of round i.
pub open spec fn mix(i: int, b: u32, c: u32, d: u32) -> u32 {
    if i < 16 {
        (b & c) | (!b & d)
    } else if i < 32 {
        (b & d) | (c & !d)
    } else if i < 48 {
        b ^ c ^ d
    } else {
        c ^ (b | !d)
    }
}

/// Which of the block's sixteen words round i reads.
pub open spec fn word_index(i: int) -> int {
    if i < 16 {
        i
    } else if i < 32 {
        (5 * i + 1) % 16
    } else if i < 48 {
        (3 * i + 5) % 16
    } else {
        (7 * i) % 16
    }
}

/// x rotated left by s bits, for 0 < s < 32.
pub open spec fn rotl(x: u32, s: u32) -> u32 {
    (x << s) | (x >> ((32 - s) as u32))
}

/// The state after round i on block words m.
pub open spec fn round(st: DigestState, i: int, m: Seq<u32>) -> DigestState {
    let (a, b, c, d) = st;
    let sum = a.wrapping_add(mix(i, b, c, d)).wrapping_add(m[word_index(i)]).wrapping_add(
        round_constants()[i],
    );
    (d, b.wrapping_add(rotl(sum, shift_amount(i))), b, c)
}

/// The state after the first n rounds on block words m.
pub open spec fn rounds(st: DigestState, m: Seq<u32>, n: nat) -> DigestState
    decreases n,
{
    if n == 0 {
        st
    } else {
        round(rounds(st, m, (n - 1) as nat), n - 1, m)
    }
}

/// One block folded into the state: 64 rounds, then each word added to the
/// one it came from.
pub open spec fn compress(st: DigestState, m: Seq<u32>) -> DigestState {
    let r = rounds(st, m, 64);
    (st.0.wrapping_add(r.0), st.1.wrapping_add(r.1), st.2.wrapping_add(r.2), st.3.wrapping_add(r.3))
}

/// The sixteen little-endian words of block k of p.
pub open spec fn block_words(p: Seq<u8>, k: int) -> Seq<u32> {
    Seq::new(16, |j: int| le_u32(p.subrange(64 * k + 4 * j, 64 * k + 4 * j + 4)))
}

/// The state after the first n blocks of p.
pub open spec fn digest_state(p: Seq<u8>, n: nat) -> DigestState
    decreases n,
{
    if n == 0 {
        initial_state()
    } else {
        compress(digest_state(p, (n - 1) as nat), block_words(p, n - 1))
    }
}

/// The framed length of an n-byte message: the next multiple of 64 that
/// leaves room for the marker byte and the 8-byte length.
pub open spec fn padded_len(n: nat) -> nat {
    ((n + 8) / 64 + 1) * 64
}

/// The message's length in bits, modulo 2^64.
pub open spec fn bit_len(m: Seq<u8>) -> u64 {
    ((m.len() * 8) % 0x1_0000_0000_0000_0000) as u64
}

/// The framed message: the bytes, the marker 0x80, zeros, and the bit length
/// in the last eight bytes, little-endian.
pub open spec fn frame(m: Seq<u8>) -> Seq<u8> {
    let len = padded_len(m.len());
    Seq::new(
        len,
        |i: int|
            if i < m.len() {
                m[i]
            } else if i == m.len() {
                0x80u8
            } else if i >= len - 8 {
                u64_le_bytes(bit_len(m))[i - (len - 8)]
            } else {
                0u8
            },
    )
}

/// The 16 digest bytes: the final state's words in order, each little-endian.
pub open spec fn digest_bytes(m: Seq<u8>) -> Seq<u8> {
    let p = frame(m);
    let s = digest_state(p, p.len() / 64);
    u32_le_bytes(s.0) + u32_le_bytes(s.1) + u32_le_bytes(s.2) + u32_le_bytes(s.3)
}

/// The round constants, as a table for the compression to consult.
pub fn md5_init() -> (t: Vec<u32>)
    ensures
        t@ == round_constants(),
{
    let t = vec![
        0xd76aa478, 0xe8c7b756, 0x242070db, 0xc1bdceee,
        0xf57c0faf, 0x4787c62a, 0xa8304613, 0xfd469501,
        0x698098d8, 0x8b44f7af, 0xffff5bb1, 0x895cd7be,
        0x6b901122, 0xfd987193, 0xa679438e, 0x49b40821,
        0xf61e2562, 0xc040b340, 0x265e5a51, 0xe9b6c7aa,
        0xd62f105d, 0x02441453, 0xd8a1e681, 0xe7d3fbc8,
        0x21e1cde6, 0xc33707d6, 0xf4d50d87, 0x455a14ed,
        0xa9e3e905, 0xfcefa3f8, 0x676f02d9, 0x8d2a4c8a,
        0xfffa3942, 0x8771f681, 0x6d9d6122, 0xfde5380c,
        0xa4beea44, 0x4bdecfa9, 0xf6bb4b60, 0xbebfbc70,
        0x289b7ec6, 0xeaa127fa, 0xd4ef3085, 0x04881d05,
        0xd9d4d039, 0xe6db99e5, 0x1fa27cf8, 0xc4ac5665,
        0xf4292244, 0x432aff97, 0xab9423a7, 0xfc93a039,
        0x655b59c3, 0x8f0ccc92, 0xffeff47d, 0x85845dd1,
        0x6fa87e4f, 0xfe2ce6e0, 0xa3014314, 0x4e0811a1,
        0xf7537e82, 0xbd3af235, 0x2ad7d2bb, 0xeb86d391
    ];
    assert(t@ =~= round_constants());
    t
}

/// The rotation amount of round i.
fn shift_for(i: usize) -> (s: u32)
    requires
        i < 64,
    ensures
        s == shift_amount(i as int),
        4 <= s <= 23,
{
    let r = i % 4;
    if i < 16 {
        if r == 0 { 7 } else if r == 1 { 12 } else if r == 2 { 17 } else { 22 }
    } else if i < 32 {
        if r == 0 { 5 } else if r == 1 { 9 } else if r == 2 { 14 } else { 20 }
    } else if i < 48 {
        if r == 0 { 4 } else if r == 1 { 11 } else if r == 2 { 16 } else { 23 }
    } else {
        if r == 0 { 6 } else if r == 1 { 10 } else if r == 2 { 15 } else { 21 }
    }
}

/// Folds one block, given as its sixteen words, into the state.
pub fn compress_block(st: DigestState, chunk: &Vec<u32>, table: &Vec<u32>) -> (r: DigestState)
    requires
        chunk@.len() == 16,
        table@ == round_constants(),
    ensures
        r == compress(st, chunk@),
{
    let (mut a, mut b, mut c, mut d) = st;
    let mut i: usize = 0;
    while i < 64
        invariant
            i <= 64,
            chunk@.len() == 16,
            table@ == round_constants(),
            (a, b, c, d) == rounds(st, chunk@, i as nat),
        decreases 64 - i,
    {
        let f: u32;
        let k: usize;
        if i < 16 {
            f = (b & c) | (!b & d);
            k = i;
        } else if i < 32 {
            f = (b & d) | (c & !d);
            k = (5 * i + 1) % 16;
        } else if i < 48 {
            f = b ^ c ^ d;
            k = (3 * i + 5) % 16;
        } else {
            f = c ^ (b | !d);
            k = (7 * i) % 16;
        }
        let sum = a.wrapping_add(f).wrapping_add(chunk[k]).wrapping_add(table[i]);
        let s = shift_for(i);
        let tmp = b.wrapping_add((sum << s) | (sum >> (32 - s)));
        a = d;
        d = c;
        c = b;
        b = tmp;
        i += 1;
    }
    (st.0.wrapping_add(a), st.1.wrapping_add(b), st.2.wrapping_add(c), st.3.wrapping_add(d))
}

/// Frames a message into a buffer set to little-endian order, with its read
/// cursor at the start.
fn frame_message(message: &[u8]) -> (p: ByteBuffer)
    requires
        message@.len() + 72 <= usize::MAX,
    ensures
        buf_data(p) == frame(message@),
        buf_rpos(p) == 0,
        buf_little(p),
        buf_ok(p),
{
    let n = message.len();
    let len = ((n + 8) / 64 + 1) * 64;
    assert(len == padded_len(n as nat) && n + 9 <= len && len <= n + 72) by (nonlinear_arith)
        requires len == ((n + 8) / 64 + 1) * 64;
    let mut p = buffer_new();
    set_little_endian(&mut p);
    resize(&mut p, len);
    write_bytes(&mut p, message);
    write_u8(&mut p, 0x80);
    set_wpos(&mut p, len - 8);
    let bits = (n as u64).wrapping_mul(8);
    write_u64(&mut p, bits);
    assert(bits == bit_len(message@));
    assert(buf_data(p) =~= frame(message@));
    p
}

/// The 16 raw digest bytes of a message.
pub fn md5_compute(message: &[u8]) -> (r: Vec<u8>)
    requires
        message@.len() + 72 <= usize::MAX,
    ensures
        r@ == digest_bytes(message@),
{
    let table = md5_init();
    let mut padded = frame_message(message);
    let cap = buffer_len(&padded);
    let ghost fr = frame(message@);
    assert(cap % 64 == 0);
    let mut st: DigestState = (0x67452301, 0xefcdab89, 0x98badcfe, 0x10325476);
    while get_rpos(&padded) < cap
        invariant
            buf_data(padded) == fr,
            cap == fr.len(),
            cap % 64 == 0,
            buf_ok(padded),
            buf_little(padded),
            buf_rpos(padded) % 64 == 0,
            table@ == round_constants(),
            st == digest_state(fr, buf_rpos(padded) / 64),
        decreases cap - buf_rpos(padded),
    {
        let ghost blk = buf_rpos(padded) / 64;
        let mut chunk: Vec<u32> = Vec::new();
        let mut j: usize = 0;
        while j < 16
            invariant
                j <= 16,
                buf_data(padded) == fr,
                cap == fr.len(),
                buf_ok(padded),
                buf_little(padded),
                buf_rpos(padded) == 64 * blk + 4 * j,
                64 * blk + 64 <= cap,
                chunk@ == block_words(fr, blk as int).take(j as int),
            decreases 16 - j,
        {
            let w = read_u32(&mut padded);
            chunk.push(w.unwrap());
            j += 1;
            assert(chunk@ =~= block_words(fr, blk as int).take(j as int));
        }
        assert(chunk@ =~= block_words(fr, blk as int));
        st = compress_block(st, &chunk, &table);
        assert(buf_rpos(padded) / 64 == blk + 1);
    }
    let mut out = buffer_new();
    set_little_endian(&mut out);
    write_u32(&mut out, st.0);
    write_u32(&mut out, st.1);
    write_u32(&mut out, st.2);
    write_u32(&mut out, st.3);
    let r = into_vec(out);
    assert(r@ =~= digest_bytes(message@));
    r
}

/// The digest of m as 32 lowercase hexadecimal digits.
pub open spec fn md5_hex(m: Seq<u8>) -> Seq<char> {
    hex_of(digest_bytes(m))
}

/// The MD5 digest of the UTF-8 bytes of `src`, in lowercase hexadecimal.
pub fn md5(src: &str) -> (r: String)
    requires
        src.spec_bytes().len() + 72 <= usize::MAX,
    ensures
        r@ == md5_hex(src.spec_bytes()),
{
    let dst_vec = md5_compute(src.as_bytes());
    to_hex_string(&dst_vec)
}

/// Every digest is 32 characters long, each one of `0-9` or `a-f`.
pub proof fn lemma_md5_is_hex(m: Seq<u8>)
    ensures
        md5_hex(m).len() == 32,
        forall|i: int| 0 <= i < 32 ==> is_lower_hex(#[trigger] md5_hex(m)[i]),
{
    lemma_hex_digits(digest_bytes(m));
}

/// Equal inputs give equal digests: the digest depends on the bytes alone.
pub proof fn lemma_md5_deterministic(m1: Seq<u8>, m2: Seq<u8>)
    requires
        m1 == m2,
    ensures
        md5_hex(m1) == md5_hex(m2),
        digest_bytes(m1) == digest_bytes(m2),
{
}

/// The framed message is a whole number of blocks, starts with the message,
/// follows it with the marker byte, and ends with the bit length, for every
/// message length.
pub proof fn lemma_frame_layout(m: Seq<u8>)
    ensures
        frame(m).len() % 64 == 0,
        m.len() + 9 <= frame(m).len() <= m.len() + 72,
        frame(m).subrange(0, m.len() as int) == m,
        frame(m)[m.len() as int] == 0x80u8,
        frame(m).subrange(frame(m).len() - 8, frame(m).len() as int) == u64_le_bytes(bit_len(m)),
{
    let n = m.len();
    let len = padded_len(n);
    assert(len % 64 == 0 && n + 9 <= len && len <= n + 72) by (nonlinear_arith)
        requires len == ((n + 8) / 64 + 1) * 64;
    assert(frame(m).subrange(0, n as int) =~= m);
    assert(frame(m).subrange(len - 8, len as int) =~= u64_le_bytes(bit_len(m)));
}

} // verus!
