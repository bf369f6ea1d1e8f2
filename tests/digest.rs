use md5_digest::hex::to_hex_string;
use md5_digest::md5::{compress_block, md5, md5_compute, md5_init};

#[test]
fn it_works() {
    md5_init();
    assert_eq!(md5(""), "d41d8cd98f00b204e9800998ecf8427e");
    assert_eq!(md5("a"), "0cc175b9c0f1b6a831c399e269772661");
    assert_eq!(md5("abc"), "900150983cd24fb0d6963f7d28e17f72");
    assert_eq!(md5("message digest"), "f96b697d7cb7938d525a2f31aaf161d0");
    assert_eq!(md5("abcdefghijklmnopqrstuvwxyz"), "c3fcd3d76192e4007dfb496cca67e13b");
    assert_eq!(
        md5("ABCDEFGHIJKLMNOPQRSTUVWXYZabcdefghijklmnopqrstuvwxyz0123456789"),
        "d174ab98d277d9f5a5611c2c9f419d9f"
    );
    assert_eq!(
        md5("12345678901234567890123456789012345678901234567890123456789012345678901234567890"),
        "57edf4a22be3c955ac49da2e2107b67a"
    );
}

fn repeated_a(n: usize) -> String {
    "a".repeat(n)
}

#[test]
fn boundary_lengths() {
    assert_eq!(md5(&repeated_a(55)), "ef1772b6dff9a122358552954ad0df65");
    assert_eq!(md5(&repeated_a(56)), "3b0c8ac703f828b04c6c197006d17218");
    assert_eq!(md5(&repeated_a(57)), "652b906d60af96844ebd21b674f35e93");
    assert_eq!(md5(&repeated_a(63)), "b06521f39153d618550606be297466d5");
    assert_eq!(md5(&repeated_a(64)), "014842d480b571495a4a0363793f7367");
    assert_eq!(md5(&repeated_a(65)), "c743a45e0d2e6a95cb859adae0248435");
}

#[test]
fn digest_is_lowercase_hex() {
    for s in ["", "a", "hello world", "\u{e9}t\u{e9}", &repeated_a(200)] {
        let d = md5(s);
        assert_eq!(d.len(), 32);
        assert!(d.chars().all(|c| c.is_ascii_digit() || ('a'..='f').contains(&c)));
    }
}

#[test]
fn digest_is_deterministic() {
    let s = "The quick brown fox jumps over the lazy dog";
    assert_eq!(md5(s), md5(s));
    assert_eq!(md5(s), "9e107d9d372bb6826bd81d3542a419d6");
}

#[test]
fn utf8_input_hashes_its_bytes() {
    assert_eq!(md5("h\u{e9}llo"), "be50e8478cf24ff3595bc7307fb91b50");
}

#[test]
fn raw_bytes_digest() {
    let d = md5_compute(&[0u8, 255, 128]);
    assert_eq!(to_hex_string(&d), "4fd64cb80c3f86e1e9d0f559af8b370f");
    let e = md5_compute(&[]);
    assert_eq!(
        e,
        vec![0xd4, 0x1d, 0x8c, 0xd9, 0x8f, 0x00, 0xb2, 0x04, 0xe9, 0x80, 0x09, 0x98, 0xec, 0xf8, 0x42, 0x7e]
    );
}

fn differing_bits(a: &[u8], b: &[u8]) -> u32 {
    a.iter().zip(b.iter()).map(|(x, y)| (x ^ y).count_ones()).sum()
}

#[test]
fn single_bit_change_flips_many_bits() {
    let a = md5_compute(&[0u8]);
    let b = md5_compute(&[1u8]);
    assert_eq!(differing_bits(&a, &b), 54);
    let c = md5_compute(b"abc");
    let d = md5_compute(b"abd");
    assert_eq!(differing_bits(&c, &d), 63);
}

#[test]
fn round_constants_match_sine() {
    let t = md5_init();
    assert_eq!(t.len(), 64);
    for i in 0..64 {
        let expected = ((1u64 << 32) as f64 * ((i + 1) as f64).sin().abs()) as u32;
        assert_eq!(t[i], expected);
    }
    assert_eq!(t[0], 0xd76aa478);
    assert_eq!(t[63], 0xeb86d391);
}

#[test]
fn one_block_of_the_empty_message() {
    let mut chunk = vec![0u32; 16];
    chunk[0] = 0x80;
    let table = md5_init();
    let st = compress_block((0x67452301, 0xefcdab89, 0x98badcfe, 0x10325476), &chunk, &table);
    assert_eq!(st, (0xd98c1dd4, 0x04b2008f, 0x980980e9, 0x7e42f8ec));
}

#[test]
fn hex_rendering() {
    assert_eq!(to_hex_string(&vec![]), "");
    assert_eq!(to_hex_string(&vec![0x00, 0x0f, 0xa5, 0xff, 0x10]), "000fa5ff10");
}
