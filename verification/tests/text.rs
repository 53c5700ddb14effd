use eco_infra_aln_router::digest::compute_digest_hex;
use eco_infra_aln_router::text::{push_decimal, push_hex_lower, push_signed_decimal};

fn decimal(n: u64) -> String {
    let mut s = String::new();
    push_decimal(&mut s, n);
    s
}

fn signed(n: i64) -> String {
    let mut s = String::new();
    push_signed_decimal(&mut s, n);
    s
}

fn hex(bytes: &[u8]) -> String {
    let mut s = String::new();
    push_hex_lower(&mut s, bytes);
    s
}

#[test]
fn decimal_digits() {
    assert_eq!(decimal(0), "0");
    assert_eq!(decimal(7), "7");
    assert_eq!(decimal(10), "10");
    assert_eq!(decimal(1_234_567_890), "1234567890");
    assert_eq!(decimal(u64::MAX), "18446744073709551615");
}

#[test]
fn signed_decimal_digits() {
    assert_eq!(signed(0), "0");
    assert_eq!(signed(-1), "-1");
    assert_eq!(signed(50_000), "50000");
    assert_eq!(signed(i64::MAX), "9223372036854775807");
    assert_eq!(signed(i64::MIN), "-9223372036854775808");
    for n in [-1005i64, -10, -9, 9, 99, 100, 101] {
        assert_eq!(signed(n), n.to_string());
    }
}

#[test]
fn rendering_appends() {
    let mut s = "x=".to_string();
    push_signed_decimal(&mut s, -42);
    push_hex_lower(&mut s, &[0xab]);
    push_decimal(&mut s, 3);
    assert_eq!(s, "x=-42ab3");
}

#[test]
fn hex_digits() {
    assert_eq!(hex(&[]), "");
    assert_eq!(hex(&[0x00]), "00");
    assert_eq!(hex(&[0x0f, 0xf0, 0xff, 0x10, 0x9a]), "0ff0ff109a");
    let all: Vec<u8> = (0..=255).collect();
    let expected: String = all.iter().map(|b| format!("{:02x}", b)).collect();
    assert_eq!(hex(&all), expected);
}

#[test]
fn digest_of_known_texts() {
    assert_eq!(compute_digest_hex(""), "d41d8cd98f00b204e9800998ecf8427e");
    assert_eq!(compute_digest_hex("abc"), "900150983cd24fb0d6963f7d28e17f72");
    let alphabet = "abcdefghijklmnopqrstuvwxyz";
    assert_eq!(compute_digest_hex(alphabet), "c3fcd3d76192e4007dfb496cca67e13b");
    assert_eq!(compute_digest_hex(alphabet), format!("{:x}", md5::compute(alphabet)));
    let text = "grüße|€";
    assert_eq!(compute_digest_hex(text), format!("{:x}", md5::compute(text.as_bytes())));
}
