use base64::Engine;
use frakt::auth::{base64_encode, Auth};

#[test]
fn test_basic_auth() {
    let auth = Auth::basic("user", "pass");
    assert_eq!(auth.to_header_value(), "Basic dXNlcjpwYXNz");
}

#[test]
fn test_bearer_auth() {
    let auth = Auth::bearer("token123");
    assert_eq!(auth.to_header_value(), "Bearer token123");
}

#[test]
fn test_custom_auth() {
    let auth = Auth::custom("ApiKey", "secret123");
    assert_eq!(auth.to_header_value(), "ApiKey secret123");
}

#[test]
fn test_base64_encode() {
    assert_eq!(base64_encode(b"hello"), "aGVsbG8=");
    assert_eq!(base64_encode(b"user:pass"), "dXNlcjpwYXNz");
    assert_eq!(base64_encode(b"test"), "dGVzdA==");
}

#[test]
fn base64_edge_lengths() {
    assert_eq!(base64_encode(b""), "");
    assert_eq!(base64_encode(b"f"), "Zg==");
    assert_eq!(base64_encode(b"fo"), "Zm8=");
    assert_eq!(base64_encode(b"foo"), "Zm9v");
    assert_eq!(base64_encode(b"foobar"), "Zm9vYmFy");
    assert_eq!(base64_encode(&[0xff, 0xfe, 0xfd]), "//79");
}

#[test]
fn base64_agrees_with_base64_crate() {
    for n in 0..40u8 {
        let data: Vec<u8> = (0..n).map(|i| i.wrapping_mul(37).wrapping_add(n)).collect();
        assert_eq!(base64_encode(&data), base64::engine::general_purpose::STANDARD.encode(&data));
    }
}

#[test]
fn base64_length_law_on_values() {
    for n in 0..20usize {
        let data = vec![7u8; n];
        assert_eq!(base64_encode(&data).len(), 4 * ((n + 2) / 3));
    }
}

#[test]
fn base64_append_law_on_values() {
    let a = b"abcdef";
    let b = b"xy";
    let mut ab = a.to_vec();
    ab.extend_from_slice(b);
    assert_eq!(base64_encode(&ab), format!("{}{}", base64_encode(a), base64_encode(b)));
}

#[test]
fn basic_auth_utf8_credentials() {
    let auth = Auth::basic("jöe", "pä");
    assert_eq!(auth.to_header_value(), format!("Basic {}", base64_encode("jöe:pä".as_bytes())));
}

#[test]
fn auth_display_strings() {
    assert_eq!(Auth::basic("alice", "secret").to_display_string(), "Basic authentication for user: alice");
    assert_eq!(Auth::bearer("t").to_display_string(), "Bearer token authentication");
    assert_eq!(Auth::custom("Digest", "x").to_display_string(), "Custom Digest authentication");
}

#[test]
fn base64_padding_only_at_the_end() {
    let input: Vec<u8> = vec![0xff, 0x00, 0x7f, 0x80, 0x01, 0xfe, 0x3e];
    for n in 0..input.len() {
        let r = base64_encode(&input[..n]);
        let pad = (3 - n % 3) % 3;
        assert_eq!(r.len(), 4 * ((n + 2) / 3));
        assert!(r.ends_with(&"=".repeat(pad)));
        assert_eq!(r.matches('=').count(), pad);
    }
}

#[test]
fn base64_decodes_back_to_input() {
    let input: Vec<u8> = (0u8..=255).collect();
    for n in [0usize, 1, 2, 3, 4, 5, 100, 256] {
        let encoded = base64_encode(&input[..n]);
        let decoded = base64::engine::general_purpose::STANDARD.decode(encoded.as_bytes()).unwrap();
        assert_eq!(decoded, input[..n].to_vec());
    }
}
