//! Tests for the signed-error protocol, run against the real HMAC-SHA-256
//! implementation.

use blog_backend::signed_message::{
    hex_decode, hex_encode, html_escape, percent_encode, render_error_fragment,
    sign_error_message, HmacSecret,
};

fn secret() -> HmacSecret {
    HmacSecret(String::from("super-secret-hmac-key"))
}

/// The tag parameter of a signed query string `error=...&tag=<hex>`.
fn tag_of(query: &str) -> String {
    let marker = "&tag=";
    let at = query.find(marker).expect("query carries a tag");
    query[at + marker.len()..].to_string()
}

fn message_part_of(query: &str) -> String {
    let marker = "&tag=";
    let at = query.find(marker).expect("query carries a tag");
    query["error=".len()..at].to_string()
}

#[test]
fn hex_encoding_round_trips() {
    let bytes = vec![0xbeu8, 0xef, 0x00, 0x7f];
    let encoded = hex_encode(&bytes);
    assert_eq!(encoded, "beef007f");
    assert_eq!(hex_decode(&encoded), Some(bytes));
}

#[test]
fn hex_decoding_accepts_both_cases() {
    assert_eq!(hex_decode("BEEF"), Some(vec![0xbeu8, 0xef]));
    assert_eq!(hex_decode("beEF"), Some(vec![0xbeu8, 0xef]));
}

#[test]
fn hex_decoding_rejects_odd_length_and_non_digits() {
    assert_eq!(hex_decode("abc"), None);
    assert_eq!(hex_decode("zz"), None);
    assert_eq!(hex_decode(""), Some(Vec::new()));
}

#[test]
fn percent_encoding_escapes_reserved_bytes() {
    assert_eq!(percent_encode("Invalid credentials"), "Invalid%20credentials");
    assert_eq!(percent_encode("abcXYZ019-._~"), "abcXYZ019-._~");
    assert_eq!(percent_encode("a&b=c"), "a%26b%3Dc");
    assert_eq!(percent_encode("\u{e9}"), "%C3%A9");
}

#[test]
fn signed_query_carries_the_hmac_of_the_canonical_string() {
    let query = sign_error_message(&secret(), "Invalid credentials");
    assert_eq!(message_part_of(&query), "Invalid%20credentials");
    let tag_hex = tag_of(&query);

    // Recompute the tag independently with the hmac crate.
    let mut mac = <hmac::Hmac<sha2::Sha256> as hmac::Mac>::new_from_slice(
        b"super-secret-hmac-key",
    )
    .unwrap();
    hmac::Mac::update(&mut mac, b"error=Invalid%20credentials");
    let expected = hmac::Mac::finalize(mac).into_bytes().to_vec();
    assert_eq!(hex_decode(&tag_hex), Some(expected));
}

#[test]
fn correct_tag_renders_the_escaped_message() {
    let query = sign_error_message(&secret(), "Invalid credentials");
    let tag_hex = tag_of(&query);
    let fragment = render_error_fragment(&secret(), "Invalid credentials", &tag_hex);
    assert_eq!(fragment, Some(String::from("<p><i>Invalid credentials</i></p>")));
}

#[test]
fn flipped_hex_digit_renders_nothing() {
    let query = sign_error_message(&secret(), "Invalid credentials");
    let tag_hex = tag_of(&query);
    let mut chars: Vec<char> = tag_hex.chars().collect();
    chars[0] = if chars[0] == '0' { '1' } else { '0' };
    let forged: String = chars.into_iter().collect();
    assert_eq!(render_error_fragment(&secret(), "Invalid credentials", &forged), None);
}

#[test]
fn tampered_message_renders_nothing() {
    let query = sign_error_message(&secret(), "Invalid credentials");
    let tag_hex = tag_of(&query);
    assert_eq!(render_error_fragment(&secret(), "You have been pwned", &tag_hex), None);
}

#[test]
fn other_secret_renders_nothing() {
    let query = sign_error_message(&secret(), "Invalid credentials");
    let tag_hex = tag_of(&query);
    let other = HmacSecret(String::from("a-different-secret"));
    assert_eq!(render_error_fragment(&other, "Invalid credentials", &tag_hex), None);
}

#[test]
fn malformed_tag_renders_nothing() {
    assert_eq!(render_error_fragment(&secret(), "Invalid credentials", "xyz"), None);
}

#[test]
fn html_special_characters_are_escaped() {
    assert_eq!(
        html_escape("<script>alert('x & \"y\"')</script>"),
        "&lt;script&gt;alert(&#39;x &amp; &quot;y&quot;&#39;)&lt;/script&gt;"
    );
}

#[test]
fn rendered_fragment_escapes_markup_in_the_message() {
    let message = "<script>alert('pwn')</script>";
    let query = sign_error_message(&secret(), message);
    let tag_hex = tag_of(&query);
    let fragment = render_error_fragment(&secret(), message, &tag_hex).unwrap();
    assert!(!fragment.contains("<script>"));
    assert!(fragment.contains("&lt;script&gt;"));
    assert_eq!(
        fragment,
        "<p><i>&lt;script&gt;alert(&#39;pwn&#39;)&lt;/script&gt;</i></p>"
    );
}
