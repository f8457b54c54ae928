//! The stateless, tamper-evident error-signaling protocol: a login failure
//! redirects to the login form with the error text and a hex-encoded
//! HMAC-SHA-256 tag over the canonical query string `error=<url-encoded
//! message>`.  The next form render recomputes the tag from the received
//! text and displays the message - HTML-escaped - only when the tag
//! verifies in constant time; otherwise the message is silently dropped.

use vstd::prelude::*;
use vstd::string::*;
use vstd::utf8::encode_utf8;

use crate::push_char;

verus! {

/// The server-held secret for signing error payloads.
pub struct HmacSecret(pub String);

/// The HMAC-SHA-256 tag of a message under a key.  Stands for the outcome
/// of hmac's `Hmac<Sha256>` MAC, a function of key and message alone.
pub uninterp spec fn hmac_sha256_of(key: Seq<u8>, message: Seq<u8>) -> Seq<u8>;

/// Relies on hmac's `Hmac::<Sha256>::new_from_slice` (accepts a key of any
/// length, never fails for HMAC) and `Mac::finalize`: the tag depends on
/// key and message alone and is 32 bytes for HMAC-SHA-256.
#[verifier::external_body]
fn hmac_sha256_tag(key: &[u8], message: &[u8]) -> (r: Vec<u8>)
    ensures
        r@ == hmac_sha256_of(key@, message@),
        r@.len() == 32,
{
    let mut mac = <hmac::Hmac<sha2::Sha256> as hmac::Mac>::new_from_slice(key).unwrap();
    hmac::Mac::update(&mut mac, message);
    hmac::Mac::finalize(mac).into_bytes().to_vec()
}

/// Relies on hmac's `Mac::verify_slice`: accepts exactly the tag equal to
/// the freshly computed MAC, compared in constant time.
#[verifier::external_body]
fn hmac_sha256_verify(key: &[u8], message: &[u8], tag: &[u8]) -> (r: bool)
    ensures
        r == (tag@ == hmac_sha256_of(key@, message@)),
{
    let mut mac = <hmac::Hmac<sha2::Sha256> as hmac::Mac>::new_from_slice(key).unwrap();
    hmac::Mac::update(&mut mac, message);
    hmac::Mac::verify_slice(mac, tag).is_ok()
}

/// The lower-case hex digit for a value below 16.
pub open spec fn hex_digit(v: u8) -> char {
    if v == 0 {
        '0'
    } else if v == 1 {
        '1'
    } else if v == 2 {
        '2'
    } else if v == 3 {
        '3'
    } else if v == 4 {
        '4'
    } else if v == 5 {
        '5'
    } else if v == 6 {
        '6'
    } else if v == 7 {
        '7'
    } else if v == 8 {
        '8'
    } else if v == 9 {
        '9'
    } else if v == 10 {
        'a'
    } else if v == 11 {
        'b'
    } else if v == 12 {
        'c'
    } else if v == 13 {
        'd'
    } else if v == 14 {
        'e'
    } else {
        'f'
    }
}

/// The upper-case hex digit for a value below 16, as used in URL encoding.
pub open spec fn hex_digit_upper(v: u8) -> char {
    if v < 10 {
        hex_digit(v)
    } else if v == 10 {
        'A'
    } else if v == 11 {
        'B'
    } else if v == 12 {
        'C'
    } else if v == 13 {
        'D'
    } else if v == 14 {
        'E'
    } else {
        'F'
    }
}

/// The value of a hex digit, either case, `None` for any other character.
pub open spec fn hex_val(c: char) -> Option<u8> {
    if c == '0' {
        Some(0u8)
    } else if c == '1' {
        Some(1u8)
    } else if c == '2' {
        Some(2u8)
    } else if c == '3' {
        Some(3u8)
    } else if c == '4' {
        Some(4u8)
    } else if c == '5' {
        Some(5u8)
    } else if c == '6' {
        Some(6u8)
    } else if c == '7' {
        Some(7u8)
    } else if c == '8' {
        Some(8u8)
    } else if c == '9' {
        Some(9u8)
    } else if c == 'a' || c == 'A' {
        Some(10u8)
    } else if c == 'b' || c == 'B' {
        Some(11u8)
    } else if c == 'c' || c == 'C' {
        Some(12u8)
    } else if c == 'd' || c == 'D' {
        Some(13u8)
    } else if c == 'e' || c == 'E' {
        Some(14u8)
    } else if c == 'f' || c == 'F' {
        Some(15u8)
    } else {
        None
    }
}

/// The lower-case hex encoding of a byte sequence.
pub open spec fn hex_of(bytes: Seq<u8>) -> Seq<char>
    decreases bytes.len(),
{
    if bytes.len() == 0 {
        Seq::empty()
    } else {
        seq![hex_digit(bytes.first() / 16), hex_digit(bytes.first() % 16)] + hex_of(
            bytes.drop_first(),
        )
    }
}

/// What hex decoding yields: the byte for each digit pair, `None` on an
/// odd length or any non-digit.  Either case of digit is accepted.
pub open spec fn hex_decoded(s: Seq<char>) -> Option<Seq<u8>>
    decreases s.len(),
{
    if s.len() == 0 {
        Some(Seq::<u8>::empty())
    } else if s.len() == 1 {
        None
    } else {
        match (hex_val(s[0]), hex_val(s[1])) {
            (Some(h), Some(l)) => match hex_decoded(s.skip(2)) {
                Some(rest) => Some(seq![(h * 16 + l) as u8] + rest),
                None => None,
            },
            _ => None,
        }
    }
}

/// The lower-case hex digit as an executable character.
fn hex_digit_char(v: u8) -> (c: char)
    requires
        v < 16,
    ensures
        c == hex_digit(v),
{
    match v {
        0 => '0',
        1 => '1',
        2 => '2',
        3 => '3',
        4 => '4',
        5 => '5',
        6 => '6',
        7 => '7',
        8 => '8',
        9 => '9',
        10 => 'a',
        11 => 'b',
        12 => 'c',
        13 => 'd',
        14 => 'e',
        _ => 'f',
    }
}

/// The upper-case hex digit as an executable character.
fn hex_digit_upper_char(v: u8) -> (c: char)
    requires
        v < 16,
    ensures
        c == hex_digit_upper(v),
{
    match v {
        0 => '0',
        1 => '1',
        2 => '2',
        3 => '3',
        4 => '4',
        5 => '5',
        6 => '6',
        7 => '7',
        8 => '8',
        9 => '9',
        10 => 'A',
        11 => 'B',
        12 => 'C',
        13 => 'D',
        14 => 'E',
        _ => 'F',
    }
}

/// The value of a hex digit as an executable function.
fn hex_val_char(c: char) -> (r: Option<u8>)
    ensures
        r == hex_val(c),
        r matches Some(v) ==> v < 16,
{
    match c {
        '0' => Some(0),
        '1' => Some(1),
        '2' => Some(2),
        '3' => Some(3),
        '4' => Some(4),
        '5' => Some(5),
        '6' => Some(6),
        '7' => Some(7),
        '8' => Some(8),
        '9' => Some(9),
        'a' | 'A' => Some(10),
        'b' | 'B' => Some(11),
        'c' | 'C' => Some(12),
        'd' | 'D' => Some(13),
        'e' | 'E' => Some(14),
        'f' | 'F' => Some(15),
        _ => None,
    }
}

/// Hex-encodes a byte sequence in lower case.
pub fn hex_encode(bytes: &Vec<u8>) -> (r: String)
    ensures
        r@ == hex_of(bytes@),
{
    let mut out = String::new();
    proof {
        assert(bytes@.skip(0) =~= bytes@);
    }
    let mut i: usize = 0;
    while i < bytes.len()
        invariant
            i <= bytes@.len(),
            hex_of(bytes@) =~= out@ + hex_of(bytes@.skip(i as int)),
        decreases bytes@.len() - i,
    {
        let b = bytes[i];
        proof {
            assert(bytes@.skip(i as int).first() == bytes@[i as int]);
            assert(bytes@.skip(i as int).drop_first() =~= bytes@.skip(i as int + 1));
        }
        push_char(&mut out, hex_digit_char(b / 16));
        push_char(&mut out, hex_digit_char(b % 16));
        i += 1;
    }
    proof {
        assert(bytes@.skip(bytes@.len() as int) =~= Seq::<u8>::empty());
        assert(out@ =~= hex_of(bytes@));
    }
    out
}

/// A decodable hex string has even length.
pub proof fn lemma_hex_decoded_even(s: Seq<char>)
    ensures
        hex_decoded(s) is Some ==> s.len() % 2 == 0,
    decreases s.len(),
{
    if s.len() >= 2 {
        lemma_hex_decoded_even(s.skip(2));
    }
}

/// Hex-decodes a string, accepting either case of digit.
pub fn hex_decode(s: &str) -> (r: Option<Vec<u8>>)
    ensures
        r matches Some(v) ==> hex_decoded(s@) == Some(v@),
        r is None <==> hex_decoded(s@) is None,
{
    let len = s.unicode_len();
    if len % 2 != 0 {
        proof {
            lemma_hex_decoded_even(s@);
        }
        return None;
    }
    let mut out: Vec<u8> = Vec::new();
    proof {
        assert(s@.skip(0) =~= s@);
    }
    let mut i: usize = 0;
    while i < len
        invariant
            len == s@.len(),
            len % 2 == 0,
            i % 2 == 0,
            i <= len,
            hex_decoded(s@) is Some <==> hex_decoded(s@.skip(i as int)) is Some,
            hex_decoded(s@.skip(i as int)) matches Some(rest) ==> hex_decoded(s@) == Some(
                out@ + rest,
            ),
        decreases len - i,
    {
        let c1 = s.get_char(i);
        let c2 = s.get_char(i + 1);
        proof {
            assert(s@.skip(i as int)[0] == s@[i as int]);
            assert(s@.skip(i as int)[1] == s@[i as int + 1]);
            assert(s@.skip(i as int).skip(2) =~= s@.skip(i as int + 2));
            assert(s@.skip(i as int).len() >= 2);
        }
        let h = match hex_val_char(c1) {
            Some(h) => h,
            None => { return None },
        };
        let l = match hex_val_char(c2) {
            Some(l) => l,
            None => { return None },
        };
        out.push(h * 16 + l);
        i += 2;
    }
    proof {
        assert(s@.skip(len as int) =~= Seq::<char>::empty());
        assert(out@ + Seq::<u8>::empty() =~= out@);
    }
    Some(out)
}

/// Law: hex decoding inverts hex encoding on every byte sequence.
pub proof fn lemma_hex_round_trip(bytes: Seq<u8>)
    ensures
        hex_decoded(hex_of(bytes)) == Some(bytes),
    decreases bytes.len(),
{
    if bytes.len() > 0 {
        lemma_hex_round_trip(bytes.drop_first());
        let b = bytes.first();
        let t = hex_of(bytes);
        assert(t[0] == hex_digit(b / 16) && t[1] == hex_digit(b % 16));
        assert(hex_val(hex_digit(b / 16)) == Some((b / 16) as u8));
        assert(hex_val(hex_digit(b % 16)) == Some((b % 16) as u8));
        assert(t.skip(2) =~= hex_of(bytes.drop_first()));
        assert(seq![((b / 16) * 16 + b % 16) as u8] + bytes.drop_first() =~= bytes);
    }
}

/// An unreserved URL byte, carried through percent-encoding unchanged:
/// ASCII letters, digits, and `-` `.` `_` `~`.
pub open spec fn is_unreserved_byte(b: u8) -> bool {
    (48 <= b <= 57) || (65 <= b <= 90) || (97 <= b <= 122) || b == 45 || b == 46 || b == 95 || b
        == 126
}

/// Percent-encoding of one byte.
pub open spec fn percent_encoded_byte(b: u8) -> Seq<char> {
    if is_unreserved_byte(b) {
        seq![b as char]
    } else {
        seq!['%', hex_digit_upper(b / 16), hex_digit_upper(b % 16)]
    }
}

/// Percent-encoding of a byte sequence.
pub open spec fn percent_encoded(bytes: Seq<u8>) -> Seq<char>
    decreases bytes.len(),
{
    if bytes.len() == 0 {
        Seq::empty()
    } else {
        percent_encoded_byte(bytes.first()) + percent_encoded(bytes.drop_first())
    }
}

/// Percent-encodes the UTF-8 bytes of a string for use in a query value.
pub fn percent_encode(s: &str) -> (r: String)
    ensures
        r@ == percent_encoded(encode_utf8(s@)),
{
    let bytes: Vec<u8> = s.as_bytes_vec();
    let mut out = String::new();
    proof {
        assert(bytes@.skip(0) =~= bytes@);
    }
    let mut i: usize = 0;
    while i < bytes.len()
        invariant
            bytes@ == encode_utf8(s@),
            i <= bytes@.len(),
            percent_encoded(bytes@) =~= out@ + percent_encoded(bytes@.skip(i as int)),
        decreases bytes@.len() - i,
    {
        let b = bytes[i];
        proof {
            assert(bytes@.skip(i as int).first() == bytes@[i as int]);
            assert(bytes@.skip(i as int).drop_first() =~= bytes@.skip(i as int + 1));
        }
        if (48 <= b && b <= 57) || (65 <= b && b <= 90) || (97 <= b && b <= 122) || b == 45 || b
            == 46 || b == 95 || b == 126 {
            push_char(&mut out, b as char);
        } else {
            push_char(&mut out, '%');
            push_char(&mut out, hex_digit_upper_char(b / 16));
            push_char(&mut out, hex_digit_upper_char(b % 16));
        }
        i += 1;
    }
    proof {
        assert(bytes@.skip(bytes@.len() as int) =~= Seq::<u8>::empty());
        assert(out@ =~= percent_encoded(bytes@));
    }
    out
}

/// HTML-escaping of one character: the five HTML-special characters become
/// entities, everything else is carried unchanged.
pub open spec fn escaped_char(c: char) -> Seq<char> {
    if c == '&' {
        "&amp;"@
    } else if c == '<' {
        "&lt;"@
    } else if c == '>' {
        "&gt;"@
    } else if c == '"' {
        "&quot;"@
    } else if c == '\'' {
        "&#39;"@
    } else {
        seq![c]
    }
}

/// HTML-escaping of a character sequence.
pub open spec fn html_escaped(s: Seq<char>) -> Seq<char>
    decreases s.len(),
{
    if s.len() == 0 {
        Seq::empty()
    } else {
        escaped_char(s.first()) + html_escaped(s.drop_first())
    }
}

/// HTML-escapes a string for safe inclusion in markup.
pub fn html_escape(s: &str) -> (r: String)
    ensures
        r@ == html_escaped(s@),
{
    let len = s.unicode_len();
    let mut out = String::new();
    proof {
        assert(s@.skip(0) =~= s@);
    }
    let mut i: usize = 0;
    while i < len
        invariant
            len == s@.len(),
            i <= len,
            html_escaped(s@) =~= out@ + html_escaped(s@.skip(i as int)),
        decreases len - i,
    {
        let c = s.get_char(i);
        proof {
            assert(s@.skip(i as int).first() == s@[i as int]);
            assert(s@.skip(i as int).drop_first() =~= s@.skip(i as int + 1));
        }
        if c == '&' {
            out.append("&amp;");
        } else if c == '<' {
            out.append("&lt;");
        } else if c == '>' {
            out.append("&gt;");
        } else if c == '"' {
            out.append("&quot;");
        } else if c == '\'' {
            out.append("&#39;");
        } else {
            push_char(&mut out, c);
        }
        i += 1;
    }
    proof {
        assert(s@.skip(len as int) =~= Seq::<char>::empty());
        assert(out@ =~= html_escaped(s@));
    }
    out
}

/// Law: an HTML-escaped string contains no raw `<`, `>`, `"` or `'`: a
/// client-supplied message cannot inject markup into the rendered page.
pub proof fn lemma_html_escaped_no_raw_markup(s: Seq<char>)
    ensures
        forall|i: int|
            0 <= i < html_escaped(s).len() ==> #[trigger] html_escaped(s)[i] != '<'
                && html_escaped(s)[i] != '>' && html_escaped(s)[i] != '"' && html_escaped(s)[i]
                != '\'',
    decreases s.len(),
{
    reveal_strlit("&amp;");
    reveal_strlit("&lt;");
    reveal_strlit("&gt;");
    reveal_strlit("&quot;");
    reveal_strlit("&#39;");
    if s.len() > 0 {
        lemma_html_escaped_no_raw_markup(s.drop_first());
        let e = escaped_char(s.first());
        assert forall|i: int| 0 <= i < html_escaped(s).len() implies #[trigger] html_escaped(
            s,
        )[i] != '<' && html_escaped(s)[i] != '>' && html_escaped(s)[i] != '"' && html_escaped(
            s,
        )[i] != '\'' by {
            if i < e.len() {
                assert(html_escaped(s)[i] == e[i]);
            } else {
                assert(html_escaped(s)[i] == html_escaped(s.drop_first())[i - e.len()]);
            }
        }
    }
}

/// The canonical query string a login-failure message is signed over.
pub open spec fn canonical_error_query(msg: Seq<char>) -> Seq<char> {
    "error="@ + percent_encoded(encode_utf8(msg))
}

/// The tag of a login-failure message under a secret.
pub open spec fn error_tag(secret: Seq<char>, msg: Seq<char>) -> Seq<u8> {
    hmac_sha256_of(encode_utf8(secret), encode_utf8(canonical_error_query(msg)))
}

/// The full signed query string carried on the redirect.
pub open spec fn signed_error_query(secret: Seq<char>, msg: Seq<char>) -> Seq<char> {
    canonical_error_query(msg) + "&tag="@ + hex_of(error_tag(secret, msg))
}

/// A received `(message, tag)` pair is accepted exactly when the tag
/// hex-decodes to the HMAC of the canonical query string rebuilt from the
/// received message.
pub open spec fn error_message_accepted(
    secret: Seq<char>,
    msg: Seq<char>,
    tag_hex: Seq<char>,
) -> bool {
    hex_decoded(tag_hex) == Some(error_tag(secret, msg))
}

/// The HTML fragment displaying a verified error message.
pub open spec fn error_fragment(msg: Seq<char>) -> Seq<char> {
    "<p><i>"@ + html_escaped(msg) + "</i></p>"@
}

/// Builds the canonical query string `error=<url-encoded message>`.
fn build_canonical_query(error_message: &str) -> (r: String)
    ensures
        r@ == canonical_error_query(error_message@),
{
    let mut query: String = String::from_str("error=");
    let encoded = percent_encode(error_message);
    query.append(encoded.as_str());
    query
}

/// Signs a login-failure message: the redirect query carrying the
/// percent-encoded message and the hex-encoded tag over the canonical
/// query string.
pub fn sign_error_message(secret: &HmacSecret, error_message: &str) -> (r: String)
    ensures
        r@ == signed_error_query(secret.0@, error_message@),
{
    let mut query = build_canonical_query(error_message);
    let tag = hmac_sha256_tag(secret.0.as_str().as_bytes(), query.as_str().as_bytes());
    let tag_hex = hex_encode(&tag);
    query.append("&tag=");
    query.append(tag_hex.as_str());
    query
}

/// Verifies and renders a received login-failure message: the message is
/// HTML-escaped and wrapped for display exactly when its tag verifies;
/// any other payload yields no fragment.
pub fn render_error_fragment(secret: &HmacSecret, error_message: &str, tag_hex: &str) -> (r:
    Option<String>)
    ensures
        r is Some <==> error_message_accepted(secret.0@, error_message@, tag_hex@),
        r matches Some(h) ==> h@ == error_fragment(error_message@),
{
    let query = build_canonical_query(error_message);
    let tag = match hex_decode(tag_hex) {
        Some(t) => t,
        None => { return None },
    };
    if !hmac_sha256_verify(
        secret.0.as_str().as_bytes(),
        query.as_str().as_bytes(),
        tag.as_slice(),
    ) {
        return None;
    }
    let mut fragment: String = String::from_str("<p><i>");
    let escaped = html_escape(error_message);
    fragment.append(escaped.as_str());
    fragment.append("</i></p>");
    Some(fragment)
}

/// Law: a tag produced by the signer is accepted by the verifier for the
/// same secret and message.
pub proof fn lemma_signed_tag_accepted(secret: Seq<char>, msg: Seq<char>)
    ensures
        error_message_accepted(secret, msg, hex_of(error_tag(secret, msg))),
{
    lemma_hex_round_trip(error_tag(secret, msg));
}

/// Law: at most one tag value is accepted for a given secret and message;
/// any tag that decodes differently - in particular one with a hex digit
/// changed to a digit of another value - renders no message.
pub proof fn lemma_forged_tag_rejected(
    secret: Seq<char>,
    msg: Seq<char>,
    accepted_tag: Seq<char>,
    other_tag: Seq<char>,
)
    requires
        error_message_accepted(secret, msg, accepted_tag),
        hex_decoded(other_tag) != hex_decoded(accepted_tag),
    ensures
        !error_message_accepted(secret, msg, other_tag),
{
}

} // verus!
