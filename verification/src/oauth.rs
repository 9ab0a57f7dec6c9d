//! OAuth 2.0 sign-in with Google, Facebook and X: the providers' fixed
//! endpoints, the query-string and percent codecs, PKCE, and the checks that
//! the sign-in flow makes between its network and database steps.
use vstd::prelude::*;
use vstd::utf8::{encode_utf8, decode_utf8, valid_utf8, is_continuation_byte, is_ascii_chars, is_ascii_chars_encode_utf8, encode_utf8_valid_utf8, encode_utf8_decode_utf8};
use sha2::Digest;
use crate::text::{chars_of, string_of, append_chars, concat2, concat3, same_text, split_chars, split_on,
    first_index_of, lemma_first_index_of, find_char, slice_chars};
use crate::rejection::{Rejection, UNPROCESSABLE_ENTITY, INTERNAL_SERVER_ERROR, BAD_REQUEST, BAD_GATEWAY};
use crate::auth::{is_role, is_known_role, unknown_role, unknown_role_message, has_expired};
use crate::ids::{make_token, hex_of_bytes, TOKEN_BYTES, lemma_hex_of_bytes_len, law_hex_of_bytes_injective, make_id, id_of, texts_of};

verus! {

broadcast use vstd::string::group_string_axioms;

// ---------------------------------------------------------------------------
// Percent encoding (RFC 3986 unreserved characters pass unchanged)

pub open spec fn is_unreserved(b: u8) -> bool {
    ||| 65 <= b <= 90
    ||| 97 <= b <= 122
    ||| 48 <= b <= 57
    ||| b == 45
    ||| b == 95
    ||| b == 46
    ||| b == 126
}

/// The uppercase hexadecimal digit for `d < 16`.
pub open spec fn hex_upper(d: nat) -> char {
    if d < 10 {
        (48 + d) as char
    } else {
        (55 + d) as char
    }
}

/// One byte, percent-encoded: unreserved bytes stand for themselves, every
/// other byte becomes `%` and two uppercase hex digits.
pub open spec fn percent_encode_byte(b: u8) -> Seq<char> {
    if is_unreserved(b) {
        seq![b as char]
    } else {
        seq!['%', hex_upper(b as nat / 16), hex_upper(b as nat % 16)]
    }
}

pub open spec fn percent_encoded(b: Seq<u8>) -> Seq<char>
    decreases b.len(),
{
    if b.len() == 0 {
        Seq::<char>::empty()
    } else {
        percent_encode_byte(b[0]) + percent_encoded(b.skip(1))
    }
}

/// A text percent-encoded over its UTF-8 bytes.
pub open spec fn url_encoded(s: Seq<char>) -> Seq<char> {
    percent_encoded(encode_utf8(s))
}

fn hex_upper_char(d: u8) -> (c: char)
    requires
        d < 16,
    ensures
        c == hex_upper(d as nat),
{
    if d < 10 {
        (48 + d) as char
    } else {
        (55 + d) as char
    }
}

/// Percent-encodes the UTF-8 bytes of `s`.
pub fn urlencoding_encode(s: &str) -> (r: String)
    ensures
        r@ == url_encoded(s@),
{
    let bytes = s.as_bytes();
    let ghost b = bytes@;
    let mut out: Vec<char> = Vec::new();
    let mut i: usize = 0;
    assert(b.skip(0) =~= b);
    while i < bytes.len()
        invariant
            b == bytes@,
            i <= b.len(),
            percent_encoded(b) == out@ + percent_encoded(b.skip(i as int)),
        decreases b.len() - i,
    {
        let byte = bytes[i];
        let unreserved = (65 <= byte && byte <= 90) || (97 <= byte && byte <= 122) || (48 <= byte
            && byte <= 57) || byte == 45 || byte == 95 || byte == 46 || byte == 126;
        let ghost before = out@;
        if unreserved {
            out.push(byte as char);
        } else {
            out.push('%');
            out.push(hex_upper_char(byte / 16));
            out.push(hex_upper_char(byte % 16));
        }
        assert(out@ =~= before + percent_encode_byte(byte));
        assert(b.skip(i as int).skip(1) =~= b.skip(i + 1));
        assert(percent_encoded(b.skip(i as int)) == percent_encode_byte(b[i as int])
            + percent_encoded(b.skip(i + 1)));
        i += 1;
    }
    assert(b.skip(b.len() as int) =~= Seq::<u8>::empty());
    string_of(out.as_slice())
}

/// The value of an ASCII hexadecimal digit, either case.
pub open spec fn hex_value(b: u8) -> Option<u8> {
    if 48 <= b <= 57 {
        Some((b - 48) as u8)
    } else if 97 <= b <= 102 {
        Some((b - 87) as u8)
    } else if 65 <= b <= 70 {
        Some((b - 55) as u8)
    } else {
        None
    }
}

/// What `u8::from_str_radix` gives, base 16, for a two-byte text: two hex
/// digits, or `+` and one hex digit.
pub open spec fn radix16_pair(b1: u8, b2: u8) -> Option<u8> {
    if b1 == 43 {
        hex_value(b2)
    } else {
        match (hex_value(b1), hex_value(b2)) {
            (Some(v1), Some(v2)) => Some((16 * v1 + v2) as u8),
            _ => None,
        }
    }
}

/// Percent-decoding never has to cut a character in two: after a `%`
/// followed by at least two bytes, the byte after those two begins a
/// character (the decoder reads the two bytes as a text of their own).
pub open spec fn percent_decodes(b: Seq<u8>) -> bool
    decreases b.len(),
{
    if b.len() == 0 {
        true
    } else if b[0] == 37 && b.len() > 2 {
        if b.len() > 3 && is_continuation_byte(b[3]) {
            false
        } else if radix16_pair(b[1], b[2]) is Some {
            percent_decodes(b.skip(3))
        } else {
            percent_decodes(b.skip(1))
        }
    } else {
        percent_decodes(b.skip(1))
    }
}

/// The bytes that percent-decoding gives: `%` and a two-byte hex number
/// becomes that byte, `+` becomes a space, everything else stays.
pub open spec fn percent_decoded(b: Seq<u8>) -> Seq<u8>
    decreases b.len(),
{
    if b.len() == 0 {
        Seq::<u8>::empty()
    } else if b[0] == 37 && b.len() > 2 && radix16_pair(b[1], b[2]) is Some {
        seq![radix16_pair(b[1], b[2])->0] + percent_decoded(b.skip(3))
    } else if b[0] == 43 {
        seq![32u8] + percent_decoded(b.skip(1))
    } else {
        seq![b[0]] + percent_decoded(b.skip(1))
    }
}

/// The text that percent-decoding `s` gives: the decoded bytes read as
/// UTF-8, or the empty text where they are not UTF-8.
pub open spec fn url_decoded(s: Seq<char>) -> Seq<char> {
    let d = percent_decoded(encode_utf8(s));
    if valid_utf8(d) {
        decode_utf8(d)
    } else {
        Seq::<char>::empty()
    }
}

/// `String::from_utf8`: the text whose UTF-8 encoding `bytes` is, if any.
#[verifier::external_body]
fn text_from_utf8(bytes: Vec<u8>) -> (r: Option<String>)
    ensures
        r matches Some(t) ==> valid_utf8(bytes@) && t@ == decode_utf8(bytes@),
        r is None ==> !valid_utf8(bytes@),
{
    String::from_utf8(bytes).ok()
}

fn hex_value_of(b: u8) -> (r: Option<u8>)
    ensures
        r == hex_value(b),
{
    if 48 <= b && b <= 57 {
        Some(b - 48)
    } else if 97 <= b && b <= 102 {
        Some(b - 87)
    } else if 65 <= b && b <= 70 {
        Some(b - 55)
    } else {
        None
    }
}

fn radix16_pair_of(b1: u8, b2: u8) -> (r: Option<u8>)
    ensures
        r == radix16_pair(b1, b2),
{
    if b1 == 43 {
        hex_value_of(b2)
    } else {
        match (hex_value_of(b1), hex_value_of(b2)) {
            (Some(v1), Some(v2)) => Some(16 * v1 + v2),
            _ => None,
        }
    }
}

/// Whether `urlencoding_decode` can take `s`.
pub fn decodes_without_panic(s: &str) -> (r: bool)
    ensures
        r == percent_decodes(encode_utf8(s@)),
{
    let bytes = s.as_bytes();
    let ghost b = bytes@;
    let n = bytes.len();
    let mut i: usize = 0;
    assert(b.skip(0) =~= b);
    while i < n
        invariant
            b == bytes@,
            n == b.len(),
            i <= n,
            b == encode_utf8(s@),
            percent_decodes(b) == percent_decodes(b.skip(i as int)),
        decreases n - i,
    {
        let ghost rest = b.skip(i as int);
        if bytes[i] == 37 && n - i > 2 {
            if n - i > 3 && 0x80 <= bytes[i + 3] && bytes[i + 3] <= 0xbf {
                assert(rest[0] == bytes@[i as int]);
                assert(rest[3] == bytes@[i + 3]);
                assert(!percent_decodes(rest));
                return false;
            }
            assert(rest.len() > 3 ==> rest[3] == bytes@[i + 3]);
            if radix16_pair_of(bytes[i + 1], bytes[i + 2]).is_some() {
                assert(rest.skip(3) =~= b.skip(i + 3));
                i += 3;
            } else {
                assert(rest.skip(1) =~= b.skip(i + 1));
                i += 1;
            }
        } else {
            assert(rest.skip(1) =~= b.skip(i + 1));
            i += 1;
        }
    }
    true
}

/// Percent-decodes `s` (`+` is a space); the empty text where the decoded
/// bytes are not UTF-8.
pub fn urlencoding_decode(s: &str) -> (r: String)
    requires
        percent_decodes(encode_utf8(s@)),
    ensures
        r@ == url_decoded(s@),
{
    let bytes = s.as_bytes();
    let ghost b = bytes@;
    let n = bytes.len();
    let mut out: Vec<u8> = Vec::new();
    let mut i: usize = 0;
    assert(b.skip(0) =~= b);
    while i < n
        invariant
            b == bytes@,
            n == b.len(),
            i <= n,
            percent_decodes(b.skip(i as int)),
            percent_decoded(b) == out@ + percent_decoded(b.skip(i as int)),
        decreases n - i,
    {
        let ghost rest = b.skip(i as int);
        let ghost before = out@;
        let byte = bytes[i];
        if byte == 37 && n - i > 2 {
            assert(rest.len() > 3 ==> rest[3] == bytes@[i + 3]);
            match radix16_pair_of(bytes[i + 1], bytes[i + 2]) {
                Some(v) => {
                    out.push(v);
                    assert(rest.skip(3) =~= b.skip(i + 3));
                    assert(out@ =~= before + seq![v]);
                    i += 3;
                },
                None => {
                    out.push(byte);
                    assert(rest.skip(1) =~= b.skip(i + 1));
                    assert(out@ =~= before + seq![byte]);
                    i += 1;
                },
            }
        } else if byte == 43 {
            out.push(32);
            assert(rest.skip(1) =~= b.skip(i + 1));
            assert(out@ =~= before + seq![32u8]);
            i += 1;
        } else {
            out.push(byte);
            assert(rest.skip(1) =~= b.skip(i + 1));
            assert(out@ =~= before + seq![byte]);
            i += 1;
        }
    }
    assert(b.skip(n as int) =~= Seq::<u8>::empty());
    assert(out@ =~= percent_decoded(b));
    match text_from_utf8(out) {
        Some(t) => t,
        None => String::new(),
    }
}

/// The bytes of an ASCII text.
pub open spec fn ascii_bytes(cs: Seq<char>) -> Seq<u8> {
    cs.map_values(|c: char| c as u8)
}

proof fn lemma_hex_upper(d: nat)
    requires
        d < 16,
    ensures
        hex_upper(d) as u32 == (if d < 10 { 48 + d } else { 55 + d }),
        hex_value(hex_upper(d) as u8) == Some(d as u8),
        hex_upper(d) as u8 != 43,
{
}

proof fn lemma_percent_encode_byte_ascii(b: u8)
    ensures
        is_ascii_chars(percent_encode_byte(b)),
{
    if !is_unreserved(b) {
        lemma_hex_upper(b as nat / 16);
        lemma_hex_upper(b as nat % 16);
    }
}

pub proof fn lemma_percent_encoded_ascii(b: Seq<u8>)
    ensures
        is_ascii_chars(percent_encoded(b)),
    decreases b.len(),
{
    if b.len() > 0 {
        lemma_percent_encoded_ascii(b.skip(1));
        lemma_percent_encode_byte_ascii(b[0]);
        let e = percent_encoded(b);
        let first = percent_encode_byte(b[0]);
        let rest = percent_encoded(b.skip(1));
        assert forall|i| 0 <= i < e.len() implies '\0' <= #[trigger] e[i] <= '\u{7f}' by {
            if i < first.len() {
                assert(e[i] == first[i]);
            } else {
                assert(e[i] == rest[i - first.len()]);
            }
        }
    }
}

proof fn lemma_ascii_bytes_small(cs: Seq<char>)
    requires
        is_ascii_chars(cs),
    ensures
        forall|i: int| 0 <= i < cs.len() ==> #[trigger] ascii_bytes(cs)[i] < 128,
{
    assert forall|i: int| 0 <= i < cs.len() implies #[trigger] ascii_bytes(cs)[i] < 128 by {
        assert('\0' <= cs[i] <= '\u{7f}');
    }
}

/// Percent-decoding undoes percent-encoding, byte for byte.
pub proof fn lemma_percent_decoded_encoded(b: Seq<u8>)
    ensures
        percent_decodes(ascii_bytes(percent_encoded(b))),
        percent_decoded(ascii_bytes(percent_encoded(b))) == b,
    decreases b.len(),
{
    let e = ascii_bytes(percent_encoded(b));
    if b.len() == 0 {
        assert(e =~= Seq::<u8>::empty());
    } else {
        let tail = b.skip(1);
        lemma_percent_decoded_encoded(tail);
        lemma_percent_encoded_ascii(tail);
        let rest = ascii_bytes(percent_encoded(tail));
        lemma_ascii_bytes_small(percent_encoded(tail));
        let first = percent_encode_byte(b[0]);
        assert(percent_encoded(b) == first + percent_encoded(tail));
        assert(e =~= ascii_bytes(first) + rest);
        assert(b =~= seq![b[0]] + tail);
        if is_unreserved(b[0]) {
            assert(e[0] == b[0]);
            assert(e.skip(1) =~= rest);
        } else {
            let hi = b[0] as nat / 16;
            let lo = b[0] as nat % 16;
            lemma_hex_upper(hi);
            lemma_hex_upper(lo);
            assert(e[0] == 37);
            assert(e[1] == hex_upper(hi) as u8);
            assert(e[2] == hex_upper(lo) as u8);
            assert(radix16_pair(e[1], e[2]) == Some(b[0]));
            assert(e.skip(3) =~= rest);
            if e.len() > 3 {
                assert(e[3] == rest[0]);
            }
        }
    }
}

/// Decoding what `urlencoding_encode` produced gives back the original text,
/// and never has to cut a character.
pub proof fn law_url_decode_inverts_encode(s: Seq<char>)
    ensures
        percent_decodes(encode_utf8(url_encoded(s))),
        url_decoded(url_encoded(s)) == s,
{
    let b = encode_utf8(s);
    lemma_percent_encoded_ascii(b);
    is_ascii_chars_encode_utf8(url_encoded(s));
    assert(encode_utf8(url_encoded(s)) =~= ascii_bytes(url_encoded(s)));
    lemma_percent_decoded_encoded(b);
    encode_utf8_valid_utf8(s);
    encode_utf8_decode_utf8(s);
}

/// A character that may stand in a percent-encoded text: an unreserved ASCII
/// character, `%`, or an uppercase hex digit.
pub open spec fn is_url_safe_char(c: char) -> bool {
    let u = c as u32;
    ||| 65 <= u <= 90
    ||| 97 <= u <= 122
    ||| 48 <= u <= 57
    ||| u == 45
    ||| u == 95
    ||| u == 46
    ||| u == 126
    ||| u == 37
}

/// Percent-encoded text holds only unreserved characters, `%` and hex
/// digits: no space, `&`, `=` or `+` survives encoding.
pub proof fn law_encoded_text_is_url_safe(s: Seq<char>)
    ensures
        forall|i: int| 0 <= i < url_encoded(s).len() ==> is_url_safe_char(#[trigger] url_encoded(s)[i]),
{
    lemma_percent_encoded_safe(encode_utf8(s));
}

proof fn lemma_percent_encoded_safe(b: Seq<u8>)
    ensures
        forall|i: int| 0 <= i < percent_encoded(b).len() ==> is_url_safe_char(#[trigger] percent_encoded(b)[i]),
    decreases b.len(),
{
    if b.len() > 0 {
        lemma_percent_encoded_safe(b.skip(1));
        let first = percent_encode_byte(b[0]);
        let rest = percent_encoded(b.skip(1));
        let e = percent_encoded(b);
        assert(e == first + rest);
        if !is_unreserved(b[0]) {
            lemma_hex_upper(b[0] as nat / 16);
            lemma_hex_upper(b[0] as nat % 16);
        }
        assert forall|i: int| 0 <= i < e.len() implies is_url_safe_char(#[trigger] e[i]) by {
            if i < first.len() {
                assert(e[i] == first[i]);
            } else {
                assert(e[i] == rest[i - first.len()]);
            }
        }
    }
}

// ---------------------------------------------------------------------------
// base64url (RFC 4648, section 5) without padding, and PKCE

/// The base64url digit for `v < 64`.
pub open spec fn b64_char(v: nat) -> char {
    if v < 26 {
        (65 + v) as char
    } else if v < 52 {
        (71 + v) as char
    } else if v < 62 {
        (v - 4) as char
    } else if v == 62 {
        '-'
    } else {
        '_'
    }
}

/// base64url without padding: each group of three bytes becomes four digits,
/// a last group of one or two bytes becomes two or three digits.
pub open spec fn base64url(b: Seq<u8>) -> Seq<char>
    decreases b.len(),
{
    if b.len() == 0 {
        Seq::<char>::empty()
    } else if b.len() == 1 {
        let n = b[0] as nat * 65536;
        seq![b64_char(n / 262144), b64_char(n / 4096 % 64)]
    } else if b.len() == 2 {
        let n = b[0] as nat * 65536 + b[1] as nat * 256;
        seq![b64_char(n / 262144), b64_char(n / 4096 % 64), b64_char(n / 64 % 64)]
    } else {
        let n = b[0] as nat * 65536 + b[1] as nat * 256 + b[2] as nat;
        seq![b64_char(n / 262144), b64_char(n / 4096 % 64), b64_char(n / 64 % 64), b64_char(n % 64)]
            + base64url(b.skip(3))
    }
}

fn b64_char_of(v: u32) -> (c: char)
    requires
        v < 64,
    ensures
        c == b64_char(v as nat),
{
    if v < 26 {
        ((65 + v) as u8) as char
    } else if v < 52 {
        ((71 + v) as u8) as char
    } else if v < 62 {
        ((v - 4) as u8) as char
    } else if v == 62 {
        '-'
    } else {
        '_'
    }
}

/// Encodes bytes as base64url without padding.
pub fn base64url_encode(bytes: &[u8]) -> (r: String)
    ensures
        r@ == base64url(bytes@),
{
    let ghost b = bytes@;
    let n = bytes.len();
    let mut out: Vec<char> = Vec::new();
    let mut i: usize = 0;
    assert(b.skip(0) =~= b);
    while n - i >= 3
        invariant
            b == bytes@,
            n == b.len(),
            i <= n,
            base64url(b) == out@ + base64url(b.skip(i as int)),
        decreases n - i,
    {
        let ghost rest = b.skip(i as int);
        let ghost before = out@;
        let v: u32 = (bytes[i] as u32) * 65536 + (bytes[i + 1] as u32) * 256 + (bytes[i + 2] as u32);
        out.push(b64_char_of(v / 262144));
        out.push(b64_char_of(v / 4096 % 64));
        out.push(b64_char_of(v / 64 % 64));
        out.push(b64_char_of(v % 64));
        assert(rest[0] == bytes@[i as int] && rest[1] == bytes@[i + 1] && rest[2] == bytes@[i + 2]);
        assert(rest.skip(3) =~= b.skip(i + 3));
        assert(out@ =~= before + seq![b64_char(v as nat / 262144), b64_char(v as nat / 4096 % 64), b64_char(v as nat / 64 % 64), b64_char(v as nat % 64)]);
        i += 3;
    }
    let ghost rest = b.skip(i as int);
    let ghost before = out@;
    if n - i == 1 {
        let v: u32 = (bytes[i] as u32) * 65536;
        out.push(b64_char_of(v / 262144));
        out.push(b64_char_of(v / 4096 % 64));
        assert(rest[0] == bytes@[i as int]);
        assert(out@ =~= before + base64url(rest));
    } else if n - i == 2 {
        let v: u32 = (bytes[i] as u32) * 65536 + (bytes[i + 1] as u32) * 256;
        out.push(b64_char_of(v / 262144));
        out.push(b64_char_of(v / 4096 % 64));
        out.push(b64_char_of(v / 64 % 64));
        assert(rest[0] == bytes@[i as int] && rest[1] == bytes@[i + 1]);
        assert(out@ =~= before + base64url(rest));
    } else {
        assert(rest.len() == 0);
        assert(out@ =~= before + base64url(rest));
    }
    string_of(out.as_slice())
}

/// The SHA-256 digest of some bytes.
pub uninterp spec fn sha256_of(data: Seq<u8>) -> Seq<u8>;

/// `sha2::Sha256::digest`: the SHA-256 digest, 32 bytes long.
#[verifier::external_body]
fn sha256(data: &[u8]) -> (d: Vec<u8>)
    ensures
        d@ == sha256_of(data@),
        d@.len() == 32,
{
    sha2::Sha256::digest(data).to_vec()
}

/// The PKCE S256 challenge for a verifier: base64url of the SHA-256 of its
/// UTF-8 bytes.
pub open spec fn pkce_challenge(verifier: Seq<char>) -> Seq<char> {
    base64url(sha256_of(encode_utf8(verifier)))
}

/// The base64url text of `n` bytes has `(4n + 2) / 3` digits: four per
/// group of three bytes, two or three for a last group of one or two.
pub proof fn lemma_base64url_len(b: Seq<u8>)
    ensures
        base64url(b).len() == (4 * b.len() + 2) / 3,
    decreases b.len(),
{
    if b.len() >= 3 {
        lemma_base64url_len(b.skip(3));
    }
}

pub fn base64url_sha256(input: &str) -> (r: String)
    ensures
        r@ == pkce_challenge(input@),
        r@.len() == 43,
{
    let digest = sha256(input.as_bytes());
    proof { lemma_base64url_len(digest@); }
    base64url_encode(digest.as_slice())
}

/// A PKCE verifier (two fresh tokens) and its S256 challenge; `None` where
/// the random source failed.
pub fn generate_pkce() -> (r: Option<(String, String)>)
    ensures
        r matches Some((verifier, challenge)) ==> {
            &&& challenge@ == pkce_challenge(verifier@)
            &&& challenge@.len() == 43
            &&& verifier@.len() == 4 * TOKEN_BYTES
            &&& exists|a: Seq<u8>, b: Seq<u8>|
                a.len() == TOKEN_BYTES && b.len() == TOKEN_BYTES && verifier@ == hex_of_bytes(a)
                    + hex_of_bytes(b)
        },
{
    let first = match make_token() {
        Some(t) => t,
        None => return None,
    };
    let second = match make_token() {
        Some(t) => t,
        None => return None,
    };
    let verifier = concat2(first.as_str(), second.as_str());
    let challenge = base64url_sha256(verifier.as_str());
    Some((verifier, challenge))
}

// ---------------------------------------------------------------------------
// Providers

/// The sign-in providers.
#[derive(Debug, Clone, Copy, PartialEq, Eq, Structural)]
pub enum Provider {
    Google,
    Facebook,
    X,
}

/// The provider that a path segment names, if any.
pub open spec fn provider_named(name: Seq<char>) -> Option<Provider> {
    if name == "google"@ {
        Some(Provider::Google)
    } else if name == "facebook"@ {
        Some(Provider::Facebook)
    } else if name == "x"@ {
        Some(Provider::X)
    } else {
        None
    }
}

impl Provider {
    /// The provider's name in paths.
    pub open spec fn name(self) -> Seq<char> {
        match self {
            Provider::Google => "google"@,
            Provider::Facebook => "facebook"@,
            Provider::X => "x"@,
        }
    }

    /// The prefix of the provider's environment variables.
    pub open spec fn env_prefix_text(self) -> Seq<char> {
        match self {
            Provider::Google => "GOOGLE"@,
            Provider::Facebook => "FACEBOOK"@,
            Provider::X => "X"@,
        }
    }

    pub open spec fn authorize_endpoint_text(self) -> Seq<char> {
        match self {
            Provider::Google => "https://accounts.google.com/o/oauth2/v2/auth"@,
            Provider::Facebook => "https://www.facebook.com/v19.0/dialog/oauth"@,
            Provider::X => "https://twitter.com/i/oauth2/authorize"@,
        }
    }

    pub open spec fn token_endpoint_text(self) -> Seq<char> {
        match self {
            Provider::Google => "https://oauth2.googleapis.com/token"@,
            Provider::Facebook => "https://graph.facebook.com/v19.0/oauth/access_token"@,
            Provider::X => "https://api.twitter.com/2/oauth2/token"@,
        }
    }

    /// Where the signed-in user's identity is read.
    pub open spec fn userinfo_endpoint_text(self) -> Seq<char> {
        match self {
            Provider::Google => "https://www.googleapis.com/oauth2/v3/userinfo"@,
            Provider::Facebook => "https://graph.facebook.com/me"@,
            Provider::X => "https://api.twitter.com/2/users/me"@,
        }
    }

    pub open spec fn scope_text(self) -> Seq<char> {
        match self {
            Provider::Google => "openid email profile"@,
            Provider::Facebook => "email public_profile"@,
            Provider::X => "tweet.read users.read offline.access"@,
        }
    }

    /// The name shown for a user whose provider gave none.
    pub open spec fn default_user_name(self) -> Seq<char> {
        match self {
            Provider::Google => "Google User"@,
            Provider::Facebook => "Facebook User"@,
            Provider::X => "X User"@,
        }
    }

    pub fn parse(name: &str) -> (r: Option<Self>)
        ensures
            r == provider_named(name@),
    {
        if same_text(name, "google") {
            Some(Provider::Google)
        } else if same_text(name, "facebook") {
            Some(Provider::Facebook)
        } else if same_text(name, "x") {
            Some(Provider::X)
        } else {
            None
        }
    }

    pub fn as_str(self) -> (r: &'static str)
        ensures
            r@ == self.name(),
    {
        match self {
            Provider::Google => "google",
            Provider::Facebook => "facebook",
            Provider::X => "x",
        }
    }

    pub fn env_prefix(self) -> (r: &'static str)
        ensures
            r@ == self.env_prefix_text(),
    {
        match self {
            Provider::Google => "GOOGLE",
            Provider::Facebook => "FACEBOOK",
            Provider::X => "X",
        }
    }

    pub fn authorize_endpoint(self) -> (r: &'static str)
        ensures
            r@ == self.authorize_endpoint_text(),
    {
        match self {
            Provider::Google => "https://accounts.google.com/o/oauth2/v2/auth",
            Provider::Facebook => "https://www.facebook.com/v19.0/dialog/oauth",
            Provider::X => "https://twitter.com/i/oauth2/authorize",
        }
    }

    pub fn token_endpoint(self) -> (r: &'static str)
        ensures
            r@ == self.token_endpoint_text(),
    {
        match self {
            Provider::Google => "https://oauth2.googleapis.com/token",
            Provider::Facebook => "https://graph.facebook.com/v19.0/oauth/access_token",
            Provider::X => "https://api.twitter.com/2/oauth2/token",
        }
    }

    pub fn userinfo_endpoint(self) -> (r: &'static str)
        ensures
            r@ == self.userinfo_endpoint_text(),
    {
        match self {
            Provider::Google => "https://www.googleapis.com/oauth2/v3/userinfo",
            Provider::Facebook => "https://graph.facebook.com/me",
            Provider::X => "https://api.twitter.com/2/users/me",
        }
    }

    pub fn scope(self) -> (r: &'static str)
        ensures
            r@ == self.scope_text(),
            self is Google ==> r@ == "openid email profile"@,
            self is Facebook ==> r@ == "email public_profile"@,
            self is X ==> r@ == "tweet.read users.read offline.access"@,
    {
        match self {
            Provider::Google => "openid email profile",
            Provider::Facebook => "email public_profile",
            Provider::X => "tweet.read users.read offline.access",
        }
    }

    /// Only X requires PKCE.
    pub fn requires_pkce(self) -> (r: bool)
        ensures
            r == (self == Provider::X),
    {
        match self {
            Provider::X => true,
            _ => false,
        }
    }

    pub fn default_name(self) -> (r: &'static str)
        ensures
            r@ == self.default_user_name(),
    {
        match self {
            Provider::Google => "Google User",
            Provider::Facebook => "Facebook User",
            Provider::X => "X User",
        }
    }
}

/// Parsing a provider's own name gives that provider back.
pub proof fn law_parse_inverts_as_str(p: Provider)
    ensures
        provider_named(p.name()) == Some(p),
{
    reveal_strlit("google");
    reveal_strlit("facebook");
    reveal_strlit("x");
    assert("google"@.len() == 6);
    assert("facebook"@.len() == 8);
    assert("x"@.len() == 1);
}

/// The name of the environment variable holding a provider's client id.
pub fn client_id_var(provider: Provider) -> (r: String)
    ensures
        r@ == provider.env_prefix_text() + "_CLIENT_ID"@,
{
    concat2(provider.env_prefix(), "_CLIENT_ID")
}

/// The name of the environment variable holding a provider's client secret.
pub fn client_secret_var(provider: Provider) -> (r: String)
    ensures
        r@ == provider.env_prefix_text() + "_CLIENT_SECRET"@,
{
    concat2(provider.env_prefix(), "_CLIENT_SECRET")
}

pub open spec fn not_configured_message(provider: Provider) -> Seq<char> {
    provider.env_prefix_text() + "_CLIENT_ID/"@ + provider.env_prefix_text() + "_CLIENT_SECRET is not configured"@
}

/// 500: the provider's client id or secret is not configured.
pub fn provider_not_configured(provider: Provider) -> (r: Rejection)
    ensures
        r.status == INTERNAL_SERVER_ERROR,
        r.message@ == not_configured_message(provider),
{
    let mut message = concat3(provider.env_prefix(), "_CLIENT_ID/", provider.env_prefix());
    message.append("_CLIENT_SECRET is not configured");
    Rejection { status: INTERNAL_SERVER_ERROR, message }
}

/// The public base URL of the site: the configured one, else `https://aruaru.pro`.
pub fn public_base_url(configured: Option<String>) -> (r: String)
    ensures
        r@ == match configured {
            Some(u) => u@,
            None => "https://aruaru.pro"@,
        },
{
    match configured {
        Some(u) => u,
        None => String::from_str("https://aruaru.pro"),
    }
}

/// Where a provider sends the browser back after sign-in.
pub open spec fn redirect_uri_text(base_url: Seq<char>, provider: Provider) -> Seq<char> {
    base_url + "/auth/oauth/"@ + provider.name() + "/callback"@
}

pub fn redirect_uri(base_url: &str, provider: Provider) -> (r: String)
    ensures
        r@ == redirect_uri_text(base_url@, provider),
{
    let mut r = concat3(base_url, "/auth/oauth/", provider.as_str());
    r.append("/callback");
    r
}

// ---------------------------------------------------------------------------
// Query strings

/// The raw value of `key` in the `&`-separated pairs: the text after the first
/// `=` of the first pair whose text before its first `=` (or all of it) is
/// `key`; the empty text where that pair has no `=`.
pub open spec fn query_lookup(pairs: Seq<Seq<char>>, key: Seq<char>) -> Option<Seq<char>>
    decreases pairs.len(),
{
    if pairs.len() == 0 {
        None
    } else {
        let p = pairs[0];
        let (k, v) = match first_index_of(p, '=') {
            Some(i) => (p.take(i), p.skip(i + 1)),
            None => (p, Seq::<char>::empty()),
        };
        if k == key {
            Some(v)
        } else {
            query_lookup(pairs.drop_first(), key)
        }
    }
}

/// The raw (still percent-encoded) value of `key` in a query string.
pub open spec fn query_raw_value(query: Seq<char>, key: Seq<char>) -> Option<Seq<char>> {
    query_lookup(split_on(query, '&'), key)
}

/// The raw (still percent-encoded) value of `key` in a query string.
pub fn query_raw_param(query: &str, key: &str) -> (r: Option<String>)
    ensures
        r matches Some(v) ==> query_raw_value(query@, key@) == Some(v@),
        r is None ==> query_raw_value(query@, key@) is None,
{
    let cs = chars_of(query);
    let pairs = split_chars(cs.as_slice(), '&');
    let ghost all = split_on(query@, '&');
    let mut i: usize = 0;
    assert(all.skip(0) =~= all);
    while i < pairs.len()
        invariant
            i <= pairs@.len(),
            pairs@.len() == all.len(),
            all == split_on(query@, '&'),
            forall|j: int| 0 <= j < pairs@.len() ==> #[trigger] pairs@[j]@ == all[j],
            query_lookup(all, key@) == query_lookup(all.skip(i as int), key@),
        decreases pairs@.len() - i,
    {
        let ghost rest = all.skip(i as int);
        assert(rest[0] == all[i as int]);
        assert(rest.drop_first() =~= all.skip(i + 1));
        let pair = pairs[i].as_slice();
        proof { lemma_first_index_of(pair@, '='); }
        let (k, v) = match find_char(pair, '=') {
            Some(at) => (slice_chars(pair, 0, at), slice_chars(pair, at + 1, pair.len())),
            None => (slice_chars(pair, 0, pair.len()), Vec::new()),
        };
        assert(k@ == pair@.take(pair@.len() as int) ==> k@ == pair@);
        let k_text = string_of(k.as_slice());
        if same_text(k_text.as_str(), key) {
            assert(v@ =~= match first_index_of(pair@, '=') {
                Some(at) => pair@.skip(at + 1),
                None => Seq::<char>::empty(),
            });
            assert(query_lookup(rest, key@) == Some(v@));
            return Some(string_of(v.as_slice()));
        }
        i += 1;
    }
    None
}

/// The decoded value of `key` in a query string.
pub fn query_param(query: &str, key: &str) -> (r: Option<String>)
    requires
        query_raw_value(query@, key@) matches Some(v) ==> percent_decodes(encode_utf8(v)),
    ensures
        r matches Some(v) ==> query_raw_value(query@, key@) matches Some(raw) && v@ == url_decoded(raw),
        r is None ==> query_raw_value(query@, key@) is None,
{
    match query_raw_param(query, key) {
        Some(raw) => Some(urlencoding_decode(raw.as_str())),
        None => None,
    }
}

// ---------------------------------------------------------------------------
// The sign-in flow

/// How long a sign-in may take between start and callback, in seconds.
pub const PENDING_STATE_MAX_AGE_SECONDS: i64 = 15 * 60;

/// Whether a sign-in started at `created_at` has expired at `now`.
pub fn pending_state_is_expired(now: i64, created_at: i64) -> (r: bool)
    requires
        i64::MIN <= now - created_at <= i64::MAX,
    ensures
        r == has_expired(now, created_at, PENDING_STATE_MAX_AGE_SECONDS),
{
    now - created_at > PENDING_STATE_MAX_AGE_SECONDS
}

/// Sign-ins started before this time have expired and can be removed.
pub fn pending_state_cutoff(now: i64) -> (r: i64)
    requires
        now - PENDING_STATE_MAX_AGE_SECONDS >= i64::MIN,
    ensures
        r == now - PENDING_STATE_MAX_AGE_SECONDS,
{
    now - PENDING_STATE_MAX_AGE_SECONDS
}

/// The role a sign-in asks for: the `role` query value, `buyer` where there is
/// none; 422 where it is not one of the four roles.
pub fn start_role(requested: Option<String>) -> (r: Result<String, Rejection>)
    ensures
        ({
            let role = match requested {
                Some(q) => q@,
                None => "buyer"@,
            };
            &&& r matches Ok(x) ==> x@ == role && is_role(role)
            &&& r matches Err(e) ==> !is_role(role) && e.status == UNPROCESSABLE_ENTITY
                && e.message@ == unknown_role_message(role)
            &&& r is Ok <==> is_role(role)
        }),
{
    let role = match requested {
        Some(q) => q,
        None => String::from_str("buyer"),
    };
    if is_known_role(role.as_str()) {
        Ok(role)
    } else {
        Err(unknown_role(role.as_str()))
    }
}

/// The provider's authorization URL that a sign-in sends the browser to.
pub open spec fn authorize_url_text(
    provider: Provider,
    client_id: Seq<char>,
    redirect: Seq<char>,
    state: Seq<char>,
    challenge: Option<Seq<char>>,
) -> Seq<char> {
    let base = provider.authorize_endpoint_text() + "?client_id="@ + url_encoded(client_id)
        + "&redirect_uri="@ + url_encoded(redirect) + "&response_type=code&scope="@ + url_encoded(
        provider.scope_text(),
    ) + "&state="@ + url_encoded(state);
    match challenge {
        Some(c) => base + "&code_challenge="@ + url_encoded(c) + "&code_challenge_method=S256"@,
        None => base,
    }
}

fn push_text(out: &mut Vec<char>, s: &str)
    ensures
        final(out)@ == old(out)@ + s@,
{
    let cs = chars_of(s);
    append_chars(out, cs.as_slice());
}

pub fn authorize_url(
    provider: Provider,
    client_id: &str,
    redirect: &str,
    state: &str,
    challenge: Option<&str>,
) -> (r: String)
    ensures
        r@ == authorize_url_text(
            provider,
            client_id@,
            redirect@,
            state@,
            match challenge {
                Some(c) => Some(c@),
                None => None,
            },
        ),
{
    let mut out: Vec<char> = Vec::new();
    push_text(&mut out, provider.authorize_endpoint());
    push_text(&mut out, "?client_id=");
    push_text(&mut out, urlencoding_encode(client_id).as_str());
    push_text(&mut out, "&redirect_uri=");
    push_text(&mut out, urlencoding_encode(redirect).as_str());
    push_text(&mut out, "&response_type=code&scope=");
    push_text(&mut out, urlencoding_encode(provider.scope()).as_str());
    push_text(&mut out, "&state=");
    push_text(&mut out, urlencoding_encode(state).as_str());
    if let Some(c) = challenge {
        push_text(&mut out, "&code_challenge=");
        push_text(&mut out, urlencoding_encode(c).as_str());
        push_text(&mut out, "&code_challenge_method=S256");
    }
    string_of(out.as_slice())
}

/// The name to record for a user: the provider's, else the provider's default.
pub fn display_name(provider: Provider, name: Option<String>) -> (r: String)
    ensures
        r@ == match name {
            Some(n) => n@,
            None => provider.default_user_name(),
        },
{
    match name {
        Some(n) => n,
        None => String::from_str(provider.default_name()),
    }
}

/// The id of a user first signed in through a provider: from the provider's
/// name and the provider's subject id, fallback prefix `user`.
pub fn oauth_user_id(provider: Provider, subject: &str) -> (id: String)
    ensures
        id@ == id_of(seq![provider.name(), subject@], "user"@),
{
    let parts: [&str; 2] = [provider.as_str(), subject];
    assert(texts_of(parts@) =~= seq![provider.name(), subject@]);
    make_id(&parts, "user")
}


/// What the sign-in callback learned at its last step.
#[derive(Debug)]
pub enum CallbackEvent {
    /// The `code` and `state` query values, where present.
    QueryRead { code: Option<String>, state: Option<String> },
    /// Whether the stored sign-in for the state was found, unused and fresh.
    StateLooked { usable: bool },
    /// The provider's answer to the code exchange: an access token or an error text.
    TokenExchanged(Result<String, String>),
    /// Whether the user's identity was read, or the error text.
    IdentityFetched(Result<(), String>),
}

/// What the sign-in callback does next.
#[derive(Debug)]
pub enum CallbackAction {
    /// Take the stored sign-in for `state` (once) and check its age.
    LookUpState { code: String, state: String },
    /// Exchange the code for an access token.
    ExchangeCode,
    /// Read the user's identity with this access token.
    FetchIdentity(String),
    /// Find or create the user and start a session.
    StoreUser,
    /// Answer with this refusal and stop.
    Refuse(Rejection),
}

pub open spec fn replayed_state_message() -> Seq<char> {
    "unknown, expired, or already-used state (possible CSRF or replay)"@
}

/// One step of the sign-in callback: a missing `code` or `state` is refused
/// with 400 before anything else; a state that is unknown, expired or used is
/// refused with 400 before any token exchange; a failed token exchange or
/// identity read is refused with 502 and the provider's error text.
pub fn callback_step(event: CallbackEvent) -> (a: CallbackAction)
    ensures
        match event {
            CallbackEvent::QueryRead { code, state } => match (code, state) {
                (None, _) => a matches CallbackAction::Refuse(e) && e@ == (BAD_REQUEST, "missing code"@),
                (Some(_), None) => a matches CallbackAction::Refuse(e) && e@ == (BAD_REQUEST, "missing state"@),
                (Some(c), Some(s)) => a matches CallbackAction::LookUpState { code, state } && code@ == c@
                    && state@ == s@,
            },
            CallbackEvent::StateLooked { usable } => if usable {
                a is ExchangeCode
            } else {
                a matches CallbackAction::Refuse(e) && e@ == (BAD_REQUEST, replayed_state_message())
            },
            CallbackEvent::TokenExchanged(result) => match result {
                Ok(t) => a matches CallbackAction::FetchIdentity(x) && x@ == t@,
                Err(m) => a matches CallbackAction::Refuse(e) && e@ == (BAD_GATEWAY, m@),
            },
            CallbackEvent::IdentityFetched(result) => match result {
                Ok(_) => a is StoreUser,
                Err(m) => a matches CallbackAction::Refuse(e) && e@ == (BAD_GATEWAY, m@),
            },
        },
{
    match event {
        CallbackEvent::QueryRead { code, state } => match code {
            None => CallbackAction::Refuse(Rejection::new(BAD_REQUEST, "missing code")),
            Some(code) => match state {
                None => CallbackAction::Refuse(Rejection::new(BAD_REQUEST, "missing state")),
                Some(state) => CallbackAction::LookUpState { code, state },
            },
        },
        CallbackEvent::StateLooked { usable } => {
            if usable {
                CallbackAction::ExchangeCode
            } else {
                CallbackAction::Refuse(
                    Rejection::new(BAD_REQUEST, "unknown, expired, or already-used state (possible CSRF or replay)"),
                )
            }
        },
        CallbackEvent::TokenExchanged(result) => match result {
            Ok(t) => CallbackAction::FetchIdentity(t),
            Err(m) => CallbackAction::Refuse(Rejection { status: BAD_GATEWAY, message: m }),
        },
        CallbackEvent::IdentityFetched(result) => match result {
            Ok(_) => CallbackAction::StoreUser,
            Err(m) => CallbackAction::Refuse(Rejection { status: BAD_GATEWAY, message: m }),
        },
    }
}

/// Different random bytes give different PKCE verifiers: a verifier is the
/// hex text of its two tokens' bytes, and hex text determines its bytes.
pub proof fn law_distinct_bytes_give_distinct_verifiers(a1: Seq<u8>, b1: Seq<u8>, a2: Seq<u8>, b2: Seq<u8>)
    requires
        a1.len() == TOKEN_BYTES,
        b1.len() == TOKEN_BYTES,
        a2.len() == TOKEN_BYTES,
        b2.len() == TOKEN_BYTES,
        a1 != a2 || b1 != b2,
    ensures
        hex_of_bytes(a1) + hex_of_bytes(b1) != hex_of_bytes(a2) + hex_of_bytes(b2),
{
    lemma_hex_of_bytes_len(a1);
    lemma_hex_of_bytes_len(b1);
    lemma_hex_of_bytes_len(a2);
    lemma_hex_of_bytes_len(b2);
    let v1 = hex_of_bytes(a1) + hex_of_bytes(b1);
    let v2 = hex_of_bytes(a2) + hex_of_bytes(b2);
    if v1 == v2 {
        assert(v1.subrange(0, 32) =~= hex_of_bytes(a1));
        assert(v2.subrange(0, 32) =~= hex_of_bytes(a2));
        assert(v1.subrange(32, 64) =~= hex_of_bytes(b1));
        assert(v2.subrange(32, 64) =~= hex_of_bytes(b2));
        law_hex_of_bytes_injective(a1, a2);
        law_hex_of_bytes_injective(b1, b2);
    }
}


/// What each provider is asked for at sign-in: Google the OpenID profile and
/// e-mail, Facebook the e-mail and public profile, X reading posts and users
/// (needed for the identity read at `/2/users/me`) with offline access; and
/// the authorization URL carries exactly that scope, percent-encoded.
pub proof fn law_each_provider_asks_for_its_scope(
    p: Provider,
    client_id: Seq<char>,
    redirect: Seq<char>,
    state: Seq<char>,
)
    ensures
        p is Google ==> p.scope_text() == "openid email profile"@,
        p is Facebook ==> p.scope_text() == "email public_profile"@,
        p is X ==> p.scope_text() == "tweet.read users.read offline.access"@,
        p is X ==> authorize_url_text(p, client_id, redirect, state, None) == "https://twitter.com/i/oauth2/authorize"@
            + "?client_id="@ + url_encoded(client_id) + "&redirect_uri="@ + url_encoded(redirect)
            + "&response_type=code&scope="@ + url_encoded("tweet.read users.read offline.access"@) + "&state="@
            + url_encoded(state),
        p is Facebook ==> authorize_url_text(p, client_id, redirect, state, None)
            == "https://www.facebook.com/v19.0/dialog/oauth"@ + "?client_id="@ + url_encoded(client_id)
            + "&redirect_uri="@ + url_encoded(redirect) + "&response_type=code&scope="@ + url_encoded(
            "email public_profile"@,
        ) + "&state="@ + url_encoded(state),
{
}

} // verus!
