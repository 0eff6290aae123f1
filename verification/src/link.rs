//! Secrets and links: a fresh secret for each grant, the hex blob that a
//! proxy client expects, and the link that carries it.

use crate::decimal::digit_char;
use crate::decimal::digit_value;
use crate::decimal::nat_decimal;
use crate::decimal::push_u64_decimal;
use crate::telemt_cfg::LinkParamsView;
use crate::telemt_cfg::TelemtLinkParams;
use vstd::prelude::*;
use vstd::string::StringExecFns;
use vstd::utf8::encode_utf8;

verus! {

/// The byte that opens a fake-TLS secret.
pub const FAKE_TLS_MARKER: u8 = 0xee;

/// Bytes in a user's secret.
pub const USER_SECRET_BYTES: usize = 16;

/// The lowercase hex digit of `n`.
pub open spec fn hex_digit(n: int) -> char
    recommends
        0 <= n < 16,
{
    if n < 10 {
        digit_char(n)
    } else if n == 10 {
        'a'
    } else if n == 11 {
        'b'
    } else if n == 12 {
        'c'
    } else if n == 13 {
        'd'
    } else if n == 14 {
        'e'
    } else {
        'f'
    }
}

/// The number that the hex digit `c` writes, in either case, or -1 where `c`
/// is no hex digit.
pub open spec fn hex_value(c: char) -> int {
    if digit_value(c) >= 0 {
        digit_value(c)
    } else if c == 'a' || c == 'A' {
        10
    } else if c == 'b' || c == 'B' {
        11
    } else if c == 'c' || c == 'C' {
        12
    } else if c == 'd' || c == 'D' {
        13
    } else if c == 'e' || c == 'E' {
        14
    } else if c == 'f' || c == 'F' {
        15
    } else {
        -1
    }
}

/// Two lowercase hex digits for each byte, the high half first.
pub open spec fn hex_encoding(bytes: Seq<u8>) -> Seq<char> {
    Seq::new(
        2 * bytes.len(),
        |i: int|
            if i % 2 == 0 {
                hex_digit(bytes[i / 2] as int / 16)
            } else {
                hex_digit(bytes[i / 2] as int % 16)
            },
    )
}

/// Whether `text` is hex digits, two for each byte.
pub open spec fn is_hex_text(text: Seq<char>) -> bool {
    &&& text.len() % 2 == 0
    &&& forall|i: int| 0 <= i < text.len() ==> hex_value(#[trigger] text[i]) >= 0
}

/// The bytes that `text` writes in hex, where it is hex.
pub open spec fn hex_decoding(text: Seq<char>) -> Option<Seq<u8>> {
    if is_hex_text(text) {
        Some(
            Seq::new(
                text.len() / 2,
                |i: int| (hex_value(text[2 * i]) * 16 + hex_value(text[2 * i + 1])) as u8,
            ),
        )
    } else {
        None
    }
}

/// Whether `text` is a user's secret as it is stored and handed out: 32
/// lowercase hex digits.
pub open spec fn is_user_secret(text: Seq<char>) -> bool {
    exists|bytes: Seq<u8>| bytes.len() == USER_SECRET_BYTES && text == hex_encoding(bytes)
}

/// The fake-TLS secret of a user's secret and a domain: `ee`, the secret as
/// it stands, and the domain's UTF-8 bytes in hex, with nothing between.
pub open spec fn fake_tls_secret_spec(user_secret: Seq<char>, tls_domain: Seq<char>) -> Seq<char> {
    seq!['e', 'e'] + user_secret + hex_encoding(encode_utf8(tls_domain))
}

/// The link that hands a client the proxy's host, its port and the fake-TLS
/// secret.
pub open spec fn proxy_link_spec(params: LinkParamsView, user_secret: Seq<char>) -> Seq<char> {
    "tg://proxy?server="@ + params.host + "&port="@ + nat_decimal(params.port as nat) + "&secret="@
        + fake_tls_secret_spec(user_secret, params.tls_domain)
}

/// What a fake-TLS secret holds once its hex is undone.
pub ghost struct FakeTlsParts {
    pub marker: u8,
    pub secret: Seq<u8>,
    pub domain: Seq<u8>,
}

/// Undoes the hex of a fake-TLS secret and parts the bytes: the marker, the
/// 16 bytes of the user's secret, and the rest.
pub open spec fn fake_tls_parts(blob: Seq<char>) -> Option<FakeTlsParts> {
    match hex_decoding(blob) {
        Some(bytes) => if bytes.len() >= 1 + USER_SECRET_BYTES {
            Some(
                FakeTlsParts {
                    marker: bytes[0],
                    secret: bytes.subrange(1, 1 + USER_SECRET_BYTES as int),
                    domain: bytes.subrange(1 + USER_SECRET_BYTES as int, bytes.len() as int),
                },
            )
        } else {
            None
        },
        None => None,
    }
}

pub proof fn lemma_hex_digit_round_trip(n: int)
    requires
        0 <= n < 16,
    ensures
        hex_value(hex_digit(n)) == n,
{
}

/// The hex of two runs of bytes, one after the other, is the hex of the
/// first and then the hex of the second.
pub proof fn lemma_hex_encoding_concat(a: Seq<u8>, b: Seq<u8>)
    ensures
        hex_encoding(a + b) == hex_encoding(a) + hex_encoding(b),
{
    let left = hex_encoding(a + b);
    let right = hex_encoding(a) + hex_encoding(b);
    assert(left.len() == right.len());
    assert forall|i: int| 0 <= i < left.len() implies left[i] == right[i] by {
        if i < 2 * a.len() {
            assert((a + b)[i / 2] == a[i / 2]);
        } else {
            let j = i - 2 * a.len();
            assert(j / 2 == i / 2 - a.len());
            assert(j % 2 == i % 2);
            assert((a + b)[i / 2] == b[j / 2]);
            assert(right[i] == hex_encoding(b)[j]);
        }
    }
    assert(left =~= right);
}

/// Undoing the hex of bytes gives the bytes back.
pub proof fn lemma_hex_round_trip(bytes: Seq<u8>)
    ensures
        is_hex_text(hex_encoding(bytes)),
        hex_decoding(hex_encoding(bytes)) == Some(bytes),
{
    let text = hex_encoding(bytes);
    assert forall|i: int| 0 <= i < text.len() implies hex_value(#[trigger] text[i]) >= 0 by {
        let b = bytes[i / 2] as int;
        lemma_hex_digit_round_trip(b / 16);
        lemma_hex_digit_round_trip(b % 16);
    }
    let back = hex_decoding(text)->0;
    assert(back.len() == bytes.len());
    assert forall|k: int| 0 <= k < bytes.len() implies back[k] == bytes[k] by {
        let b = bytes[k] as int;
        assert((2 * k) / 2 == k && (2 * k) % 2 == 0);
        assert((2 * k + 1) / 2 == k && (2 * k + 1) % 2 == 1);
        lemma_hex_digit_round_trip(b / 16);
        lemma_hex_digit_round_trip(b % 16);
        assert(text[2 * k] == hex_digit(b / 16));
        assert(text[2 * k + 1] == hex_digit(b % 16));
        assert((b / 16) * 16 + b % 16 == b);
    }
    assert(back =~= bytes);
}

/// A fake-TLS secret built from the hex of a secret is the hex of the whole
/// blob: the marker byte, the secret's bytes, and the UTF-8 bytes of the
/// domain.
pub proof fn lemma_fake_tls_is_hex_of_blob(secret: Seq<u8>, tls_domain: Seq<char>)
    ensures
        fake_tls_secret_spec(hex_encoding(secret), tls_domain) == hex_encoding(
            seq![FAKE_TLS_MARKER] + secret + encode_utf8(tls_domain),
        ),
{
    let marker = seq![FAKE_TLS_MARKER];
    assert(hex_encoding(marker) =~= seq!['e', 'e']);
    lemma_hex_encoding_concat(marker, secret);
    lemma_hex_encoding_concat(marker + secret, encode_utf8(tls_domain));
}

/// A fake-TLS secret built from the hex of a 16-byte secret decodes to the
/// marker byte, those 16 bytes, and the UTF-8 bytes of the domain.
pub proof fn lemma_fake_tls_round_trip(secret: Seq<u8>, tls_domain: Seq<char>)
    requires
        secret.len() == USER_SECRET_BYTES,
    ensures
        fake_tls_parts(fake_tls_secret_spec(hex_encoding(secret), tls_domain)) == Some(
            FakeTlsParts {
                marker: FAKE_TLS_MARKER,
                secret: secret,
                domain: encode_utf8(tls_domain),
            },
        ),
{
    let domain = encode_utf8(tls_domain);
    let bytes = seq![FAKE_TLS_MARKER] + secret + domain;
    lemma_fake_tls_is_hex_of_blob(secret, tls_domain);
    lemma_hex_round_trip(bytes);
    assert(bytes[0] == FAKE_TLS_MARKER);
    assert(bytes.subrange(1, 1 + USER_SECRET_BYTES as int) =~= secret);
    assert(bytes.subrange(1 + USER_SECRET_BYTES as int, bytes.len() as int) =~= domain);
}

/// A user's secret is 32 characters, each a lowercase hex digit.
pub proof fn lemma_user_secret_shape(text: Seq<char>)
    requires
        is_user_secret(text),
    ensures
        text.len() == 32,
        forall|i: int| 0 <= i < text.len() ==> 0 <= hex_value(#[trigger] text[i]) < 16,
        forall|i: int| 0 <= i < text.len() ==> text[i] == hex_digit(hex_value(#[trigger] text[i])),
{
    let bytes = choose|bytes: Seq<u8>| bytes.len() == USER_SECRET_BYTES && text == hex_encoding(bytes);
    assert forall|i: int| 0 <= i < text.len() implies 0 <= hex_value(#[trigger] text[i]) < 16
        && text[i] == hex_digit(hex_value(text[i])) by {
        let b = bytes[i / 2] as int;
        lemma_hex_digit_round_trip(b / 16);
        lemma_hex_digit_round_trip(b % 16);
    }
}

/// Calls `rand::rng` and `RngCore::fill_bytes` on 16 zeroed bytes. Which
/// bytes come back is left open: the contract states their number only.
/// `rand::rng` panics where the system's entropy source cannot be read.
#[verifier::external_body]
fn random_secret_bytes() -> (bytes: Vec<u8>)
    ensures
        bytes@.len() == USER_SECRET_BYTES,
{
    let mut bytes = [0u8; 16];
    rand::RngCore::fill_bytes(&mut rand::rng(), &mut bytes);
    bytes.to_vec()
}

/// Calls `hex::encode`: each byte becomes two lowercase hex digits, the high
/// half first, in the order of the bytes.
#[verifier::external_body]
fn hex_encode(data: &[u8]) -> (text: String)
    ensures
        text@ == hex_encoding(data@),
{
    hex::encode(data)
}

/// A fresh secret for one user: 16 random bytes in hex.
pub fn generate_user_secret() -> (secret: String)
    ensures
        is_user_secret(secret@),
{
    let bytes = random_secret_bytes();
    hex_encode(bytes.as_slice())
}

/// The fake-TLS secret for `user_secret` and `tls_domain`.
pub fn build_fake_tls_secret(user_secret: &str, tls_domain: &str) -> (res: String)
    ensures
        res@ == fake_tls_secret_spec(user_secret@, tls_domain@),
{
    let domain_hex = hex_encode(tls_domain.as_bytes());
    let mut s = String::new();
    proof {
        reveal_strlit("ee");
    }
    s.append("ee");
    s.append(user_secret);
    s.append(domain_hex.as_str());
    assert(s@ =~= fake_tls_secret_spec(user_secret@, tls_domain@));
    s
}

#[verifier::external_type_specification]
#[verifier::external_body]
pub struct ExFmtError(std::fmt::Error);

/// The `tg://proxy` link for a user's secret. It is always `Ok`.
pub fn build_proxy_link(params: &TelemtLinkParams, user_secret: &str) -> (res: Result<
    String,
    std::fmt::Error,
>)
    ensures
        res matches Ok(link) && link@ == proxy_link_spec(params@, user_secret@),
{
    let secret = build_fake_tls_secret(user_secret, params.tls_domain.as_str());
    let mut url = String::new();
    url.append("tg://proxy?server=");
    url.append(params.host.as_str());
    url.append("&port=");
    push_u64_decimal(&mut url, params.port as u64);
    url.append("&secret=");
    url.append(secret.as_str());
    assert(url@ =~= proxy_link_spec(params@, user_secret@));
    Ok(url)
}

} // verus!
