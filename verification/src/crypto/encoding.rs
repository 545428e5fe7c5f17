//! Hex and URL-safe base64 text encodings of bytes, and HMAC-SHA256.

use vstd::prelude::*;

use hmac::Mac;

verus! {

/// The lowercase hex digit of a value below sixteen.
pub open spec fn hex_digit(v: nat) -> char {
    if v < 10 {
        ((v + 48) as u8) as char
    } else {
        ((v - 10 + 97) as u8) as char
    }
}

/// The value of a hex digit of either case.
pub open spec fn hex_value(c: char) -> Option<nat> {
    let n = c as u32;
    if 48 <= n && n <= 57 {
        Some((n - 48) as nat)
    } else if 97 <= n && n <= 102 {
        Some((n - 87) as nat)
    } else if 65 <= n && n <= 70 {
        Some((n - 55) as nat)
    } else {
        None
    }
}

/// Lowercase hex: two digits per byte, high nibble first.
pub open spec fn spec_hex_encode(b: Seq<u8>) -> Seq<char> {
    Seq::new(2 * b.len(), |i: int| if i % 2 == 0 { hex_digit((b[i / 2] / 16) as nat) } else { hex_digit((b[i / 2] % 16) as nat) })
}

/// The bytes written by a hex text of even length with digits of either case.
pub open spec fn spec_hex_decode(s: Seq<char>) -> Option<Seq<u8>> {
    if s.len() % 2 == 0 && forall|i: int| 0 <= i < s.len() ==> (#[trigger] hex_value(s[i])) is Some {
        Some(Seq::new((s.len() / 2) as nat, |i: int| (hex_value(s[2 * i]).unwrap() * 16 + hex_value(s[2 * i + 1]).unwrap()) as u8))
    } else {
        None
    }
}

/// Decoding the hex encoding of bytes gives the bytes back.
pub proof fn lemma_hex_roundtrip(b: Seq<u8>)
    ensures
        spec_hex_decode(spec_hex_encode(b)) == Some(b),
{
    let s = spec_hex_encode(b);
    assert forall|i: int| 0 <= i < s.len() implies (#[trigger] hex_value(s[i])) is Some && hex_value(s[i]).unwrap() == if i % 2 == 0 { (b[i / 2] / 16) as nat } else { (b[i / 2] % 16) as nat } by {
        let v: nat = if i % 2 == 0 { (b[i / 2] / 16) as nat } else { (b[i / 2] % 16) as nat };
        assert(v < 16);
        assert(s[i] == hex_digit(v));
    }
    assert forall|i: int| 0 <= i < b.len() implies (hex_value(s[2 * i]).unwrap() * 16 + hex_value(s[2 * i + 1]).unwrap()) as u8 == #[trigger] b[i] by {
        assert((2 * i) % 2 == 0 && (2 * i) / 2 == i);
        assert((2 * i + 1) % 2 == 1 && (2 * i + 1) / 2 == i);
        assert(hex_value(s[2 * i]).unwrap() == (b[i] / 16) as nat);
        assert(hex_value(s[2 * i + 1]).unwrap() == (b[i] % 16) as nat);
    }
    assert(spec_hex_decode(s).unwrap() =~= b);
}

/// Calls `hex::encode`, which writes each byte as two lowercase hex digits, high
/// nibble first.
#[verifier::external_body]
pub(crate) fn hex_encode(data: &[u8]) -> (s: String)
    ensures
        s@ == spec_hex_encode(data@),
{
    hex::encode(data)
}

/// Calls `hex::decode`, which accepts an even number of hex digits of either case
/// and fails on anything else.
#[verifier::external_body]
pub(crate) fn hex_decode(s: &str) -> (r: Option<Vec<u8>>)
    ensures
        match r {
            Some(v) => spec_hex_decode(s@) == Some(v@),
            None => spec_hex_decode(s@) is None,
        },
{
    hex::decode(s).ok()
}

/// The HMAC-SHA256 tag of `data` under `key`.
pub uninterp spec fn spec_hmac_sha256(key: Seq<u8>, data: Seq<u8>) -> Seq<u8>;

/// Computes HMAC-SHA256 with the `hmac` and `sha2` crates (`Mac::new_from_slice`,
/// `update`, `finalize`). The tag is a function of key and data, 32 bytes long;
/// HMAC accepts keys of any length, so the key never fails.
#[verifier::external_body]
pub(crate) fn hmac_sha256(key: &[u8], data: &[u8]) -> (tag: Vec<u8>)
    ensures
        tag@ == spec_hmac_sha256(key@, data@),
        tag@.len() == 32,
{
    let mut mac = hmac::Hmac::<sha2::Sha256>::new_from_slice(key).expect("HMAC can take key of any size");
    mac.update(data);
    mac.finalize().into_bytes().to_vec()
}

/// Checks a tag with `Mac::verify_slice`, which compares in constant time and
/// accepts exactly the full 32-byte tag of `data` under `key`.
#[verifier::external_body]
pub(crate) fn hmac_sha256_verify(key: &[u8], data: &[u8], tag: &[u8]) -> (ok: bool)
    ensures
        ok == (tag@ == spec_hmac_sha256(key@, data@)),
{
    let mut mac = hmac::Hmac::<sha2::Sha256>::new_from_slice(key).expect("HMAC can take key of any size");
    mac.update(data);
    mac.verify_slice(tag).is_ok()
}

/// The URL-safe base64 alphabet: A-Z, a-z, 0-9, '-' and '_'.
pub open spec fn b64_char(v: nat) -> char {
    if v < 26 {
        ((v + 65) as u8) as char
    } else if v < 52 {
        ((v - 26 + 97) as u8) as char
    } else if v < 62 {
        ((v - 52 + 48) as u8) as char
    } else if v == 62 {
        '-'
    } else {
        '_'
    }
}

/// URL-safe base64 without padding: each group of three bytes becomes four
/// characters; a final group of two bytes becomes three, of one byte two.
pub open spec fn spec_b64url_encode(b: Seq<u8>) -> Seq<char>
    decreases b.len(),
{
    if b.len() >= 3 {
        seq![
            b64_char((b[0] / 4) as nat),
            b64_char(((b[0] % 4) * 16 + b[1] / 16) as nat),
            b64_char(((b[1] % 16) * 4 + b[2] / 64) as nat),
            b64_char((b[2] % 64) as nat),
        ] + spec_b64url_encode(b.subrange(3, b.len() as int))
    } else if b.len() == 2 {
        seq![
            b64_char((b[0] / 4) as nat),
            b64_char(((b[0] % 4) * 16 + b[1] / 16) as nat),
            b64_char(((b[1] % 16) * 4) as nat),
        ]
    } else if b.len() == 1 {
        seq![b64_char((b[0] / 4) as nat), b64_char(((b[0] % 4) * 16) as nat)]
    } else {
        Seq::empty()
    }
}

/// Distinct six-bit values get distinct characters, and none of them is '.'.
pub proof fn lemma_b64_char_injective(v: nat, w: nat)
    requires
        v < 64,
        w < 64,
    ensures
        b64_char(v) == b64_char(w) ==> v == w,
        b64_char(v) != '.',
{
}

/// Three bytes are determined by the four six-bit groups they are written with.
proof fn lemma_b64_group(a0: u8, a1: u8, a2: u8, b0: u8, b1: u8, b2: u8)
    requires
        a0 / 4 == b0 / 4,
        (a0 % 4) * 16 + a1 / 16 == (b0 % 4) * 16 + b1 / 16,
        (a1 % 16) * 4 + a2 / 64 == (b1 % 16) * 4 + b2 / 64,
        a2 % 64 == b2 % 64,
    ensures
        a0 == b0,
        a1 == b1,
        a2 == b2,
{
    assert(a0 == b0 && a1 == b1 && a2 == b2) by (bit_vector)
        requires
            a0 / 4 == b0 / 4,
            (a0 % 4) * 16 + a1 / 16 == (b0 % 4) * 16 + b1 / 16,
            (a1 % 16) * 4 + a2 / 64 == (b1 % 16) * 4 + b2 / 64,
            a2 % 64 == b2 % 64;
}

/// Two bytes are determined by the three characters they are written with.
proof fn lemma_b64_pair(a0: u8, a1: u8, b0: u8, b1: u8)
    requires
        a0 / 4 == b0 / 4,
        (a0 % 4) * 16 + a1 / 16 == (b0 % 4) * 16 + b1 / 16,
        (a1 % 16) * 4 == (b1 % 16) * 4,
    ensures
        a0 == b0,
        a1 == b1,
{
    assert(a0 == b0 && a1 == b1) by (bit_vector)
        requires
            a0 / 4 == b0 / 4,
            (a0 % 4) * 16 + a1 / 16 == (b0 % 4) * 16 + b1 / 16,
            (a1 % 16) * 4 == (b1 % 16) * 4;
}

/// One byte is determined by the two characters it is written with.
proof fn lemma_b64_single(a0: u8, b0: u8)
    requires
        a0 / 4 == b0 / 4,
        (a0 % 4) * 16 == (b0 % 4) * 16,
    ensures
        a0 == b0,
{
    assert(a0 == b0) by (bit_vector)
        requires
            a0 / 4 == b0 / 4,
            (a0 % 4) * 16 == (b0 % 4) * 16;
}

/// No character of a URL-safe base64 text is '.'.
pub proof fn lemma_b64_no_dot(b: Seq<u8>)
    ensures
        !spec_b64url_encode(b).contains('.'),
    decreases b.len(),
{
    let e = spec_b64url_encode(b);
    if b.len() >= 3 {
        lemma_b64_no_dot(b.subrange(3, b.len() as int));
        lemma_b64_char_injective((b[0] / 4) as nat, 0);
        lemma_b64_char_injective(((b[0] % 4) * 16 + b[1] / 16) as nat, 0);
        lemma_b64_char_injective(((b[1] % 16) * 4 + b[2] / 64) as nat, 0);
        lemma_b64_char_injective((b[2] % 64) as nat, 0);
        let t = spec_b64url_encode(b.subrange(3, b.len() as int));
        assert forall|i: int| 0 <= i < e.len() implies e[i] != '.' by {
            if i >= 4 {
                assert(e[i] == t[i - 4]);
            }
        }
    } else if b.len() == 2 {
        lemma_b64_char_injective((b[0] / 4) as nat, 0);
        lemma_b64_char_injective(((b[0] % 4) * 16 + b[1] / 16) as nat, 0);
        lemma_b64_char_injective(((b[1] % 16) * 4) as nat, 0);
    } else if b.len() == 1 {
        lemma_b64_char_injective((b[0] / 4) as nat, 0);
        lemma_b64_char_injective(((b[0] % 4) * 16) as nat, 0);
    }
}

/// The length of the URL-safe base64 text of `n` bytes.
pub open spec fn b64_len(n: nat) -> nat {
    4 * (n / 3) + if n % 3 == 0 { 0 } else { n % 3 + 1 }
}

proof fn lemma_b64_len(b: Seq<u8>)
    ensures
        spec_b64url_encode(b).len() == b64_len(b.len()),
    decreases b.len(),
{
    if b.len() >= 3 {
        lemma_b64_len(b.subrange(3, b.len() as int));
    }
}

proof fn lemma_b64_len_injective(n: nat, m: nat)
    requires
        b64_len(n) == b64_len(m),
    ensures
        n == m,
{
}

/// Distinct byte sequences have distinct URL-safe base64 texts.
pub proof fn lemma_b64_injective(a: Seq<u8>, b: Seq<u8>)
    requires
        spec_b64url_encode(a) == spec_b64url_encode(b),
    ensures
        a == b,
    decreases a.len(),
{
    let e = spec_b64url_encode(a);
    lemma_b64_len(a);
    lemma_b64_len(b);
    lemma_b64_len_injective(a.len(), b.len());
    if a.len() >= 3 {
        let ta = a.subrange(3, a.len() as int);
        let tb = b.subrange(3, b.len() as int);
        lemma_b64_char_injective((a[0] / 4) as nat, (b[0] / 4) as nat);
        lemma_b64_char_injective(((a[0] % 4) * 16 + a[1] / 16) as nat, ((b[0] % 4) * 16 + b[1] / 16) as nat);
        lemma_b64_char_injective(((a[1] % 16) * 4 + a[2] / 64) as nat, ((b[1] % 16) * 4 + b[2] / 64) as nat);
        lemma_b64_char_injective((a[2] % 64) as nat, (b[2] % 64) as nat);
        assert(e[0] == b64_char((a[0] / 4) as nat) && e[0] == b64_char((b[0] / 4) as nat));
        assert(e[1] == b64_char(((a[0] % 4) * 16 + a[1] / 16) as nat));
        assert(e[1] == b64_char(((b[0] % 4) * 16 + b[1] / 16) as nat));
        assert(e[2] == b64_char(((a[1] % 16) * 4 + a[2] / 64) as nat));
        assert(e[2] == b64_char(((b[1] % 16) * 4 + b[2] / 64) as nat));
        assert(e[3] == b64_char((a[2] % 64) as nat) && e[3] == b64_char((b[2] % 64) as nat));
        lemma_b64_group(a[0], a[1], a[2], b[0], b[1], b[2]);
        assert(spec_b64url_encode(ta) =~= e.skip(4));
        assert(spec_b64url_encode(tb) =~= e.skip(4));
        lemma_b64_injective(ta, tb);
        assert(a =~= b) by {
            assert forall|i: int| 0 <= i < a.len() implies a[i] == b[i] by {
                if i >= 3 {
                    assert(a[i] == ta[i - 3] && b[i] == tb[i - 3]);
                }
            }
        }
    } else if a.len() == 2 {
        lemma_b64_char_injective((a[0] / 4) as nat, (b[0] / 4) as nat);
        lemma_b64_char_injective(((a[0] % 4) * 16 + a[1] / 16) as nat, ((b[0] % 4) * 16 + b[1] / 16) as nat);
        lemma_b64_char_injective(((a[1] % 16) * 4) as nat, ((b[1] % 16) * 4) as nat);
        lemma_b64_pair(a[0], a[1], b[0], b[1]);
        assert(a =~= b);
    } else if a.len() == 1 {
        lemma_b64_char_injective((a[0] / 4) as nat, (b[0] / 4) as nat);
        lemma_b64_char_injective(((a[0] % 4) * 16) as nat, ((b[0] % 4) * 16) as nat);
        lemma_b64_single(a[0], b[0]);
        assert(a =~= b);
    } else {
        assert(a =~= b);
    }
}

/// Calls `base64::engine::general_purpose::URL_SAFE_NO_PAD.encode`.
#[verifier::external_body]
pub(crate) fn b64url_encode(data: &[u8]) -> (s: String)
    ensures
        s@ == spec_b64url_encode(data@),
{
    base64::Engine::encode(&base64::engine::general_purpose::URL_SAFE_NO_PAD, data)
}

/// Calls `base64::engine::general_purpose::URL_SAFE_NO_PAD.decode`. With this
/// engine (no padding accepted, no stray trailing bits), decoding succeeds exactly
/// on the texts that are the encoding of some bytes, and gives those bytes.
#[verifier::external_body]
pub(crate) fn b64url_decode(s: &str) -> (r: Option<Vec<u8>>)
    ensures
        match r {
            Some(v) => spec_b64url_encode(v@) == s@,
            None => forall|b: Seq<u8>| spec_b64url_encode(b) != s@,
        },
{
    base64::Engine::decode(&base64::engine::general_purpose::URL_SAFE_NO_PAD, s).ok()
}

} // verus!
