//! HMAC-SHA256 signing and verification of request payloads.

use vstd::prelude::*;
use vstd::string::StringSliceAdditionalSpecFns;
use vstd::utf8::encode_utf8;

use crate::config::AppConfig;
use crate::crypto::encoding::{
    hex_decode, hex_encode, hmac_sha256, hmac_sha256_verify, lemma_hex_roundtrip, spec_hex_decode,
    spec_hex_encode, spec_hmac_sha256,
};

verus! {

/// The hex signature of `payload` under `secret`.
pub open spec fn signature_of(secret: Seq<u8>, payload: Seq<u8>) -> Seq<char> {
    spec_hex_encode(spec_hmac_sha256(secret, payload))
}

/// `signature` is a valid signature of `payload` under `secret`: it is hex for
/// exactly the HMAC-SHA256 tag.
pub open spec fn signature_valid(secret: Seq<u8>, payload: Seq<u8>, signature: Seq<char>) -> bool {
    spec_hex_decode(signature) == Some(spec_hmac_sha256(secret, payload))
}

/// Cryptographic service for HMAC-SHA256 signing and verification.
pub struct CryptoService {
    secret: Vec<u8>,
}

impl View for CryptoService {
    type V = Seq<u8>;

    /// The secret key.
    closed spec fn view(&self) -> Seq<u8> {
        self.secret@
    }
}

/// The UTF-8 bytes of a string.
pub(crate) fn utf8_bytes(s: &str) -> (b: Vec<u8>)
    ensures
        b@ == s.spec_bytes(),
{
    let bytes = s.as_bytes();
    let mut v: Vec<u8> = Vec::new();
    let mut i: usize = 0;
    while i < bytes.len()
        invariant
            i <= bytes@.len(),
            v@ == bytes@.take(i as int),
        decreases bytes.len() - i,
    {
        v.push(bytes[i]);
        assert(bytes@.take(i + 1) =~= bytes@.take(i as int).push(bytes@[i as int]));
        i = i + 1;
    }
    assert(bytes@.take(i as int) =~= bytes@);
    v
}

impl CryptoService {
    /// Create a CryptoService keyed with the configured payload secret.
    pub fn new(config: &AppConfig) -> (c: Self)
        ensures
            c@ == encode_utf8(config.payload_secret@),
    {
        CryptoService { secret: utf8_bytes(config.payload_secret.as_str()) }
    }

    /// Create a CryptoService with an explicit secret.
    pub fn with_secret(secret: &str) -> (c: Self)
        ensures
            c@ == encode_utf8(secret@),
    {
        CryptoService { secret: utf8_bytes(secret) }
    }

    /// Sign a payload with HMAC-SHA256, as lowercase hex.
    pub fn sign(&self, payload: &[u8]) -> (s: String)
        ensures
            s@ == signature_of(self@, payload@),
    {
        let tag = hmac_sha256(self.secret.as_slice(), payload);
        hex_encode(tag.as_slice())
    }

    /// Verify a payload against a hex HMAC-SHA256 signature (digits of either case).
    pub fn verify(&self, payload: &[u8], signature: &str) -> (ok: bool)
        ensures
            ok == signature_valid(self@, payload@, signature@),
    {
        let decoded = match hex_decode(signature) {
            Some(d) => d,
            None => return false,
        };
        hmac_sha256_verify(self.secret.as_slice(), payload, decoded.as_slice())
    }
}

/// A signature made by `sign` verifies for the same key and payload.
pub proof fn lemma_sign_then_verify(secret: Seq<u8>, payload: Seq<u8>)
    ensures
        signature_valid(secret, payload, signature_of(secret, payload)),
{
    lemma_hex_roundtrip(spec_hmac_sha256(secret, payload));
}

} // verus!
