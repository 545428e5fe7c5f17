//! Short-lived WebSocket tokens. A token is the URL-safe base64 (no padding) of
//! a JSON payload, a '.', and the hex HMAC-SHA256 of the encoded payload's bytes.
//! The payload's JSON form is written and read by the HTTP layer; this module
//! frames and checks the bytes and decides whether a payload is still live.

use vstd::prelude::*;
use vstd::utf8::encode_utf8;

use crate::config::AppConfig;
use crate::crypto::encoding::{
    b64url_decode, b64url_encode, lemma_b64_injective, lemma_b64_no_dot, spec_b64url_encode,
};
use crate::crypto::service::{
    lemma_sign_then_verify, signature_of, signature_valid, utf8_bytes, CryptoService,
};
use crate::text::{chars_of, push_char, push_str, string_of_range};

verus! {

/// The subject used for anonymous WebSocket access.
pub const PUBLIC_SUBJECT: &'static str = "__public__";

/// How long an issued token stays valid, in seconds.
pub const TOKEN_TTL_SECS: u64 = 120;

/// The bytes whose URL-safe base64 text is `s`, if there are any.
pub open spec fn b64url_decoded(s: Seq<char>) -> Option<Seq<u8>> {
    if exists|b: Seq<u8>| spec_b64url_encode(b) == s {
        Some(choose|b: Seq<u8>| spec_b64url_encode(b) == s)
    } else {
        None
    }
}

/// `i` is the position of the first `c` in `s`.
pub open spec fn is_first(s: Seq<char>, c: char, i: int) -> bool {
    &&& 0 <= i < s.len()
    &&& s[i] == c
    &&& forall|j: int| 0 <= j < i ==> s[j] != c
}

/// `s` cut at its first `c`: the text before it and the text after it.
pub open spec fn split_at_first(s: Seq<char>, c: char) -> Option<(Seq<char>, Seq<char>)> {
    if exists|i: int| is_first(s, c, i) {
        let i = choose|i: int| is_first(s, c, i);
        Some((s.take(i), s.skip(i + 1)))
    } else {
        None
    }
}

/// The token that frames `payload` under `secret`.
pub open spec fn sealed(secret: Seq<u8>, payload: Seq<u8>) -> Seq<char> {
    let enc = spec_b64url_encode(payload);
    enc + seq!['.'] + signature_of(secret, encode_utf8(enc))
}

/// The payload that `token` carries under `secret`: present when the token has a
/// '.', the text after the first '.' is a valid signature of the text before
/// it, and that text is URL-safe base64.
pub open spec fn opened(secret: Seq<u8>, token: Seq<char>) -> Option<Seq<u8>> {
    match split_at_first(token, '.') {
        Some((enc, sig)) => if signature_valid(secret, encode_utf8(enc), sig) {
            b64url_decoded(enc)
        } else {
            None
        },
        None => None,
    }
}

/// The subject of a payload that expires at `exp`, when read at time `now`.
pub open spec fn live_subject(sub: Seq<char>, exp: u64, now: u64) -> Option<Seq<char>> {
    if now > exp {
        None
    } else {
        Some(sub)
    }
}

/// Service for creating and checking WebSocket authentication tokens.
pub struct WsTokenService {
    signer: CryptoService,
}

impl View for WsTokenService {
    type V = Seq<u8>;

    /// The HMAC key.
    closed spec fn view(&self) -> Seq<u8> {
        self.signer@
    }
}

impl WsTokenService {
    /// A service keyed with the configured payload secret.
    pub fn new(config: &AppConfig) -> (s: Self)
        ensures
            s@ == encode_utf8(config.payload_secret@),
    {
        WsTokenService { signer: CryptoService::new(config) }
    }

    /// A service with an explicit secret.
    pub fn with_secret(secret: &str) -> (s: Self)
        ensures
            s@ == encode_utf8(secret@),
    {
        WsTokenService { signer: CryptoService::with_secret(secret) }
    }

    /// Frame a payload as a signed token.
    pub fn seal(&self, payload: &[u8]) -> (t: String)
        ensures
            t@ == sealed(self@, payload@),
    {
        let enc = b64url_encode(payload);
        let enc_bytes = utf8_bytes(enc.as_str());
        let sig = self.signer.sign(enc_bytes.as_slice());
        let mut t = enc;
        push_char(&mut t, '.');
        push_str(&mut t, sig.as_str());
        t
    }

    /// The payload a token carries, if its signature checks and it decodes.
    pub fn open(&self, token: &str) -> (r: Option<Vec<u8>>)
        ensures
            match r {
                Some(v) => opened(self@, token@) == Some(v@),
                None => opened(self@, token@) is None,
            },
    {
        let cs = chars_of(token);
        let mut i: usize = 0;
        while i < cs.len() && cs[i] != '.'
            invariant
                cs@ == token@,
                i <= cs@.len(),
                forall|j: int| 0 <= j < i ==> cs@[j] != '.',
            decreases cs.len() - i,
        {
            i = i + 1;
        }
        if i == cs.len() {
            assert(!exists|k: int| is_first(token@, '.', k));
            return None;
        }
        proof {
            assert(is_first(token@, '.', i as int));
            let k = choose|k: int| is_first(token@, '.', k);
            assert(k == i) by {
                if k < i {
                    assert(cs@[k] != '.');
                } else if k > i {
                    assert(token@[i as int] == '.');
                }
            }
        }
        let enc = string_of_range(&cs, 0, i);
        let sig = string_of_range(&cs, i + 1, cs.len());
        assert(enc@ == token@.take(i as int));
        assert(sig@ == token@.skip(i + 1));
        let enc_bytes = utf8_bytes(enc.as_str());
        if !self.signer.verify(enc_bytes.as_slice(), sig.as_str()) {
            return None;
        }
        match b64url_decode(enc.as_str()) {
            Some(v) => {
                proof {
                    let b = choose|b: Seq<u8>| spec_b64url_encode(b) == enc@;
                    lemma_b64_injective(b, v@);
                }
                Some(v)
            },
            None => None,
        }
    }
}

/// A token opens, under the key that sealed it, to exactly the sealed payload.
pub proof fn lemma_open_sealed(secret: Seq<u8>, payload: Seq<u8>)
    ensures
        opened(secret, sealed(secret, payload)) == Some(payload),
{
    let enc = spec_b64url_encode(payload);
    let sig = signature_of(secret, encode_utf8(enc));
    let t = sealed(secret, payload);
    let n = enc.len() as int;
    lemma_b64_no_dot(payload);
    assert(t[n] == '.');
    assert forall|j: int| 0 <= j < n implies t[j] != '.' by {
        assert(t[j] == enc[j]);
    }
    assert(is_first(t, '.', n));
    let k = choose|k: int| is_first(t, '.', k);
    assert(k == n) by {
        if k < n {
            assert(t[k] == enc[k]);
        }
    }
    assert(t.take(n) =~= enc);
    assert(t.skip(n + 1) =~= sig);
    lemma_sign_then_verify(secret, encode_utf8(enc));
    let b = choose|b: Seq<u8>| spec_b64url_encode(b) == enc;
    lemma_b64_injective(b, payload);
}

/// What a token says: whom it is for, when it was issued and when it expires,
/// in seconds since the Unix epoch.
pub struct WsTokenPayload {
    pub sub: String,
    pub iat: u64,
    pub exp: u64,
}

impl WsTokenPayload {
    /// The payload of a token issued at `now` for `user_id`, valid `ttl_secs`.
    pub fn issue(user_id: &str, now: u64, ttl_secs: u64) -> (p: Self)
        requires
            now + ttl_secs <= u64::MAX,
        ensures
            p.sub@ == user_id@,
            p.iat == now,
            p.exp == now + ttl_secs,
    {
        WsTokenPayload { sub: user_id.to_owned(), iat: now, exp: now + ttl_secs }
    }

    /// The subject, unless the payload has expired at `now`.
    pub fn subject_if_live(&self, now: u64) -> (r: Option<String>)
        ensures
            match r {
                Some(s) => live_subject(self.sub@, self.exp, now) == Some(s@),
                None => live_subject(self.sub@, self.exp, now) is None,
            },
    {
        if now > self.exp {
            None
        } else {
            Some(self.sub.clone())
        }
    }
}

/// A payload issued at `now` with `ttl_secs` is live, for its subject, at every
/// time from `now` up to and including `now + ttl_secs`, and at no later time.
pub proof fn lemma_issued_live(sub: Seq<char>, now: u64, ttl_secs: u64, t: u64)
    requires
        now + ttl_secs <= u64::MAX,
    ensures
        now <= t <= now + ttl_secs ==> live_subject(sub, (now + ttl_secs) as u64, t) == Some(sub),
        t > now + ttl_secs ==> live_subject(sub, (now + ttl_secs) as u64, t) is None,
{
}

} // verus!
