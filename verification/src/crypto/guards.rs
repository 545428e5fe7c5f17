//! The decisions of the request guards: a signed body must carry a valid
//! `X-Signature`, and protected routes need a non-empty authenticated user.

use vstd::prelude::*;

use crate::crypto::service::{signature_valid, CryptoService};
use crate::error::UserIdExtension;

verus! {

/// Whether a request may pass the signature guard: it has an `X-Signature`
/// header and the header is a valid signature of the body.
pub fn signature_accepts(crypto: &CryptoService, signature: Option<&str>, body: &[u8]) -> (ok: bool)
    ensures
        ok == match signature {
            Some(s) => signature_valid(crypto@, body@, s@),
            None => false,
        },
{
    match signature {
        Some(s) => crypto.verify(body, s),
        None => false,
    }
}

/// Whether a request may pass the authenticated-user guard: the user id the
/// signature guard attached is present and not empty.
pub fn user_authenticated(ext: Option<&UserIdExtension>) -> (ok: bool)
    ensures
        ok == match ext {
            Some(e) => e.0@.len() > 0,
            None => false,
        },
{
    match ext {
        Some(e) => e.0.as_str().unicode_len() > 0,
        None => false,
    }
}

/// The string that the JSON object in `body` holds under `key`: `None` when the
/// body is not JSON, is not an object, lacks the key, or holds a non-string there.
pub uninterp spec fn spec_json_str_field(body: Seq<u8>, key: Seq<char>) -> Option<Seq<char>>;

/// Parses `body` with `serde_json::from_slice` into a `serde_json::Value` (`Null`
/// when it does not parse) and reads the string under `key` with `Value::get` and
/// `Value::as_str`. The parse is a function of the bytes alone; the JSON grammar
/// is not restated here.
#[verifier::external_body]
fn json_str_field(body: &[u8], key: &str) -> (r: Option<String>)
    ensures
        match r {
            Some(s) => spec_json_str_field(body@, key@) == Some(s@),
            None => spec_json_str_field(body@, key@) is None,
        },
{
    let value: serde_json::Value = serde_json::from_slice(body).unwrap_or_default();
    value.get(key).and_then(|v| v.as_str()).map(|v| v.to_owned())
}

/// The identity a signed request carries: present exactly when the request has
/// an `X-Signature` header that is a valid signature of the body; it is the
/// body's string field `user_id`, or "" when the body has none.
pub fn signed_identity(crypto: &CryptoService, signature: Option<&str>, body: &[u8]) -> (r: Option<UserIdExtension>)
    ensures
        r is Some <==> (signature matches Some(s) && signature_valid(crypto@, body@, s@)),
        r matches Some(e) ==> e.0@ == (match spec_json_str_field(body@, "user_id"@) {
            Some(u) => u,
            None => ""@,
        }),
{
    if !signature_accepts(crypto, signature, body) {
        return None;
    }
    let user_id = match json_str_field(body, "user_id") {
        Some(u) => u,
        None => {
            proof {
                reveal_strlit("");
            }
            String::new()
        },
    };
    Some(UserIdExtension(user_id))
}

} // verus!
