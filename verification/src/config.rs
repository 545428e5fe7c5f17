//! Application configuration and the defaults used when a setting is absent.

use vstd::prelude::*;

use crate::text::chars_of;

verus! {

/// Application configuration.
#[derive(Debug)]
pub struct AppConfig {
    pub openrouter_api_key: String,
    pub llm_model: String,
    pub llm_base_url: String,
    pub payload_secret: String,
    pub port: u16,
}

/// The value of a character that is an ASCII digit.
pub open spec fn digit_value(c: char) -> Option<nat> {
    if '0' <= c && c <= '9' {
        Some((c as u32 - 48) as nat)
    } else {
        None
    }
}

/// The number written by a sequence of ASCII digits.
pub open spec fn digits_value(d: Seq<char>) -> nat
    decreases d.len(),
{
    if d.len() == 0 {
        0
    } else {
        digits_value(d.drop_last()) * 10 + digit_value(d.last()).unwrap_or(0)
    }
}

/// The text after an optional leading '+'.
pub open spec fn unsigned_part(s: Seq<char>) -> Seq<char> {
    if s.len() > 0 && s[0] == '+' {
        s.drop_first()
    } else {
        s
    }
}

/// Every character is an ASCII digit.
pub open spec fn all_digits(d: Seq<char>) -> bool {
    forall|i: int| 0 <= i < d.len() ==> (#[trigger] digit_value(d[i])) is Some
}

/// How `str::parse::<u16>` reads a text: an optional '+' and then at least one
/// ASCII digit, with a value that fits in 16 bits.
pub open spec fn parse_u16_spec(s: Seq<char>) -> Option<u16> {
    let d = unsigned_part(s);
    if d.len() > 0 && all_digits(d) && digits_value(d) <= 65535 {
        Some(digits_value(d) as u16)
    } else {
        None
    }
}

/// Parse a port number the way `str::parse::<u16>` does.
pub fn parse_u16(s: &str) -> (r: Option<u16>)
    ensures
        r == parse_u16_spec(s@),
{
    let cs = chars_of(s);
    let start: usize = if cs.len() > 0 && cs[0] == '+' { 1 } else { 0 };
    let ghost d = unsigned_part(s@);
    assert(d =~= cs@.skip(start as int));
    if start >= cs.len() {
        return None;
    }
    let mut value: u32 = 0;
    let mut i: usize = start;
    while i < cs.len()
        invariant
            cs@ == s@,
            start <= i <= cs@.len(),
            d == cs@.skip(start as int),
            d == unsigned_part(s@),
            value == digits_value(d.take(i - start)),
            value <= 65535,
            forall|k: int| 0 <= k < i - start ==> (#[trigger] digit_value(d[k])) is Some,
        decreases cs.len() - i,
    {
        let c = cs[i];
        assert(d[i - start] == c);
        assert(d.take(i - start + 1).drop_last() =~= d.take(i - start));
        if !('0' <= c && c <= '9') {
            assert(!all_digits(d)) by {
                assert(digit_value(d[i - start]) is None);
            }
            return None;
        }
        let v = (c as u32) - 48;
        let next = value * 10 + v;
        if next > 65535 {
            proof {
                assert(d.take(i - start + 1).last() == c);
                assert(digits_value(d.take(i - start + 1)) == next);
                if all_digits(d) {
                    lemma_digits_value_prefix(d, i - start + 1);
                }
            }
            return None;
        }
        value = next;
        i = i + 1;
    }
    assert(d.take(i - start) =~= d);
    Some(value as u16)
}

/// A longer prefix of digits is worth at least as much as a shorter one.
proof fn lemma_digits_value_prefix(d: Seq<char>, k: int)
    requires
        0 <= k <= d.len(),
        all_digits(d),
    ensures
        digits_value(d.take(k)) <= digits_value(d),
    decreases d.len() - k,
{
    if k < d.len() {
        lemma_digits_value_prefix(d, k + 1);
        assert(d.take(k + 1).drop_last() =~= d.take(k));
    } else {
        assert(d.take(k) =~= d);
    }
}

impl AppConfig {
    /// Build the configuration from the environment's settings, with defaults for
    /// the absent ones; a port that does not parse as a 16-bit number is 8000.
    pub fn from_env_values(
        openrouter_api_key: Option<String>,
        llm_model: Option<String>,
        llm_base_url: Option<String>,
        payload_secret: Option<String>,
        port: Option<String>,
    ) -> (c: Self)
        ensures
            c.openrouter_api_key@ == (match openrouter_api_key { Some(v) => v@, None => "test-api-key"@ }),
            c.llm_model@ == (match llm_model { Some(v) => v@, None => "poolside/laguna-xs.2:free"@ }),
            c.llm_base_url@ == (match llm_base_url { Some(v) => v@, None => "https://openrouter.ai/api/v1"@ }),
            c.payload_secret@ == (match payload_secret { Some(v) => v@, None => "test-secret"@ }),
            c.port == (match parse_u16_spec(match port { Some(p) => p@, None => "8000"@ }) {
                Some(n) => n,
                None => 8000,
            }),
    {
        let port_text: String = match port {
            Some(p) => p,
            None => "8000".to_owned(),
        };
        AppConfig {
            openrouter_api_key: match openrouter_api_key {
                Some(v) => v,
                None => "test-api-key".to_owned(),
            },
            llm_model: match llm_model {
                Some(v) => v,
                None => "poolside/laguna-xs.2:free".to_owned(),
            },
            llm_base_url: match llm_base_url {
                Some(v) => v,
                None => "https://openrouter.ai/api/v1".to_owned(),
            },
            payload_secret: match payload_secret {
                Some(v) => v,
                None => "test-secret".to_owned(),
            },
            port: match parse_u16(port_text.as_str()) {
                Some(n) => n,
                None => 8000,
            },
        }
    }

    /// Create a test configuration.
    pub fn test_config() -> (c: Self)
        ensures
            c.openrouter_api_key@ == "test-key"@,
            c.llm_model@ == "test-model"@,
            c.llm_base_url@ == "http://localhost:11434/v1"@,
            c.payload_secret@ == "test-secret-key-for-hmac"@,
            c.port == 8000,
    {
        AppConfig {
            openrouter_api_key: "test-key".to_owned(),
            llm_model: "test-model".to_owned(),
            llm_base_url: "http://localhost:11434/v1".to_owned(),
            payload_secret: "test-secret-key-for-hmac".to_owned(),
            port: 8000,
        }
    }
}

} // verus!
