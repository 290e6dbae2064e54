use vstd::prelude::*;
use crate::models::Config;

verus! {

/// The literal that must open an `Authorization` header.
pub const BEARER_PREFIX: &'static str = "Bearer ";

/// Whether `s` begins with `prefix`.
pub open spec fn has_prefix(s: Seq<char>, prefix: Seq<char>) -> bool {
    prefix.len() <= s.len() && s.subrange(0, prefix.len() as int) == prefix
}

/// The token carried by an `Authorization` header value, if it is well formed.
pub open spec fn token_of(header: Option<Seq<char>>) -> Option<Seq<char>> {
    match header {
        Some(h) => if has_prefix(h, BEARER_PREFIX@) {
            Some(h.subrange(BEARER_PREFIX@.len() as int, h.len() as int))
        } else {
            None
        },
        None => None,
    }
}

/// Whether a request with this `Authorization` header may pass a gated route.
pub open spec fn authorized(header: Option<Seq<char>>, secret: Seq<char>) -> bool {
    token_of(header) == Some(secret)
}

pub open spec fn opt_view(h: Option<&str>) -> Option<Seq<char>> {
    match h {
        Some(s) => Some(s@),
        None => None,
    }
}

/// Character-by-character equality of two strings.
pub fn str_equal(a: &str, b: &str) -> (r: bool)
    ensures
        r == (a@ == b@),
{
    let n = a.unicode_len();
    if n != b.unicode_len() {
        return false;
    }
    let mut i: usize = 0;
    while i < n
        invariant
            n == a@.len(),
            n == b@.len(),
            i <= n,
            a@.subrange(0, i as int) == b@.subrange(0, i as int),
        decreases n - i,
    {
        if a.get_char(i) != b.get_char(i) {
            assert(a@[i as int] != b@[i as int]);
            return false;
        }
        assert(a@.subrange(0, i + 1) == a@.subrange(0, i as int).push(a@[i as int]));
        assert(b@.subrange(0, i + 1) == b@.subrange(0, i as int).push(b@[i as int]));
        i = i + 1;
    }
    assert(a@ == a@.subrange(0, n as int));
    assert(b@ == b@.subrange(0, n as int));
    true
}

/// Whether `s` begins with `prefix`.
pub fn starts_with(s: &str, prefix: &str) -> (r: bool)
    ensures
        r == has_prefix(s@, prefix@),
{
    let n = prefix.unicode_len();
    if n > s.unicode_len() {
        return false;
    }
    let head = s.substring_char(0, n);
    str_equal(head, prefix)
}

/// Extracts the bearer token from an `Authorization` header value.
pub fn get_token<'a>(header: Option<&'a str>) -> (r: Option<&'a str>)
    ensures
        opt_view(r) == token_of(opt_view(header)),
{
    match header {
        Some(h) => {
            if starts_with(h, BEARER_PREFIX) {
                let n = BEARER_PREFIX.unicode_len();
                let len = h.unicode_len();
                Some(h.substring_char(n, len))
            } else {
                None
            }
        },
        None => None,
    }
}

/// Whether a candidate token equals the configured secret exactly.
pub fn token_is_valid(token: &str, config: &Config) -> (r: bool)
    ensures
        r == (token@ == config.auth_token@),
{
    str_equal(token, config.auth_token.as_str())
}

/// The authorization filter: `Ok` lets the request through to its handler,
/// `Err` carries the 401 status that rejects it. The reason for a rejection
/// is never told apart.
pub fn auth(header: Option<&str>, config: &Config) -> (r: Result<(), u16>)
    ensures
        r is Ok <==> authorized(opt_view(header), config.auth_token@),
        r is Err ==> r == Err::<(), u16>(401),
{
    match get_token(header) {
        Some(token) => {
            if token_is_valid(token, config) {
                Ok(())
            } else {
                Err(401)
            }
        },
        None => Err(401),
    }
}

} // verus!
