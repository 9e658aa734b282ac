//! Seller sign-in: bearer tokens, the signing-key lookup, and the claims a
//! seller token must carry.
use vstd::prelude::*;
use crate::error::ApiError;
use crate::text::{chars_of, concat, has_prefix, is_ascii_ws, owned, strip_prefix, text_eq};

verus! {

/// The Entra tenant whose tokens are accepted.
pub const TENANT: &'static str = "35c6fe40-0ec0-46b6-98c6-213ad4de6650";

/// The application (client) id seller tokens are issued for.
pub const CLIENT: &'static str = "25c704f4-465a-47af-80ab-2c489466b697";

/// The delegated scope a seller token must grant.
pub const API_SCOPE: &'static str = "access_as_user";

/// The sign-in authority the browser uses.
pub const AUTHORITY: &'static str = "https://sociobotcustomers.ciamlogin.com/35c6fe40-0ec0-46b6-98c6-213ad4de6650/";

/// The OpenID discovery document of the tenant.
pub const DISCOVERY: &'static str = "https://sociobotcustomers.ciamlogin.com/35c6fe40-0ec0-46b6-98c6-213ad4de6650/v2.0/.well-known/openid-configuration";

/// How long fetched signing keys are reused, in nanoseconds (one hour).
pub const KEY_CACHE_NS: u64 = 3_600_000_000_000;

/// `w` occurs in `s` at `i` as a whole word: bounded on each side by the
/// ends of `s` or by ASCII whitespace.
pub open spec fn word_at(s: Seq<char>, w: Seq<char>, i: int) -> bool {
    &&& 0 <= i
    &&& i + w.len() <= s.len()
    &&& s.subrange(i, i + w.len()) == w
    &&& (i == 0 || is_ascii_ws(s[i - 1]))
    &&& (i + w.len() == s.len() || is_ascii_ws(s[i + w.len()]))
}

/// `w` is one of the ASCII-whitespace-separated words of `s`.
pub open spec fn has_word(s: Seq<char>, w: Seq<char>) -> bool {
    exists|i: int| word_at(s, w, i)
}

/// `w` holds no ASCII whitespace.
pub open spec fn no_ascii_ws(w: Seq<char>) -> bool {
    forall|m: int| 0 <= m < w.len() ==> !is_ascii_ws(#[trigger] w[m])
}

/// A whole word that ends at `j` and holds no whitespace starts where the
/// run of non-whitespace characters before `j` starts.
proof fn lemma_word_starts_at_run(s: Seq<char>, w: Seq<char>, start: int, j: int, i: int)
    requires
        no_ascii_ws(w),
        0 <= start <= j <= s.len(),
        start == 0 || is_ascii_ws(s[start - 1]),
        forall|m: int| start <= m < j ==> !is_ascii_ws(#[trigger] s[m]),
        0 <= i,
        i + w.len() == j,
        s.subrange(i, j) == w,
        i == 0 || is_ascii_ws(s[i - 1]),
    ensures
        i == start,
{
    if i > start {
        assert(!is_ascii_ws(s[i - 1]));
    }
    if i < start {
        assert(s[start - 1] == s.subrange(i, j)[start - 1 - i]);
        assert(!is_ascii_ws(w[start - 1 - i]));
    }
}

/// Whether `v[start..start + w.len()]` equals `w`.
fn matches_at(v: &Vec<char>, start: usize, w: &Vec<char>) -> (r: bool)
    requires
        start <= v@.len(),
    ensures
        r == (start + w@.len() <= v@.len() && v@.subrange(start as int, start + w@.len()) == w@),
{
    if w.len() > v.len() - start {
        return false;
    }
    let mut m: usize = 0;
    while m < w.len()
        invariant
            start + w@.len() <= v@.len(),
            v@.len() <= usize::MAX,
            m <= w@.len(),
            forall|q: int| 0 <= q < m ==> v@[start + q] == w@[q],
        decreases w@.len() - m,
    {
        if v[start + m] != w[m] {
            assert(v@.subrange(start as int, start + w@.len())[m as int] != w@[m as int]);
            return false;
        }
        m = m + 1;
    }
    assert(v@.subrange(start as int, start + w@.len()) =~= w@);
    true
}

/// Whether `w` is one of the ASCII-whitespace-separated words of `s`.
pub fn contains_word(s: &str, w: &str) -> (r: bool)
    requires
        no_ascii_ws(w@),
    ensures
        r == has_word(s@, w@),
{
    let v = chars_of(s);
    let wv = chars_of(w);
    let n = v.len();
    let wl = wv.len();
    let mut start: usize = 0;
    let mut found = false;
    let mut k: usize = 0;
    while k < n
        invariant
            v@ == s@,
            wv@ == w@,
            n == v@.len(),
            wl == w@.len(),
            no_ascii_ws(w@),
            start <= k <= n,
            start == 0 || is_ascii_ws(s@[start - 1]),
            forall|m: int| start <= m < k ==> !is_ascii_ws(#[trigger] s@[m]),
            found == exists|i: int| word_at(s@, w@, i) && i + w@.len() < k,
        decreases n - k,
    {
        let c = v[k];
        if c == ' ' || c == '\t' || c == '\n' || c == '\x0C' || c == '\r' {
            let here = k - start == wl && matches_at(&v, start, &wv);
            proof {
                assert forall|i: int| word_at(s@, w@, i) && i + w@.len() == k implies here by {
                    lemma_word_starts_at_run(s@, w@, start as int, k as int, i);
                }
                if here {
                    assert(word_at(s@, w@, start as int));
                }
            }
            found = found || here;
            start = k + 1;
        }
        k = k + 1;
    }
    let last = n - start == wl && matches_at(&v, start, &wv);
    proof {
        assert forall|i: int| word_at(s@, w@, i) && i + w@.len() == n implies last by {
            lemma_word_starts_at_run(s@, w@, start as int, n as int, i);
        }
        if last {
            assert(word_at(s@, w@, start as int));
        }
    }
    found || last
}

/// The scope name holds no whitespace.
proof fn lemma_api_scope_is_one_word()
    ensures
        no_ascii_ws(API_SCOPE@),
{
    reveal_strlit("access_as_user");
    assert(API_SCOPE@ == "access_as_user"@);
}

/// Whether a token's space-separated `scp` claim grants the product API scope.
pub fn has_api_scope(scopes: &str) -> (r: bool)
    ensures
        r == has_word(scopes@, API_SCOPE@),
{
    proof {
        lemma_api_scope_is_one_word();
    }
    contains_word(scopes, API_SCOPE)
}

/// The claims of a verified seller token that sign-in looks at.
#[derive(Debug, Clone)]
pub struct Claims {
    /// The account's object id.
    pub oid: String,
    /// The tenant id.
    pub tid: String,
    /// The granted scopes, space separated (empty when absent).
    pub scp: String,
}

/// A verified token signs a seller in when it is from the tenant, names an
/// account and grants the product API scope.
pub open spec fn claims_ok(c: Claims) -> bool {
    &&& c.tid@ == TENANT@
    &&& c.oid@.len() > 0
    &&& has_word(c.scp@, API_SCOPE@)
}

/// The seller a verified token signs in: its account id, or `Unauthorized`.
pub fn authorize_claims(c: &Claims) -> (r: Result<String, ApiError>)
    ensures
        claims_ok(*c) ==> (r matches Ok(id) && id@ == c.oid@),
        !claims_ok(*c) ==> r == Err::<String, ApiError>(ApiError::Unauthorized),
{
    if !text_eq(c.tid.as_str(), TENANT) || c.oid.as_str().is_empty() || !has_api_scope(
        c.scp.as_str(),
    ) {
        return Err(ApiError::Unauthorized);
    }
    Ok(c.oid.clone())
}

/// The token of an `Authorization: Bearer <token>` header value.
pub fn bearer_token(authorization: Option<&str>) -> (r: Result<String, ApiError>)
    ensures
        match authorization {
            Some(v) => if has_prefix(v@, "Bearer "@) {
                r matches Ok(t) && t@ == v@.skip("Bearer "@.len() as int)
            } else {
                r == Err::<String, ApiError>(ApiError::Unauthorized)
            },
            None => r == Err::<String, ApiError>(ApiError::Unauthorized),
        },
{
    match authorization {
        Some(v) => match strip_prefix(v, "Bearer ") {
            Some(t) => Ok(t),
            None => Err(ApiError::Unauthorized),
        },
        None => Err(ApiError::Unauthorized),
    }
}

/// The seller a `test-seller:<subject>` token names, when the subject is not
/// empty. Development builds accept such tokens in place of signed ones.
pub fn test_subject(raw: &str) -> (r: Option<String>)
    ensures
        r is Some <==> (has_prefix(raw@, "test-seller:"@) && raw@.len() > "test-seller:"@.len()),
        r matches Some(s) ==> s@ == raw@.skip("test-seller:"@.len() as int),
{
    match strip_prefix(raw, "test-seller:") {
        Some(s) => if s.as_str().is_empty() {
            None
        } else {
            Some(s)
        },
        None => None,
    }
}

/// What `jsonwebtoken::decode_header` yields for a token: `None` when its
/// header segment does not decode, else the header's `kid`.
pub uninterp spec fn jwt_header_kid(token: Seq<char>) -> Option<Option<Seq<char>>>;

/// `jsonwebtoken::decode_header`, reduced to the header's `kid`. Its source
/// takes the part of the token before its second-to-last `.` (the header
/// segment of a three-part token), base64-decodes it and parses it as JSON;
/// the result depends on the token alone and is named as a function of it.
/// Nothing more is stated.
#[verifier::external_body]
fn decode_header_kid(token: &str) -> (r: Option<Option<String>>)
    ensures
        match r {
            None => jwt_header_kid(token@) is None,
            Some(None) => jwt_header_kid(token@) == Some(None::<Seq<char>>),
            Some(Some(k)) => jwt_header_kid(token@) == Some(Some(k@)),
        },
{
    match jsonwebtoken::decode_header(token) {
        Ok(h) => Some(h.kid),
        Err(_) => None,
    }
}

/// The key id a decoded token header names, or `Unauthorized` when the
/// header did not decode or names no key.
pub fn kid_from_header(header: Option<Option<String>>) -> (r: Result<String, ApiError>)
    ensures
        match header {
            Some(Some(k)) => r matches Ok(id) && id@ == k@,
            _ => r == Err::<String, ApiError>(ApiError::Unauthorized),
        },
{
    match header {
        Some(Some(k)) => Ok(k),
        _ => Err(ApiError::Unauthorized),
    }
}

/// The id of the key that signed `token`, read from its header.
pub fn token_key_id(token: &str) -> (r: Result<String, ApiError>)
    ensures
        match jwt_header_kid(token@) {
            Some(Some(k)) => r matches Ok(id) && id@ == k,
            _ => r == Err::<String, ApiError>(ApiError::Unauthorized),
        },
{
    kid_from_header(decode_header_kid(token))
}

/// A published key with this optional id is the one named `kid`.
pub open spec fn key_matches(id: Option<String>, kid: Seq<char>) -> bool {
    id matches Some(s) && s@ == kid
}

/// The position of the first published key whose id is `kid`.
pub fn find_key(ids: &Vec<Option<String>>, kid: &str) -> (r: Option<usize>)
    ensures
        match r {
            Some(i) => i < ids@.len() && key_matches(ids@[i as int], kid@) && forall|j: int|
                0 <= j < i ==> !key_matches(#[trigger] ids@[j], kid@),
            None => forall|j: int| 0 <= j < ids@.len() ==> !key_matches(#[trigger] ids@[j], kid@),
        },
{
    let mut i: usize = 0;
    while i < ids.len()
        invariant
            i <= ids@.len(),
            forall|j: int| 0 <= j < i ==> !key_matches(#[trigger] ids@[j], kid@),
        decreases ids@.len() - i,
    {
        match &ids[i] {
            Some(s) => {
                if text_eq(s.as_str(), kid) {
                    return Some(i);
                }
            },
            None => {},
        }
        i = i + 1;
    }
    None
}

/// What to do with the published keys when looking for the key `kid`.
#[derive(Debug, Clone, Copy, PartialEq, Eq)]
pub enum KeyLookup {
    /// Use the key at this position.
    Use(usize),
    /// The key is not published in the cached set: fetch the keys afresh
    /// and look again.
    Refresh,
    /// The key is not published even in freshly fetched keys.
    Reject,
}

/// One step of the key lookup: use the first published key with id `kid`;
/// when there is none, fetch the keys once more, and refuse after that.
pub fn key_lookup_step(ids: &Vec<Option<String>>, kid: &str, refreshed: bool) -> (r: KeyLookup)
    ensures
        match r {
            KeyLookup::Use(i) => i < ids@.len() && key_matches(ids@[i as int], kid@) && forall|j: int|
                0 <= j < i ==> !key_matches(#[trigger] ids@[j], kid@),
            KeyLookup::Refresh => !refreshed && forall|j: int|
                0 <= j < ids@.len() ==> !key_matches(#[trigger] ids@[j], kid@),
            KeyLookup::Reject => refreshed && forall|j: int|
                0 <= j < ids@.len() ==> !key_matches(#[trigger] ids@[j], kid@),
        },
{
    match find_key(ids, kid) {
        Some(i) => KeyLookup::Use(i),
        None => if refreshed {
            KeyLookup::Reject
        } else {
            KeyLookup::Refresh
        },
    }
}

/// Cached signing keys are reused unless a refresh is asked for or they are
/// an hour old or older.
pub fn keys_cache_usable(refresh: bool, cached_age_ns: Option<u64>) -> (r: bool)
    ensures
        r == (!refresh && (cached_age_ns matches Some(a) && a < KEY_CACHE_NS)),
{
    if refresh {
        return false;
    }
    match cached_age_ns {
        Some(a) => a < KEY_CACHE_NS,
        None => false,
    }
}

/// What the browser needs to start a seller sign-in.
#[derive(Debug, Clone)]
pub struct AuthConfig {
    pub authority: String,
    pub client_id: String,
    pub scope: String,
}

/// The sign-in settings: the tenant authority, the client id, and the scope
/// `api://<client>/access_as_user`.
pub fn auth_config() -> (c: AuthConfig)
    ensures
        c.authority@ == AUTHORITY@,
        c.client_id@ == CLIENT@,
        c.scope@ == "api://"@ + CLIENT@ + "/"@ + API_SCOPE@,
{
    let a = concat("api://", CLIENT);
    let b = concat(a.as_str(), "/");
    let scope = concat(b.as_str(), API_SCOPE);
    AuthConfig { authority: owned(AUTHORITY), client_id: owned(CLIENT), scope }
}

} // verus!
