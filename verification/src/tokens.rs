//! Random identifiers: client-link tokens, sample-workspace ids, request ids
//! and product ids.
use vstd::prelude::*;
use rand::Rng;
use crate::text::{ascii_upper, ascii_upper_prefix, concat, is_ascii_alnum, is_lower_hex, is_upper_hex, push_char};

verus! {

#[verifier::external_type_specification]
#[verifier::external_body]
pub struct ExThreadRng(rand::rngs::ThreadRng);

#[verifier::external_type_specification]
#[verifier::external_body]
pub struct ExUuid(uuid::Uuid);

/// `rand::thread_rng`: the lazily seeded generator of the current thread.
/// Nothing is stated of it.
#[verifier::external_body]
fn thread_rng() -> (r: rand::rngs::ThreadRng) {
    rand::thread_rng()
}

/// `Rng::sample` with `rand::distributions::Alphanumeric`. rand's source
/// draws the byte from the 62 characters `A`..`Z`, `a`..`z`, `0`..`9`; the
/// contract states that and nothing of which one comes.
#[verifier::external_body]
fn sample_alphanumeric(rng: &mut rand::rngs::ThreadRng) -> (b: u8)
    ensures
        is_ascii_alnum(b as char),
{
    rng.sample(rand::distributions::Alphanumeric)
}

/// `Uuid::new_v4`: a random version-4 UUID. Nothing is stated of its value.
#[verifier::external_body]
fn new_v4() -> (u: uuid::Uuid) {
    uuid::Uuid::new_v4()
}

/// `Uuid::simple` written with `to_string`. uuid's `format_simple` writes the
/// 16 bytes as 32 lowercase hexadecimal digits; the contract states that shape.
#[verifier::external_body]
fn simple_text(u: &uuid::Uuid) -> (s: String)
    ensures
        s@.len() == 32,
        forall|i: int| 0 <= i < 32 ==> is_lower_hex(#[trigger] s@[i]),
{
    u.simple().to_string()
}

/// `Uuid`'s `to_string`. uuid's `Display` writes the hyphenated lowercase
/// form (`format_hyphenated`); the contract states that shape.
#[verifier::external_body]
fn hyphenated_text(u: &uuid::Uuid) -> (s: String)
    ensures
        is_hyphenated_uuid(s@),
{
    u.to_string()
}

/// A string of exactly `n` ASCII letters and digits.
pub open spec fn is_token(t: Seq<char>, n: nat) -> bool {
    &&& t.len() == n
    &&& forall|i: int| 0 <= i < t.len() ==> is_ascii_alnum(#[trigger] t[i])
}

/// The hyphenated text form of a UUID: 36 characters, `-` at 8, 13, 18 and
/// 23, lowercase hexadecimal digits elsewhere.
pub open spec fn is_hyphenated_uuid(s: Seq<char>) -> bool {
    &&& s.len() == 36
    &&& forall|i: int|
        0 <= i < 36 ==> if i == 8 || i == 13 || i == 18 || i == 23 {
            #[trigger] s[i] == '-'
        } else {
            is_lower_hex(s[i])
        }
}

/// `prefix` followed by exactly `n` uppercase hexadecimal digits.
pub open spec fn is_prefixed_hex_id(s: Seq<char>, prefix: Seq<char>, n: nat) -> bool {
    &&& s.len() == prefix.len() + n
    &&& s.take(prefix.len() as int) == prefix
    &&& forall|i: int| prefix.len() <= i < s.len() ==> is_upper_hex(#[trigger] s[i])
}

/// A fresh random token of `n` ASCII letters and digits, as client links and
/// sample workspaces use.
pub fn token(n: usize) -> (t: String)
    ensures
        is_token(t@, n as nat),
{
    let mut rng = thread_rng();
    let mut t = String::new();
    let mut i: usize = 0;
    while i < n
        invariant
            i <= n,
            is_token(t@, i as nat),
        decreases n - i,
    {
        let b = sample_alphanumeric(&mut rng);
        let c = b as char;
        push_char(&mut t, c);
        i = i + 1;
    }
    t
}

/// `prefix` followed by the first `n` digits of a fresh random UUID in uppercase.
fn prefixed_uuid_id(prefix: &str, n: usize) -> (r: String)
    requires
        n <= 32,
    ensures
        is_prefixed_hex_id(r@, prefix@, n as nat),
{
    let u = new_v4();
    let s = simple_text(&u);
    let up = ascii_upper_prefix(s.as_str(), n);
    assert forall|i: int| 0 <= i < n implies is_upper_hex(#[trigger] up@[i]) by {
        assert(is_lower_hex(s@[i]));
        assert(up@[i] == ascii_upper(s@[i]));
    }
    let r = concat(prefix, up.as_str());
    assert(r@.take(prefix@.len() as int) =~= prefix@);
    assert forall|i: int| prefix@.len() <= i < r@.len() implies is_upper_hex(#[trigger] r@[i]) by {
        assert(r@[i] == up@[i - prefix@.len()]);
    }
    r
}

/// A fresh quote-request id: `RQ-` and eight uppercase hexadecimal digits.
pub fn new_request_id() -> (r: String)
    ensures
        is_prefixed_hex_id(r@, "RQ-"@, 8),
{
    prefixed_uuid_id("RQ-", 8)
}

/// A fresh sample quote-request id: `RQ-DEMO-` and four uppercase hexadecimal digits.
pub fn new_demo_request_id() -> (r: String)
    ensures
        is_prefixed_hex_id(r@, "RQ-DEMO-"@, 4),
{
    prefixed_uuid_id("RQ-DEMO-", 4)
}

/// A fresh product id: a random UUID in hyphenated form.
pub fn new_product_id() -> (r: String)
    ensures
        is_hyphenated_uuid(r@),
{
    let u = new_v4();
    hyphenated_text(&u)
}

} // verus!
