//! Process configuration: port and directories from optional settings, the
//! health payload, file locations and response header policy.
use vstd::prelude::*;
use crate::text::{chars_of, concat, has_prefix, owned, starts_with};

verus! {

/// The Content-Security-Policy header sent with every response.
pub const CONTENT_SECURITY_POLICY: &'static str = "default-src 'self'; img-src 'self' data:; style-src 'self'; script-src 'self'; connect-src 'self' https://api.sociobot.in https://sociobotcustomers.ciamlogin.com; frame-src 'self' https://sociobotcustomers.ciamlogin.com; frame-ancestors 'none'; base-uri 'self'; form-action 'self' https://api.sociobot.in";

/// The port used when none is configured or the configured one is not a port number.
pub const DEFAULT_PORT: u16 = 8080;

/// Where the server listens and which directories it reads and writes.
#[derive(Debug, Clone)]
pub struct RuntimeConfig {
    pub port: u16,
    pub data_dir: String,
    pub web_dist: String,
}

/// A decimal digit.
pub open spec fn is_digit(c: char) -> bool {
    '0' <= c <= '9'
}

/// The value of a decimal digit.
pub open spec fn digit_value(c: char) -> nat {
    ((c as u32) - 48) as nat
}

/// The value of a string of decimal digits (leading zeros allowed).
pub open spec fn digits_value(s: Seq<char>) -> nat
    decreases s.len(),
{
    if s.len() == 0 {
        0
    } else {
        digits_value(s.drop_last()) * 10 + digit_value(s.last())
    }
}

/// `s` without one leading `+`.
pub open spec fn unsigned_digits(s: Seq<char>) -> Seq<char> {
    if s.len() > 0 && s[0] == '+' {
        s.drop_first()
    } else {
        s
    }
}

/// What parsing `s` as a `u16` gives: an optional `+`, then one or more
/// decimal digits whose value is at most 65535; anything else is refused.
pub open spec fn parse_u16_spec(s: Seq<char>) -> Option<u16> {
    let d = unsigned_digits(s);
    if d.len() > 0 && (forall|i: int| 0 <= i < d.len() ==> is_digit(#[trigger] d[i]))
        && digits_value(d) <= 65535 {
        Some(digits_value(d) as u16)
    } else {
        None
    }
}

/// The port a configured value selects.
pub open spec fn port_spec(port: Option<Seq<char>>) -> u16 {
    match port {
        Some(p) => match parse_u16_spec(p) {
            Some(v) => v,
            None => DEFAULT_PORT,
        },
        None => DEFAULT_PORT,
    }
}

/// A prefix of a digit string never has a larger value than the whole.
proof fn lemma_digits_value_prefix(s: Seq<char>, k: int)
    requires
        0 <= k <= s.len(),
        forall|i: int| 0 <= i < s.len() ==> is_digit(#[trigger] s[i]),
    ensures
        digits_value(s.take(k)) <= digits_value(s),
    decreases s.len(),
{
    if k < s.len() {
        assert(s.drop_last().take(k) =~= s.take(k));
        lemma_digits_value_prefix(s.drop_last(), k);
    } else {
        assert(s.take(k) =~= s);
    }
}

/// Parses a port number as `str::parse::<u16>` does.
pub fn parse_port(value: &str) -> (r: Option<u16>)
    ensures
        r == parse_u16_spec(value@),
{
    let v = chars_of(value);
    let start: usize = if v.len() > 0 && v[0] == '+' { 1 } else { 0 };
    let ghost d = unsigned_digits(value@);
    assert(d =~= value@.skip(start as int));
    if start == v.len() {
        return None;
    }
    let mut acc: u32 = 0;
    let mut i: usize = start;
    assert(value@.subrange(start as int, start as int) =~= Seq::<char>::empty());
    while i < v.len()
        invariant
            v@ == value@,
            d == unsigned_digits(value@),
            d =~= value@.skip(start as int),
            start <= i <= v@.len(),
            acc <= 65535,
            acc == digits_value(value@.subrange(start as int, i as int)),
            forall|k: int| start <= k < i ==> is_digit(#[trigger] value@[k]),
        decreases v@.len() - i,
    {
        let c = v[i];
        if !('0' <= c && c <= '9') {
            assert(!is_digit(d[i - start]));
            return None;
        }
        let next: u32 = acc * 10 + ((c as u32) - 48);
        assert(value@.subrange(start as int, i + 1).drop_last() =~= value@.subrange(
            start as int,
            i as int,
        ));
        if next > 65535 {
            proof {
                if forall|k: int| 0 <= k < d.len() ==> is_digit(#[trigger] d[k]) {
                    assert(d.take(i + 1 - start) =~= value@.subrange(start as int, i + 1));
                    lemma_digits_value_prefix(d, i + 1 - start);
                }
            }
            return None;
        }
        acc = next;
        i = i + 1;
    }
    assert(value@.subrange(start as int, v@.len() as int) =~= d);
    Some(acc as u16)
}

/// The configuration from the optional `PORT`, `DATA_DIR` and `WEB_DIST`
/// settings: an unset or unparsable port is 8080, an unset data directory is
/// `data`, an unset web directory is `dist`.
pub fn runtime_config(port: Option<String>, data_dir: Option<String>, web_dist: Option<String>) -> (c:
    RuntimeConfig)
    ensures
        c.port == port_spec(
            match port {
                Some(p) => Some(p@),
                None => None,
            },
        ),
        c.data_dir@ == (match data_dir {
            Some(d) => d@,
            None => "data"@,
        }),
        c.web_dist@ == (match web_dist {
            Some(w) => w@,
            None => "dist"@,
        }),
{
    let port = match port {
        Some(p) => match parse_port(p.as_str()) {
            Some(v) => v,
            None => DEFAULT_PORT,
        },
        None => DEFAULT_PORT,
    };
    let data_dir = match data_dir {
        Some(d) => d,
        None => owned("data"),
    };
    let web_dist = match web_dist {
        Some(w) => w,
        None => owned("dist"),
    };
    RuntimeConfig { port, data_dir, web_dist }
}

/// The body of the health check.
#[derive(Debug, Clone)]
pub struct HealthPayload {
    pub ok: bool,
    pub build_sha: String,
}

/// The health check reports success and the build it runs.
pub fn health_payload(build_sha: &str) -> (h: HealthPayload)
    ensures
        h.ok,
        h.build_sha@ == build_sha@,
{
    HealthPayload { ok: true, build_sha: owned(build_sha) }
}

/// The SQLite file inside the data directory.
pub fn database_path(data_dir: &str) -> (p: String)
    ensures
        p@ == data_dir@ + "/catalogue.db"@,
{
    concat(data_dir, "/catalogue.db")
}

/// The connection URL of an SQLite file.
pub fn sqlite_url(db_path: &str) -> (u: String)
    ensures
        u@ == "sqlite://"@ + db_path@,
{
    concat("sqlite://", db_path)
}

/// The single-page entry document inside the web directory.
pub fn index_path(web_dist: &str) -> (p: String)
    ensures
        p@ == web_dist@ + "/index.html"@,
{
    concat(web_dist, "/index.html")
}

/// The fingerprinted asset directory inside the web directory.
pub fn assets_path(web_dist: &str) -> (p: String)
    ensures
        p@ == web_dist@ + "/assets"@,
{
    concat(web_dist, "/assets")
}

/// Responses under `/assets/` may be cached for a year as immutable.
pub fn is_immutable_asset(path: &str) -> (r: bool)
    ensures
        r == has_prefix(path@, "/assets/"@),
{
    starts_with(path, "/assets/")
}

} // verus!
