//! License checks: the verification URL for a pasted license and what the
//! license service's answer means.
use vstd::prelude::*;
use vstd::utf8::encode_utf8;
use crate::error::ApiError;
use crate::text::concat;

verus! {

/// The license verification endpoint; the license is appended URL-encoded.
pub const VERIFY_BASE: &'static str = "https://api.sociobot.in/api/v1/products/client-catalogue-request/verify?license=";

/// A byte that URL encoding leaves as it is: an ASCII letter or digit, `-`,
/// `.`, `_` or `~`.
pub open spec fn is_unreserved(b: u8) -> bool {
    (48 <= b <= 57) || (65 <= b <= 90) || (97 <= b <= 122) || b == 45 || b == 46 || b == 95
        || b == 126
}

/// The uppercase hexadecimal digit for `d < 16`.
pub open spec fn hex_upper(d: nat) -> char {
    if d < 10 {
        ((48 + d) as u32) as char
    } else {
        ((55 + d) as u32) as char
    }
}

/// Percent-encoding of `bytes`: unreserved bytes stay, every other byte
/// becomes `%` and two uppercase hexadecimal digits.
pub open spec fn url_encode_bytes(bytes: Seq<u8>) -> Seq<char>
    decreases bytes.len(),
{
    if bytes.len() == 0 {
        Seq::empty()
    } else {
        let b = bytes[0];
        let head = if is_unreserved(b) {
            seq![(b as u32) as char]
        } else {
            seq!['%', hex_upper((b / 16) as nat), hex_upper((b % 16) as nat)]
        };
        head + url_encode_bytes(bytes.drop_first())
    }
}

/// `urlencoding::encode`. Its source percent-encodes every byte of the UTF-8
/// text except ASCII letters, digits and `-`, `.`, `_`, `~`, writing the byte
/// as `%` and two uppercase hexadecimal digits; the contract states that.
#[verifier::external_body]
fn url_encode(s: &str) -> (r: String)
    ensures
        r@ == url_encode_bytes(encode_utf8(s@)),
{
    urlencoding::encode(s).into_owned()
}

/// The URL that checks `license`: `base` followed by the license URL-encoded.
/// No check is made, and none is needed, when no license or an empty one
/// was sent.
pub fn license_check_url(base: &str, license: Option<&str>) -> (u: Option<String>)
    ensures
        match license {
            Some(l) => if l@.len() > 0 {
                u matches Some(url) && url@ == base@ + url_encode_bytes(encode_utf8(l@))
            } else {
                u is None
            },
            None => u is None,
        },
{
    match license {
        Some(l) => if l.is_empty() {
            None
        } else {
            let e = url_encode(l);
            Some(concat(base, e.as_str()))
        },
        None => None,
    }
}

/// How a license check went.
#[derive(Debug, Clone, Copy, PartialEq, Eq)]
pub enum LicenseReply {
    /// The service could not be reached.
    Unreachable,
    /// The service answered with an error status.
    Refused,
    /// The answer was not the expected verdict.
    Malformed,
    /// The service's verdict on the license.
    Verdict(bool),
}

/// Whether a license check shows an active license.
pub fn licensed_from_reply(reply: LicenseReply) -> (r: Result<bool, ApiError>)
    ensures
        r == match reply {
            LicenseReply::Unreachable => Err(ApiError::LicenseUnavailable),
            LicenseReply::Refused => Err(ApiError::LicenseUnavailable),
            LicenseReply::Malformed => Err(ApiError::Internal),
            LicenseReply::Verdict(v) => Ok::<bool, ApiError>(v),
        },
{
    match reply {
        LicenseReply::Unreachable => Err(ApiError::LicenseUnavailable),
        LicenseReply::Refused => Err(ApiError::LicenseUnavailable),
        LicenseReply::Malformed => Err(ApiError::Internal),
        LicenseReply::Verdict(v) => Ok(v),
    }
}

} // verus!
