//! The request boundary around the rate governor: which paths bypass it,
//! how a caller identifier is derived from the forwarded-for header, and
//! the exact denial body and header values put on the wire.

use vstd::prelude::*;

verus! {

use crate::json::append_json_str;
use crate::json::append_u64;
use crate::json::spec_json_str;
use crate::numfmt::spec_dec;
use crate::text::spec_first_index;
use crate::text::spec_trim;
use crate::text::find_first;
use crate::text::lemma_first_index_char;
use crate::text::str_eq;
use crate::text::trim_str;
use vstd::string::StrSliceExecFns;
use vstd::string::StringExecFns;

/// Paths that bypass the governor entirely: health and readiness probes
/// consume no tokens and never appear in the bucket table.
pub fn is_exempt_path(path: &str) -> (r: bool)
    ensures
        r == (path@ == "/"@ || path@ == "/health"@ || path@ == "/status"@),
{
    str_eq(path, "/") || str_eq(path, "/health") || str_eq(path, "/status")
}

/// The first comma-separated entry of a forwarded-for value, trimmed.
pub open spec fn spec_first_forwarded(s: Seq<char>) -> Seq<char> {
    let cut = spec_first_index(s, ',');
    if cut == -1 {
        spec_trim(s)
    } else {
        spec_trim(s.take(cut))
    }
}

/// The identifier the governor buckets on: `ip:` followed by the first
/// entry of the forwarded-for header, or `ip:unknown` without one.
pub open spec fn spec_client_identifier(forwarded_for: Option<Seq<char>>) -> Seq<char> {
    match forwarded_for {
        Some(h) => "ip:"@ + spec_first_forwarded(h),
        None => "ip:unknown"@,
    }
}

/// Derive the caller identifier from the forwarded-for header value.
pub fn client_identifier(forwarded_for: Option<&str>) -> (r: String)
    ensures
        r@ == spec_client_identifier(
            match forwarded_for {
                Some(h) => Some(h@),
                None => None,
            },
        ),
{
    match forwarded_for {
        None => String::from_str("ip:unknown"),
        Some(h) => {
            let head = match find_first(h, ',') {
                Some(cut) => {
                    proof {
                        lemma_first_index_char(h@, ',');
                    }
                    let prefix = h.substring_char(0, cut);
                    proof {
                        assert(prefix@ =~= h@.take(cut as int));
                    }
                    trim_str(prefix)
                },
                None => trim_str(h),
            };
            let mut out = String::from_str("ip:");
            out.append(head.as_str());
            out
        },
    }
}

/// The JSON body of a denial: machine-readable error, human message with
/// the same retry hint, and the window that fired.
pub open spec fn spec_deny_body(retry_after: u64, limit_type: Seq<char>, limit: u32) -> Seq<char> {
    "{\"error\":\"rate_limit_exceeded\",\"message\":\"Too many requests. Try again in "@ + spec_dec(
        retry_after as int,
    ) + " seconds.\",\"retry_after\":"@ + spec_dec(retry_after as int) + ",\"limit_type\":"@
        + spec_json_str(limit_type) + ",\"limit\":"@ + spec_dec(limit as int) + "}"@
}

/// Render the denial body exactly as specified.
pub fn deny_body(retry_after: u64, limit_type: &str, limit: u32) -> (r: String)
    ensures
        r@ == spec_deny_body(retry_after, limit_type@, limit),
{
    let mut out = String::new();
    out.append("{\"error\":\"rate_limit_exceeded\",\"message\":\"Too many requests. Try again in ");
    append_u64(&mut out, retry_after);
    out.append(" seconds.\",\"retry_after\":");
    append_u64(&mut out, retry_after);
    out.append(",\"limit_type\":");
    append_json_str(&mut out, limit_type);
    out.append(",\"limit\":");
    append_u64(&mut out, limit as u64);
    out.append("}");
    proof {
        assert(out@ =~= spec_deny_body(retry_after, limit_type@, limit));
    }
    out
}

} // verus!
