//! Authentication decisions: bearer-token extraction, the checks made
//! on decoded token claims, and the guard in front of a real-time
//! session. Signature verification itself happens outside; the claims
//! land here as plain values.

use vstd::prelude::*;

verus! {

use crate::text::has_prefix;
use crate::text::str_eq;
use crate::text::str_has_prefix;
use vstd::string::StrSliceExecFns;
use vstd::string::StringExecFns;

/// The claims carried by an access token.
#[derive(Clone, Debug, PartialEq)]
pub struct JwtPayload {
    pub sub: String,
    pub iss: String,
    pub exp: u64,
    pub iat: Option<u64>,
    pub aud: Option<String>,
    pub jti: Option<String>,
}

/// The authenticated caller of a request.
#[derive(Clone, Debug, PartialEq)]
pub struct AuthenticatedUser {
    pub user_id: String,
}

/// Pull the token out of an authorization header: the header must be
/// present and must carry the bearer scheme, in either case.
pub fn bearer_token(auth_header: Option<&str>) -> (r: Result<String, String>)
    ensures
        match r {
            Ok(t) => auth_header matches Some(h) && (has_prefix(h@, "Bearer "@) || has_prefix(
                h@,
                "bearer "@,
            )) && t@ == h@.skip(7),
            Err(e) => match auth_header {
                Some(h) => !has_prefix(h@, "Bearer "@) && !has_prefix(h@, "bearer "@) && e@
                    == "Invalid authorization header format. Expected: Bearer <token>"@,
                None => e@ == "Missing authorization header"@,
            },
        },
{
    let h = match auth_header {
        Some(h) => h,
        None => {
            return Err(String::from_str("Missing authorization header"));
        },
    };
    if str_has_prefix(h, "Bearer ") || str_has_prefix(h, "bearer ") {
        let n = h.unicode_len();
        proof {
            reveal_strlit("Bearer ");
            reveal_strlit("bearer ");
        }
        let t = h.substring_char(7, n);
        proof {
            assert(t@ =~= h@.skip(7));
        }
        Ok(t.to_owned())
    } else {
        Err(String::from_str("Invalid authorization header format. Expected: Bearer <token>"))
    }
}

/// The token issuers this service trusts.
pub fn issuer_allowed(iss: &str) -> (r: bool)
    ensures
        r == (iss@ == "https://auth.yral.com"@ || iss@ == "https://auth.dolr.ai"@),
{
    str_eq(iss, "https://auth.yral.com") || str_eq(iss, "https://auth.dolr.ai")
}

/// The checks made on decoded claims: a trusted issuer, an expiry
/// still in the future, and a non-empty subject. Exactly the failing
/// check's message comes back.
pub fn validate_claims(claims: &JwtPayload, now: u64) -> (r: Result<(), String>)
    ensures
        match r {
            Ok(()) => (claims.iss@ == "https://auth.yral.com"@ || claims.iss@
                == "https://auth.dolr.ai"@) && claims.exp > now && claims.sub@.len() > 0,
            Err(e) => {
                if !(claims.iss@ == "https://auth.yral.com"@ || claims.iss@
                    == "https://auth.dolr.ai"@) {
                    e@ == "Invalid token: unknown issuer"@
                } else if claims.exp <= now {
                    e@ == "Invalid token: expired"@
                } else {
                    claims.sub@.len() == 0 && e@ == "Invalid token: missing sub"@
                }
            },
        },
{
    if !issuer_allowed(claims.iss.as_str()) {
        return Err(String::from_str("Invalid token: unknown issuer"));
    }
    if claims.exp <= now {
        return Err(String::from_str("Invalid token: expired"));
    }
    if claims.sub.as_str().is_empty() {
        return Err(String::from_str("Invalid token: missing sub"));
    }
    Ok(())
}

/// Close codes for a rejected real-time session.
pub enum SessionRejection {
    /// No token, or one that does not verify: close code 4001.
    Unauthenticated(u16, &'static str),
    /// A valid token for somebody else's inbox: close code 4003.
    CrossUser(u16, &'static str),
}

/// The guard in front of a real-time session: a missing or empty token
/// and an undecodable one are rejected as unauthenticated, and a valid
/// token only opens the inbox of its own subject.
pub fn session_gate(token: Option<&String>, claims: Option<&JwtPayload>, path_user_id: &str) -> (r:
    Result<(), SessionRejection>)
    ensures
        match r {
            Ok(()) => {
                &&& token matches Some(t) && t@.len() > 0
                &&& claims matches Some(c) && c.sub@ == path_user_id@
            },
            Err(rej) => match rej {
                SessionRejection::Unauthenticated(code, reason) => code == 4001 && ((match token {
                    Some(t) => t@.len() == 0,
                    None => true,
                } && reason@ == "Missing authentication token"@) || (token matches Some(t) && t@.len()
                    > 0 && claims is None && reason@ == "Invalid or expired token"@)),
                SessionRejection::CrossUser(code, reason) => code == 4003 && (token matches Some(t)
                    && t@.len() > 0) && (claims matches Some(c) && c.sub@ != path_user_id@)
                    && reason@ == "Forbidden"@,
            },
        },
{
    let t = match token {
        Some(t) => t,
        None => {
            return Err(
                SessionRejection::Unauthenticated(4001, "Missing authentication token"),
            );
        },
    };
    if t.as_str().is_empty() {
        return Err(SessionRejection::Unauthenticated(4001, "Missing authentication token"));
    }
    let c = match claims {
        Some(c) => c,
        None => {
            return Err(SessionRejection::Unauthenticated(4001, "Invalid or expired token"));
        },
    };
    if !str_eq(c.sub.as_str(), path_user_id) {
        return Err(SessionRejection::CrossUser(4003, "Forbidden"));
    }
    Ok(())
}

} // verus!
