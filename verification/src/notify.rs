//! Push-notification content: the exact payload submitted to the
//! delivery service, and the rule for when the service is usable.

use vstd::prelude::*;

verus! {

use crate::json::append_json_str;
use crate::json::spec_json_str;
use vstd::string::StringExecFns;

/// The sender is usable only with a non-empty bearer token.
pub fn push_configured(auth_token: &Option<String>) -> (r: bool)
    ensures
        r == (match *auth_token {
            Some(t) => t@.len() > 0,
            None => false,
        }),
{
    match auth_token {
        Some(t) => !t.as_str().is_empty(),
        None => false,
    }
}

/// The whole notification payload: title and body beside the
/// structured fields a client needs to route the tap.
pub open spec fn spec_push_payload(
    title: Seq<char>,
    body: Seq<char>,
    conversation_id: Seq<char>,
    influencer_id: Seq<char>,
) -> Seq<char> {
    "{\"data\":{\"title\":"@ + spec_json_str(title) + ",\"body\":"@ + spec_json_str(body)
        + ",\"conversation_id\":"@ + spec_json_str(conversation_id) + ",\"influencer_id\":"@
        + spec_json_str(influencer_id) + ",\"type\":\"new_message\"}}"@
}

/// Render the push payload exactly.
pub fn push_payload(title: &str, body: &str, conversation_id: &str, influencer_id: &str) -> (r:
    String)
    ensures
        r@ == spec_push_payload(title@, body@, conversation_id@, influencer_id@),
{
    let mut out = String::new();
    out.append("{\"data\":{\"title\":");
    append_json_str(&mut out, title);
    out.append(",\"body\":");
    append_json_str(&mut out, body);
    out.append(",\"conversation_id\":");
    append_json_str(&mut out, conversation_id);
    out.append(",\"influencer_id\":");
    append_json_str(&mut out, influencer_id);
    out.append(",\"type\":\"new_message\"}}");
    proof {
        assert(out@ =~= spec_push_payload(title@, body@, conversation_id@, influencer_id@));
    }
    out
}

} // verus!
