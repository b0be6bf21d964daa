//! The closed set of real-time events pushed to live connections, and
//! their exact wire encoding: one JSON object per event, shaped
//! `{"event": <name>, "data": {...}}`.

use vstd::prelude::*;

verus! {

use crate::json::append_i64;
use crate::json::append_json_bool;
use crate::json::append_json_opt_i64;
use crate::json::append_json_opt_str;
use crate::json::append_json_str;
use crate::json::append_json_str_array;
use crate::json::spec_json_bool;
use crate::json::spec_json_opt_i64;
use crate::json::spec_json_opt_str;
use crate::json::spec_json_str;
use crate::json::spec_json_str_array;
use crate::model::MessageRole;
use crate::model::MessageType;
use crate::numfmt::spec_dec_signed;
use crate::responses::MessageResponse;
use vstd::string::StringExecFns;

/// The influencer summary embedded in a `new_message` event.
#[derive(Clone, Debug, PartialEq)]
pub struct InfluencerSummary {
    pub id: String,
    pub display_name: String,
    pub avatar_url: Option<String>,
    pub is_online: bool,
}

/// One event on the real-time channel.
#[derive(Clone, Debug, PartialEq)]
pub enum ChatEvent {
    /// A new assistant message landed in a conversation.
    NewMessage {
        conversation_id: String,
        message: MessageResponse,
        influencer: InfluencerSummary,
        unread_count: i64,
    },
    /// A conversation was marked read; its unread count is back to zero.
    ConversationRead { conversation_id: String, read_at: String },
    /// The influencer started or stopped typing.
    TypingStatus { conversation_id: String, influencer_id: String, is_typing: bool },
}

/// The summary of an influencer as a `new_message` event carries it;
/// the sender of a fresh message always shows as online.
pub fn influencer_summary(influencer: &crate::model::AIInfluencer) -> (r: InfluencerSummary)
    ensures
        r.id == influencer.id,
        r.display_name == influencer.display_name,
        r.avatar_url == influencer.avatar_url,
        r.is_online,
{
    InfluencerSummary {
        id: influencer.id.clone(),
        display_name: influencer.display_name.clone(),
        avatar_url: match &influencer.avatar_url {
            Some(u) => Some(u.clone()),
            None => None,
        },
        is_online: true,
    }
}

pub open spec fn spec_role_name(r: MessageRole) -> Seq<char> {
    if r is User {
        "user"@
    } else {
        "assistant"@
    }
}

pub open spec fn spec_type_name(t: MessageType) -> Seq<char> {
    match t {
        MessageType::Text => "text"@,
        MessageType::Multimodal => "multimodal"@,
        MessageType::Image => "image"@,
        MessageType::Audio => "audio"@,
    }
}

pub open spec fn spec_opt_view(s: Option<String>) -> Option<Seq<char>> {
    match s {
        Some(v) => Some(v@),
        None => None,
    }
}

pub open spec fn spec_opt_int(n: Option<i32>) -> Option<int> {
    match n {
        Some(v) => Some(v as int),
        None => None,
    }
}

/// The identity fields of the message object.
pub open spec fn spec_message_json_head(m: MessageResponse) -> Seq<char> {
    "{\"id\":"@ + spec_json_str(m.id@) + ",\"role\":"@ + spec_json_str(spec_role_name(m.role))
        + ",\"content\":"@ + spec_json_opt_str(spec_opt_view(m.content)) + ",\"message_type\":"@
        + spec_json_str(spec_type_name(m.message_type))
}

/// The media fields of the message object.
pub open spec fn spec_message_json_media(m: MessageResponse) -> Seq<char> {
    ",\"media_urls\":"@ + spec_json_str_array(m.media_urls@.map_values(|v: String| v@))
        + ",\"audio_url\":"@ + spec_json_opt_str(spec_opt_view(m.audio_url))
        + ",\"audio_duration_seconds\":"@ + spec_json_opt_i64(
        spec_opt_int(m.audio_duration_seconds),
    )
}

/// The bookkeeping fields of the message object.
pub open spec fn spec_message_json_tail(m: MessageResponse) -> Seq<char> {
    ",\"token_count\":"@ + spec_json_opt_i64(spec_opt_int(m.token_count)) + ",\"created_at\":"@
        + spec_dec_signed(m.created_at as int) + ",\"status\":"@ + spec_json_str(m.status@)
        + ",\"is_read\":"@ + spec_json_bool(m.is_read) + "}"@
}

/// The JSON object for one message, fields in declaration order.
pub open spec fn spec_message_json(m: MessageResponse) -> Seq<char> {
    spec_message_json_head(m) + spec_message_json_media(m) + spec_message_json_tail(m)
}

/// The JSON object for the influencer summary.
pub open spec fn spec_influencer_json(i: InfluencerSummary) -> Seq<char> {
    "{\"id\":"@ + spec_json_str(i.id@) + ",\"display_name\":"@ + spec_json_str(i.display_name@)
        + ",\"avatar_url\":"@ + spec_json_opt_str(spec_opt_view(i.avatar_url)) + ",\"is_online\":"@
        + spec_json_bool(i.is_online) + "}"@
}

/// The full frame for one event.
pub open spec fn spec_event_json(e: ChatEvent) -> Seq<char> {
    match e {
        ChatEvent::NewMessage { conversation_id, message, influencer, unread_count } => {
            "{\"event\":\"new_message\",\"data\":{\"conversation_id\":"@ + spec_json_str(
                conversation_id@,
            ) + ",\"message\":"@ + spec_message_json(message) + ",\"influencer\":"@
                + spec_influencer_json(influencer) + ",\"unread_count\":"@ + spec_dec_signed(
                unread_count as int,
            ) + "}}"@
        },
        ChatEvent::ConversationRead { conversation_id, read_at } => {
            "{\"event\":\"conversation_read\",\"data\":{\"conversation_id\":"@ + spec_json_str(
                conversation_id@,
            ) + ",\"unread_count\":0,\"read_at\":"@ + spec_json_str(read_at@) + "}}"@
        },
        ChatEvent::TypingStatus { conversation_id, influencer_id, is_typing } => {
            "{\"event\":\"typing_status\",\"data\":{\"conversation_id\":"@ + spec_json_str(
                conversation_id@,
            ) + ",\"influencer_id\":"@ + spec_json_str(influencer_id@) + ",\"is_typing\":"@
                + spec_json_bool(is_typing) + "}}"@
        },
    }
}

#[verifier::rlimit(100)]
fn append_message_json(out: &mut String, m: &MessageResponse)
    ensures
        final(out)@ == old(out)@ + spec_message_json(*m),
{
    out.append("{\"id\":");
    append_json_str(out, m.id.as_str());
    out.append(",\"role\":");
    append_json_str(out, m.role.as_str());
    out.append(",\"content\":");
    append_json_opt_str(out, &m.content);
    out.append(",\"message_type\":");
    append_json_str(out, m.message_type.as_str());
    proof {
        assert(out@ =~= old(out)@ + spec_message_json_head(*m));
    }
    let ghost after_head = out@;
    out.append(",\"media_urls\":");
    append_json_str_array(out, &m.media_urls);
    out.append(",\"audio_url\":");
    append_json_opt_str(out, &m.audio_url);
    out.append(",\"audio_duration_seconds\":");
    let duration: Option<i64> = match m.audio_duration_seconds {
        Some(d) => Some(d as i64),
        None => None,
    };
    append_json_opt_i64(out, &duration);
    proof {
        assert(out@ =~= after_head + spec_message_json_media(*m));
    }
    let ghost after_media = out@;
    out.append(",\"token_count\":");
    let tokens: Option<i64> = match m.token_count {
        Some(t) => Some(t as i64),
        None => None,
    };
    append_json_opt_i64(out, &tokens);
    out.append(",\"created_at\":");
    append_i64(out, m.created_at);
    out.append(",\"status\":");
    append_json_str(out, m.status.as_str());
    out.append(",\"is_read\":");
    append_json_bool(out, m.is_read);
    out.append("}");
    proof {
        assert(out@ =~= after_media + spec_message_json_tail(*m));
        assert(out@ =~= old(out)@ + spec_message_json(*m));
    }
}

fn append_influencer_json(out: &mut String, i: &InfluencerSummary)
    ensures
        final(out)@ == old(out)@ + spec_influencer_json(*i),
{
    out.append("{\"id\":");
    append_json_str(out, i.id.as_str());
    out.append(",\"display_name\":");
    append_json_str(out, i.display_name.as_str());
    out.append(",\"avatar_url\":");
    append_json_opt_str(out, &i.avatar_url);
    out.append(",\"is_online\":");
    append_json_bool(out, i.is_online);
    out.append("}");
    proof {
        assert(out@ =~= old(out)@ + spec_influencer_json(*i));
    }
}

impl ChatEvent {
    /// Serialise the event into its exact wire frame.
    pub fn encode(&self) -> (s: String)
        ensures
            s@ == spec_event_json(*self),
    {
        let mut out = String::new();
        match self {
            ChatEvent::NewMessage { conversation_id, message, influencer, unread_count } => {
                out.append("{\"event\":\"new_message\",\"data\":{\"conversation_id\":");
                append_json_str(&mut out, conversation_id.as_str());
                out.append(",\"message\":");
                append_message_json(&mut out, message);
                out.append(",\"influencer\":");
                append_influencer_json(&mut out, influencer);
                out.append(",\"unread_count\":");
                append_i64(&mut out, *unread_count);
                out.append("}}");
            },
            ChatEvent::ConversationRead { conversation_id, read_at } => {
                out.append("{\"event\":\"conversation_read\",\"data\":{\"conversation_id\":");
                append_json_str(&mut out, conversation_id.as_str());
                out.append(",\"unread_count\":0,\"read_at\":");
                append_json_str(&mut out, read_at.as_str());
                out.append("}}");
            },
            ChatEvent::TypingStatus { conversation_id, influencer_id, is_typing } => {
                out.append("{\"event\":\"typing_status\",\"data\":{\"conversation_id\":");
                append_json_str(&mut out, conversation_id.as_str());
                out.append(",\"influencer_id\":");
                append_json_str(&mut out, influencer_id.as_str());
                out.append(",\"is_typing\":");
                append_json_bool(&mut out, *is_typing);
                out.append("}}");
            },
        }
        proof {
            assert(out@ =~= spec_event_json(*self));
        }
        out
    }
}

} // verus!
