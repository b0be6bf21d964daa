//! Response shapes handed back at the boundary, and the field mappings
//! that build them from entity records.

use vstd::prelude::*;

verus! {

use crate::model::AIInfluencer;
use crate::model::InfluencerStatus;
use crate::model::Message;
use crate::model::MessageRole;
use crate::model::MessageType;

/// One message row, shaped for the caller.
#[derive(Clone, Debug, PartialEq)]
pub struct MessageResponse {
    pub id: String,
    pub role: MessageRole,
    pub content: Option<String>,
    pub message_type: MessageType,
    pub media_urls: Vec<String>,
    pub audio_url: Option<String>,
    pub audio_duration_seconds: Option<i32>,
    pub token_count: Option<i32>,
    pub created_at: i64,
    pub status: String,
    pub is_read: bool,
}

impl From<Message> for MessageResponse {
    fn from(m: Message) -> (r: MessageResponse) {
        MessageResponse {
            id: m.id,
            role: m.role,
            content: m.content,
            message_type: m.message_type,
            media_urls: m.media_urls,
            audio_url: m.audio_url,
            audio_duration_seconds: m.audio_duration_seconds,
            token_count: m.token_count,
            created_at: m.created_at,
            status: m.status,
            is_read: m.is_read,
        }
    }
}

impl vstd::std_specs::convert::FromSpecImpl<Message> for MessageResponse {
    open spec fn obeys_from_spec() -> bool {
        true
    }

    open spec fn from_spec(m: Message) -> MessageResponse {
        MessageResponse {
            id: m.id,
            role: m.role,
            content: m.content,
            message_type: m.message_type,
            media_urls: m.media_urls,
            audio_url: m.audio_url,
            audio_duration_seconds: m.audio_duration_seconds,
            token_count: m.token_count,
            created_at: m.created_at,
            status: m.status,
            is_read: m.is_read,
        }
    }
}

/// The pair returned by one orchestrated send.
#[derive(Clone, Debug, PartialEq)]
pub struct SendMessageResponse {
    pub user_message: MessageResponse,
    pub assistant_message: MessageResponse,
}

/// Compact influencer summary shown beside a conversation.
#[derive(Clone, Debug, PartialEq)]
pub struct InfluencerBasicInfo {
    pub id: String,
    pub name: String,
    pub display_name: String,
    pub avatar_url: Option<String>,
    pub is_online: bool,
    pub suggested_messages: Option<Vec<String>>,
}

/// Slimmer influencer summary used by the second list endpoint.
#[derive(Clone, Debug, PartialEq)]
pub struct InfluencerBasicInfoV2 {
    pub id: String,
    pub display_name: String,
    pub avatar_url: Option<String>,
    pub is_online: bool,
}

/// Summarise an influencer, exposing suggested starter messages only on
/// request; the influencer shows as online exactly when active.
pub fn influencer_to_basic_info(influencer: &AIInfluencer, include_suggested_messages: bool) -> (r:
    InfluencerBasicInfo)
    ensures
        r.id == influencer.id,
        r.name == influencer.name,
        r.display_name == influencer.display_name,
        r.avatar_url == influencer.avatar_url,
        r.is_online == (influencer.is_active is Active),
        include_suggested_messages ==> (r.suggested_messages matches Some(v) && v@
            == influencer.suggested_messages@),
        !include_suggested_messages ==> r.suggested_messages is None,
{
    InfluencerBasicInfo {
        id: influencer.id.clone(),
        name: influencer.name.clone(),
        display_name: influencer.display_name.clone(),
        avatar_url: match &influencer.avatar_url {
            Some(u) => Some(u.clone()),
            None => None,
        },
        is_online: match influencer.is_active {
            InfluencerStatus::Active => true,
            _ => false,
        },
        suggested_messages: if include_suggested_messages {
            Some(crate::text::clone_string_vec(&influencer.suggested_messages))
        } else {
            None
        },
    }
}

/// The current system prompt of an influencer.
#[derive(Clone, Debug, PartialEq)]
pub struct SystemPromptResponse {
    pub id: String,
    pub system_prompt: String,
}

/// Result of an explicit image generation request.
#[derive(Clone, Debug, PartialEq)]
pub struct GenerateImageResponse {
    pub image_url: Option<String>,
    pub prompt_used: String,
}

/// Health of one dependent service.
#[derive(Clone, Debug, PartialEq)]
pub struct ServiceHealth {
    pub status: String,
    pub latency_ms: Option<i64>,
    pub error: Option<String>,
    pub pool_size: Option<u32>,
}

/// Connection-pool statistics for the status endpoint.
#[derive(Clone, Debug, PartialEq)]
pub struct DatabaseStats {
    pub connected: bool,
    pub pool_size: Option<u32>,
}

/// Coarse row counts for the status endpoint.
#[derive(Clone, Debug, PartialEq)]
pub struct SystemStatistics {
    pub total_conversations: i64,
    pub total_messages: i64,
    pub active_influencers: i64,
}

/// Acknowledgement of a conversation deletion.
#[derive(Clone, Debug, PartialEq)]
pub struct DeleteConversationResponse {
    pub success: bool,
    pub message: String,
    pub deleted_conversation_id: String,
    pub deleted_messages_count: i64,
}

/// Acknowledgement of a mark-as-read request.
#[derive(Clone, Debug, PartialEq)]
pub struct MarkConversationAsReadResponse {
    pub id: String,
    pub unread_count: i64,
    pub last_read_at: i64,
}

} // verus!
