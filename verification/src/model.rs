//! Domain model: message and influencer enums and the entity records
//! the orchestrator works over. Timestamps are plain epoch seconds and
//! free-form metadata is narrowed to the fields this crate's logic
//! reads, so every record is a value Verus can reason about.

use vstd::prelude::*;

verus! {

use crate::text::ci_eq;
use crate::text::eq_ignore_case;
use crate::text::str_eq;

/// Kind of an inbound chat message.
#[derive(Clone, Copy, Debug, PartialEq, Eq, Structural)]
pub enum MessageType {
    Text,
    Multimodal,
    Image,
    Audio,
}

/// The message type a wire string denotes, tolerating ASCII upper case.
pub open spec fn spec_message_type(s: Seq<char>) -> Option<MessageType> {
    if ci_eq(s, "text"@) {
        Some(MessageType::Text)
    } else if ci_eq(s, "multimodal"@) {
        Some(MessageType::Multimodal)
    } else if ci_eq(s, "image"@) {
        Some(MessageType::Image)
    } else if ci_eq(s, "audio"@) {
        Some(MessageType::Audio)
    } else {
        None
    }
}

impl MessageType {
    pub fn as_str(&self) -> (r: &'static str)
        ensures
            *self is Text ==> r@ == "text"@,
            *self is Multimodal ==> r@ == "multimodal"@,
            *self is Image ==> r@ == "image"@,
            *self is Audio ==> r@ == "audio"@,
    {
        match self {
            MessageType::Text => "text",
            MessageType::Multimodal => "multimodal",
            MessageType::Image => "image",
            MessageType::Audio => "audio",
        }
    }

    /// Parses a message type, tolerating ASCII upper case.
    pub fn from_str(s: &str) -> (r: Option<MessageType>)
        ensures
            r == spec_message_type(s@),
    {
        if eq_ignore_case(s, "text") {
            Some(MessageType::Text)
        } else if eq_ignore_case(s, "multimodal") {
            Some(MessageType::Multimodal)
        } else if eq_ignore_case(s, "image") {
            Some(MessageType::Image)
        } else if eq_ignore_case(s, "audio") {
            Some(MessageType::Audio)
        } else {
            None
        }
    }
}

/// Author of a stored message row.
#[derive(Clone, Copy, Debug, PartialEq, Eq, Structural)]
pub enum MessageRole {
    User,
    Assistant,
}

impl MessageRole {
    pub fn as_str(&self) -> (r: &'static str)
        ensures
            *self is User ==> r@ == "user"@,
            *self is Assistant ==> r@ == "assistant"@,
    {
        match self {
            MessageRole::User => "user",
            MessageRole::Assistant => "assistant",
        }
    }

    /// Parses a role, tolerating ASCII upper case.
    pub fn from_str(s: &str) -> (r: Option<MessageRole>)
        ensures
            r == (if ci_eq(s@, "user"@) {
                Some(MessageRole::User)
            } else if ci_eq(s@, "assistant"@) {
                Some(MessageRole::Assistant)
            } else {
                None::<MessageRole>
            }),
    {
        if eq_ignore_case(s, "user") {
            Some(MessageRole::User)
        } else if eq_ignore_case(s, "assistant") {
            Some(MessageRole::Assistant)
        } else {
            None
        }
    }
}

/// Lifecycle state of an influencer persona.
#[derive(Clone, Copy, Debug, PartialEq, Eq, Structural)]
pub enum InfluencerStatus {
    Active,
    ComingSoon,
    Discontinued,
}

impl InfluencerStatus {
    pub fn as_str(&self) -> (r: &'static str)
        ensures
            *self is Active ==> r@ == "active"@,
            *self is ComingSoon ==> r@ == "coming_soon"@,
            *self is Discontinued ==> r@ == "discontinued"@,
    {
        match self {
            InfluencerStatus::Active => "active",
            InfluencerStatus::ComingSoon => "coming_soon",
            InfluencerStatus::Discontinued => "discontinued",
        }
    }

    /// Parses a status; anything unrecognised reads as `Active`.
    pub fn from_str(s: &str) -> (r: InfluencerStatus)
        ensures
            r == (if s@ == "coming_soon"@ {
                InfluencerStatus::ComingSoon
            } else if s@ == "discontinued"@ {
                InfluencerStatus::Discontinued
            } else {
                InfluencerStatus::Active
            }),
    {
        if str_eq(s, "coming_soon") {
            InfluencerStatus::ComingSoon
        } else if str_eq(s, "discontinued") {
            InfluencerStatus::Discontinued
        } else {
            InfluencerStatus::Active
        }
    }
}

/// Deployment environment of the running process.
#[derive(Clone, Copy, Debug, PartialEq, Eq, Structural)]
pub enum Environment {
    Development,
    Staging,
    Production,
}

impl Environment {
    pub fn as_str(&self) -> (r: &'static str)
        ensures
            *self is Development ==> r@ == "development"@,
            *self is Staging ==> r@ == "staging"@,
            *self is Production ==> r@ == "production"@,
    {
        match self {
            Environment::Development => "development",
            Environment::Staging => "staging",
            Environment::Production => "production",
        }
    }

    /// Parses an environment name, tolerating ASCII upper case; anything
    /// unrecognised reads as `Development`.
    pub fn from_str(s: &str) -> (r: Environment)
        ensures
            r == (if ci_eq(s@, "production"@) {
                Environment::Production
            } else if ci_eq(s@, "staging"@) {
                Environment::Staging
            } else {
                Environment::Development
            }),
    {
        if eq_ignore_case(s, "production") {
            Environment::Production
        } else if eq_ignore_case(s, "staging") {
            Environment::Staging
        } else {
            Environment::Development
        }
    }
}

/// One stored message row, with its timestamp as epoch seconds.
#[derive(Clone, Debug, PartialEq)]
pub struct Message {
    pub id: String,
    pub conversation_id: String,
    pub role: MessageRole,
    pub content: Option<String>,
    pub message_type: MessageType,
    pub media_urls: Vec<String>,
    pub audio_url: Option<String>,
    pub audio_duration_seconds: Option<i32>,
    pub token_count: Option<i32>,
    pub client_message_id: Option<String>,
    pub created_at: i64,
    pub status: String,
    pub is_read: bool,
}

/// A conversation row as the orchestrator reads it: ownership, the
/// influencer it belongs to, and the free-form remembered facts from
/// its metadata, flattened to key/value pairs.
#[derive(Clone, Debug, PartialEq)]
pub struct Conversation {
    pub id: String,
    pub user_id: String,
    pub influencer_id: String,
    pub memories: Vec<(String, String)>,
}

/// An influencer persona, narrowed to what message delivery reads.
#[derive(Clone, Debug, PartialEq)]
pub struct AIInfluencer {
    pub id: String,
    pub name: String,
    pub display_name: String,
    pub avatar_url: Option<String>,
    pub system_instructions: String,
    pub suggested_messages: Vec<String>,
    pub is_active: InfluencerStatus,
    pub is_nsfw: bool,
}

} // verus!
