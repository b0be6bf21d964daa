//! Inbound request shapes and their validation rules.

use vstd::prelude::*;

verus! {

use crate::model::MessageType;
use crate::model::spec_message_type;
use crate::text::is_blank;
use crate::text::is_blank_str;
use crate::text::str_eq;
use vstd::string::StringExecFns;

/// Body of a create-conversation request.
#[derive(Clone, Debug, PartialEq)]
pub struct CreateConversationRequest {
    pub influencer_id: String,
}

/// Body of a send-message request.
#[derive(Clone, Debug, PartialEq)]
pub struct SendMessageRequest {
    pub message_type: String,
    pub content: Option<String>,
    pub media_urls: Option<Vec<String>>,
    pub audio_url: Option<String>,
    pub audio_duration_seconds: Option<i32>,
    pub client_message_id: Option<String>,
}

impl SendMessageRequest {
    /// The request's content is missing or nothing but whitespace.
    pub open spec fn spec_content_blank(self) -> bool {
        match self.content {
            Some(c) => is_blank(c@),
            None => true,
        }
    }

    /// How many media references the request carries.
    pub open spec fn spec_media_count(self) -> int {
        match self.media_urls {
            Some(v) => v@.len() as int,
            None => 0,
        }
    }

    /// The validation outcome: `None` when the request is well formed
    /// for its message type, otherwise the caller-visible error text.
    /// Text needs non-blank content; image and multimodal need one to
    /// ten media references; audio needs an audio reference.
    pub open spec fn spec_validation_error(self) -> Option<Seq<char>> {
        match spec_message_type(self.message_type@) {
            None => Some("Invalid message type"@),
            Some(MessageType::Text) => if self.spec_content_blank() {
                Some("content is required for text messages"@)
            } else {
                None
            },
            Some(MessageType::Image) => if self.spec_media_count() == 0 {
                Some("media_urls is required for image messages"@)
            } else if self.spec_media_count() > 10 {
                Some("Too many media URLs (max 10)"@)
            } else {
                None
            },
            Some(MessageType::Multimodal) => if self.spec_media_count() == 0 {
                Some("media_urls is required for multimodal messages"@)
            } else if self.spec_media_count() > 10 {
                Some("Too many media URLs (max 10)"@)
            } else {
                None
            },
            Some(MessageType::Audio) => if self.audio_url is None {
                Some("audio_url is required for audio messages"@)
            } else {
                None
            },
        }
    }

    /// The message type named by the request, if it parses.
    pub fn parsed_message_type(&self) -> (r: Option<MessageType>)
        ensures
            r == spec_message_type(self.message_type@),
    {
        MessageType::from_str(self.message_type.as_str())
    }

    /// Check the message-type-specific content rules; on violation the
    /// caller-visible error text, and nothing else is touched.
    pub fn validate_content(&self) -> (r: Result<(), String>)
        ensures
            match r {
                Ok(()) => self.spec_validation_error() is None,
                Err(e) => Some(e@) == self.spec_validation_error(),
            },
    {
        let msg_type = match self.parsed_message_type() {
            Some(t) => t,
            None => {
                return Err(String::from_str("Invalid message type"));
            },
        };
        match msg_type {
            MessageType::Text => {
                let blank = match &self.content {
                    Some(c) => is_blank_str(c.as_str()),
                    None => true,
                };
                if blank {
                    return Err(String::from_str("content is required for text messages"));
                }
            },
            MessageType::Image => {
                let count = match &self.media_urls {
                    Some(v) => v.len(),
                    None => 0,
                };
                if count == 0 {
                    return Err(String::from_str("media_urls is required for image messages"));
                }
                if count > 10 {
                    return Err(String::from_str("Too many media URLs (max 10)"));
                }
            },
            MessageType::Multimodal => {
                let count = match &self.media_urls {
                    Some(v) => v.len(),
                    None => 0,
                };
                if count == 0 {
                    return Err(
                        String::from_str("media_urls is required for multimodal messages"),
                    );
                }
                if count > 10 {
                    return Err(String::from_str("Too many media URLs (max 10)"));
                }
            },
            MessageType::Audio => {
                if self.audio_url.is_none() {
                    return Err(String::from_str("audio_url is required for audio messages"));
                }
            },
        }
        Ok(())
    }
}

/// Offset/limit paging with caller-supplied bounds.
#[derive(Clone, Debug, PartialEq)]
pub struct PaginationParams {
    pub limit: Option<i64>,
    pub offset: Option<i64>,
}

impl PaginationParams {
    /// The effective page size: the caller's value, defaulted and then
    /// clamped into `1..=max`.
    pub fn limit(&self, default: i64, max: i64) -> (r: i64)
        requires
            1 <= default <= max,
        ensures
            r == (match self.limit {
                Some(l) => if l < 1 {
                    1int
                } else if l > max {
                    max as int
                } else {
                    l as int
                },
                None => default as int,
            }),
    {
        let l = match self.limit {
            Some(l) => l,
            None => default,
        };
        if l < 1 {
            1
        } else if l > max {
            max
        } else {
            l
        }
    }

    /// The effective page offset, never negative.
    pub fn offset(&self) -> (r: i64)
        ensures
            r == (match self.offset {
                Some(o) => if o > 0 {
                    o as int
                } else {
                    0int
                },
                None => 0int,
            }),
    {
        match self.offset {
            Some(o) => if o > 0 {
                o
            } else {
                0
            },
            None => 0,
        }
    }
}

/// Paging for the conversation list, optionally filtered by influencer.
#[derive(Clone, Debug, PartialEq)]
pub struct ListConversationsParams {
    pub limit: Option<i64>,
    pub offset: Option<i64>,
    pub influencer_id: Option<String>,
}

impl ListConversationsParams {
    /// Page size defaulted to 20 and clamped into `1..=100`.
    pub fn limit(&self) -> (r: i64)
        ensures
            r == (match self.limit {
                Some(l) => if l < 1 {
                    1int
                } else if l > 100 {
                    100int
                } else {
                    l as int
                },
                None => 20int,
            }),
    {
        let l = match self.limit {
            Some(l) => l,
            None => 20,
        };
        if l < 1 {
            1
        } else if l > 100 {
            100
        } else {
            l
        }
    }

    /// The effective page offset, never negative.
    pub fn offset(&self) -> (r: i64)
        ensures
            r == (match self.offset {
                Some(o) => if o > 0 {
                    o as int
                } else {
                    0int
                },
                None => 0int,
            }),
    {
        match self.offset {
            Some(o) => if o > 0 {
                o
            } else {
                0
            },
            None => 0,
        }
    }
}

/// Paging and ordering for the message list.
#[derive(Clone, Debug, PartialEq)]
pub struct ListMessagesParams {
    pub limit: Option<i64>,
    pub offset: Option<i64>,
    pub order: Option<String>,
}

impl ListMessagesParams {
    /// Page size defaulted to 50 and clamped into `1..=200`.
    pub fn limit(&self) -> (r: i64)
        ensures
            r == (match self.limit {
                Some(l) => if l < 1 {
                    1int
                } else if l > 200 {
                    200int
                } else {
                    l as int
                },
                None => 50int,
            }),
    {
        let l = match self.limit {
            Some(l) => l,
            None => 50,
        };
        if l < 1 {
            1
        } else if l > 200 {
            200
        } else {
            l
        }
    }

    /// The effective page offset, never negative.
    pub fn offset(&self) -> (r: i64)
        ensures
            r == (match self.offset {
                Some(o) => if o > 0 {
                    o as int
                } else {
                    0int
                },
                None => 0int,
            }),
    {
        match self.offset {
            Some(o) => if o > 0 {
                o
            } else {
                0
            },
            None => 0,
        }
    }

    /// Sort order: exactly `"asc"` selects ascending, anything else
    /// reads as `"desc"`.
    pub fn order(&self) -> (r: &'static str)
        ensures
            (match self.order {
                Some(o) => o@ == "asc"@,
                None => false,
            }) ==> r@ == "asc"@,
            !(match self.order {
                Some(o) => o@ == "asc"@,
                None => false,
            }) ==> r@ == "desc"@,
    {
        match &self.order {
            Some(o) => if str_eq(o.as_str(), "asc") {
                "asc"
            } else {
                "desc"
            },
            None => "desc",
        }
    }
}

/// Body of a character-prompt generation request.
#[derive(Clone, Debug, PartialEq)]
pub struct GeneratePromptRequest {
    pub prompt: String,
}

/// Body of a metadata validation request.
#[derive(Clone, Debug, PartialEq)]
pub struct ValidateMetadataRequest {
    pub system_instructions: String,
}

/// Body of an image generation request.
#[derive(Clone, Debug, PartialEq)]
pub struct GenerateImageRequest {
    pub prompt: Option<String>,
}

/// Body of a system-prompt update request.
#[derive(Clone, Debug, PartialEq)]
pub struct UpdateSystemPromptRequest {
    pub system_instructions: String,
}

/// Multipart form body for a media upload.
#[derive(Clone, Debug, PartialEq)]
pub struct UploadMediaBody {
    pub file: String,
    pub media_type: String,
}

} // verus!
