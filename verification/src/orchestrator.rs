//! Orchestration of one "send message" request: the admission check
//! that rejects, replays or admits the request, and every decision and value the flow
//! computes between its suspension points. Persistence, generation and
//! notification calls happen outside; each hands its result to the next
//! verified step.

use vstd::prelude::*;

verus! {

use crate::model::AIInfluencer;
use crate::model::Conversation;
use crate::model::InfluencerStatus;
use crate::model::Message;
use crate::model::MessageRole;
use crate::model::MessageType;
use crate::model::spec_message_type;
use crate::requests::SendMessageRequest;
use crate::text::str_eq;
use vstd::string::StrSliceExecFns;
use vstd::string::StringExecFns;

/// The terminal failures of an orchestrated send; each aborts before
/// any message row is written.
#[derive(Clone, Debug, PartialEq)]
pub enum SendError {
    /// Malformed or missing fields for the message type.
    Validation(String),
    /// The conversation belongs to somebody else.
    Authorization(String),
    /// Conversation or influencer missing.
    NotFound(String),
    /// The influencer is discontinued and takes no more messages.
    Unavailable(String),
}

impl SendError {
    /// The HTTP status this failure surfaces as.
    pub fn status_code(&self) -> (r: u16)
        ensures
            r == (match *self {
                SendError::Validation(_) => 400int,
                SendError::Authorization(_) => 403int,
                SendError::NotFound(_) => 404int,
                SendError::Unavailable(_) => 403int,
            }),
    {
        match self {
            SendError::Validation(_) => 400,
            SendError::Authorization(_) => 403,
            SendError::NotFound(_) => 404,
            SendError::Unavailable(_) => 403,
        }
    }

    /// The machine-readable error code of this failure.
    pub fn error_code(&self) -> (r: &'static str)
        ensures
            *self matches SendError::Validation(_) ==> r@ == "bad_request"@,
            *self matches SendError::Authorization(_) ==> r@ == "forbidden"@,
            *self matches SendError::NotFound(_) ==> r@ == "not_found"@,
            *self matches SendError::Unavailable(_) ==> r@ == "forbidden"@,
    {
        match self {
            SendError::Validation(_) => "bad_request",
            SendError::Authorization(_) => "forbidden",
            SendError::NotFound(_) => "not_found",
            SendError::Unavailable(_) => "forbidden",
        }
    }

    /// The message carried by this failure.
    pub fn message(&self) -> (r: &String)
        ensures
            *r == (match *self {
                SendError::Validation(m) => m,
                SendError::Authorization(m) => m,
                SendError::NotFound(m) => m,
                SendError::Unavailable(m) => m,
            }),
    {
        match self {
            SendError::Validation(m) => m,
            SendError::Authorization(m) => m,
            SendError::NotFound(m) => m,
            SendError::Unavailable(m) => m,
        }
    }
}

/// Decision of the pre-persistence admission check.
pub enum SendGate {
    /// Terminal rejection; nothing was and nothing will be written.
    Reject(SendError),
    /// Dedup hit: the stored pair is returned unchanged and the flow
    /// ends here, with no new rows and no generation.
    Replay(Message, Message),
    /// All checks passed; the flow proceeds with the parsed type.
    Proceed(MessageType),
}

/// A retried send is recognised when the request carries a dedup key,
/// a message with that key already exists in the conversation, and an
/// assistant reply to it exists as well.
pub open spec fn spec_dedup_hit(
    req: SendMessageRequest,
    existing: Option<Message>,
    reply: Option<Message>,
) -> bool {
    req.client_message_id is Some && existing is Some && reply is Some
}

impl SendGate {
    /// What the admission check must decide, in order: validation, conversation
    /// existence, ownership, deduplication, influencer existence,
    /// availability; only then the flow proceeds.
    pub open spec fn spec_gate(
        req: SendMessageRequest,
        caller_id: Seq<char>,
        conv: Option<Conversation>,
        existing: Option<Message>,
        reply: Option<Message>,
        influencer: Option<AIInfluencer>,
        g: SendGate,
    ) -> bool {
        if req.spec_validation_error() is Some {
            g matches SendGate::Reject(SendError::Validation(m)) && Some(m@)
                == req.spec_validation_error()
        } else if conv is None {
            g matches SendGate::Reject(SendError::NotFound(m)) && m@ == "Conversation not found"@
        } else if conv matches Some(c) && c.user_id@ != caller_id {
            g matches SendGate::Reject(SendError::Authorization(m)) && m@
                == "Not your conversation"@
        } else if spec_dedup_hit(req, existing, reply) {
            g matches SendGate::Replay(u, a) && Some(u) == existing && Some(a) == reply
        } else if influencer is None {
            g matches SendGate::Reject(SendError::NotFound(m)) && m@ == "Influencer not found"@
        } else if influencer matches Some(inf) && inf.is_active is Discontinued {
            g matches SendGate::Reject(SendError::Unavailable(m)) && m@
                == "This bot has been deleted and can no longer receive messages."@
        } else {
            g matches SendGate::Proceed(t) && Some(t) == spec_message_type(req.message_type@)
        }
    }
}

/// Run the pre-persistence admission check over everything fetched so
/// far. The decision is a pure function of its inputs, made in the
/// order the flow demands, and nothing is mutated on any branch.
pub fn gate_send(
    req: &SendMessageRequest,
    caller_id: &str,
    conv: &Option<Conversation>,
    existing: Option<Message>,
    reply: Option<Message>,
    influencer: &Option<AIInfluencer>,
) -> (g: SendGate)
    ensures
        SendGate::spec_gate(*req, caller_id@, *conv, existing, reply, *influencer, g),
{
    if let Err(e) = req.validate_content() {
        return SendGate::Reject(SendError::Validation(e));
    }
    let conv_ref = match conv {
        Some(c) => c,
        None => {
            return SendGate::Reject(
                SendError::NotFound(String::from_str("Conversation not found")),
            );
        },
    };
    if !str_eq(conv_ref.user_id.as_str(), caller_id) {
        return SendGate::Reject(
            SendError::Authorization(String::from_str("Not your conversation")),
        );
    }
    if req.client_message_id.is_some() {
        if let Some(u) = existing {
            if let Some(a) = reply {
                return SendGate::Replay(u, a);
            }
        }
    }
    let inf = match influencer {
        Some(inf) => inf,
        None => {
            return SendGate::Reject(SendError::NotFound(String::from_str("Influencer not found")));
        },
    };
    if let InfluencerStatus::Discontinued = inf.is_active {
        return SendGate::Reject(
            SendError::Unavailable(
                String::from_str("This bot has been deleted and can no longer receive messages."),
            ),
        );
    }
    let t = match req.parsed_message_type() {
        Some(t) => t,
        None => {
            // Unreachable: validation has already parsed the type.
            return SendGate::Reject(SendError::Validation(String::from_str("Invalid message type")));
        },
    };
    SendGate::Proceed(t)
}

/// A message row about to be written; ids and timestamps are assigned
/// by the store.
#[derive(Clone, Debug, PartialEq)]
pub struct NewMessage {
    pub conversation_id: String,
    pub role: MessageRole,
    pub content: Option<String>,
    pub message_type: MessageType,
    pub media_urls: Vec<String>,
    pub audio_url: Option<String>,
    pub audio_duration_seconds: Option<i32>,
    pub token_count: Option<i32>,
    pub client_message_id: Option<String>,
}

/// Which audio reference, if any, must be transcribed before the
/// message is stored: exactly the audio messages that carry one.
pub fn transcription_plan(message_type: &MessageType, audio_url: &Option<String>) -> (r: Option<
    String,
>)
    ensures
        (*message_type is Audio && audio_url is Some) <==> r is Some,
        r matches Some(k) ==> audio_url matches Some(a) && k@ == a@,
{
    match (message_type, audio_url) {
        (MessageType::Audio, Some(a)) => Some(a.clone()),
        _ => None,
    }
}

/// The content stored for a transcribed audio message: the transcript
/// in its bracket frame, or the fixed placeholder when transcription
/// failed. Transcription failure is never fatal to delivery.
pub fn audio_content(transcript: Option<String>) -> (r: String)
    ensures
        match transcript {
            Some(t) => r@ == "[Transcribed: "@ + t@ + "]"@,
            None => r@ == "[Audio message - transcription unavailable]"@,
        },
{
    match transcript {
        Some(t) => {
            let mut out = String::from_str("[Transcribed: ");
            out.append(t.as_str());
            out.append("]");
            proof {
                assert(out@ =~= "[Transcribed: "@ + t@ + "]"@);
            }
            out
        },
        None => String::from_str("[Audio message - transcription unavailable]"),
    }
}

/// The inbound row to persist: the caller's message under its
/// conversation, with the resolved content and the dedup key. This row
/// is written before generation is attempted, so the caller's input
/// survives any generation failure.
pub fn user_message_draft(
    conversation_id: &str,
    req: &SendMessageRequest,
    content: Option<String>,
    message_type: MessageType,
) -> (d: NewMessage)
    ensures
        d.conversation_id@ == conversation_id@,
        d.role is User,
        d.content == content,
        d.message_type == message_type,
        d.media_urls@.len() == (match req.media_urls {
            Some(v) => v@.len(),
            None => 0,
        }),
        req.media_urls matches Some(v) ==> d.media_urls@ == v@,
        d.audio_url == req.audio_url,
        d.audio_duration_seconds == req.audio_duration_seconds,
        d.token_count is None,
        d.client_message_id == req.client_message_id,
{
    NewMessage {
        conversation_id: conversation_id.to_owned(),
        role: MessageRole::User,
        content,
        message_type,
        media_urls: match &req.media_urls {
            Some(v) => crate::text::clone_string_vec(v),
            None => Vec::new(),
        },
        audio_url: match &req.audio_url {
            Some(a) => Some(a.clone()),
            None => None,
        },
        audio_duration_seconds: req.audio_duration_seconds,
        token_count: None,
        client_message_id: match &req.client_message_id {
            Some(c) => Some(c.clone()),
            None => None,
        },
    }
}

/// Which generation backend serves this influencer: an NSFW-flagged
/// persona routes to the alternate backend when one is configured, and
/// everything else to the default.
#[derive(Clone, Copy, Debug, PartialEq, Eq, Structural)]
pub enum GenerationBackend {
    Default,
    Alternate,
}

pub fn select_backend(is_nsfw: bool, alternate_configured: bool) -> (b: GenerationBackend)
    ensures
        b == (if is_nsfw && alternate_configured {
            GenerationBackend::Alternate
        } else {
            GenerationBackend::Default
        }),
{
    if is_nsfw && alternate_configured {
        GenerationBackend::Alternate
    } else {
        GenerationBackend::Default
    }
}

/// What the generation backend is asked: the stored (possibly
/// transcribed) content, else the raw request content, else a fixed
/// nudge.
pub fn generation_input(stored: &Option<String>, requested: &Option<String>) -> (r: String)
    ensures
        r@ == (match *stored {
            Some(s) => s@,
            None => match *requested {
                Some(c) => c@,
                None => "What do you think?"@,
            },
        }),
{
    match stored {
        Some(s) => s.clone(),
        None => match requested {
            Some(c) => c.clone(),
            None => String::from_str("What do you think?"),
        },
    }
}

/// The fixed user-facing apology substituted when generation fails.
pub fn fallback_text() -> (r: &'static str)
    ensures
        r@ == "I'm having trouble generating a response right now. Please try again."@,
{
    "I'm having trouble generating a response right now. Please try again."
}

/// What one generation attempt came to: either the backend's text with
/// its token count, or the degraded substitute.
#[derive(Clone, Debug, PartialEq)]
pub struct GenerationOutcome {
    pub text: String,
    pub token_count: i32,
    pub degraded: bool,
}

/// Convert a generation result into the response content: any failure
/// becomes the fixed apology with zero tokens, marked degraded, and
/// never an error surfaced to the caller.
pub fn resolve_generation(result: Option<(String, i32)>) -> (g: GenerationOutcome)
    ensures
        match result {
            Some((t, n)) => g.text == t && g.token_count == n && !g.degraded,
            None => g.text@
                == "I'm having trouble generating a response right now. Please try again."@
                && g.token_count == 0 && g.degraded,
        },
{
    match result {
        Some((t, n)) => GenerationOutcome { text: t, token_count: n, degraded: false },
        None => GenerationOutcome {
            text: String::from_str(fallback_text()),
            token_count: 0,
            degraded: true,
        },
    }
}

/// The outbound row to persist: the assistant's reply as plain text.
pub fn assistant_message_draft(conversation_id: &str, text: String, token_count: i32) -> (d:
    NewMessage)
    ensures
        d.conversation_id@ == conversation_id@,
        d.role is Assistant,
        d.content matches Some(c) && c == text,
        d.message_type is Text,
        d.media_urls@.len() == 0,
        d.audio_url is None,
        d.audio_duration_seconds is None,
        d.token_count matches Some(n) && n == token_count,
        d.client_message_id is None,
{
    NewMessage {
        conversation_id: conversation_id.to_owned(),
        role: MessageRole::Assistant,
        content: Some(text),
        message_type: MessageType::Text,
        media_urls: Vec::new(),
        audio_url: None,
        audio_duration_seconds: None,
        token_count: Some(token_count),
        client_message_id: None,
    }
}

/// The HTTP status of a completed send: OK, or service-degraded when
/// the assistant text is the fallback.
pub fn response_status(degraded: bool) -> (r: u16)
    ensures
        r == (if degraded {
            503int
        } else {
            200int
        }),
{
    if degraded {
        503
    } else {
        200
    }
}

/// The push-notification preview: the whole text up to a hundred
/// characters, else the first hundred with an ellipsis.
pub fn notification_preview(content: &str) -> (r: String)
    ensures
        content@.len() <= 100 ==> r@ == content@,
        content@.len() > 100 ==> r@ == content@.take(100) + "..."@,
{
    let n = content.unicode_len();
    if n <= 100 {
        content.to_owned()
    } else {
        let mut out = content.substring_char(0, 100).to_owned();
        out.append("...");
        out
    }
}

} // verus!
