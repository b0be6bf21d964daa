//! Message-delivery governance: per-caller rate limiting under a dual
//! time-window budget, fan-out of real-time events to live connections,
//! and orchestration of a single "send message" request with
//! deduplication, bounded context and graceful degradation.
//!
//! The pieces: `ratelimit` holds the dual-window token buckets and the
//! per-identifier governor, with `boundary` deriving caller identifiers
//! and rendering denials; `inbox` tracks live connections and fans
//! `events` out to them; `orchestrator`, `context` and `memory` make
//! every decision of one send — admission, transcription, the history
//! window, generation fallback, remembered facts — while `requests`,
//! `responses` and `model` shape the values those decisions run on.
//! `laws` states the properties that tie the operations together.

use vstd::prelude::*;

pub mod auth;
pub mod boundary;
pub mod context;
pub mod events;
pub mod inbox;
pub mod json;
pub mod laws;
pub mod media;
pub mod memory;
pub mod migrate;
pub mod model;
pub mod moderation;
pub mod notify;
pub mod numfmt;
pub mod orchestrator;
pub mod ratelimit;
pub mod requests;
pub mod responses;
pub mod seqs;
pub mod text;

verus! {

use vstd::string::StringSliceAdditionalSpecFns;

/// Rough token estimate for a piece of generated text: one token per
/// four bytes of UTF-8, rounded up, saturating at `i32::MAX`.
pub fn estimate_tokens(text: &str) -> (r: i32)
    ensures
        r >= 0,
        text.spec_bytes().len() + 3 < 0x8000_0000 * 4 ==> r == ((text.spec_bytes().len() + 3) / 4) as i32,
        text.spec_bytes().len() + 3 >= 0x8000_0000 * 4 ==> r == i32::MAX,
{
    let len = text.as_bytes().len();
    let whole: usize = len / 4;
    let rem: usize = len % 4;
    let ceil: usize = if rem == 0 { whole } else { whole + 1 };
    proof {
        let l = len as int;
        assert((l + 3) / 4 == l / 4 + (if l % 4 == 0 { 0int } else { 1int })) by (nonlinear_arith)
            requires l >= 0;
        if l + 3 >= 0x2_0000_0000 {
            vstd::arithmetic::div_mod::lemma_div_is_ordered(0x2_0000_0000, l + 3, 4);
        } else {
            vstd::arithmetic::div_mod::lemma_div_is_ordered(l + 3, 0x1_ffff_ffff, 4);
        }
    }
    if ceil > i32::MAX as usize {
        i32::MAX
    } else {
        ceil as i32
    }
}

} // verus!
