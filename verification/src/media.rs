//! Filename helpers for media upload: extension extraction and the
//! MIME type it maps to.

use vstd::prelude::*;

verus! {

use crate::text::ci_eq;
use crate::text::eq_ignore_case;
use crate::text::find_last;
use crate::text::lemma_last_index_char;
use crate::text::spec_last_index;
use vstd::string::StrSliceExecFns;
use vstd::string::StringExecFns;

/// The extension of a filename, dot included: everything from the last
/// dot on, or nothing when there is no dot.
pub open spec fn spec_file_extension(s: Seq<char>) -> Seq<char> {
    let i = spec_last_index(s, '.');
    if i == -1 {
        Seq::empty()
    } else {
        s.skip(i)
    }
}

pub fn file_extension(filename: &str) -> (r: String)
    ensures
        r@ == spec_file_extension(filename@),
{
    match find_last(filename, '.') {
        Some(i) => {
            let n = filename.unicode_len();
            proof {
                lemma_last_index_char(filename@, '.');
            }
            let ext = filename.substring_char(i, n);
            proof {
                assert(ext@ =~= filename@.skip(i as int));
            }
            ext.to_owned()
        },
        None => String::new(),
    }
}

/// The MIME type for a media file extension, matched without regard to
/// ASCII case; anything unknown is a plain octet stream.
pub fn mime_from_extension(ext: &str) -> (r: &'static str)
    ensures
        r@ == (if ci_eq(ext@, ".jpg"@) || ci_eq(ext@, ".jpeg"@) {
            "image/jpeg"@
        } else if ci_eq(ext@, ".png"@) {
            "image/png"@
        } else if ci_eq(ext@, ".gif"@) {
            "image/gif"@
        } else if ci_eq(ext@, ".webp"@) {
            "image/webp"@
        } else if ci_eq(ext@, ".mp3"@) {
            "audio/mpeg"@
        } else if ci_eq(ext@, ".m4a"@) {
            "audio/mp4"@
        } else if ci_eq(ext@, ".wav"@) {
            "audio/wav"@
        } else if ci_eq(ext@, ".ogg"@) {
            "audio/ogg"@
        } else {
            "application/octet-stream"@
        }),
{
    if eq_ignore_case(ext, ".jpg") || eq_ignore_case(ext, ".jpeg") {
        "image/jpeg"
    } else if eq_ignore_case(ext, ".png") {
        "image/png"
    } else if eq_ignore_case(ext, ".gif") {
        "image/gif"
    } else if eq_ignore_case(ext, ".webp") {
        "image/webp"
    } else if eq_ignore_case(ext, ".mp3") {
        "audio/mpeg"
    } else if eq_ignore_case(ext, ".m4a") {
        "audio/mp4"
    } else if eq_ignore_case(ext, ".wav") {
        "audio/wav"
    } else if eq_ignore_case(ext, ".ogg") {
        "audio/ogg"
    } else {
        "application/octet-stream"
    }
}

} // verus!
