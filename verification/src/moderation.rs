//! Guardrail prompts appended to every persona's instructions, and
//! their removal for display.

use vstd::prelude::*;

verus! {

use crate::text::spec_trim;
use crate::text::trim_str;
use vstd::string::StrSliceExecFns;
use vstd::string::StringExecFns;

/// The style guardrail appended to system instructions.
pub fn style_prompt() -> (r: &'static str)
    ensures
        r@ == "IMPORTANT: Avoid apologies or self-corrections in your responses."@,
{
    "IMPORTANT: Avoid apologies or self-corrections in your responses."
}

/// The moderation guardrail appended to system instructions.
pub fn moderation_prompt() -> (r: &'static str)
    ensures
        r@
            == "Key Rules:\n- Always be helpful, polite, and professional\n- Do NOT provide medical, legal, or financial advice\n- Do NOT generate sexually explicit or NSFW content\n- Do NOT engage in hate speech, violence, or illegal activities\n- Decline unsafe requests gracefully while staying in character\n- Maintain consistency with your persona at all times\n- Ensure all content is safe for all ages"@,
{
    "Key Rules:\n- Always be helpful, polite, and professional\n- Do NOT provide medical, legal, or financial advice\n- Do NOT generate sexually explicit or NSFW content\n- Do NOT engage in hate speech, violence, or illegal activities\n- Decline unsafe requests gracefully while staying in character\n- Maintain consistency with your persona at all times\n- Ensure all content is safe for all ages"
}

/// `s` with every non-overlapping occurrence of `p` removed, scanning
/// left to right.
pub open spec fn spec_removed(s: Seq<char>, p: Seq<char>) -> Seq<char>
    recommends
        p.len() > 0,
    decreases s.len(),
    when p.len() > 0
{
    if s.len() < p.len() {
        s
    } else if s.take(p.len() as int) == p {
        spec_removed(s.skip(p.len() as int), p)
    } else {
        seq![s[0]] + spec_removed(s.drop_first(), p)
    }
}

/// Does `p` occur in `s` at offset `i`?
fn match_at(s: &str, i: usize, p: &str) -> (r: bool)
    requires
        i <= s@.len(),
    ensures
        r == (i + p@.len() <= s@.len() && s@.subrange(i as int, i + p@.len()) == p@),
{
    let n = s.unicode_len();
    let m = p.unicode_len();
    if n - i < m {
        return false;
    }
    let mut j: usize = 0;
    while j < m
        invariant
            n == s@.len(),
            m == p@.len(),
            i + m <= n,
            j <= m,
            forall|t: int| 0 <= t < j ==> s@[i + t] == p@[t],
        decreases m - j,
    {
        if s.get_char(i + j) != p.get_char(j) {
            proof {
                assert(s@.subrange(i as int, i + p@.len())[j as int] != p@[j as int]);
            }
            return false;
        }
        j = j + 1;
    }
    proof {
        assert(s@.subrange(i as int, i + p@.len()) =~= p@);
    }
    true
}

/// Remove every non-overlapping occurrence of `p` from `s`, scanning
/// left to right.
pub fn remove_all(s: &str, p: &str) -> (r: String)
    requires
        p@.len() > 0,
    ensures
        r@ == spec_removed(s@, p@),
{
    let n = s.unicode_len();
    let m = p.unicode_len();
    let mut out = String::new();
    let mut i: usize = 0;
    proof {
        assert(s@.skip(0) =~= s@);
    }
    while i < n
        invariant
            n == s@.len(),
            m == p@.len(),
            m > 0,
            i <= n,
            spec_removed(s@, p@) == out@ + spec_removed(s@.skip(i as int), p@),
        decreases n - i,
    {
        let ghost rest = s@.skip(i as int);
        if match_at(s, i, p) {
            proof {
                assert(rest.take(m as int) =~= s@.subrange(i as int, i + m));
                assert(rest.skip(m as int) =~= s@.skip(i + m));
            }
            i = i + m;
        } else {
            let piece = s.substring_char(i, i + 1);
            proof {
                assert(piece@ =~= seq![s@[i as int]]);
                assert(rest[0] == s@[i as int]);
                assert(rest.drop_first() =~= s@.skip(i + 1));
                if rest.len() >= m {
                    assert(rest.take(m as int) =~= s@.subrange(i as int, i + m));
                    assert(spec_removed(rest, p@) == seq![s@[i as int]] + spec_removed(
                        s@.skip(i + 1),
                        p@,
                    ));
                } else {
                    assert(spec_removed(rest, p@) == rest);
                    assert(s@.skip(i + 1).len() < m);
                    assert(spec_removed(s@.skip(i + 1), p@) == s@.skip(i + 1));
                    assert(spec_removed(rest, p@) =~= seq![s@[i as int]] + spec_removed(
                        s@.skip(i + 1),
                        p@,
                    ));
                }
            }
            out.append(piece);
            i = i + 1;
        }
        proof {
            assert(spec_removed(s@, p@) =~= out@ + spec_removed(s@.skip(i as int), p@));
        }
    }
    proof {
        assert(s@.skip(n as int) =~= Seq::<char>::empty());
        assert(spec_removed(Seq::<char>::empty(), p@) =~= Seq::<char>::empty());
        assert(out@ =~= spec_removed(s@, p@));
    }
    out
}

/// Append the style and moderation guardrails to system instructions.
pub fn with_guardrails(instructions: &str) -> (r: String)
    ensures
        r@ == instructions@ + "\n"@
            + "IMPORTANT: Avoid apologies or self-corrections in your responses."@ + "\n"@
            + "Key Rules:\n- Always be helpful, polite, and professional\n- Do NOT provide medical, legal, or financial advice\n- Do NOT generate sexually explicit or NSFW content\n- Do NOT engage in hate speech, violence, or illegal activities\n- Decline unsafe requests gracefully while staying in character\n- Maintain consistency with your persona at all times\n- Ensure all content is safe for all ages"@,
{
    let mut out = instructions.to_owned();
    out.append("\n");
    out.append(style_prompt());
    out.append("\n");
    out.append(moderation_prompt());
    out
}

/// Strip the appended guardrails back out of system instructions, for
/// display: remove every occurrence of each guardrail, then trim.
pub fn strip_guardrails(instructions: &str) -> (r: String)
    ensures
        r@ == spec_trim(
            spec_removed(
                spec_removed(
                    instructions@,
                    "IMPORTANT: Avoid apologies or self-corrections in your responses."@,
                ),
                "Key Rules:\n- Always be helpful, polite, and professional\n- Do NOT provide medical, legal, or financial advice\n- Do NOT generate sexually explicit or NSFW content\n- Do NOT engage in hate speech, violence, or illegal activities\n- Decline unsafe requests gracefully while staying in character\n- Maintain consistency with your persona at all times\n- Ensure all content is safe for all ages"@,
            ),
        ),
{
    let style = style_prompt();
    let moderation = moderation_prompt();
    proof {
        reveal_strlit("IMPORTANT: Avoid apologies or self-corrections in your responses.");
        assert(style@.len() > 0);
        reveal_strlit(
            "Key Rules:\n- Always be helpful, polite, and professional\n- Do NOT provide medical, legal, or financial advice\n- Do NOT generate sexually explicit or NSFW content\n- Do NOT engage in hate speech, violence, or illegal activities\n- Decline unsafe requests gracefully while staying in character\n- Maintain consistency with your persona at all times\n- Ensure all content is safe for all ages",
        );
        assert(moderation@.len() > 0);
    }
    let first = remove_all(instructions, style);
    let second = remove_all(first.as_str(), moderation);
    trim_str(second.as_str())
}

} // verus!
