//! Durable-fact handling: reading the key/value object out of a
//! generation backend's free-form reply and merging it into the
//! conversation's remembered facts.

use vstd::prelude::*;

verus! {

use crate::context::pair_views;
use crate::context::spec_lookup;
use crate::text::find_first;
use crate::text::find_last;
use crate::text::lemma_first_index_char;
use crate::text::lemma_last_index_char;
use crate::text::spec_first_index;
use crate::text::spec_last_index;
use vstd::string::StrSliceExecFns;
use vstd::string::StringExecFns;

/// The key/value pairs of `s` read as a JSON object whose values are
/// all strings, sorted by key; nothing when `s` is not such an object.
pub uninterp spec fn json_string_object(s: Seq<char>) -> Option<Seq<(Seq<char>, Seq<char>)>>;

/// Relies on serde_json::from_str into a string-to-string map: parses
/// `s` as a JSON object whose values are all strings, or fails. The
/// map type keeps its entries sorted by key, so the pairs that come
/// back are a function of `s` alone.
#[verifier::external_body]
fn parse_string_object(s: &str) -> (r: Option<Vec<(String, String)>>)
    ensures
        r is Some <==> json_string_object(s@) is Some,
        r matches Some(v) ==> Some(pair_views(v@)) == json_string_object(s@),
{
    serde_json::from_str::<std::collections::BTreeMap<String, String>>(s)
        .ok()
        .map(|m| m.into_iter().collect())
}

/// The brace-delimited slice of a reply: from the first `{` through
/// the last `}`, provided both exist in that order.
pub open spec fn spec_json_slice(s: Seq<char>) -> Option<Seq<char>> {
    let a = spec_first_index(s, '{');
    let b = spec_last_index(s, '}');
    if a != -1 && b != -1 && a < b {
        Some(s.subrange(a, b + 1))
    } else {
        None
    }
}

/// Cut the JSON object candidate out of a backend reply.
pub fn extract_json_object(text: &str) -> (r: Option<String>)
    ensures
        match r {
            Some(v) => Some(v@) == spec_json_slice(text@),
            None => spec_json_slice(text@) is None,
        },
{
    let a = match find_first(text, '{') {
        Some(a) => a,
        None => {
            return None;
        },
    };
    let b = match find_last(text, '}') {
        Some(b) => b,
        None => {
            return None;
        },
    };
    if a >= b {
        return None;
    }
    let n = text.unicode_len();
    proof {
        lemma_first_index_char(text@, '{');
        lemma_last_index_char(text@, '}');
        assert(b < n);
    }
    let piece = text.substring_char(a, b + 1);
    proof {
        assert(piece@ =~= text@.subrange(a as int, b + 1));
    }
    Some(piece.to_owned())
}

/// Copy an association list of strings exactly.
pub fn clone_string_pairs(v: &Vec<(String, String)>) -> (r: Vec<(String, String)>)
    ensures
        r@.len() == v@.len(),
        pair_views(r@) == pair_views(v@),
{
    let mut out: Vec<(String, String)> = Vec::new();
    let n = v.len();
    let mut i: usize = 0;
    while i < n
        invariant
            n == v@.len(),
            i <= n,
            out@.len() == i,
            forall|j: int|
                0 <= j < i ==> (#[trigger] out@[j]).0@ == v@[j].0@ && out@[j].1@ == v@[j].1@,
        decreases n - i,
    {
        out.push((v[i].0.clone(), v[i].1.clone()));
        i = i + 1;
    }
    proof {
        assert(pair_views(out@) =~= pair_views(v@));
    }
    out
}

/// The merge of newly extracted facts over the existing ones: every
/// existing key keeps its place but takes the new value when the
/// extraction names it, and keys seen for the first time follow in the
/// extraction's order.
pub open spec fn spec_merged(
    existing: Seq<(Seq<char>, Seq<char>)>,
    fresh: Seq<(Seq<char>, Seq<char>)>,
) -> Seq<(Seq<char>, Seq<char>)> {
    existing.map_values(
        |p: (Seq<char>, Seq<char>)|
            (
                p.0,
                match spec_lookup(fresh, p.0) {
                    Some(v) => v,
                    None => p.1,
                },
            ),
    ) + fresh.filter(|q: (Seq<char>, Seq<char>)| spec_lookup(existing, q.0) is None)
}

/// Look a key up in an association list of strings.
fn lookup_pair(m: &Vec<(String, String)>, k: &str) -> (r: Option<String>)
    ensures
        match r {
            Some(v) => Some(v@) == spec_lookup(pair_views(m@), k@),
            None => spec_lookup(pair_views(m@), k@) is None,
        },
{
    let ghost views = pair_views(m@);
    proof {
        assert(views.skip(0) =~= views);
    }
    let n = m.len();
    let mut i: usize = 0;
    while i < n
        invariant
            n == m@.len(),
            i <= n,
            views == pair_views(m@),
            spec_lookup(views, k@) == spec_lookup(views.skip(i as int), k@),
        decreases n - i,
    {
        proof {
            assert(views.skip(i as int)[0] == views[i as int]);
            assert(views.skip(i as int).drop_first() =~= views.skip(i + 1));
        }
        if crate::text::str_eq(m[i].0.as_str(), k) {
            return Some(m[i].1.clone());
        }
        i = i + 1;
    }
    proof {
        assert(views.skip(n as int) =~= Seq::<(Seq<char>, Seq<char>)>::empty());
    }
    None
}

/// Merge freshly extracted facts into the existing ones.
pub fn merge_memories(existing: &Vec<(String, String)>, fresh: &Vec<(String, String)>) -> (r: Vec<
    (String, String),
>)
    ensures
        pair_views(r@) == spec_merged(pair_views(existing@), pair_views(fresh@)),
{
    let ghost evs = pair_views(existing@);
    let ghost fvs = pair_views(fresh@);
    let ghost keep = |q: (Seq<char>, Seq<char>)| spec_lookup(evs, q.0) is None;
    let mut out: Vec<(String, String)> = Vec::new();
    let n = existing.len();
    let mut i: usize = 0;
    while i < n
        invariant
            n == existing@.len(),
            i <= n,
            evs == pair_views(existing@),
            fvs == pair_views(fresh@),
            out@.len() == i,
            forall|j: int|
                0 <= j < i ==> (#[trigger] out@[j]).0@ == evs[j].0 && out@[j].1@ == (
                match spec_lookup(fvs, evs[j].0) {
                    Some(v) => v,
                    None => evs[j].1,
                }),
        decreases n - i,
    {
        let replacement = lookup_pair(fresh, existing[i].0.as_str());
        match replacement {
            Some(v) => out.push((existing[i].0.clone(), v)),
            None => out.push((existing[i].0.clone(), existing[i].1.clone())),
        }
        i = i + 1;
    }
    proof {
        assert(pair_views(out@) =~= evs.map_values(
            |p: (Seq<char>, Seq<char>)|
                (
                    p.0,
                    match spec_lookup(fvs, p.0) {
                        Some(v) => v,
                        None => p.1,
                    },
                ),
        ));
    }
    let ghost mapped = pair_views(out@);
    let m = fresh.len();
    let mut j: usize = 0;
    while j < m
        invariant
            m == fresh@.len(),
            j <= m,
            evs == pair_views(existing@),
            fvs == pair_views(fresh@),
            keep == (|q: (Seq<char>, Seq<char>)| spec_lookup(evs, q.0) is None),
            pair_views(out@) =~= mapped + fvs.take(j as int).filter(keep),
        decreases m - j,
    {
        proof {
            assert(fvs.take(j + 1).drop_last() =~= fvs.take(j as int));
            assert(fvs.take(j + 1).last() == fvs[j as int]);
            crate::seqs::lemma_filter_push(fvs.take(j as int), fvs[j as int], keep);
            assert(fvs.take(j as int).push(fvs[j as int]) =~= fvs.take(j + 1));
        }
        proof {
            assert(fvs[j as int] == (fresh@[j as int].0@, fresh@[j as int].1@));
        }
        match lookup_pair(existing, fresh[j].0.as_str()) {
            Some(_) => {
                proof {
                    assert(!keep(fvs[j as int]));
                    assert(fvs.take(j + 1).filter(keep) =~= fvs.take(j as int).filter(keep));
                }
            },
            None => {
                out.push((fresh[j].0.clone(), fresh[j].1.clone()));
                proof {
                    assert(keep(fvs[j as int]));
                    assert(fvs.take(j + 1).filter(keep) =~= fvs.take(j as int).filter(keep).push(
                        fvs[j as int],
                    ));
                    assert(pair_views(out@) =~= pair_views(out@.drop_last()).push(fvs[j as int]));
                    assert(pair_views(out@.drop_last()) =~= mapped + fvs.take(j as int).filter(
                        keep,
                    ));
                }
            },
        }
        proof {
            assert(pair_views(out@) =~= mapped + fvs.take(j + 1).filter(keep));
        }
        j = j + 1;
    }
    proof {
        assert(fvs.take(m as int) =~= fvs);
    }
    out
}

/// The remembered facts listed one per line, or `(none)`.
pub open spec fn spec_memory_list(mem: Seq<(Seq<char>, Seq<char>)>) -> Seq<char>
    decreases mem.len(),
{
    if mem.len() == 0 {
        "(none)"@
    } else if mem.len() == 1 {
        "- "@ + mem[0].0 + ": "@ + mem[0].1
    } else {
        spec_memory_list(mem.drop_last()) + "\n"@ + "- "@ + mem.last().0 + ": "@ + mem.last().1
    }
}

/// The instruction sent to a generation backend to extract durable
/// facts from one exchange.
pub open spec fn spec_memory_prompt(
    user_message: Seq<char>,
    assistant_response: Seq<char>,
    mem: Seq<(Seq<char>, Seq<char>)>,
) -> Seq<char> {
    "Extract any factual information about the user from this conversation that should be remembered for future interactions.\n\nExamples of things to remember:\n- Physical attributes: height, weight, age, appearance\n- Personal information: name, location, occupation, interests\n- Preferences: favorite foods, hobbies, goals\n- Context: relationship status, family, pets\n\nRecent conversation:\nUser: "@
        + user_message + "\nAssistant: "@ + assistant_response + "\n\nCurrent memories:\n"@
        + spec_memory_list(mem)
        + "\n\nReturn ONLY a JSON object with key-value pairs. Use lowercase keys with underscores (e.g., \"height\", \"weight\", \"name\").\nIf no new information was provided, return an empty object {}.\nIf information updates an existing memory, use the new value.\nFormat: {\"key1\": \"value1\", \"key2\": \"value2\"}"@
}

/// Render the fact-extraction instruction for one exchange.
pub fn memory_prompt(
    user_message: &str,
    assistant_response: &str,
    memories: &Vec<(String, String)>,
) -> (r: String)
    ensures
        r@ == spec_memory_prompt(user_message@, assistant_response@, pair_views(memories@)),
{
    let ghost views = pair_views(memories@);
    let mut out = String::from_str(
        "Extract any factual information about the user from this conversation that should be remembered for future interactions.\n\nExamples of things to remember:\n- Physical attributes: height, weight, age, appearance\n- Personal information: name, location, occupation, interests\n- Preferences: favorite foods, hobbies, goals\n- Context: relationship status, family, pets\n\nRecent conversation:\nUser: ",
    );
    out.append(user_message);
    out.append("\nAssistant: ");
    out.append(assistant_response);
    out.append("\n\nCurrent memories:\n");
    let ghost head = out@;
    if memories.len() == 0 {
        out.append("(none)");
    } else {
        let n = memories.len();
        let mut i: usize = 0;
        while i < n
            invariant
                n == memories@.len(),
                n > 0,
                i <= n,
                views == pair_views(memories@),
                i == 0 ==> out@ == head,
                i > 0 ==> out@ == head + spec_memory_list(views.take(i as int)),
            decreases n - i,
        {
            if i > 0 {
                out.append("\n");
            }
            out.append("- ");
            out.append(memories[i].0.as_str());
            out.append(": ");
            out.append(memories[i].1.as_str());
            proof {
                assert(views.take(i + 1).drop_last() =~= views.take(i as int));
                assert(views.take(i + 1).last() == views[i as int]);
                if i == 0 {
                    assert(out@ =~= head + spec_memory_list(views.take(1)));
                } else {
                    assert(out@ =~= head + spec_memory_list(views.take(i + 1)));
                }
            }
            i = i + 1;
        }
        proof {
            assert(views.take(n as int) =~= views);
        }
    }
    out.append(
        "\n\nReturn ONLY a JSON object with key-value pairs. Use lowercase keys with underscores (e.g., \"height\", \"weight\", \"name\").\nIf no new information was provided, return an empty object {}.\nIf information updates an existing memory, use the new value.\nFormat: {\"key1\": \"value1\", \"key2\": \"value2\"}",
    );
    proof {
        assert(out@ =~= spec_memory_prompt(
            user_message@,
            assistant_response@,
            pair_views(memories@),
        ));
    }
    out
}

/// What the remembered facts become after one extraction reply: when
/// the reply holds a parseable, non-empty object of string facts, the
/// merge of those facts over the existing ones; on anything else the
/// existing facts, unchanged.
pub open spec fn spec_interpreted(text: Seq<char>, existing: Seq<(Seq<char>, Seq<char>)>) -> Seq<
    (Seq<char>, Seq<char>),
> {
    match spec_json_slice(text) {
        None => existing,
        Some(slice) => match json_string_object(slice) {
            None => existing,
            Some(fresh) => if fresh.len() == 0 {
                existing
            } else {
                spec_merged(existing, fresh)
            },
        },
    }
}

/// Read a backend's extraction reply and fold it into the remembered
/// facts. Any shape of failure leaves the facts exactly as they were.
pub fn interpret_memory_response(text: &str, existing: &Vec<(String, String)>) -> (r: Vec<
    (String, String),
>)
    ensures
        pair_views(r@) == spec_interpreted(text@, pair_views(existing@)),
{
    let slice = match extract_json_object(text) {
        Some(s) => s,
        None => {
            return clone_string_pairs(existing);
        },
    };
    let fresh = match parse_string_object(slice.as_str()) {
        Some(f) => f,
        None => {
            return clone_string_pairs(existing);
        },
    };
    if fresh.len() == 0 {
        return clone_string_pairs(existing);
    }
    merge_memories(existing, &fresh)
}

} // verus!
