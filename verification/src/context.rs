//! Bounded conversation context for generation: the recent-message
//! window, collection and resolution of storage references, and the
//! merge of remembered facts into the system instructions.

use vstd::prelude::*;

verus! {

use crate::model::Message;
use crate::seqs::lemma_filter_push;
use crate::text::has_prefix;
use crate::text::str_eq;
use crate::text::str_has_prefix;
use vstd::string::StringExecFns;

/// A storage key (as opposed to an already-usable web URL).
pub open spec fn is_storage_key(s: Seq<char>) -> bool {
    !has_prefix(s, "http://"@) && !has_prefix(s, "https://"@)
}

/// The storage-key test as a value, shared by specs and proofs.
pub open spec fn storage_key_pred() -> spec_fn(Seq<char>) -> bool {
    |s: Seq<char>| is_storage_key(s)
}

/// Does this reference need resolving through storage?
pub fn is_storage_key_str(s: &str) -> (r: bool)
    ensures
        r == is_storage_key(s@),
{
    !str_has_prefix(s, "http://") && !str_has_prefix(s, "https://")
}

/// The bounded history window: every fetched message except the one
/// just written, and of those only the most recent ten, oldest first.
pub open spec fn spec_context_window(all: Seq<Message>, user_message_id: Seq<char>) -> Seq<
    Message,
> {
    let kept = all.filter(|m: Message| m.id@ != user_message_id);
    if kept.len() <= 10 {
        kept
    } else {
        kept.skip(kept.len() - 10)
    }
}

/// Build the generation context from the fetched recent messages,
/// which arrive oldest first.
pub fn build_context(all_recent: Vec<Message>, user_message_id: &str) -> (history: Vec<Message>)
    ensures
        history@ == spec_context_window(all_recent@, user_message_id@),
{
    let ghost all0 = all_recent@;
    let ghost pred = |m: Message| m.id@ != user_message_id@;
    let mut rest = all_recent;
    let mut kept: Vec<Message> = Vec::new();
    while rest.len() > 0
        invariant
            rest@ =~= all0.skip(all0.len() - rest@.len()),
            rest@.len() <= all0.len(),
            kept@ =~= all0.take(all0.len() - rest@.len()).filter(pred),
            pred == (|m: Message| m.id@ != user_message_id@),
        decreases rest@.len(),
    {
        let ghost j = all0.len() - rest@.len();
        let m = rest.remove(0);
        proof {
            assert(m == all0[j]);
            assert(rest@ =~= all0.skip(j + 1));
            assert(all0.take(j + 1).drop_last() =~= all0.take(j));
            assert(all0.take(j + 1).last() == all0[j]);
            lemma_filter_push(all0.take(j), all0[j], pred);
            assert(all0.take(j).push(all0[j]) =~= all0.take(j + 1));
        }
        if !str_eq(m.id.as_str(), user_message_id) {
            kept.push(m);
        }
    }
    proof {
        assert(all0.take(all0.len() as int) =~= all0);
    }
    let ghost filtered = all0.filter(pred);
    proof {
        assert(filtered.skip(0) =~= filtered);
    }
    while kept.len() > 10
        invariant
            filtered.len() >= kept@.len(),
            kept@ =~= filtered.skip(filtered.len() - kept@.len()),
            kept@.len() >= 10 || kept@.len() == filtered.len(),
        decreases kept@.len(),
    {
        let ghost k = filtered.len() - kept@.len();
        kept.remove(0);
        proof {
            assert(kept@ =~= filtered.skip(k).skip(1));
            assert(filtered.skip(k).skip(1) =~= filtered.skip(k + 1));
        }
    }
    kept
}

/// Every storage reference in the window, in reading order: each
/// message's non-web media references, then its audio reference.
pub open spec fn spec_message_keys(m: Message) -> Seq<Seq<char>> {
    let media = m.media_urls@.map_values(|u: String| u@).filter(storage_key_pred());
    match m.audio_url {
        Some(a) => if is_storage_key(a@) {
            media.push(a@)
        } else {
            media
        },
        None => media,
    }
}

pub open spec fn spec_presign_keys(msgs: Seq<Message>) -> Seq<Seq<char>>
    decreases msgs.len(),
{
    if msgs.len() == 0 {
        Seq::empty()
    } else {
        spec_presign_keys(msgs.drop_last()) + spec_message_keys(msgs.last())
    }
}

/// Collect every storage reference in the window that will need a
/// retrieval URL.
pub fn collect_presign_keys(history: &Vec<Message>) -> (keys: Vec<String>)
    ensures
        keys@.map_values(|s: String| s@) == spec_presign_keys(history@),
{
    let ghost ipred = storage_key_pred();
    let mut keys: Vec<String> = Vec::new();
    let n = history.len();
    let mut i: usize = 0;
    while i < n
        invariant
            n == history@.len(),
            i <= n,
            ipred == storage_key_pred(),
            keys@.map_values(|s: String| s@) =~= spec_presign_keys(history@.take(i as int)),
        decreases n - i,
    {
        let m = &history[i];
        let ghost before = keys@.map_values(|s: String| s@);
        let ghost media_views = m.media_urls@.map_values(|u: String| u@);
        let mm = m.media_urls.len();
        let mut j: usize = 0;
        while j < mm
            invariant
                mm == m.media_urls@.len(),
                j <= mm,
                media_views == m.media_urls@.map_values(|u: String| u@),
                ipred == storage_key_pred(),
                keys@.map_values(|s: String| s@) =~= before + media_views.take(j as int).filter(
                    ipred,
                ),
            decreases mm - j,
        {
            proof {
                assert(media_views.take(j + 1).drop_last() =~= media_views.take(j as int));
                assert(media_views.take(j + 1).last() == media_views[j as int]);
                lemma_filter_push(media_views.take(j as int), media_views[j as int], ipred);
                assert(media_views.take(j as int).push(media_views[j as int]) =~= media_views.take(
                    j + 1,
                ));
            }
            let u = &m.media_urls[j];
            proof {
                assert(media_views[j as int] == u@);
            }
            if is_storage_key_str(u.as_str()) {
                keys.push(u.clone());
                proof {
                    assert(ipred(u@) == is_storage_key(u@));
                    assert(media_views.take(j + 1).filter(ipred) =~= media_views.take(
                        j as int,
                    ).filter(ipred).push(u@));
                    assert(keys@.map_values(|s: String| s@) =~= keys@.drop_last().map_values(
                        |s: String| s@,
                    ).push(u@));
                    assert(keys@.drop_last().map_values(|s: String| s@) =~= before
                        + media_views.take(j as int).filter(ipred));
                    assert(keys@.map_values(|s: String| s@) =~= before + media_views.take(
                        j + 1,
                    ).filter(ipred));
                }
            } else {
                proof {
                    assert(keys@.map_values(|s: String| s@) =~= before + media_views.take(
                        j + 1,
                    ).filter(ipred));
                }
            }
            j = j + 1;
        }
        proof {
            assert(media_views.take(mm as int) =~= media_views);
            assert(keys@.map_values(|s: String| s@) =~= before + media_views.filter(ipred));
        }
        match &m.audio_url {
            Some(a) => {
                if is_storage_key_str(a.as_str()) {
                    keys.push(a.clone());
                    proof {
                        assert(keys@.map_values(|s: String| s@) =~= keys@.drop_last().map_values(
                            |s: String| s@,
                        ).push(a@));
                        assert(keys@.drop_last().map_values(|s: String| s@) =~= before
                            + media_views.filter(ipred));
                        assert(keys@.map_values(|s: String| s@) =~= before + media_views.filter(
                            ipred,
                        ).push(a@));
                    }
                }
            },
            None => {},
        }
        proof {
            assert(keys@.map_values(|s: String| s@) =~= before + spec_message_keys(
                history@[i as int],
            ));
            assert(history@.take(i + 1).drop_last() =~= history@.take(i as int));
            assert(history@.take(i + 1).last() == history@[i as int]);
            assert(keys@.map_values(|s: String| s@) =~= spec_presign_keys(history@.take(i + 1)));
        }
        i = i + 1;
    }
    proof {
        assert(history@.take(n as int) =~= history@);
    }
    keys
}

/// First-match lookup in an association list of resolved references.
pub open spec fn spec_lookup(m: Seq<(Seq<char>, Seq<char>)>, k: Seq<char>) -> Option<Seq<char>>
    decreases m.len(),
{
    if m.len() == 0 {
        None
    } else if m[0].0 == k {
        Some(m[0].1)
    } else {
        spec_lookup(m.drop_first(), k)
    }
}

/// The pair views of an association list of strings.
pub open spec fn pair_views(m: Seq<(String, String)>) -> Seq<(Seq<char>, Seq<char>)> {
    m.map_values(|p: (String, String)| (p.0@, p.1@))
}

/// Look a reference up among the resolved URLs; the first match wins.
pub fn lookup_url(url_map: &Vec<(String, String)>, k: &str) -> (r: Option<String>)
    ensures
        match r {
            Some(v) => Some(v@) == spec_lookup(pair_views(url_map@), k@),
            None => spec_lookup(pair_views(url_map@), k@) is None,
        },
{
    let ghost views = pair_views(url_map@);
    proof {
        assert(views.skip(0) =~= views);
    }
    let n = url_map.len();
    let mut i: usize = 0;
    while i < n
        invariant
            n == url_map@.len(),
            i <= n,
            views == pair_views(url_map@),
            spec_lookup(views, k@) == spec_lookup(views.skip(i as int), k@),
            forall|j: int| 0 <= j < i ==> views[j].0 != k@,
        decreases n - i,
    {
        proof {
            assert(views.skip(i as int)[0] == views[i as int]);
            assert(views.skip(i as int).drop_first() =~= views.skip(i + 1));
        }
        if str_eq(url_map[i].0.as_str(), k) {
            return Some(url_map[i].1.clone());
        }
        i = i + 1;
    }
    proof {
        assert(views.skip(n as int) =~= Seq::<(Seq<char>, Seq<char>)>::empty());
    }
    None
}

/// A reference after resolution: the resolved URL when storage knows
/// the key, otherwise the reference unchanged.
pub open spec fn spec_resolved(m: Seq<(Seq<char>, Seq<char>)>, u: Seq<char>) -> Seq<char> {
    match spec_lookup(m, u) {
        Some(v) => v,
        None => u,
    }
}

/// Rewrite one message's references through the resolved URLs; every
/// other field stays as it was.
pub fn resolve_message_refs(m: Message, url_map: &Vec<(String, String)>) -> (r: Message)
    ensures
        r.media_urls@.len() == m.media_urls@.len(),
        forall|i: int|
            0 <= i < m.media_urls@.len() ==> (#[trigger] r.media_urls@[i])@ == spec_resolved(
                pair_views(url_map@),
                m.media_urls@[i]@,
            ),
        match (r.audio_url, m.audio_url) {
            (Some(ra), Some(ma)) => ra@ == spec_resolved(pair_views(url_map@), ma@),
            (None, None) => true,
            _ => false,
        },
        r.id == m.id && r.conversation_id == m.conversation_id && r.role == m.role && r.content
            == m.content && r.message_type == m.message_type && r.audio_duration_seconds
            == m.audio_duration_seconds && r.token_count == m.token_count && r.client_message_id
            == m.client_message_id && r.created_at == m.created_at && r.status == m.status
            && r.is_read == m.is_read,
{
    let Message {
        id,
        conversation_id,
        role,
        content,
        message_type,
        media_urls,
        audio_url,
        audio_duration_seconds,
        token_count,
        client_message_id,
        created_at,
        status,
        is_read,
    } = m;
    let ghost media0 = media_urls@;
    let mut rest = media_urls;
    let mut resolved: Vec<String> = Vec::new();
    while rest.len() > 0
        invariant
            rest@ =~= media0.skip(media0.len() - rest@.len()),
            rest@.len() <= media0.len(),
            resolved@.len() == media0.len() - rest@.len(),
            forall|i: int|
                0 <= i < resolved@.len() ==> (#[trigger] resolved@[i])@ == spec_resolved(
                    pair_views(url_map@),
                    media0[i]@,
                ),
        decreases rest@.len(),
    {
        let ghost j = media0.len() - rest@.len();
        let u = rest.remove(0);
        proof {
            assert(u == media0[j]);
            assert(rest@ =~= media0.skip(j + 1));
        }
        match lookup_url(url_map, u.as_str()) {
            Some(v) => resolved.push(v),
            None => resolved.push(u),
        }
    }
    let new_audio = match audio_url {
        Some(a) => match lookup_url(url_map, a.as_str()) {
            Some(v) => Some(v),
            None => Some(a),
        },
        None => None,
    };
    Message {
        id,
        conversation_id,
        role,
        content,
        message_type,
        media_urls: resolved,
        audio_url: new_audio,
        audio_duration_seconds,
        token_count,
        client_message_id,
        created_at,
        status,
        is_read,
    }
}

/// One remembered fact per line, in the shape the instructions carry.
pub open spec fn spec_memory_lines(mem: Seq<(Seq<char>, Seq<char>)>) -> Seq<char>
    decreases mem.len(),
{
    if mem.len() == 0 {
        Seq::empty()
    } else {
        spec_memory_lines(mem.drop_last()) + "- "@ + mem.last().0 + ": "@ + mem.last().1 + "\n"@
    }
}

/// The system instructions enriched with the conversation's remembered
/// facts; untouched when there are none.
pub open spec fn spec_enhanced_instructions(
    instructions: Seq<char>,
    mem: Seq<(Seq<char>, Seq<char>)>,
) -> Seq<char> {
    if mem.len() == 0 {
        instructions
    } else {
        instructions + "\n\n**MEMORIES:**\n"@ + spec_memory_lines(mem)
    }
}

/// Merge the remembered facts into the influencer's instructions.
pub fn enhanced_instructions(instructions: &str, memories: &Vec<(String, String)>) -> (r: String)
    ensures
        r@ == spec_enhanced_instructions(instructions@, pair_views(memories@)),
{
    let ghost views = pair_views(memories@);
    if memories.len() == 0 {
        return instructions.to_owned();
    }
    let mut out = instructions.to_owned();
    out.append("\n\n**MEMORIES:**\n");
    let n = memories.len();
    let mut i: usize = 0;
    while i < n
        invariant
            n == memories@.len(),
            i <= n,
            views == pair_views(memories@),
            out@ == instructions@ + "\n\n**MEMORIES:**\n"@ + spec_memory_lines(
                views.take(i as int),
            ),
        decreases n - i,
    {
        out.append("- ");
        out.append(memories[i].0.as_str());
        out.append(": ");
        out.append(memories[i].1.as_str());
        out.append("\n");
        proof {
            assert(views.take(i + 1).drop_last() =~= views.take(i as int));
            assert(views.take(i + 1).last() == views[i as int]);
            assert(out@ =~= instructions@ + "\n\n**MEMORIES:**\n"@ + spec_memory_lines(
                views.take(i + 1),
            ));
        }
        i = i + 1;
    }
    proof {
        assert(views.take(n as int) =~= views);
    }
    out
}

} // verus!
