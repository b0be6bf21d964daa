//! Registry of live real-time connections, keyed by user id, with
//! best-effort fan-out: an event published to a user goes to every live
//! connection, and a connection whose channel is gone is pruned as a
//! side effect of the attempt.

use vstd::prelude::*;

verus! {

use crate::events::ChatEvent;
use crate::seqs::kv_map;
use crate::seqs::kv_unique;
use crate::seqs::lemma_kv_domain;
use crate::seqs::lemma_kv_index;
use crate::seqs::lemma_kv_remove;
use crate::seqs::lemma_kv_update;
use crate::text::str_eq;
use vstd::string::StringExecFns;

#[verifier::external_type_specification]
#[verifier::external_body]
#[verifier::reject_recursive_types(T)]
pub struct ExUnboundedSender<T>(tokio::sync::mpsc::UnboundedSender<T>);

/// Relies on tokio::sync::mpsc::UnboundedSender::send: queues the text
/// for the receiving half without blocking, and fails exactly when the
/// receiver is closed or dropped. Whether it fails depends on the
/// receiver's state, so nothing is promised of the outcome.
#[verifier::external_body]
fn send_text(sender: &tokio::sync::mpsc::UnboundedSender<String>, text: String) -> (ok: bool) {
    sender.send(text).is_ok()
}

/// One live connection: its monotonic id and the outbound channel the
/// transport layer drains towards the remote peer.
pub struct Connection {
    pub id: u64,
    pub sender: tokio::sync::mpsc::UnboundedSender<String>,
}

/// The connection ids of a sequence of connections, in order.
pub open spec fn ids_of(s: Seq<Connection>) -> Seq<u64> {
    s.map_values(|c: Connection| c.id)
}

/// `s` thinned by a keep/drop mask of the same length.
pub open spec fn mask_filter(s: Seq<u64>, keep: Seq<bool>) -> Seq<u64>
    recommends
        keep.len() == s.len(),
    decreases s.len(),
{
    if s.len() == 0 {
        Seq::empty()
    } else if keep.len() == s.len() && keep.last() {
        mask_filter(s.drop_last(), keep.drop_last()).push(s.last())
    } else {
        mask_filter(s.drop_last(), keep.drop_last())
    }
}

pub proof fn lemma_mask_filter_push(s: Seq<u64>, keep: Seq<bool>, x: u64, b: bool)
    requires
        keep.len() == s.len(),
    ensures
        mask_filter(s.push(x), keep.push(b)) == (if b {
            mask_filter(s, keep).push(x)
        } else {
            mask_filter(s, keep)
        }),
{
    assert(s.push(x).drop_last() =~= s);
    assert(keep.push(b).drop_last() =~= keep);
}

/// A mask keeps elements pairwise distinct.
pub proof fn lemma_mask_filter_distinct(s: Seq<u64>, keep: Seq<bool>)
    requires
        keep.len() == s.len(),
        crate::seqs::distinct(s),
    ensures
        crate::seqs::distinct(mask_filter(s, keep)),
    decreases s.len(),
{
    if s.len() > 0 {
        let d = s.drop_last();
        assert(crate::seqs::distinct(d));
        lemma_mask_filter_distinct(d, keep.drop_last());
        lemma_mask_filter_elements(d, keep.drop_last());
        if keep.last() {
            let f = mask_filter(s, keep);
            let fd = mask_filter(d, keep.drop_last());
            assert(f == fd.push(s.last()));
            assert forall|i: int, j: int| 0 <= i < j < f.len() implies f[i] != f[j] by {
                if j == f.len() - 1 {
                    let t = choose|t: int| 0 <= t < d.len() && d[t] == fd[i];
                    assert(s[t] == f[i]);
                    assert(s[t] != s[s.len() - 1]);
                }
            }
        }
    }
}

/// Everything a mask keeps was in the original sequence.
pub proof fn lemma_mask_filter_elements(s: Seq<u64>, keep: Seq<bool>)
    requires
        keep.len() == s.len(),
    ensures
        forall|j: int|
            0 <= j < mask_filter(s, keep).len() ==> exists|t: int|
                0 <= t < s.len() && s[t] == #[trigger] mask_filter(s, keep)[j],
    decreases s.len(),
{
    if s.len() > 0 {
        lemma_mask_filter_elements(s.drop_last(), keep.drop_last());
        assert forall|j: int| 0 <= j < mask_filter(s, keep).len() implies exists|t: int|
            0 <= t < s.len() && s[t] == #[trigger] mask_filter(s, keep)[j] by {
            let d = s.drop_last();
            let fd = mask_filter(d, keep.drop_last());
            if keep.last() && j == mask_filter(s, keep).len() - 1 {
                assert(s[s.len() - 1] == mask_filter(s, keep)[j]);
            } else {
                let t = choose|t: int| 0 <= t < d.len() && d[t] == fd[j];
                assert(s[t] == mask_filter(s, keep)[j]);
            }
        }
    }
}

/// Tracks zero or more live connections per user and delivers typed
/// events to all of a user's connections.
pub struct InboxRegistry {
    pub users: Vec<(String, Vec<Connection>)>,
    pub next_id: u64,
}

impl InboxRegistry {
    /// Well-formedness: user keys are distinct, no user entry is empty
    /// (an empty entry is removed at once), and connection ids within a
    /// user are distinct and below the id counter.
    pub open spec fn wf(self) -> bool {
        &&& kv_unique(self.users@)
        &&& forall|u: int|
            0 <= u < self.users@.len() ==> (#[trigger] self.users@[u]).1@.len() > 0
        &&& forall|u: int, i: int, j: int|
            0 <= u < self.users@.len() && 0 <= i < j < self.users@[u].1@.len()
                ==> #[trigger] self.users@[u].1@[i].id != #[trigger] self.users@[u].1@[j].id
        &&& forall|u: int, i: int|
            0 <= u < self.users@.len() && 0 <= i < self.users@[u].1@.len()
                ==> #[trigger] self.users@[u].1@[i].id < self.next_id
    }

    /// The registry as a map from user id to the ids of their live
    /// connections, in connection order.
    pub open spec fn inbox(self) -> Map<Seq<char>, Seq<u64>> {
        kv_map(self.users@).map_values(|v: Vec<Connection>| ids_of(v@))
    }

    pub fn new() -> (r: InboxRegistry)
        ensures
            r.wf(),
            r.inbox() == Map::<Seq<char>, Seq<u64>>::empty(),
            r.next_id == 0,
    {
        let r = InboxRegistry { users: Vec::new(), next_id: 0 };
        proof {
            assert(r.inbox() =~= Map::<Seq<char>, Seq<u64>>::empty());
        }
        r
    }

    fn find_user(&self, user_id: &str) -> (r: Option<usize>)
        ensures
            match r {
                Some(i) => i < self.users@.len() && self.users@[i as int].0@ == user_id@,
                None => forall|i: int|
                    0 <= i < self.users@.len() ==> (#[trigger] self.users@[i]).0@ != user_id@,
            },
    {
        let n = self.users.len();
        let mut i: usize = 0;
        while i < n
            invariant
                n == self.users@.len(),
                i <= n,
                forall|j: int| 0 <= j < i ==> (#[trigger] self.users@[j]).0@ != user_id@,
            decreases n - i,
        {
            if str_eq(self.users[i].0.as_str(), user_id) {
                return Some(i);
            }
            i = i + 1;
        }
        None
    }

    /// Register a new live connection for `user_id` over the given
    /// outbound channel; the fresh connection id is appended to the
    /// user's connections and handed back.
    pub fn connect(&mut self, user_id: &str, sender: tokio::sync::mpsc::UnboundedSender<
        String,
    >) -> (id: u64)
        requires
            old(self).wf(),
            old(self).next_id < u64::MAX,
        ensures
            final(self).wf(),
            id == old(self).next_id,
            final(self).next_id == old(self).next_id + 1,
            final(self).inbox() == old(self).inbox().insert(
                user_id@,
                (if old(self).inbox().contains_key(user_id@) {
                    old(self).inbox()[user_id@]
                } else {
                    Seq::<u64>::empty()
                }).push(id),
            ),
    {
        let id = self.next_id;
        self.next_id = self.next_id + 1;
        let ghost s0 = self.users@;
        let conn = Connection { id, sender };
        match self.find_user(user_id) {
            Some(i) => {
                proof {
                    lemma_kv_index(s0, i as int);
                    lemma_kv_domain(s0, user_id@);
                }
                let ghost conns0 = self.users@[i as int].1;
                let p = &mut self.users[i];
                p.1.push(conn);
                proof {
                    let updated = self.users@[i as int].1;
                    assert(self.users@ =~= s0.update(i as int, (s0[i as int].0, updated)));
                    lemma_kv_update(s0, i as int, updated);
                    assert(ids_of(updated@) =~= ids_of(conns0@).push(id));
                    assert(self.inbox() =~= old(self).inbox().insert(
                        user_id@,
                        old(self).inbox()[user_id@].push(id),
                    ));
                }
                id
            },
            None => {
                proof {
                    lemma_kv_domain(s0, user_id@);
                }
                let mut conns: Vec<Connection> = Vec::new();
                conns.push(conn);
                self.users.push((user_id.to_owned(), conns));
                proof {
                    assert(self.users@.drop_last() =~= s0);
                    let added = self.users@.last().1;
                    assert(ids_of(added@) =~= Seq::<u64>::empty().push(id));
                    assert(self.inbox() =~= old(self).inbox().insert(
                        user_id@,
                        Seq::<u64>::empty().push(id),
                    ));
                }
                id
            },
        }
    }
}

/// Projecting ids commutes with dropping one connection id.
proof fn lemma_ids_filter(s: Seq<Connection>, cid: u64)
    ensures
        ids_of(s.filter(|c: Connection| c.id != cid)) =~= ids_of(s).filter(
            |x: u64| x != cid,
        ),
    decreases s.len(),
{
    reveal(Seq::filter);
    let cpred = |c: Connection| c.id != cid;
    let ipred = |x: u64| x != cid;
    if s.len() == 0 {
        assert(ids_of(s) =~= Seq::<u64>::empty());
        assert(s.filter(cpred) =~= Seq::<Connection>::empty());
        assert(ids_of(s.filter(cpred)) =~= Seq::<u64>::empty());
    } else {
        let d = s.drop_last();
        lemma_ids_filter(d, cid);
        assert(ids_of(s).drop_last() =~= ids_of(d));
        assert(ids_of(s).last() == s.last().id);
        if s.last().id != cid {
            assert(s.filter(cpred) == d.filter(cpred).push(s.last()));
            assert(ids_of(s).filter(ipred) == ids_of(d).filter(ipred).push(s.last().id));
            assert(ids_of(d.filter(cpred).push(s.last())) =~= ids_of(d.filter(cpred)).push(
                s.last().id,
            ));
        } else {
            assert(s.filter(cpred) == d.filter(cpred));
            assert(ids_of(s).filter(ipred) == ids_of(d).filter(ipred));
        }
    }
}

impl InboxRegistry {
    /// Remove exactly the connection `conn_id` of `user_id`; when it was
    /// the last one, the user's entry goes away entirely.
    pub fn disconnect(&mut self, user_id: &str, conn_id: u64)
        requires
            old(self).wf(),
        ensures
            final(self).wf(),
            final(self).next_id == old(self).next_id,
            ({
                let m = old(self).inbox();
                if m.contains_key(user_id@) {
                    let rem = m[user_id@].filter(|x: u64| x != conn_id);
                    final(self).inbox() == (if rem.len() == 0 {
                        m.remove(user_id@)
                    } else {
                        m.insert(user_id@, rem)
                    })
                } else {
                    final(self).inbox() == m
                }
            }),
    {
        let ghost s0 = self.users@;
        let ghost cpred = |c: Connection| c.id != conn_id;
        match self.find_user(user_id) {
            Some(i) => {
                proof {
                    lemma_kv_index(s0, i as int);
                    lemma_kv_domain(s0, user_id@);
                }
                let ghost conns0 = self.users@[i as int].1@;
                let mut taken: Vec<Connection> = Vec::new();
                let p = &mut self.users[i];
                core::mem::swap(&mut p.1, &mut taken);
                let mut kept: Vec<Connection> = Vec::new();
                let ghost total = conns0.len();
                while taken.len() > 0
                    invariant
                        taken@ =~= conns0.skip(conns0.len() - taken@.len()),
                        taken@.len() <= conns0.len(),
                        kept@ =~= conns0.take(conns0.len() - taken@.len()).filter(cpred),
                        cpred == (|c: Connection| c.id != conn_id),
                    decreases taken@.len(),
                {
                    let ghost j = conns0.len() - taken@.len();
                    let c = taken.remove(0);
                    proof {
                        assert(c == conns0[j]);
                        assert(taken@ =~= conns0.skip(j + 1));
                        assert(conns0.take(j + 1).drop_last() =~= conns0.take(j));
                        assert(conns0.take(j + 1).last() == conns0[j]);
                        crate::seqs::lemma_filter_push(conns0.take(j), conns0[j], cpred);
                        assert(conns0.take(j).push(conns0[j]) =~= conns0.take(j + 1));
                    }
                    if c.id != conn_id {
                        kept.push(c);
                    }
                }
                proof {
                    assert(conns0.take(conns0.len() as int) =~= conns0);
                    crate::seqs::lemma_filter_elements(conns0, cpred);
                    lemma_ids_filter(conns0, conn_id);
                    assert(crate::seqs::distinct(ids_of(conns0))) by {
                        assert forall|a: int, b: int|
                            0 <= a < b < ids_of(conns0).len() implies ids_of(conns0)[a] != ids_of(
                            conns0,
                        )[b] by {
                            assert(ids_of(conns0)[a] == conns0[a].id);
                            assert(ids_of(conns0)[b] == conns0[b].id);
                        }
                    }
                    crate::seqs::lemma_filter_distinct(ids_of(conns0), |x: u64| x != conn_id);
                }
                if kept.len() == 0 {
                    self.users.remove(i);
                    proof {
                        assert(self.users@ =~= s0.remove(i as int));
                        lemma_kv_remove(s0, i as int);
                        assert(self.inbox() =~= old(self).inbox().remove(user_id@));
                        assert(old(self).inbox()[user_id@].filter(|x: u64| x != conn_id)
                            =~= Seq::<u64>::empty());
                    }
                } else {
                    let p = &mut self.users[i];
                    p.1 = kept;
                    proof {
                        let updated = self.users@[i as int].1;
                        assert(self.users@ =~= s0.update(i as int, (s0[i as int].0, updated)));
                        lemma_kv_update(s0, i as int, updated);
                        assert(kv_unique(self.users@)) by {
                            assert forall|a: int, b: int|
                                0 <= a < b < self.users@.len() implies self.users@[a].0@
                                != self.users@[b].0@ by {
                                assert(self.users@[a].0 == s0[a].0);
                                assert(self.users@[b].0 == s0[b].0);
                            }
                        }
                        assert forall|a: int, b: int|
                            0 <= a < b < updated@.len() implies updated@[a].id != updated@[b].id by {
                            assert(ids_of(updated@)[a] == updated@[a].id);
                            assert(ids_of(updated@)[b] == updated@[b].id);
                        }
                        assert(self.inbox() =~= old(self).inbox().insert(
                            user_id@,
                            old(self).inbox()[user_id@].filter(|x: u64| x != conn_id),
                        ));
                    }
                }
            },
            None => {
                proof {
                    lemma_kv_domain(s0, user_id@);
                }
            },
        }
    }

    /// What a publish does to the registry: to a user the registry does
    /// not know, nothing, and nobody receives anything. Otherwise some
    /// subset of the user's connections (those whose channels accepted
    /// the frame, an arbitrary keep-mask) received the event; exactly
    /// those stay registered, and a user left with none is dropped.
    pub open spec fn spec_publish(
        pre: InboxRegistry,
        post: InboxRegistry,
        user_id: Seq<char>,
        delivered: Seq<u64>,
    ) -> bool {
        let m = pre.inbox();
        if m.contains_key(user_id) {
            exists|keep: Seq<bool>|
                keep.len() == m[user_id].len() && delivered == mask_filter(m[user_id], keep)
                    && post.inbox() == (if delivered.len() == 0 {
                    m.remove(user_id)
                } else {
                    m.insert(user_id, delivered)
                })
        } else {
            post.inbox() == m && delivered == Seq::<u64>::empty()
        }
    }

    /// Serialise `event` once and deliver it to every live connection of
    /// `user_id`. A connection whose channel refuses the frame is pruned
    /// as a side effect; the ids actually reached are handed back, and
    /// a user with zero connections means a silent no-op.
    pub fn publish(&mut self, user_id: &str, event: &ChatEvent) -> (delivered: Vec<u64>)
        requires
            old(self).wf(),
        ensures
            final(self).wf(),
            final(self).next_id == old(self).next_id,
            Self::spec_publish(*old(self), *final(self), user_id@, delivered@),
    {
        let ghost s0 = self.users@;
        match self.find_user(user_id) {
            Some(i) => {
                proof {
                    lemma_kv_index(s0, i as int);
                    lemma_kv_domain(s0, user_id@);
                }
                let text = event.encode();
                let ghost conns0 = self.users@[i as int].1@;
                let mut taken: Vec<Connection> = Vec::new();
                let p = &mut self.users[i];
                core::mem::swap(&mut p.1, &mut taken);
                let mut kept: Vec<Connection> = Vec::new();
                let mut delivered: Vec<u64> = Vec::new();
                let ghost mut keep_mask: Seq<bool> = Seq::empty();
                while taken.len() > 0
                    invariant
                        taken@ =~= conns0.skip(conns0.len() - taken@.len()),
                        taken@.len() <= conns0.len(),
                        keep_mask.len() == conns0.len() - taken@.len(),
                        ids_of(kept@) =~= mask_filter(
                            ids_of(conns0.take(conns0.len() - taken@.len())),
                            keep_mask,
                        ),
                        delivered@ =~= ids_of(kept@),
                        forall|p: int|
                            0 <= p < kept@.len() ==> exists|t: int|
                                0 <= t < conns0.len() && conns0[t] == #[trigger] kept@[p],
                    decreases taken@.len(),
                {
                    let ghost j = conns0.len() - taken@.len();
                    let c = taken.remove(0);
                    let ok = send_text(&c.sender, text.clone());
                    proof {
                        assert(c == conns0[j]);
                        assert(taken@ =~= conns0.skip(j + 1));
                        assert(ids_of(conns0.take(j + 1)) =~= ids_of(conns0.take(j)).push(
                            conns0[j].id,
                        ));
                        lemma_mask_filter_push(
                            ids_of(conns0.take(j)),
                            keep_mask,
                            conns0[j].id,
                            ok,
                        );
                        keep_mask = keep_mask.push(ok);
                    }
                    if ok {
                        let cid = c.id;
                        kept.push(c);
                        delivered.push(cid);
                        proof {
                            assert(ids_of(kept@) =~= ids_of(kept@.drop_last()).push(cid));
                        }
                    }
                }
                proof {
                    assert(conns0.take(conns0.len() as int) =~= conns0);
                    lemma_mask_filter_elements(ids_of(conns0), keep_mask);
                    assert(crate::seqs::distinct(ids_of(conns0))) by {
                        assert forall|a: int, b: int|
                            0 <= a < b < ids_of(conns0).len() implies ids_of(conns0)[a] != ids_of(
                            conns0,
                        )[b] by {
                            assert(ids_of(conns0)[a] == conns0[a].id);
                            assert(ids_of(conns0)[b] == conns0[b].id);
                        }
                    }
                    lemma_mask_filter_distinct(ids_of(conns0), keep_mask);
                    assert(old(self).inbox()[user_id@] == ids_of(conns0));
                    assert(keep_mask.len() == old(self).inbox()[user_id@].len());
                    assert(delivered@ == mask_filter(old(self).inbox()[user_id@], keep_mask));
                }
                if kept.len() == 0 {
                    self.users.remove(i);
                    proof {
                        assert(self.users@ =~= s0.remove(i as int));
                        lemma_kv_remove(s0, i as int);
                        assert(self.inbox() =~= old(self).inbox().remove(user_id@));
                        let m = old(self).inbox();
                        assert(keep_mask.len() == m[user_id@].len() && delivered@ == mask_filter(
                            m[user_id@],
                            keep_mask,
                        ) && self.inbox() == (if delivered@.len() == 0 {
                            m.remove(user_id@)
                        } else {
                            m.insert(user_id@, delivered@)
                        }));
                    }
                } else {
                    let p = &mut self.users[i];
                    p.1 = kept;
                    proof {
                        let updated = self.users@[i as int].1;
                        assert(self.users@ =~= s0.update(i as int, (s0[i as int].0, updated)));
                        lemma_kv_update(s0, i as int, updated);
                        assert(kv_unique(self.users@)) by {
                            assert forall|a: int, b: int|
                                0 <= a < b < self.users@.len() implies self.users@[a].0@
                                != self.users@[b].0@ by {
                                assert(self.users@[a].0 == s0[a].0);
                                assert(self.users@[b].0 == s0[b].0);
                            }
                        }
                        assert forall|a: int, b: int|
                            0 <= a < b < updated@.len() implies updated@[a].id != updated@[b].id by {
                            assert(ids_of(updated@)[a] == updated@[a].id);
                            assert(ids_of(updated@)[b] == updated@[b].id);
                        }
                        assert(self.inbox() =~= old(self).inbox().insert(
                            user_id@,
                            delivered@,
                        ));
                        let m = old(self).inbox();
                        assert(keep_mask.len() == m[user_id@].len() && delivered@ == mask_filter(
                            m[user_id@],
                            keep_mask,
                        ) && self.inbox() == (if delivered@.len() == 0 {
                            m.remove(user_id@)
                        } else {
                            m.insert(user_id@, delivered@)
                        }));
                    }
                }
                delivered
            },
            None => {
                proof {
                    lemma_kv_domain(s0, user_id@);
                }
                Vec::new()
            },
        }
    }

    /// Announce a fresh assistant message to every live session of the
    /// user, carrying the message, an influencer summary and the
    /// conversation's unread count.
    pub fn broadcast_new_message(
        &mut self,
        user_id: &str,
        conversation_id: String,
        message: crate::responses::MessageResponse,
        influencer: crate::events::InfluencerSummary,
        unread_count: i64,
    ) -> (delivered: Vec<u64>)
        requires
            old(self).wf(),
        ensures
            final(self).wf(),
            final(self).next_id == old(self).next_id,
            Self::spec_publish(*old(self), *final(self), user_id@, delivered@),
    {
        let event = ChatEvent::NewMessage { conversation_id, message, influencer, unread_count };
        self.publish(user_id, &event)
    }

    /// Announce that the user's conversation was read and its unread
    /// count reset.
    pub fn broadcast_conversation_read(
        &mut self,
        user_id: &str,
        conversation_id: String,
        read_at: String,
    ) -> (delivered: Vec<u64>)
        requires
            old(self).wf(),
        ensures
            final(self).wf(),
            final(self).next_id == old(self).next_id,
            Self::spec_publish(*old(self), *final(self), user_id@, delivered@),
    {
        let event = ChatEvent::ConversationRead { conversation_id, read_at };
        self.publish(user_id, &event)
    }

    /// Announce that the influencer started or stopped typing in the
    /// conversation.
    pub fn broadcast_typing_status(
        &mut self,
        user_id: &str,
        conversation_id: String,
        influencer_id: String,
        is_typing: bool,
    ) -> (delivered: Vec<u64>)
        requires
            old(self).wf(),
        ensures
            final(self).wf(),
            final(self).next_id == old(self).next_id,
            Self::spec_publish(*old(self), *final(self), user_id@, delivered@),
    {
        let event = ChatEvent::TypingStatus { conversation_id, influencer_id, is_typing };
        self.publish(user_id, &event)
    }
}

} // verus!
