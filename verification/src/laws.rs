//! Crate-level laws: properties that relate several operations, stated
//! over the spec models that the operations' own contracts use.

use vstd::prelude::*;

verus! {

use crate::inbox::lemma_mask_filter_elements;
use crate::inbox::mask_filter;
use crate::ratelimit::Admission;
use crate::ratelimit::LimitWindow;
use crate::ratelimit::RateEntry;

/// One admission step never pushes either budget past its capacity, and
/// keeps the entry well-formed; together with `wf` at construction this
/// means `tokens <= capacity` holds for both windows at every
/// observation point.
pub proof fn lemma_grant_keeps_budget_bounded(e: RateEntry, now: u64)
    requires
        e.wf(),
    ensures
        e.spec_grant(now).0.wf(),
        e.spec_grant(now).0.minute.units <= e.minute.max_units(),
        e.spec_grant(now).0.hour.units <= e.hour.max_units(),
{
}

/// Refund property: a request denied on the hour window leaves the
/// minute bucket exactly as the refill alone would have, so the denial
/// never reduces the minute-window remaining count.
pub proof fn lemma_hour_denial_refunds_minute(e: RateEntry, now: u64)
    requires
        e.wf(),
        e.spec_grant(now).1 matches Admission::Deny { window: LimitWindow::PerHour, .. },
    ensures
        e.spec_grant(now).0.minute == e.minute.spec_refilled(now),
        e.spec_grant(now).0.minute.spec_remaining() >= e.minute.spec_remaining(),
{
    let m = e.minute;
    let m2 = m.spec_refilled(now);
    assert(m2.units >= m.units);
    vstd::arithmetic::div_mod::lemma_div_is_ordered(
        m.units as int,
        m2.units as int,
        m.window as int,
    );
}

/// An entry advanced through a whole sequence of admission attempts,
/// together with how many of them were allowed.
pub open spec fn spec_grant_trace(e: RateEntry, ts: Seq<u64>) -> (RateEntry, int)
    decreases ts.len(),
{
    if ts.len() == 0 {
        (e, 0)
    } else {
        let prior = spec_grant_trace(e, ts.drop_last());
        let step = prior.0.spec_grant(ts.last());
        (step.0, prior.1 + if step.1 is Allow {
            1int
        } else {
            0int
        })
    }
}

/// Accounting bound for the minute window: over any sequence of
/// admission attempts all happening no later than `hi`, the number of
/// allowed requests is limited by the budget on hand plus everything the
/// refill can add up to `hi`. In particular a burst at a single instant
/// can never be allowed more than `capacity` times (see
/// `lemma_burst_bounded_by_capacity`); over a span of `d` seconds the
/// count is at most `capacity * (1 + d/window)`. The bucket does allow
/// up to twice `capacity` inside one rolling window (a full burst
/// followed by a refilled burst at the window's end), which is the
/// burst-tolerance this design trades for statelessness between calls.
pub proof fn lemma_allow_count_bounded(e: RateEntry, ts: Seq<u64>, hi: u64)
    requires
        e.wf(),
        e.minute.last_refill <= hi,
        forall|i: int| 0 <= i < ts.len() ==> ts[i] <= hi,
    ensures
        ({
            let (e2, c) = spec_grant_trace(e, ts);
            &&& e2.wf()
            &&& e2.minute.capacity == e.minute.capacity
            &&& e2.minute.window == e.minute.window
            &&& e.minute.last_refill <= e2.minute.last_refill <= hi
            &&& c * (e.minute.window as int) + e2.minute.units <= e.minute.units + (
            e2.minute.last_refill - e.minute.last_refill) * (e.minute.capacity as int)
        }),
    decreases ts.len(),
{
    if ts.len() > 0 {
        lemma_allow_count_bounded(e, ts.drop_last(), hi);
        let (e1, c1) = spec_grant_trace(e, ts.drop_last());
        let t = ts.last();
        assert(t <= hi);
        let m = e1.minute;
        let m2 = m.spec_refilled(t);
        let w = e.minute.window as int;
        let cap = e.minute.capacity as int;
        assert(m2.units <= m.units + (m2.last_refill - m.last_refill) * cap);
        let (e2, a) = e1.spec_grant(t);
        let c2 = c1 + if a is Allow {
            1int
        } else {
            0int
        };
        assert(e2.minute.last_refill == m2.last_refill);
        let d: int = if a is Allow {
            1
        } else {
            0
        };
        assert(c2 * w == c1 * w + d * w) by (nonlinear_arith)
            requires
                c2 == c1 + d,
        ;
        assert(d * w == if a is Allow {
            w
        } else {
            0int
        }) by (nonlinear_arith)
            requires
                d == (if a is Allow {
                    1int
                } else {
                    0int
                }),
        ;
        assert((m2.last_refill - e.minute.last_refill) * cap == (m2.last_refill
            - m.last_refill) * cap + (m.last_refill - e.minute.last_refill) * cap)
            by (nonlinear_arith);
    }
}

/// A freshly created (full) entry admits at most `capacity` requests in
/// a burst at one instant.
pub proof fn lemma_burst_bounded_by_capacity(per_minute: u32, per_hour: u32, now: u64, ts: Seq<u64>)
    requires
        per_minute >= 1,
        per_hour >= 1,
        forall|i: int| 0 <= i < ts.len() ==> ts[i] == now,
    ensures
        spec_grant_trace(RateEntry::spec_new(per_minute, per_hour, now), ts).1 <= per_minute,
{
    let e = RateEntry::spec_new(per_minute, per_hour, now);
    assert((per_minute as int) * 60 <= 0x4000_0000_0000_0000 && (per_hour as int) * 3600
        <= 0x4000_0000_0000_0000) by (nonlinear_arith)
        requires
            per_minute <= 0xffff_ffff,
            per_hour <= 0xffff_ffff,
    ;
    lemma_allow_count_bounded(e, ts, now);
    let (e2, c) = spec_grant_trace(e, ts);
    assert(e.minute.window == 60 && e.minute.capacity == per_minute);
    assert(e.minute.units == (per_minute as int) * 60);
    assert(e2.minute.last_refill == now);
    assert((e2.minute.last_refill - e.minute.last_refill) * (e.minute.capacity as int) == 0)
        by (nonlinear_arith)
        requires
            e2.minute.last_refill == e.minute.last_refill,
    ;
    assert(c * 60 <= (per_minute as int) * 60);
    assert(c <= per_minute) by (nonlinear_arith)
        requires
            c * 60 <= (per_minute as int) * 60,
    ;
}

/// Idempotence of a retried send: once a conversation the caller owns
/// holds a message under the request's dedup key together with an
/// assistant reply, every decision the admission check can give for
/// that request is the same replay of exactly that stored pair — no new rows, no
/// generation, and byte-identical ids on every retry.
pub proof fn lemma_retried_send_replays_stored_pair(
    req: crate::requests::SendMessageRequest,
    caller_id: Seq<char>,
    conv: Option<crate::model::Conversation>,
    existing: Option<crate::model::Message>,
    reply: Option<crate::model::Message>,
    influencer: Option<crate::model::AIInfluencer>,
    g1: crate::orchestrator::SendGate,
    g2: crate::orchestrator::SendGate,
)
    requires
        req.spec_validation_error() is None,
        conv matches Some(c) && c.user_id@ == caller_id,
        crate::orchestrator::spec_dedup_hit(req, existing, reply),
        crate::orchestrator::SendGate::spec_gate(
            req,
            caller_id,
            conv,
            existing,
            reply,
            influencer,
            g1,
        ),
        crate::orchestrator::SendGate::spec_gate(
            req,
            caller_id,
            conv,
            existing,
            reply,
            influencer,
            g2,
        ),
    ensures
        g1 matches crate::orchestrator::SendGate::Replay(u, a) && Some(u) == existing && Some(a)
            == reply,
        g1 == g2,
{
}

/// A disconnect followed by a publish never reaches the removed
/// connection. `disconnect` leaves the user's connection ids filtered
/// of `conn_id`, and whatever subset of those a later `publish` manages
/// to deliver to (`mask_filter` over any success mask), the removed id
/// is not among them. Publishing to a user with no connections at all
/// delivers to nobody by `publish`'s own contract.
pub proof fn lemma_removed_connection_misses_publish(ids: Seq<u64>, conn_id: u64, keep: Seq<bool>)
    requires
        keep.len() == ids.filter(|x: u64| x != conn_id).len(),
    ensures
        !mask_filter(ids.filter(|x: u64| x != conn_id), keep).contains(conn_id),
{
    let pred = |x: u64| x != conn_id;
    let rem = ids.filter(pred);
    ids.filter_lemma(pred);
    lemma_mask_filter_elements(rem, keep);
    let f = mask_filter(rem, keep);
    assert forall|j: int| 0 <= j < f.len() implies f[j] != conn_id by {
        let t = choose|t: int| 0 <= t < rem.len() && rem[t] == f[j];
        assert(pred(rem[t]));
    }
    if f.contains(conn_id) {
        let j = choose|j: int| 0 <= j < f.len() && f[j] == conn_id;
        assert(false);
    }
}

} // verus!
