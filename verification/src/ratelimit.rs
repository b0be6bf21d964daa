//! Per-identifier dual-window token-bucket rate limiting.
//!
//! Budgets are kept in fixed-point units: one token is worth `window`
//! units, so a bucket that refills `capacity` units per second regains
//! exactly `capacity` tokens over one full window, with no rounding.

use vstd::prelude::*;

verus! {

use crate::seqs::kv_map;
use crate::seqs::kv_unique;
use crate::seqs::lemma_filter_elements;
use crate::seqs::lemma_filter_kv_unique;
use crate::seqs::lemma_filter_push;
use crate::seqs::lemma_kv_domain;
use crate::seqs::lemma_kv_index;
use crate::seqs::lemma_kv_update;
use crate::text::str_eq;

/// The two independent rate-limit periods tracked per identifier.
#[derive(Clone, Copy, Debug, PartialEq, Eq, Structural)]
pub enum LimitWindow {
    PerMinute,
    PerHour,
}

impl LimitWindow {
    /// The wire name of the window, as it appears in denial bodies.
    pub fn as_str(&self) -> (r: &'static str)
        ensures
            *self is PerMinute ==> r@ == "per_minute"@,
            *self is PerHour ==> r@ == "per_hour"@,
    {
        match self {
            LimitWindow::PerMinute => "per_minute",
            LimitWindow::PerHour => "per_hour",
        }
    }
}

/// Outcome of one admission attempt.
#[derive(Clone, Copy, Debug, PartialEq, Eq, Structural)]
pub enum Admission {
    /// The request passes; the remaining whole tokens of each window are
    /// reported for response headers.
    Allow { remaining_minute: u64, remaining_hour: u64 },
    /// The request is rejected by `window`, whose limit is `limit`
    /// tokens; retrying is pointless for `retry_after` seconds.
    Deny { retry_after: u64, window: LimitWindow, limit: u32 },
}

/// One token bucket in fixed-point units (one token == `window` units).
#[derive(Clone, Copy, Debug, PartialEq, Eq, Structural)]
pub struct TokenBucket {
    /// Current budget in units.
    pub units: u64,
    /// Advertised limit: how many tokens the bucket can hold.
    pub capacity: u32,
    /// Window length in seconds; also the unit cost of one consumption.
    pub window: u64,
    /// Timestamp, in seconds, of the last refill.
    pub last_refill: u64,
}

impl TokenBucket {
    /// Well-formedness: the budget never exceeds one window's worth of
    /// tokens, and the unit arithmetic stays far away from `u64` overflow.
    pub open spec fn wf(self) -> bool {
        &&& self.capacity >= 1
        &&& 1 <= self.window <= 0x1_0000_0000
        &&& (self.capacity as int) * (self.window as int) <= 0x4000_0000_0000_0000
        &&& self.units <= (self.capacity as int) * (self.window as int)
    }

    /// The full budget, in units.
    pub open spec fn max_units(self) -> int {
        (self.capacity as int) * (self.window as int)
    }

    /// Whole tokens left.
    pub open spec fn spec_remaining(self) -> int {
        (self.units as int) / (self.window as int)
    }

    /// The bucket as it stands once lazily refilled at time `now`.
    /// Refill is monotonic: a bucket never loses budget by refilling,
    /// and a stale clock (now earlier than the last refill) adds nothing.
    pub open spec fn spec_refilled(self, now: u64) -> TokenBucket {
        let elapsed = if now > self.last_refill { now - self.last_refill } else { 0 };
        let gained = elapsed * (self.capacity as int);
        let filled = if self.units + gained > self.max_units() {
            self.max_units()
        } else {
            self.units + gained
        };
        TokenBucket {
            units: filled as u64,
            capacity: self.capacity,
            window: self.window,
            last_refill: if now > self.last_refill {
                now
            } else {
                self.last_refill
            },
        }
    }

    /// Seconds until one whole token will be available again, plus one
    /// second of slack; zero when a token is already available.
    pub open spec fn spec_retry_after(self) -> int {
        if self.units >= self.window {
            0
        } else {
            (self.window - self.units + self.capacity - 1) / (self.capacity as int) + 1
        }
    }

    /// A fresh bucket starts full.
    pub open spec fn spec_new(capacity: u32, window: u64, now: u64) -> TokenBucket {
        TokenBucket {
            units: ((capacity as int) * (window as int)) as u64,
            capacity: capacity,
            window: window,
            last_refill: now,
        }
    }

    pub fn new(capacity: u32, window: u64, now: u64) -> (r: TokenBucket)
        requires
            capacity >= 1,
            1 <= window <= 0x1_0000_0000,
            (capacity as int) * (window as int) <= 0x4000_0000_0000_0000,
        ensures
            r == Self::spec_new(capacity, window, now),
            r.wf(),
    {
        TokenBucket { units: (capacity as u64) * window, capacity, window, last_refill: now }
    }

    /// Credit the budget for the wall-clock time elapsed since the last
    /// refill, capped at the bucket's capacity.
    pub fn refill(&mut self, now: u64)
        requires
            old(self).wf(),
        ensures
            *final(self) == old(self).spec_refilled(now),
            final(self).wf(),
    {
        if now > self.last_refill {
            let elapsed: u64 = now - self.last_refill;
            let max_units: u64 = (self.capacity as u64) * self.window;
            if elapsed >= self.window {
                proof {
                    assert((elapsed as int) * (self.capacity as int) >= (self.capacity as int) * (
                    self.window as int)) by (nonlinear_arith)
                        requires
                            elapsed >= self.window >= 0,
                            self.capacity >= 1,
                    ;
                }
                self.units = max_units;
            } else {
                proof {
                    assert((elapsed as int) * (self.capacity as int) < (self.capacity as int) * (
                    self.window as int)) by (nonlinear_arith)
                        requires
                            0 <= elapsed < self.window,
                            self.capacity >= 1,
                    ;
                }
                let gained: u64 = elapsed * (self.capacity as u64);
                let filled: u64 = self.units + gained;
                self.units = if filled > max_units {
                    max_units
                } else {
                    filled
                };
            }
            self.last_refill = now;
        }
    }

    /// Whole tokens left, for response headers.
    pub fn remaining(&self) -> (r: u64)
        requires
            self.wf(),
        ensures
            r == self.spec_remaining(),
    {
        self.units / self.window
    }

    /// Seconds a denied caller should wait before retrying.
    pub fn retry_after(&self) -> (r: u64)
        requires
            self.wf(),
        ensures
            r == self.spec_retry_after(),
    {
        if self.units >= self.window {
            0
        } else {
            let needed: u64 = self.window - self.units;
            (needed + (self.capacity as u64 - 1)) / (self.capacity as u64) + 1
        }
    }
}

/// The per-identifier pair of buckets. Both windows must be consumed for
/// a request to pass; a request denied on the hour window refunds the
/// minute token it took, so the coarser denial costs nothing.
#[derive(Clone, Copy, Debug, PartialEq, Eq, Structural)]
pub struct RateEntry {
    pub minute: TokenBucket,
    pub hour: TokenBucket,
}

impl RateEntry {
    pub open spec fn wf(self) -> bool {
        &&& self.minute.wf()
        &&& self.hour.wf()
    }

    pub open spec fn spec_new(per_minute: u32, per_hour: u32, now: u64) -> RateEntry {
        RateEntry {
            minute: TokenBucket::spec_new(per_minute, 60, now),
            hour: TokenBucket::spec_new(per_hour, 3600, now),
        }
    }

    /// One admission attempt at time `now`: refill the minute bucket and
    /// try to take a token; on failure deny on the minute window without
    /// touching the hour bucket. Otherwise refill the hour bucket and try
    /// again; on failure put the minute token back and deny on the hour
    /// window. When both take, report the remaining whole tokens.
    pub open spec fn spec_grant(self, now: u64) -> (RateEntry, Admission) {
        let m = self.minute.spec_refilled(now);
        if m.units < m.window {
            (
                RateEntry { minute: m, hour: self.hour },
                Admission::Deny {
                    retry_after: m.spec_retry_after() as u64,
                    window: LimitWindow::PerMinute,
                    limit: m.capacity,
                },
            )
        } else {
            let h = self.hour.spec_refilled(now);
            if h.units < h.window {
                (
                    RateEntry { minute: m, hour: h },
                    Admission::Deny {
                        retry_after: h.spec_retry_after() as u64,
                        window: LimitWindow::PerHour,
                        limit: h.capacity,
                    },
                )
            } else {
                let m2 = TokenBucket { units: (m.units - m.window) as u64, ..m };
                let h2 = TokenBucket { units: (h.units - h.window) as u64, ..h };
                (
                    RateEntry { minute: m2, hour: h2 },
                    Admission::Allow {
                        remaining_minute: m2.spec_remaining() as u64,
                        remaining_hour: h2.spec_remaining() as u64,
                    },
                )
            }
        }
    }

    pub fn new(per_minute: u32, per_hour: u32, now: u64) -> (r: RateEntry)
        requires
            per_minute >= 1,
            per_hour >= 1,
        ensures
            r == Self::spec_new(per_minute, per_hour, now),
            r.wf(),
    {
        proof {
            assert((per_minute as int) * 60 <= 0x4000_0000_0000_0000 && (per_hour as int) * 3600
                <= 0x4000_0000_0000_0000) by (nonlinear_arith)
                requires
                    per_minute <= 0xffff_ffff,
                    per_hour <= 0xffff_ffff,
            ;
        }
        RateEntry {
            minute: TokenBucket::new(per_minute, 60, now),
            hour: TokenBucket::new(per_hour, 3600, now),
        }
    }

    pub fn grant(&mut self, now: u64) -> (r: Admission)
        requires
            old(self).wf(),
        ensures
            final(self).wf(),
            (*final(self), r) == old(self).spec_grant(now),
    {
        self.minute.refill(now);
        if self.minute.units < self.minute.window {
            return Admission::Deny {
                retry_after: self.minute.retry_after(),
                window: LimitWindow::PerMinute,
                limit: self.minute.capacity,
            };
        }
        self.minute.units = self.minute.units - self.minute.window;
        self.hour.refill(now);
        if self.hour.units < self.hour.window {
            // Refund the minute token: denial on the coarser window must
            // not also cost the finer one.
            self.minute.units = self.minute.units + self.minute.window;
            return Admission::Deny {
                retry_after: self.hour.retry_after(),
                window: LimitWindow::PerHour,
                limit: self.hour.capacity,
            };
        }
        self.hour.units = self.hour.units - self.hour.window;
        Admission::Allow {
            remaining_minute: self.minute.remaining(),
            remaining_hour: self.hour.remaining(),
        }
    }
}

/// An entry is still live at `now` if either of its buckets was touched
/// within the retention threshold of one hour.
pub open spec fn spec_live(e: RateEntry, now: u64) -> bool {
    e.minute.last_refill + 3600 > now || e.hour.last_refill + 3600 > now
}

/// Per-identifier governor: a table of dual-window entries, created
/// lazily on first sight of an identifier and swept while idle.
pub struct RateGovernor {
    pub entries: Vec<(String, RateEntry)>,
    pub per_minute: u32,
    pub per_hour: u32,
    pub last_sweep: u64,
}

impl RateGovernor {
    pub open spec fn wf(self) -> bool {
        &&& self.per_minute >= 1
        &&& self.per_hour >= 1
        &&& kv_unique(self.entries@)
        &&& forall|i: int|
            0 <= i < self.entries@.len() ==> (#[trigger] self.entries@[i]).1.wf()
    }

    /// The table as a map from identifier to entry.
    pub open spec fn bucket_map(self) -> Map<Seq<char>, RateEntry> {
        kv_map(self.entries@)
    }

    pub fn new(per_minute: u32, per_hour: u32) -> (r: RateGovernor)
        requires
            per_minute >= 1,
            per_hour >= 1,
        ensures
            r.wf(),
            r.bucket_map() == Map::<Seq<char>, RateEntry>::empty(),
            r.per_minute == per_minute,
            r.per_hour == per_hour,
            r.last_sweep == 0,
    {
        RateGovernor { entries: Vec::new(), per_minute, per_hour, last_sweep: 0 }
    }

    fn find_entry(&self, identifier: &str) -> (r: Option<usize>)
        ensures
            match r {
                Some(i) => i < self.entries@.len() && self.entries@[i as int].0@ == identifier@,
                None => forall|i: int|
                    0 <= i < self.entries@.len() ==> (#[trigger] self.entries@[i]).0@
                        != identifier@,
            },
    {
        let n = self.entries.len();
        let mut i: usize = 0;
        while i < n
            invariant
                n == self.entries@.len(),
                i <= n,
                forall|j: int| 0 <= j < i ==> (#[trigger] self.entries@[j]).0@ != identifier@,
            decreases n - i,
        {
            if str_eq(self.entries[i].0.as_str(), identifier) {
                return Some(i);
            }
            i = i + 1;
        }
        None
    }

    /// Admit or reject one request from `identifier` at time `now`.
    /// The identifier's entry (created full on first sight) advances by
    /// exactly one `spec_grant` step; no other identifier is touched.
    pub fn grant(&mut self, identifier: &str, now: u64) -> (r: Admission)
        requires
            old(self).wf(),
        ensures
            final(self).wf(),
            final(self).per_minute == old(self).per_minute,
            final(self).per_hour == old(self).per_hour,
            final(self).last_sweep == old(self).last_sweep,
            ({
                let m = old(self).bucket_map();
                let e0 = if m.contains_key(identifier@) {
                    m[identifier@]
                } else {
                    RateEntry::spec_new(old(self).per_minute, old(self).per_hour, now)
                };
                r == e0.spec_grant(now).1 && final(self).bucket_map() == m.insert(
                    identifier@,
                    e0.spec_grant(now).0,
                )
            }),
    {
        let ghost s0 = self.entries@;
        match self.find_entry(identifier) {
            Some(i) => {
                proof {
                    lemma_kv_index(s0, i as int);
                }
                let mut e: RateEntry = self.entries[i].1;
                let a = e.grant(now);
                let p = &mut self.entries[i];
                p.1 = e;
                proof {
                    assert(self.entries@ =~= s0.update(i as int, (s0[i as int].0, e)));
                    lemma_kv_update(s0, i as int, e);
                    lemma_kv_domain(s0, identifier@);
                }
                a
            },
            None => {
                let mut e = RateEntry::new(self.per_minute, self.per_hour, now);
                let a = e.grant(now);
                self.entries.push((identifier.to_owned(), e));
                proof {
                    assert(self.entries@.drop_last() =~= s0);
                    lemma_kv_domain(s0, identifier@);
                }
                a
            },
        }
    }

    /// At most once per five minutes of wall clock, drop every entry
    /// that no request has touched within the last hour. Returns whether
    /// a sweep ran.
    pub fn sweep_idle(&mut self, now: u64) -> (swept: bool)
        requires
            old(self).wf(),
        ensures
            final(self).wf(),
            final(self).per_minute == old(self).per_minute,
            final(self).per_hour == old(self).per_hour,
            swept == (old(self).last_sweep + 300 <= now),
            !swept ==> *final(self) == *old(self),
            swept ==> final(self).last_sweep == now,
            swept ==> final(self).entries@ == old(self).entries@.filter(
                |p: (String, RateEntry)| spec_live(p.1, now),
            ),
    {
        let elapsed: u64 = if now > self.last_sweep {
            now - self.last_sweep
        } else {
            0
        };
        if elapsed < 300 {
            return false;
        }
        self.last_sweep = now;
        let ghost s0 = self.entries@;
        let ghost pred = |p: (String, RateEntry)| spec_live(p.1, now);
        let mut kept: Vec<(String, RateEntry)> = Vec::new();
        let n = self.entries.len();
        let mut i: usize = 0;
        while i < n
            invariant
                n == self.entries@.len(),
                self.entries@ == s0,
                i <= n,
                kept@ == s0.take(i as int).filter(pred),
                pred == (|p: (String, RateEntry)| spec_live(p.1, now)),
            decreases n - i,
        {
            let ghost kept0 = kept@;
            let p = &self.entries[i];
            let live_minute: bool = now < 3600 || p.1.minute.last_refill > now - 3600;
            let live_hour: bool = now < 3600 || p.1.hour.last_refill > now - 3600;
            if live_minute || live_hour {
                kept.push((p.0.clone(), p.1));
            }
            proof {
                assert(s0.take(i + 1).drop_last() =~= s0.take(i as int));
                assert(s0.take(i + 1) =~= s0.take(i as int).push(s0[i as int]));
                lemma_filter_push(s0.take(i as int), s0[i as int], pred);
            }
            i = i + 1;
        }
        proof {
            assert(s0.take(n as int) =~= s0);
            lemma_filter_elements(s0, pred);
            lemma_filter_kv_unique(s0, pred);
        }
        self.entries = kept;
        true
    }
}

} // verus!
