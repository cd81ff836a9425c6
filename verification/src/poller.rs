//! The long-poll update loop, as a verified state machine.
//!
//! The poller owns the resume offset — nobody else touches it — plus a
//! consecutive-failure counter and an enabled flag.  The caller runs the
//! loop: it issues the get-updates call this module describes, hands every
//! received update to the dispatcher *before* advancing the offset past it
//! (at-least-once delivery), and sleeps the duration this module computes
//! when a call fails.  Only an explicit disable stops the loop; failures
//! never exhaust a retry budget.

use vstd::prelude::*;
use crate::error::{Error, ErrorV};

verus! {

/// Backoff configuration: the first retry sleeps `base` seconds, every
/// further consecutive failure doubles the sleep, capped at `cap`.
pub struct Backoff {
    pub base: u64,
    pub cap: u64,
}

/// Sleep before retry number `n` (counting failures before it): doubling,
/// capped, never above `cap`.
pub open spec fn backoff_spec(base: u64, cap: u64, n: nat) -> u64
    decreases n,
{
    if n == 0 {
        if base > cap {
            cap
        } else {
            base
        }
    } else {
        let p = backoff_spec(base, cap, (n - 1) as nat);
        if p > cap / 2 {
            cap
        } else {
            (2 * p) as u64
        }
    }
}

/// The backoff never exceeds the cap.
pub proof fn lemma_backoff_capped(base: u64, cap: u64, n: nat)
    ensures
        backoff_spec(base, cap, n) <= cap,
    decreases n,
{
    if n > 0 {
        lemma_backoff_capped(base, cap, (n - 1) as nat);
    }
}

/// Consecutive failures sleep non-decreasing durations.
pub proof fn lemma_backoff_monotone(base: u64, cap: u64, n: nat)
    ensures
        backoff_spec(base, cap, n) <= backoff_spec(base, cap, n + 1),
{
    lemma_backoff_capped(base, cap, n);
}

/// Where the offset stands after seeing one update id.
pub open spec fn advance_spec(offset: int, update_id: int) -> int {
    if update_id + 1 > offset {
        update_id + 1
    } else {
        offset
    }
}

/// Where the offset stands after seeing a run of update ids, in order.
pub open spec fn run_spec(offset: int, ids: Seq<int>) -> int
    decreases ids,
{
    if ids.len() == 0 {
        offset
    } else {
        advance_spec(run_spec(offset, ids.drop_last()), ids.last())
    }
}

/// Batch boundaries do not matter: one run over the concatenation ends
/// where two runs over the halves end.
pub proof fn lemma_run_split(offset: int, a: Seq<int>, b: Seq<int>)
    ensures
        run_spec(offset, a + b) == run_spec(run_spec(offset, a), b),
    decreases b.len(),
{
    if b.len() == 0 {
        assert(a + b =~= a);
    } else {
        assert((a + b).drop_last() =~= a + b.drop_last());
        lemma_run_split(offset, a, b.drop_last());
    }
}

/// A run over ascending ids ends at the larger of the starting offset and
/// one past the last id.
pub proof fn lemma_run_max(offset: int, ids: Seq<int>)
    requires
        ids.len() > 0,
        forall|i: int, j: int| 0 <= i < j < ids.len() ==> ids[i] < ids[j],
    ensures
        run_spec(offset, ids) == if offset >= ids.last() + 1 {
            offset
        } else {
            ids.last() + 1
        },
    decreases ids.len(),
{
    if ids.len() > 1 {
        let dl = ids.drop_last();
        assert forall|i: int, j: int| 0 <= i < j < dl.len() implies dl[i] < dl[j] by {
            assert(dl[i] == ids[i]);
            assert(dl[j] == ids[j]);
        }
        assert(dl.last() == ids[ids.len() - 2]);
        lemma_run_max(offset, dl);
        assert(run_spec(offset, ids) == advance_spec(run_spec(offset, dl), ids.last()));
    } else {
        assert(ids.drop_last().len() == 0);
        assert(run_spec(offset, ids.drop_last()) == offset);
    }
}

/// After a run over ascending ids ending in `last`, the offset stands at
/// `last + 1`: the next poll asks for the first unseen update.
pub proof fn lemma_run_ends_past_last(offset: int, ids: Seq<int>)
    requires
        ids.len() > 0,
        offset <= ids.last() + 1,
        forall|i: int, j: int| 0 <= i < j < ids.len() ==> ids[i] < ids[j],
    ensures
        run_spec(offset, ids) == ids.last() + 1,
{
    lemma_run_max(offset, ids);
}

/// The state of the update poller.
pub struct Poller {
    pub offset: i64,
    pub failures: u64,
    pub enabled: bool,
    pub backoff: Backoff,
}

impl Poller {
    /// A fresh poller: nothing seen, nothing failed, running.
    pub fn new(backoff: Backoff) -> (r: Poller)
        ensures
            r.offset == 0,
            r.failures == 0,
            r.enabled,
            r.backoff == backoff,
    {
        Poller { offset: 0, failures: 0, enabled: true, backoff }
    }

    /// The only way the loop stops.
    pub fn disable(&mut self)
        ensures
            !final(self).enabled,
            final(self).offset == old(self).offset,
            final(self).failures == old(self).failures,
            final(self).backoff == old(self).backoff,
    {
        self.enabled = false;
    }

    /// Acknowledge one delivered update: the offset moves just past its id
    /// and never backwards.  Call this only after the update has been
    /// handed to the dispatcher, so a crash redelivers instead of losing it.
    pub fn advance(&mut self, update_id: i64)
        requires
            update_id < i64::MAX,
        ensures
            final(self).offset as int == advance_spec(old(self).offset as int, update_id as int),
            final(self).failures == old(self).failures,
            final(self).enabled == old(self).enabled,
            final(self).backoff == old(self).backoff,
    {
        if update_id + 1 > self.offset {
            self.offset = update_id + 1;
        }
    }

    /// A whole batch went through: the failure streak is over.
    pub fn on_success(&mut self)
        ensures
            final(self).failures == 0,
            final(self).offset == old(self).offset,
            final(self).enabled == old(self).enabled,
            final(self).backoff == old(self).backoff,
    {
        self.failures = 0;
    }

    /// One get-updates call failed.  Returns how long to sleep before the
    /// retry — the doubling backoff, except that a server error carrying
    /// `retry_after` sleeps exactly that long — or `None` for an error the
    /// poller must not retry (a decode or file failure).
    pub fn on_failure(&mut self, e: &Error) -> (sleep: Option<u64>)
        ensures
            final(self).offset == old(self).offset,
            final(self).enabled == old(self).enabled,
            final(self).backoff == old(self).backoff,
            (e@ is Network || e@ is Api) ==> {
                &&& final(self).failures as int == if old(self).failures == u64::MAX {
                    u64::MAX as int
                } else {
                    old(self).failures + 1
                }
                &&& sleep == Some(
                    match e@ {
                        ErrorV::Api(a) => match a.retry_after {
                            Some(ra) => if ra >= 0 {
                                ra as u64
                            } else {
                                0u64
                            },
                            None => backoff_spec(
                                old(self).backoff.base,
                                old(self).backoff.cap,
                                old(self).failures as nat,
                            ),
                        },
                        _ => backoff_spec(
                            old(self).backoff.base,
                            old(self).backoff.cap,
                            old(self).failures as nat,
                        ),
                    },
                )
            },
            !(e@ is Network || e@ is Api) ==> sleep is None && final(self).failures == old(
                self,
            ).failures,
    {
        if !e.is_retryable() {
            return None;
        }
        let duration: u64 = match e {
            Error::Api(a) => match a.retry_after {
                Some(ra) => if ra >= 0 {
                    ra as u64
                } else {
                    0u64
                },
                None => self.backoff_duration(),
            },
            _ => self.backoff_duration(),
        };
        if self.failures < u64::MAX {
            self.failures = self.failures + 1;
        }
        Some(duration)
    }

    /// The doubling, capped sleep for the current failure streak.
    fn backoff_duration(&self) -> (d: u64)
        ensures
            d == backoff_spec(self.backoff.base, self.backoff.cap, self.failures as nat),
    {
        let base = self.backoff.base;
        let cap = self.backoff.cap;
        let mut d: u64 = if base > cap {
            cap
        } else {
            base
        };
        let mut i: u64 = 0;
        while i < self.failures
            invariant
                i <= self.failures,
                d == backoff_spec(base, cap, i as nat),
            decreases self.failures - i,
        {
            d = if d > cap / 2 {
                cap
            } else {
                2 * d
            };
            i = i + 1;
        }
        d
    }
}

} // verus!
