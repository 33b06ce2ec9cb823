//! The batch provisioning engine's decision core.
//!
//! A batch of `requested` units of work runs against the remote service with
//! bounded parallelism. The engine itself performs no network call: it is
//! the bookkeeping that decides when a unit may be dispatched, records each
//! unit's terminal outcome, and — once, after the first success — clamps the
//! plan down to the referrer's reported quota. The driver that owns the
//! transport asks these methods what to do next.

use vstd::prelude::*;

use crate::errors::{TransportError, UnitOutcome};
use crate::quota::InviteQuota;

verus! {

/// The lifecycle of one unit of work: it is created remotely, then
/// configured remotely. Either remote call can fail; a configuration
/// failure leaves an orphaned remote account, so the two failures are kept
/// apart.
#[derive(Clone, Copy, Debug, PartialEq, Eq, Structural)]
pub enum UnitPhase {
    Pending,
    Creating,
    Configuring,
    Done,
    CreateFailed,
    ConfigureFailed,
}

impl UnitPhase {
    /// True for the three states a unit never leaves.
    pub open spec fn is_terminal(self) -> bool {
        self == UnitPhase::Done || self == UnitPhase::CreateFailed || self
            == UnitPhase::ConfigureFailed
    }

    /// A pending unit starts its creation call.
    pub fn begin(self) -> (r: UnitPhase)
        requires
            self == UnitPhase::Pending,
        ensures
            r == UnitPhase::Creating,
    {
        UnitPhase::Creating
    }

    /// The creation call came back: on success the unit moves on to
    /// configuration, on failure it ends with no remote side effect.
    pub fn created(self, ok: bool) -> (r: UnitPhase)
        requires
            self == UnitPhase::Creating,
        ensures
            ok ==> r == UnitPhase::Configuring,
            !ok ==> r == UnitPhase::CreateFailed,
    {
        if ok {
            UnitPhase::Configuring
        } else {
            UnitPhase::CreateFailed
        }
    }

    /// The configuration call came back: on success the unit is done, on
    /// failure the created account stays behind orphaned.
    pub fn configured(self, ok: bool) -> (r: UnitPhase)
        requires
            self == UnitPhase::Configuring,
        ensures
            ok ==> r == UnitPhase::Done,
            !ok ==> r == UnitPhase::ConfigureFailed,
    {
        if ok {
            UnitPhase::Done
        } else {
            UnitPhase::ConfigureFailed
        }
    }

    /// The outcome a terminal unit reports to the progress sink.
    pub fn outcome(self) -> (r: UnitOutcome)
        requires
            self.is_terminal(),
        ensures
            self == UnitPhase::Done ==> r == UnitOutcome::Done,
            self == UnitPhase::CreateFailed ==> r == UnitOutcome::CreateFailed,
            self == UnitPhase::ConfigureFailed ==> r == UnitOutcome::ConfigureFailed,
    {
        match self {
            UnitPhase::Done => UnitOutcome::Done,
            UnitPhase::ConfigureFailed => UnitOutcome::ConfigureFailed,
            _ => UnitOutcome::CreateFailed,
        }
    }
}

/// Where the quota clamp moves the undispatched part of the plan: nowhere
/// when the quota covers all outstanding units, otherwise down to what the
/// quota still allows beside the units already in flight.
pub open spec fn clamped_remaining(remaining: int, in_flight: int, weeks: int) -> int {
    if weeks >= in_flight + remaining {
        remaining
    } else if weeks >= in_flight {
        weeks - in_flight
    } else {
        0
    }
}

/// The engine's view of one batch: how much was asked for, how much is not
/// yet dispatched, what is in flight, and what ended in each terminal state.
pub struct ProvisioningPlan {
    /// The number of units the caller asked for. Never changes.
    pub requested: u32,
    /// Units not yet dispatched. Only ever decreases.
    pub remaining: u32,
    /// Units dispatched and not yet terminal.
    pub in_flight: u32,
    /// Units that reached `Done`.
    pub completed: u32,
    /// Units whose creation call failed.
    pub failed_create: u32,
    /// Units whose configuration call failed: orphaned remote accounts.
    pub orphaned: u32,
    /// The parallelism bound: at most this many units in flight at once.
    pub workers: u32,
    /// Whether a unit failure stops the dispatch of further units.
    pub fail_fast: bool,
    /// The quota the clamp was applied with, once it has run.
    pub applied_quota: Option<u32>,
}

impl ProvisioningPlan {
    /// The number of units that ended in either failure state.
    pub open spec fn failures(self) -> int {
        self.failed_create + self.orphaned
    }

    /// The floor the batch still owes when no unit fails: everything that
    /// was requested, or the applied quota where that reported less.
    pub open spec fn goal(self) -> int {
        match self.applied_quota {
            Some(q) => if q <= self.requested {
                q as int
            } else {
                self.requested as int
            },
            None => self.requested as int,
        }
    }

    /// The invariant every reachable plan satisfies: the units accounted
    /// for never exceed the request; while no unit has failed, the units
    /// still able to complete cover the goal; the clamp only ever runs
    /// after a first success; the worker bound is positive; and no more
    /// units are in flight than the worker bound allows.
    pub open spec fn wf(self) -> bool {
        &&& self.completed + self.in_flight + self.remaining + self.failures() <= self.requested
        &&& (self.failures() == 0 ==> self.completed + self.in_flight + self.remaining
            >= self.goal())
        &&& (self.applied_quota is Some ==> self.completed >= 1)
        &&& self.workers >= 1
        &&& self.in_flight <= self.workers
    }

    /// When the driver may dispatch the next unit: work is left and the
    /// worker bound leaves room.
    pub open spec fn spec_can_dispatch(self) -> bool {
        self.remaining > 0 && self.in_flight < self.workers
    }

    /// A fresh plan: everything requested is still to dispatch, nothing has
    /// run, the quota is unresolved.
    pub fn new(requested: u32, workers: u32, fail_fast: bool) -> (p: ProvisioningPlan)
        requires
            workers >= 1,
        ensures
            p.wf(),
            p == (ProvisioningPlan {
                requested,
                remaining: requested,
                in_flight: 0,
                completed: 0,
                failed_create: 0,
                orphaned: 0,
                workers,
                fail_fast,
                applied_quota: None,
            }),
    {
        ProvisioningPlan {
            requested,
            remaining: requested,
            in_flight: 0,
            completed: 0,
            failed_create: 0,
            orphaned: 0,
            workers,
            fail_fast,
            applied_quota: None,
        }
    }

    /// Whether the next unit may be dispatched now.
    pub fn can_dispatch(&self) -> (b: bool)
        ensures
            b == self.spec_can_dispatch(),
    {
        self.remaining > 0 && self.in_flight < self.workers
    }

    /// Hands one unit to a worker: it leaves the undispatched pool and is
    /// in flight from here on.
    pub fn dispatch(&mut self)
        requires
            old(self).wf(),
            old(self).spec_can_dispatch(),
        ensures
            final(self).wf(),
            *final(self) == (ProvisioningPlan {
                remaining: (old(self).remaining - 1) as u32,
                in_flight: (old(self).in_flight + 1) as u32,
                ..*old(self)
            }),
    {
        self.remaining = self.remaining - 1;
        self.in_flight = self.in_flight + 1;
    }

    /// Records one in-flight unit's terminal outcome. A success moves it to
    /// the completed count; either failure moves it to the matching failure
    /// count and, under the fail-fast policy, stops all further dispatch.
    pub fn record(&mut self, outcome: UnitOutcome)
        requires
            old(self).wf(),
            old(self).in_flight > 0,
        ensures
            final(self).wf(),
            outcome == UnitOutcome::Done ==> *final(self) == (ProvisioningPlan {
                in_flight: (old(self).in_flight - 1) as u32,
                completed: (old(self).completed + 1) as u32,
                ..*old(self)
            }),
            outcome == UnitOutcome::CreateFailed ==> *final(self) == (ProvisioningPlan {
                in_flight: (old(self).in_flight - 1) as u32,
                failed_create: (old(self).failed_create + 1) as u32,
                remaining: if old(self).fail_fast {
                    0
                } else {
                    old(self).remaining
                },
                ..*old(self)
            }),
            outcome == UnitOutcome::ConfigureFailed ==> *final(self) == (ProvisioningPlan {
                in_flight: (old(self).in_flight - 1) as u32,
                orphaned: (old(self).orphaned + 1) as u32,
                remaining: if old(self).fail_fast {
                    0
                } else {
                    old(self).remaining
                },
                ..*old(self)
            }),
    {
        self.in_flight = self.in_flight - 1;
        match outcome {
            UnitOutcome::Done => {
                self.completed = self.completed + 1;
            },
            UnitOutcome::CreateFailed => {
                self.failed_create = self.failed_create + 1;
                if self.fail_fast {
                    self.remaining = 0;
                }
            },
            UnitOutcome::ConfigureFailed => {
                self.orphaned = self.orphaned + 1;
                if self.fail_fast {
                    self.remaining = 0;
                }
            },
        }
    }

    /// When the driver must resolve the quota: the first unit has
    /// succeeded, the clamp has not run yet, and units remain to dispatch.
    pub fn wants_quota_check(&self) -> (b: bool)
        ensures
            b == (self.completed >= 1 && self.applied_quota is None && self.remaining > 0),
    {
        self.completed >= 1 && self.applied_quota.is_none() && self.remaining > 0
    }

    /// Applies the resolved quota, exactly once per batch and only after a
    /// first success: if the quota reports fewer units than are still
    /// outstanding, the not-yet-dispatched excess is discarded; units in
    /// flight are never taken back.
    pub fn apply_quota(&mut self, quota: InviteQuota)
        requires
            old(self).wf(),
            old(self).completed >= 1,
            old(self).applied_quota is None,
        ensures
            final(self).wf(),
            *final(self) == (ProvisioningPlan {
                remaining: clamped_remaining(
                    old(self).remaining as int,
                    old(self).in_flight as int,
                    quota.weeks as int,
                ) as u32,
                applied_quota: Some(quota.weeks),
                ..*old(self)
            }),
    {
        if quota.weeks < self.in_flight + self.remaining {
            if quota.weeks >= self.in_flight {
                self.remaining = quota.weeks - self.in_flight;
            } else {
                self.remaining = 0;
            }
        }
        self.applied_quota = Some(quota.weeks);
    }

    /// Consumes the outcome of the quota resolution, exactly once per batch
    /// and only after a first success. A resolved quota clamps the plan as
    /// `apply_quota` does. A failed resolution leaves the full request
    /// standing and closes the check — quota is only ever resolved once —
    /// and the error is handed back so the caller reports it; it is never
    /// swallowed here.
    pub fn note_quota_resolution(&mut self, resolution: Result<InviteQuota, TransportError>) -> (r:
        Option<TransportError>)
        requires
            old(self).wf(),
            old(self).completed >= 1,
            old(self).applied_quota is None,
        ensures
            final(self).wf(),
            match resolution {
                Ok(q) => r is None && *final(self) == (ProvisioningPlan {
                    remaining: clamped_remaining(
                        old(self).remaining as int,
                        old(self).in_flight as int,
                        q.weeks as int,
                    ) as u32,
                    applied_quota: Some(q.weeks),
                    ..*old(self)
                }),
                Err(e) => r == Some(e) && *final(self) == (ProvisioningPlan {
                    applied_quota: Some(old(self).requested),
                    ..*old(self)
                }),
            },
    {
        match resolution {
            Ok(quota) => {
                self.apply_quota(quota);
                None
            },
            Err(e) => {
                self.applied_quota = Some(self.requested);
                Some(e)
            },
        }
    }

    /// Whether the batch is over: nothing left to dispatch and nothing in
    /// flight.
    pub fn is_finished(&self) -> (b: bool)
        ensures
            b == (self.remaining == 0 && self.in_flight == 0),
    {
        self.remaining == 0 && self.in_flight == 0
    }
}

/// Once a batch whose units all succeeded has finished, and the quota clamp
/// ran with a report of `q` units, the completed count lies between the
/// smaller of `q` and the request on the one side and the request on the
/// other: the clamp never costs a unit the quota still allowed, and nothing
/// beyond the request is ever run.
pub proof fn lemma_finished_batch_bounds(p: ProvisioningPlan, q: u32)
    requires
        p.wf(),
        p.remaining == 0,
        p.in_flight == 0,
        p.failures() == 0,
        p.applied_quota == Some(q),
    ensures
        p.completed <= p.requested,
        q <= p.requested ==> p.completed >= q,
        q > p.requested ==> p.completed >= p.requested,
{
}

/// A finished batch without the clamp (the quota never reported less than
/// the outstanding work, or no unit beyond the first was needed) completes
/// everything that was requested, as long as no unit failed.
pub proof fn lemma_finished_batch_without_clamp(p: ProvisioningPlan)
    requires
        p.wf(),
        p.remaining == 0,
        p.in_flight == 0,
        p.failures() == 0,
        p.applied_quota is None,
    ensures
        p.completed == p.requested,
{
}

/// A request of zero units is a no-op: such a plan can never dispatch a
/// unit, never has one in flight or completed, and never asks for the quota
/// — so no network call ever happens for it.
pub proof fn lemma_zero_request_no_work(p: ProvisioningPlan)
    requires
        p.wf(),
        p.requested == 0,
    ensures
        !p.spec_can_dispatch(),
        p.remaining == 0,
        p.in_flight == 0,
        p.completed == 0,
        !(p.completed >= 1 && p.applied_quota is None && p.remaining > 0),
{
}

} // verus!
