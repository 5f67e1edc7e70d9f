//! Admission control: at most a bounded number of requests are actively
//! processed at once. The operator-supplied limit is clamped to a hard
//! ceiling. A request that arrives while every slot is taken waits in a
//! queue for a free slot; it is never rejected. A slot is released exactly
//! once per request, and a released slot is handed to a waiting request
//! before it is counted free.

use vstd::prelude::*;

verus! {

/// The hard ceiling the operator-supplied concurrency limit is clamped to.
pub const CONCURRENCY_CEILING: usize = 500;

/// The concurrency limit used when the operator supplies none.
pub const DEFAULT_CONCURRENCY_LIMIT: usize = 250;

/// The limit actually enforced for an operator-supplied value: the value
/// itself, capped at the hard ceiling.
pub open spec fn spec_effective_limit(requested: int) -> int {
    if requested > CONCURRENCY_CEILING {
        CONCURRENCY_CEILING as int
    } else {
        requested
    }
}

/// Clamp the operator-supplied concurrency limit to the hard ceiling.
pub fn effective_limit(requested: usize) -> (l: usize)
    ensures
        l == spec_effective_limit(requested as int),
{
    if requested > CONCURRENCY_CEILING {
        CONCURRENCY_CEILING
    } else {
        requested
    }
}

/// What the admission controller did with an arriving request. There is no
/// rejected outcome: a request past the limit waits, it is not turned away.
#[derive(Clone, Copy, PartialEq, Eq, Structural, Debug)]
pub enum AdmitOutcome {
    Admitted,
    Queued,
}

/// One event the admission controller reacts to.
#[derive(Clone, Copy, PartialEq, Eq, Structural, Debug)]
pub enum AdmissionEvent {
    Arrive,
    Release,
}

/// The admission controller's state: the enforced limit, the number of
/// requests actively processed, and the number waiting for a slot.
#[derive(Clone, Copy, PartialEq, Eq, Structural, Debug)]
pub struct Admission {
    pub limit: usize,
    pub active: usize,
    pub waiting: usize,
}

/// The controller never lets the active count pass the limit.
pub open spec fn admission_wf(s: Admission) -> bool {
    s.active <= s.limit
}

/// What one event does to the state. An arrival is admitted when a slot is
/// free and queued otherwise; a release hands the freed slot to a waiting
/// request before counting it free.
pub open spec fn admission_step(s: Admission, e: AdmissionEvent) -> Admission {
    match e {
        AdmissionEvent::Arrive => if s.active < s.limit {
            Admission { active: (s.active + 1) as usize, ..s }
        } else {
            Admission { waiting: (s.waiting + 1) as usize, ..s }
        },
        AdmissionEvent::Release => if s.active == 0 {
            s
        } else if s.waiting > 0 {
            Admission { waiting: (s.waiting - 1) as usize, ..s }
        } else {
            Admission { active: (s.active - 1) as usize, ..s }
        },
    }
}

/// The state after a whole sequence of events.
pub open spec fn admission_run(s: Admission, es: Seq<AdmissionEvent>) -> Admission
    decreases es.len(),
{
    if es.len() == 0 {
        s
    } else {
        admission_step(admission_run(s, es.drop_last()), es.last())
    }
}

impl Admission {
    /// Start the controller with the operator-supplied limit clamped to the
    /// ceiling and no request admitted or waiting.
    pub fn new(requested_limit: usize) -> (s: Admission)
        ensures
            s.limit == spec_effective_limit(requested_limit as int),
            s.active == 0,
            s.waiting == 0,
            admission_wf(s),
    {
        Admission { limit: effective_limit(requested_limit), active: 0, waiting: 0 }
    }

    /// A request arrives: admit it when a slot is free, queue it otherwise.
    /// It is never rejected, and no other request's standing changes.
    pub fn arrive(&mut self) -> (o: AdmitOutcome)
        requires
            admission_wf(*old(self)),
            old(self).waiting < usize::MAX,
        ensures
            *final (self) == admission_step(*old(self), AdmissionEvent::Arrive),
            admission_wf(*final (self)),
            o == AdmitOutcome::Admitted <==> old(self).active < old(self).limit,
            final (self).active + final (self).waiting == old(self).active + old(self).waiting
                + 1,
    {
        if self.active < self.limit {
            self.active = self.active + 1;
            AdmitOutcome::Admitted
        } else {
            self.waiting = self.waiting + 1;
            AdmitOutcome::Queued
        }
    }

    /// A request finishes and its slot is released: a waiting request, if
    /// any, takes the slot at once; otherwise the active count drops.
    pub fn release(&mut self)
        requires
            admission_wf(*old(self)),
            old(self).active > 0,
        ensures
            *final (self) == admission_step(*old(self), AdmissionEvent::Release),
            admission_wf(*final (self)),
            final (self).active + final (self).waiting == old(self).active + old(self).waiting
                - 1,
    {
        if self.waiting > 0 {
            self.waiting = self.waiting - 1;
        } else {
            self.active = self.active - 1;
        }
    }
}

/// However many requests arrive and finish, the number actively processed
/// never passes the enforced limit, and the limit itself never changes:
/// excess requests are serialized, not run beyond the cap.
pub proof fn lemma_admission_bounded(s: Admission, es: Seq<AdmissionEvent>)
    requires
        admission_wf(s),
    ensures
        admission_wf(admission_run(s, es)),
        admission_run(s, es).limit == s.limit,
    decreases es.len(),
{
    if es.len() > 0 {
        lemma_admission_bounded(s, es.drop_last());
    }
}

/// The state after `n` slots are released, one at a time.
pub open spec fn release_n(s: Admission, n: nat) -> Admission
    decreases n,
{
    if n == 0 {
        s
    } else {
        admission_step(release_n(s, (n - 1) as nat), AdmissionEvent::Release)
    }
}

/// With a positive limit, no event puts a request in the queue while no
/// slot is taken: a request only ever waits behind an active one, so from
/// the empty start this holds in every reachable state.
pub proof fn lemma_waiting_stands_behind_active(s: Admission, e: AdmissionEvent)
    requires
        admission_wf(s),
        s.limit > 0,
        s.waiting > 0 ==> s.active > 0,
    ensures
        admission_wf(admission_step(s, e)),
        admission_step(s, e).waiting > 0 ==> admission_step(s, e).active > 0,
{
}

/// With a positive limit, a waiting request always stands behind an active
/// one, so every request the controller holds completes: once as many slots
/// are released as there are requests held, none is active and none still
/// waits — excess requests were serialized, never rejected or dropped.
pub proof fn lemma_all_held_requests_complete(s: Admission, n: nat)
    requires
        admission_wf(s),
        s.limit > 0,
        s.waiting > 0 ==> s.active > 0,
        n == s.active + s.waiting,
    ensures
        release_n(s, n).active == 0,
        release_n(s, n).waiting == 0,
    decreases n,
{
    if n > 0 {
        let s1 = admission_step(s, AdmissionEvent::Release);
        assert(release_n(s, n) == release_n(s1, (n - 1) as nat)) by {
            lemma_release_n_shift(s, n);
        }
        lemma_all_held_requests_complete(s1, (n - 1) as nat);
    }
}

/// Releasing once and then `n - 1` times is releasing `n` times.
proof fn lemma_release_n_shift(s: Admission, n: nat)
    requires
        n > 0,
    ensures
        release_n(s, n) == release_n(admission_step(s, AdmissionEvent::Release), (n - 1) as nat),
    decreases n,
{
    let s1 = admission_step(s, AdmissionEvent::Release);
    if n == 1 {
        assert(release_n(s, 0) == s);
        assert(release_n(s1, 0) == s1);
        assert(release_n(s, 1) == admission_step(release_n(s, 0), AdmissionEvent::Release));
    } else {
        lemma_release_n_shift(s, (n - 1) as nat);
        assert(release_n(s, n) == admission_step(
            release_n(s, (n - 1) as nat),
            AdmissionEvent::Release,
        ));
        assert(release_n(s1, (n - 1) as nat) == admission_step(
            release_n(s1, (n - 2) as nat),
            AdmissionEvent::Release,
        ));
    }
}

/// An arriving request is always held — admitted or queued — never dropped:
/// every arrival grows the number of requests the controller accounts for by
/// exactly one.
pub proof fn lemma_arrival_never_rejected(s: Admission)
    requires
        s.waiting < usize::MAX,
    ensures
        admission_step(s, AdmissionEvent::Arrive).active + admission_step(
            s,
            AdmissionEvent::Arrive,
        ).waiting == s.active + s.waiting + 1,
{
}

} // verus!
