//! Graceful shutdown: the serving loop moves from `Serving` through
//! `Draining` to `Stopped`. While serving, new connections are accepted. On
//! the termination signal, no new connection is accepted any more, but every
//! request already in flight still completes; only when the last one has
//! finished does the process stop. A repeated signal changes nothing.

use vstd::prelude::*;

verus! {

/// The phase of the serving loop.
#[derive(Clone, Copy, PartialEq, Eq, Structural, Debug)]
pub enum Phase {
    Serving,
    Draining,
    Stopped,
}

/// The shutdown coordinator's state: the phase, and how many requests are
/// currently in flight.
#[derive(Clone, Copy, PartialEq, Eq, Structural, Debug)]
pub struct Coordinator {
    pub phase: Phase,
    pub in_flight: usize,
}

/// The process only stops once nothing is in flight any more.
pub open spec fn coordinator_wf(c: Coordinator) -> bool {
    c.phase == Phase::Stopped ==> c.in_flight == 0
}

/// Whether a new connection is accepted in this state.
pub open spec fn spec_accepts(c: Coordinator) -> bool {
    c.phase == Phase::Serving
}

/// What the termination signal does: serving turns into draining — or
/// straight into stopped when nothing is in flight — and a repeated signal
/// while draining or stopped changes nothing.
pub open spec fn spec_signal(c: Coordinator) -> Coordinator {
    match c.phase {
        Phase::Serving => if c.in_flight == 0 {
            Coordinator { phase: Phase::Stopped, ..c }
        } else {
            Coordinator { phase: Phase::Draining, ..c }
        },
        Phase::Draining => c,
        Phase::Stopped => c,
    }
}

/// What the completion of one in-flight request does: the count drops, and
/// when the last request of a draining loop finishes, the loop stops.
pub open spec fn spec_finish(c: Coordinator) -> Coordinator {
    if c.in_flight == 0 {
        c
    } else if c.phase == Phase::Draining && c.in_flight == 1 {
        Coordinator { phase: Phase::Stopped, in_flight: 0 }
    } else {
        Coordinator { in_flight: (c.in_flight - 1) as usize, ..c }
    }
}

/// The state after `n` in-flight requests complete, one at a time.
pub open spec fn spec_finish_n(c: Coordinator, n: nat) -> Coordinator
    decreases n,
{
    if n == 0 {
        c
    } else {
        spec_finish(spec_finish_n(c, (n - 1) as nat))
    }
}

impl Coordinator {
    /// The coordinator at process start: serving, nothing in flight.
    pub fn new() -> (c: Coordinator)
        ensures
            c.phase == Phase::Serving,
            c.in_flight == 0,
            coordinator_wf(c),
    {
        Coordinator { phase: Phase::Serving, in_flight: 0 }
    }

    /// Whether a new connection is accepted right now.
    pub fn accepts_new(&self) -> (r: bool)
        ensures
            r == spec_accepts(*self),
    {
        matches!(self.phase, Phase::Serving)
    }

    /// The termination signal arrived. Safe to call any number of times:
    /// after the first, further signals change nothing.
    pub fn signal(&mut self)
        ensures
            *final (self) == spec_signal(*old(self)),
            !spec_accepts(*final (self)),
            final (self).in_flight == old(self).in_flight,
    {
        match self.phase {
            Phase::Serving => {
                if self.in_flight == 0 {
                    self.phase = Phase::Stopped;
                } else {
                    self.phase = Phase::Draining;
                }
            },
            Phase::Draining => {},
            Phase::Stopped => {},
        }
    }

    /// A new request was accepted and is now in flight. Only a serving loop
    /// accepts one.
    pub fn begin_request(&mut self)
        requires
            old(self).phase == Phase::Serving,
            old(self).in_flight < usize::MAX,
        ensures
            final (self).phase == old(self).phase,
            final (self).in_flight == old(self).in_flight + 1,
    {
        self.in_flight = self.in_flight + 1;
    }

    /// An in-flight request completed and its response was delivered. When
    /// the last one of a draining loop completes, the loop stops.
    pub fn finish_request(&mut self)
        requires
            old(self).in_flight > 0,
        ensures
            *final (self) == spec_finish(*old(self)),
            final (self).in_flight == old(self).in_flight - 1,
    {
        if self.in_flight == 1 && matches!(self.phase, Phase::Draining) {
            self.phase = Phase::Stopped;
            self.in_flight = 0;
        } else {
            self.in_flight = self.in_flight - 1;
        }
    }
}

/// While a signalled loop drains, no new connection is accepted, and no
/// in-flight request is dropped before it completes: each completion lowers
/// the count by exactly one until none is left.
pub proof fn lemma_draining_accepts_nothing(c: Coordinator, k: nat)
    requires
        c.phase == Phase::Serving,
        k <= c.in_flight,
    ensures
        !spec_accepts(spec_finish_n(spec_signal(c), k)),
        spec_finish_n(spec_signal(c), k).in_flight == c.in_flight - k,
    decreases k,
{
    if k > 0 {
        lemma_draining_accepts_nothing(c, (k - 1) as nat);
    }
}

/// After the termination signal, every request in flight at signal time
/// still completes, and exactly when the last of them has completed the
/// process is stopped.
pub proof fn lemma_graceful_drain(c: Coordinator)
    requires
        c.phase == Phase::Serving,
    ensures
        !spec_accepts(spec_signal(c)),
        spec_signal(c).in_flight == c.in_flight,
        spec_finish_n(spec_signal(c), c.in_flight as nat).phase == Phase::Stopped,
        spec_finish_n(spec_signal(c), c.in_flight as nat).in_flight == 0,
{
    lemma_draining_accepts_nothing(c, c.in_flight as nat);
    if c.in_flight > 0 {
        lemma_draining_accepts_nothing(c, (c.in_flight - 1) as nat);
    }
}

} // verus!
