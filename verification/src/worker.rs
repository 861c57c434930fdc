//! Producer-worker bookkeeping: one worker owns one broker connection and
//! attempts a fixed share of sends. The send itself is I/O performed by the
//! caller; this module decides what each send result means for the
//! worker's outcome. A failed send is counted as not sent and the worker
//! carries on, so the workload completes under partial failure.

use vstd::prelude::*;

verus! {

/// What one producer worker reports back: how many messages it actually
/// sent (possibly fewer than its assigned share) and the wall-clock time
/// from its first send attempt to its last, in milliseconds.
#[derive(Clone, Copy, Debug, PartialEq, Eq, Structural)]
pub struct ProducerWorkerOutcome {
    pub messages_sent: u32,
    pub duration_ms: u64,
}

/// A worker's running tally over its assigned share of sends: how many
/// sends it has attempted and how many of them succeeded.
pub struct WorkerTally {
    pub assigned: u32,
    pub attempted: u32,
    pub sent: u32,
}

impl WorkerTally {
    /// Always holds between calls: a worker never attempts more sends
    /// than it was assigned, and never counts more successes than
    /// attempts.
    pub open spec fn wf(self) -> bool {
        self.sent <= self.attempted <= self.assigned
    }

    /// A fresh tally for a worker assigned this many sends.
    pub fn new(assigned: u32) -> (t: WorkerTally)
        ensures
            t.wf(),
            t.assigned == assigned,
            t.attempted == 0,
            t.sent == 0,
    {
        WorkerTally { assigned, attempted: 0, sent: 0 }
    }

    /// Whether the worker has attempted its whole share.
    pub fn done(&self) -> (r: bool)
        ensures
            r == (self.attempted == self.assigned),
    {
        self.attempted == self.assigned
    }

    /// Records the result of one send attempt: a success counts toward
    /// the messages sent, a failure is absorbed and only uses up an
    /// attempt.
    pub fn record_send(&mut self, ok: bool)
        requires
            old(self).wf(),
            old(self).attempted < old(self).assigned,
        ensures
            final(self).wf(),
            final(self).assigned == old(self).assigned,
            final(self).attempted == old(self).attempted + 1,
            final(self).sent == old(self).sent + (if ok { 1int } else { 0int }),
    {
        self.attempted = self.attempted + 1;
        if ok {
            self.sent = self.sent + 1;
        }
    }

    /// The worker's report: its success count, paired with the elapsed
    /// time the caller measured around the sends.
    pub fn outcome(&self, duration_ms: u64) -> (o: ProducerWorkerOutcome)
        ensures
            o.messages_sent == self.sent,
            o.duration_ms == duration_ms,
    {
        ProducerWorkerOutcome { messages_sent: self.sent, duration_ms }
    }
}

/// What a worker contributes to the aggregate once joined: its own
/// report when it delivered one, and zero messages with zero time when it
/// vanished without reporting, so the aggregate's denominator is never
/// silently shrunk by a lost worker.
pub fn outcome_or_absent(joined: Option<ProducerWorkerOutcome>) -> (o: ProducerWorkerOutcome)
    ensures
        o == (match joined {
            Some(outcome) => outcome,
            None => (ProducerWorkerOutcome { messages_sent: 0, duration_ms: 0 }),
        }),
{
    match joined {
        Some(outcome) => outcome,
        None => ProducerWorkerOutcome { messages_sent: 0, duration_ms: 0 },
    }
}

/// How many of a worker's send attempts succeeded.
pub open spec fn count_sent(results: Seq<bool>) -> int
    decreases results.len(),
{
    if results.len() == 0 {
        0
    } else {
        count_sent(results.drop_last()) + (if results.last() {
            1int
        } else {
            0int
        })
    }
}

/// A worker with no failed sends reports its full share: every attempt
/// counts.
pub proof fn lemma_all_sends_ok(results: Seq<bool>)
    requires
        forall|i: int| 0 <= i < results.len() ==> results[i],
    ensures
        count_sent(results) == results.len(),
    decreases results.len(),
{
    if results.len() > 0 {
        lemma_all_sends_ok(results.drop_last());
    }
}

/// Folds one worker's send results, in order, into its outcome: its
/// share is exactly the number of attempts, the successes are counted,
/// the failures are absorbed.
pub fn tally_sends(results: &Vec<bool>, duration_ms: u64) -> (o: ProducerWorkerOutcome)
    requires
        results@.len() <= u32::MAX,
    ensures
        o.messages_sent == count_sent(results@),
        o.duration_ms == duration_ms,
{
    let mut tally = WorkerTally::new(results.len() as u32);
    let mut i: usize = 0;
    proof {
        assert(results@.take(0) =~= Seq::<bool>::empty());
    }
    while i < results.len()
        invariant
            i <= results@.len() <= u32::MAX,
            tally.wf(),
            tally.assigned == results@.len(),
            tally.attempted == i,
            tally.sent == count_sent(results@.take(i as int)),
        decreases results@.len() - i,
    {
        proof {
            assert(results@.take(i + 1).drop_last() =~= results@.take(i as int));
            assert(results@.take(i + 1).last() == results@[i as int]);
        }
        tally.record_send(results[i]);
        i = i + 1;
    }
    proof {
        assert(results@.take(results@.len() as int) =~= results@);
    }
    tally.outcome(duration_ms)
}

} // verus!
