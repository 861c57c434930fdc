//! The job executor: creates a job's identity from a validated workload,
//! and folds every worker's outcome into the one job result.
//!
//! Every worker contributes to the aggregate, even one that failed all
//! its sends or never got going (it reports zero messages and zero time),
//! so the aggregate never silently shrinks its denominator. The average
//! latency is total worker time over total messages sent, in whole
//! milliseconds, and a run that sent nothing reports zero latency rather
//! than dividing by zero.

use vstd::prelude::*;
use vstd::arithmetic::div_mod::lemma_fundamental_div_mod;
use crate::registry::{JobRegistry, JobState};
use crate::send_spec::{SendCfg, SendSpec, ValidationError, acks_level_of};
use crate::worker::ProducerWorkerOutcome;

verus! {

/// The aggregate of one finished job: messages sent across all workers,
/// and the average latency per message in whole milliseconds.
#[derive(Clone, Copy, Debug, PartialEq, Eq, Structural)]
pub struct JobResult {
    pub messages_sent: u64,
    pub average_latency_ms: u128,
}

/// Messages sent across a sequence of worker outcomes.
pub open spec fn sum_sent(s: Seq<ProducerWorkerOutcome>) -> int
    decreases s.len(),
{
    if s.len() == 0 {
        0
    } else {
        sum_sent(s.drop_last()) + s.last().messages_sent
    }
}

/// Total worker wall-clock time across a sequence of outcomes, in
/// milliseconds.
pub open spec fn sum_duration_ms(s: Seq<ProducerWorkerOutcome>) -> int
    decreases s.len(),
{
    if s.len() == 0 {
        0
    } else {
        sum_duration_ms(s.drop_last()) + s.last().duration_ms
    }
}

proof fn lemma_sum_bounds(s: Seq<ProducerWorkerOutcome>)
    ensures
        0 <= sum_sent(s) <= s.len() * u32::MAX,
        0 <= sum_duration_ms(s) <= s.len() * u64::MAX,
    decreases s.len(),
{
    if s.len() > 0 {
        lemma_sum_bounds(s.drop_last());
        assert((s.len() - 1) * u32::MAX + u32::MAX == s.len() * u32::MAX) by (nonlinear_arith);
        assert((s.len() - 1) * u64::MAX + u64::MAX == s.len() * u64::MAX) by (nonlinear_arith);
    }
}

proof fn lemma_sum_sent_constant(s: Seq<ProducerWorkerOutcome>, per: int)
    requires
        forall|i: int| 0 <= i < s.len() ==> s[i].messages_sent == per,
    ensures
        sum_sent(s) == s.len() * per,
    decreases s.len(),
{
    if s.len() > 0 {
        lemma_sum_sent_constant(s.drop_last(), per);
        assert((s.len() - 1) * per + per == s.len() * per) by (nonlinear_arith);
    }
}

/// When every worker sends its full share of a workload whose total
/// divides evenly among the producers, the aggregate count is exactly the
/// requested total: nothing is lost and nothing is duplicated.
pub proof fn lemma_full_success_sends_total(
    outcomes: Seq<ProducerWorkerOutcome>,
    send_spec: SendSpec,
)
    requires
        send_spec.wf(),
        send_spec.total_number_of_messages as int % send_spec.producer_count as int == 0,
        outcomes.len() == send_spec.producer_count,
        forall|i: int|
            0 <= i < outcomes.len() ==> outcomes[i].messages_sent
                == send_spec.assigned_per_worker_spec(),
    ensures
        sum_sent(outcomes) == send_spec.total_number_of_messages,
{
    let total = send_spec.total_number_of_messages as int;
    let count = send_spec.producer_count as int;
    lemma_sum_sent_constant(outcomes, total / count);
    lemma_fundamental_div_mod(total, count);
}

/// Sums the workers' outcomes into the job's result. The message count is
/// the plain sum; the average latency is total time over total messages,
/// or the explicit zero sentinel when nothing was sent.
pub fn aggregate_outcomes(outcomes: &Vec<ProducerWorkerOutcome>) -> (r: JobResult)
    requires
        outcomes@.len() <= u32::MAX,
    ensures
        r.messages_sent == sum_sent(outcomes@),
        sum_sent(outcomes@) == 0 ==> r.average_latency_ms == 0,
        sum_sent(outcomes@) > 0 ==> r.average_latency_ms == sum_duration_ms(outcomes@)
            / sum_sent(outcomes@),
{
    let mut i: usize = 0;
    let mut sent: u64 = 0;
    let mut total_time: u128 = 0;
    while i < outcomes.len()
        invariant
            i <= outcomes@.len() <= u32::MAX,
            sent == sum_sent(outcomes@.take(i as int)),
            total_time == sum_duration_ms(outcomes@.take(i as int)),
        decreases outcomes@.len() - i,
    {
        proof {
            lemma_sum_bounds(outcomes@.take(i as int));
            assert(i * u32::MAX + u32::MAX < 0x1_0000_0000_0000_0000) by (nonlinear_arith)
                requires i <= u32::MAX;
            assert(i * u64::MAX + u64::MAX < 0x1_0000_0000_0000_0000_0000_0000_0000_0000)
                by (nonlinear_arith)
                requires i <= u32::MAX;
            assert(outcomes@.take(i + 1).drop_last() =~= outcomes@.take(i as int));
            assert(outcomes@.take(i + 1).last() == outcomes@[i as int]);
        }
        sent = sent + outcomes[i].messages_sent as u64;
        total_time = total_time + outcomes[i].duration_ms as u128;
        i = i + 1;
    }
    proof {
        assert(outcomes@.take(outcomes@.len() as int) =~= outcomes@);
    }
    let average_latency_ms: u128 = if sent == 0 {
        0
    } else {
        total_time / (sent as u128)
    };
    JobResult { messages_sent: sent, average_latency_ms }
}

/// Relies on uuid::Uuid::new_v4 and its to_string: a randomly drawn
/// version-4 identifier, rendered in its 36-character hyphenated form.
/// The identifier is random, so nothing is assumed about its value.
#[verifier::external_body]
fn fresh_job_id() -> (r: String)
    ensures
        r@.len() == 36,
{
    uuid::Uuid::new_v4().to_string()
}

/// One load-generation run: an opaque identifier, fixed for the job's
/// lifetime, and the validated workload it executes.
pub struct Job {
    id: String,
    send_cfg: SendSpec,
}

impl Job {
    /// The job's identifier, immutable for its lifetime.
    pub closed spec fn id_view(self) -> Seq<char> {
        self.id@
    }

    /// The validated workload the job was created for.
    pub closed spec fn cfg(self) -> SendSpec {
        self.send_cfg
    }

    /// A job always carries a well-formed workload: the only constructors
    /// take a validated one.
    pub open spec fn wf(self) -> bool {
        self.cfg().wf()
    }

    /// Gives the job its identity: a fresh opaque identifier for a
    /// validated workload. No worker has started and no registry entry
    /// exists yet.
    pub fn new(send_cfg: SendSpec) -> (job: Job)
        requires
            send_cfg.wf(),
        ensures
            job.wf(),
            job.cfg() == send_cfg,
            job.id_view().len() == 36,
    {
        Job { id: fresh_job_id(), send_cfg }
    }

    /// Creates a job from a raw request: validation then identity.
    /// Exactly the invalid requests are rejected, with the validator's
    /// error; nothing outside the job is touched, so a rejected request
    /// leaves no trace anywhere.
    pub fn create(cfg: &SendCfg) -> (r: Result<Job, ValidationError>)
        ensures
            cfg.valid() ==> (match r {
                Ok(job) => job.wf()
                    && job.cfg().topic@ == cfg.topic@
                    && job.cfg().payload@ == cfg.payload@
                    && job.cfg().producer_count == cfg.producer_count
                    && job.cfg().total_number_of_messages == cfg.total_number_of_messages
                    && job.cfg().required_acks == acks_level_of(cfg.requested_required_acks)
                    && job.id_view().len() == 36,
                Err(_) => false,
            }),
            !cfg.valid() ==> r == Err::<Job, ValidationError>(cfg.rejection()),
    {
        let send_cfg = match cfg.validate() {
            Ok(s) => s,
            Err(e) => {
                return Err(e);
            },
        };
        Ok(Job::new(send_cfg))
    }

    /// The job's identifier, for the creation response and for status
    /// polls.
    pub fn id(&self) -> (r: String)
        ensures
            r@ == self.id_view(),
    {
        self.id.clone()
    }

    /// The workload, read by the caller to drive the workers.
    pub fn send_cfg(&self) -> (r: &SendSpec)
        ensures
            *r == self.cfg(),
    {
        &self.send_cfg
    }
}

/// Enters the job in the registry as `Running`. This happens before any
/// worker starts and before the job's identifier is handed to the caller,
/// so a status poll issued right after job creation cannot find the job
/// unknown. Only a created job can be registered, so only validated
/// workloads ever reach the registry.
pub fn register_job(registry: &mut JobRegistry, job: &Job)
    ensures
        final(registry)@ == old(registry)@.insert(job.id_view(), JobState::Running),
{
    registry.register(&job.id);
}

/// Aggregates the workers' outcomes and replaces the job's registry entry
/// with the completed result: the job's one `Running` to `Completed`
/// transition. Runs after every worker has reported, however many of
/// their sends failed, so the job never stays `Running` forever.
pub fn complete_job(
    registry: &mut JobRegistry,
    id: &String,
    outcomes: &Vec<ProducerWorkerOutcome>,
) -> (r: JobResult)
    requires
        outcomes@.len() <= u32::MAX,
    ensures
        r.messages_sent == sum_sent(outcomes@),
        sum_sent(outcomes@) == 0 ==> r.average_latency_ms == 0,
        sum_sent(outcomes@) > 0 ==> r.average_latency_ms == sum_duration_ms(outcomes@)
            / sum_sent(outcomes@),
        final(registry)@ == old(registry)@.insert(id@, JobState::Completed(r)),
{
    let result = aggregate_outcomes(outcomes);
    registry.complete(id, result);
    result
}

} // verus!
