//! The job registry: the single source of truth mapping a job identifier
//! to its lifecycle state, written by the job executor and read by
//! concurrent status queries.
//!
//! The store is a sharded concurrent map, so queries for unrelated jobs
//! never serialize behind one lock; this module states what the store
//! holds and proves the lifecycle logic around it.

use vstd::prelude::*;
use dashmap::DashMap;
use crate::executor::JobResult;

verus! {

/// Where a job stands: still running, or completed with its result.
/// A job moves from `Running` to `Completed` exactly once and never
/// backward; an invalid in-between ("not running, no result yet") is
/// unrepresentable.
#[derive(Clone, Copy, Debug, PartialEq, Eq, Structural)]
pub enum JobState {
    Running,
    Completed(JobResult),
}

#[verifier::external_type_specification]
#[verifier::external_body]
#[verifier::reject_recursive_types(K)]
#[verifier::reject_recursive_types(V)]
#[verifier::reject_recursive_types(S)]
pub struct ExDashMap<K, V, S>(DashMap<K, V, S>);

/// The concurrent table type: job identifier to job state.
pub type JobTable = DashMap<String, JobState>;

/// What the concurrent table holds: a map from job identifier to job
/// state.
pub uninterp spec fn table_contents(m: JobTable) -> Map<Seq<char>, JobState>;

/// The contents of a registry that knows no job.
pub open spec fn empty_table() -> Map<Seq<char>, JobState> {
    Map::empty()
}

/// Relies on dashmap::DashMap::new: a freshly created map holds nothing.
#[verifier::external_body]
fn table_new() -> (m: JobTable)
    ensures
        table_contents(m) == empty_table(),
{
    DashMap::new()
}

/// Relies on dashmap::DashMap::insert: maps the key to the value,
/// replacing whatever entry the key had before.
#[verifier::external_body]
fn table_insert(m: &mut JobTable, id: &String, state: JobState)
    ensures
        table_contents(*final(m)) == table_contents(*old(m)).insert(id@, state),
{
    m.insert(id.clone(), state);
}

/// Relies on dashmap::DashMap::get: hands back the value the key maps
/// to, if any.
#[verifier::external_body]
fn table_get(m: &JobTable, id: &String) -> (r: Option<JobState>)
    ensures
        r == if table_contents(*m).contains_key(id@) {
            Some(table_contents(*m)[id@])
        } else {
            None::<JobState>
        },
{
    m.get(id).map(|entry| *entry.value())
}

/// The concurrent store of every job's state, keyed by job identifier.
pub struct JobRegistry {
    table: JobTable,
}

impl View for JobRegistry {
    type V = Map<Seq<char>, JobState>;

    closed spec fn view(&self) -> Map<Seq<char>, JobState> {
        table_contents(self.table)
    }
}

impl JobRegistry {
    /// A registry that knows no job yet; one instance is constructed at
    /// startup and shared by the creation and the status paths.
    pub fn new() -> (r: JobRegistry)
        ensures
            r@ == empty_table(),
    {
        JobRegistry { table: table_new() }
    }

    /// Enters a job as `Running`. Called before any worker starts, so a
    /// status query issued right after job creation already finds the
    /// entry.
    pub fn register(&mut self, id: &String)
        ensures
            final(self)@ == old(self)@.insert(id@, JobState::Running),
    {
        table_insert(&mut self.table, id, JobState::Running);
    }

    /// Replaces a job's state with its completed result: the one
    /// `Running` to `Completed` transition of the job's lifetime.
    pub fn complete(&mut self, id: &String, result: JobResult)
        ensures
            final(self)@ == old(self)@.insert(id@, JobState::Completed(result)),
    {
        table_insert(&mut self.table, id, JobState::Completed(result));
    }

    /// Looks a job up for the status endpoint. The three outcomes the
    /// control plane must tell apart are all here: an unknown identifier
    /// yields nothing ("not found"), a known one yields its state, either
    /// still running or completed with the result.
    pub fn get(&self, id: &String) -> (r: Option<JobState>)
        ensures
            !self@.contains_key(id@) ==> r is None,
            self@.contains_key(id@) ==> r == Some(self@[id@]),
    {
        table_get(&self.table, id)
    }
}

/// A job just registered is visible at once: after its identifier enters
/// the registry as `Running`, a status query for that identifier can
/// never answer "not found".
pub proof fn lemma_registered_id_found(m: Map<Seq<char>, JobState>, id: Seq<char>)
    ensures
        m.insert(id, JobState::Running).contains_key(id),
        m.insert(id, JobState::Running)[id] == JobState::Running,
{
}

/// A completed job is never stuck running: after the aggregation writes
/// its result, a status query for its identifier sees `Completed` with
/// exactly that result.
pub proof fn lemma_completed_id_found(
    m: Map<Seq<char>, JobState>,
    id: Seq<char>,
    result: JobResult,
)
    ensures
        m.insert(id, JobState::Completed(result)).contains_key(id),
        m.insert(id, JobState::Completed(result))[id] == JobState::Completed(result),
{
}

} // verus!
