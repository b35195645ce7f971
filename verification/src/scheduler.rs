//! The scheduler: which job is dispatched next, how many may run at one
//! time, and what is done when a job has ended.
//!
//! The jobs are, for each region in order, as many as there are attempts.
//! They are never laid out in memory: the scheduler holds the place of the
//! next one. It does no waiting of its own. Its caller asks it for the next
//! job, runs what it was given, and tells it of each job that has ended.

use vstd::prelude::*;
use vstd::arithmetic::div_mod::lemma_fundamental_div_mod_converse;
use crate::errors::Errors;
use crate::headers::{header_text, is_header_value};
use crate::job::IcmpJob;
use crate::options::Opts;
use crate::regions::{RegionView, region_views};

verus! {

/// Why no scheduler can be made for a configuration.
#[derive(Clone, Copy, Debug, PartialEq, Eq, Structural)]
pub enum SetupError {
    /// The number of jobs cannot be counted.
    TooManyJobs,
    /// No job may ever run.
    ZeroConcurrency,
    /// The API key cannot be sent as a header.
    InvalidApiKey,
}

/// Why no scheduler can be made for a configuration, if there is a reason:
/// the number of jobs, regions times attempts, is too large to be counted;
/// else the concurrency limit is zero; else the API key is no text that a
/// header can carry.
pub open spec fn setup_failure(
    regions: nat,
    attempts: nat,
    concurrency: nat,
    api_key: Seq<char>,
) -> Option<SetupError> {
    if regions * attempts > usize::MAX {
        Some(SetupError::TooManyJobs)
    } else if concurrency == 0 {
        Some(SetupError::ZeroConcurrency)
    } else if !header_text(api_key) {
        Some(SetupError::InvalidApiKey)
    } else {
        None
    }
}

/// The scheduler was told of the end of a job when none was running.
#[derive(Clone, Copy, Debug, PartialEq, Eq, Structural)]
pub enum SchedulerError {
    NothingExecuting,
}

/// What is done with a job that has ended. Its place in the progress count
/// is taken in each case.
#[derive(Clone, Copy, Debug, PartialEq, Eq, Structural)]
pub enum Completion {
    /// The result is handed to the display.
    Forward,
    /// The key or the funds are at fault: this is reported once, and the
    /// other jobs go on.
    ReportFatal,
    /// The job failed: this is reported with the job's region and attempt,
    /// and the other jobs go on.
    ReportFailure,
}

/// What is done with a job that ended in `outcome`.
pub open spec fn completion_for(outcome: Result<(), Errors>) -> Completion {
    match outcome {
        Ok(_) => Completion::Forward,
        Err(e) => if e.fatal() {
            Completion::ReportFatal
        } else {
            Completion::ReportFailure
        },
    }
}

/// The mathematical value of a scheduler.
pub ghost struct SchedulerView {
    /// The regions of the configuration.
    pub regions: Seq<RegionView>,
    /// The number of jobs per region.
    pub attempts: nat,
    /// The number of jobs that may run at one time.
    pub concurrency: nat,
    /// The number of all jobs, fixed when the scheduler is made.
    pub total: nat,
    /// The place of the next job: its region and its attempt.
    pub region_index: nat,
    pub attempt_index: nat,
    /// The number of jobs that run.
    pub executing: nat,
    /// The number of jobs that have ended.
    pub completed: nat,
}

impl SchedulerView {
    /// The number of jobs dispatched so far.
    pub open spec fn dispatched(self) -> nat {
        self.region_index * self.attempts + self.attempt_index
    }

    /// What holds of a scheduler at all times.
    pub open spec fn wf(self) -> bool {
        &&& self.concurrency >= 1
        &&& self.total == self.regions.len() * self.attempts
        &&& self.executing <= self.concurrency
        &&& self.region_index <= self.regions.len()
        &&& (self.attempts == 0 ==> self.region_index == 0 && self.attempt_index == 0)
        &&& (self.attempts > 0 ==> self.attempt_index < self.attempts)
        &&& (self.region_index == self.regions.len() ==> self.attempt_index == 0)
        &&& self.completed + self.executing == self.dispatched()
    }

    /// The scheduler of a configuration before any job was dispatched.
    pub open spec fn initial(regions: Seq<RegionView>, attempts: nat, concurrency: nat)
        -> SchedulerView {
        SchedulerView {
            regions,
            attempts,
            concurrency,
            total: regions.len() * attempts,
            region_index: 0,
            attempt_index: 0,
            executing: 0,
            completed: 0,
        }
    }

    /// Whether a job can be dispatched: one is left, and fewer run than may.
    pub open spec fn can_dispatch(self) -> bool {
        self.executing < self.concurrency && self.dispatched() < self.total
    }

    /// The region of the next job.
    pub open spec fn next_region(self) -> RegionView {
        self.regions[self.region_index as int]
    }

    /// Whether every job has ended.
    pub open spec fn finished(self) -> bool {
        self.completed == self.total
    }

    /// The scheduler after the next job was dispatched.
    pub open spec fn after_dispatch(self) -> SchedulerView {
        if self.attempt_index + 1 < self.attempts {
            SchedulerView {
                attempt_index: self.attempt_index + 1,
                executing: self.executing + 1,
                ..self
            }
        } else {
            SchedulerView {
                region_index: self.region_index + 1,
                attempt_index: 0,
                executing: self.executing + 1,
                ..self
            }
        }
    }

    /// The scheduler after one running job has ended.
    pub open spec fn after_completion(self) -> SchedulerView {
        SchedulerView {
            executing: (self.executing - 1) as nat,
            completed: self.completed + 1,
            ..self
        }
    }
}

/// A job is left exactly if the place of the next job is at a region and
/// there are attempts at all.
pub proof fn lemma_job_left(s: SchedulerView)
    requires
        s.wf(),
    ensures
        s.dispatched() <= s.total,
        s.dispatched() < s.total <==> (s.region_index < s.regions.len() && s.attempts > 0),
{
    let a = s.attempts as int;
    let r = s.region_index as int;
    let n = s.regions.len() as int;
    assert(s.dispatched() == r * a + s.attempt_index);
    assert(s.total == n * a);
    if r < n && a > 0 {
        assert(r * a + a <= n * a) by (nonlinear_arith)
            requires
                r + 1 <= n,
                a > 0,
        ;
    } else if a == 0 {
        assert(n * a == 0 && r * a == 0) by (nonlinear_arith)
            requires
                a == 0,
        ;
    }
}

/// Dispatching a job keeps the scheduler well-formed and counts one more job
/// as dispatched.
pub proof fn lemma_after_dispatch(s: SchedulerView)
    requires
        s.wf(),
        s.can_dispatch(),
    ensures
        s.after_dispatch().wf(),
        s.after_dispatch().dispatched() == s.dispatched() + 1,
        s.after_dispatch().executing == s.executing + 1,
        s.after_dispatch().completed == s.completed,
{
    lemma_job_left(s);
    let a = s.attempts as int;
    let r = s.region_index as int;
    assert((r + 1) * a == r * a + a) by (nonlinear_arith);
}

/// The number of jobs that run never exceeds the concurrency limit.
pub proof fn lemma_executing_bounded(s: SchedulerView)
    requires
        s.wf(),
    ensures
        s.executing <= s.concurrency,
        s.can_dispatch() ==> s.after_dispatch().executing <= s.concurrency,
{
}

/// The jobs come region by region, each region with all its attempts: the
/// job that is dispatched after `k` others is attempt `k` modulo the
/// attempts of the region at place `k` divided by the attempts. So each
/// pair of a region and an attempt is dispatched once, and no other.
pub proof fn lemma_place_of_job(s: SchedulerView)
    requires
        s.wf(),
        s.dispatched() < s.total,
    ensures
        s.attempts > 0,
        s.region_index == s.dispatched() / s.attempts,
        s.attempt_index == s.dispatched() % s.attempts,
        s.region_index < s.regions.len(),
{
    lemma_job_left(s);
    lemma_fundamental_div_mod_converse(
        s.dispatched() as int,
        s.attempts as int,
        s.region_index as int,
        s.attempt_index as int,
    );
}

/// A freed slot is filled at once: when a running job has ended and jobs
/// are left, the next one can be dispatched, whatever else still runs.
pub proof fn lemma_slot_freed(s: SchedulerView)
    requires
        s.wf(),
        s.executing > 0,
        s.dispatched() < s.total,
    ensures
        s.after_completion().can_dispatch(),
{
}

/// While jobs are left to end, the scheduler is never stuck: a job can be
/// dispatched, or one runs whose end can be awaited.
pub proof fn lemma_never_stuck(s: SchedulerView)
    requires
        s.wf(),
        !s.finished(),
    ensures
        s.can_dispatch() || s.executing > 0,
{
    lemma_job_left(s);
}

/// When no job can be dispatched and none runs, as many jobs were dispatched
/// as there are regions times attempts, whatever the concurrency limit, and
/// each of them has ended.
pub proof fn lemma_all_dispatched(s: SchedulerView)
    requires
        s.wf(),
        !s.can_dispatch(),
        s.executing == 0,
    ensures
        s.dispatched() == s.regions.len() * s.attempts,
        s.completed == s.dispatched(),
        s.finished(),
{
    lemma_job_left(s);
}

/// The progress count is at the total only when every job was dispatched
/// and has ended; from then on no job is dispatched and none can end, so the
/// count does not move again.
pub proof fn lemma_count_complete(s: SchedulerView)
    requires
        s.wf(),
    ensures
        s.completed <= s.total,
        s.finished() ==> s.dispatched() == s.total && s.executing == 0 && !s.can_dispatch(),
        s.executing > 0 ==> s.after_completion().wf() && s.after_completion().completed == s.completed + 1,
{
    lemma_job_left(s);
}

/// Dispatches the jobs of a configuration, a bounded number at a time.
#[derive(Debug)]
pub struct JobScheduler<'a> {
    config: &'a Opts,
    total: usize,
    region_index: usize,
    attempt_index: usize,
    executing: usize,
    completed: usize,
}

impl<'a> View for JobScheduler<'a> {
    type V = SchedulerView;

    closed spec fn view(&self) -> SchedulerView {
        SchedulerView {
            regions: region_views(self.config.regions@),
            attempts: self.config.attempts as nat,
            concurrency: self.config.concurrency as nat,
            total: self.total as nat,
            region_index: self.region_index as nat,
            attempt_index: self.attempt_index as nat,
            executing: self.executing as nat,
            completed: self.completed as nat,
        }
    }
}

impl<'a> JobScheduler<'a> {
    /// The configuration that the scheduler was made for.
    pub closed spec fn config(&self) -> &'a Opts {
        self.config
    }

    /// What holds of a scheduler at all times.
    pub open spec fn wf(&self) -> bool {
        &&& self@.wf()
        &&& self@.regions == region_views(self.config().regions@)
        &&& self@.attempts == self.config().attempts
        &&& self@.concurrency == self.config().concurrency
    }

    /// A scheduler for a configuration, with no job dispatched yet. It is
    /// refused exactly where `setup_failure` names a reason.
    pub fn new(config: &'a Opts) -> (r: Result<Self, SetupError>)
        ensures
            match setup_failure(
                config.regions@.len(),
                config.attempts as nat,
                config.concurrency as nat,
                config.api_key@,
            ) {
                Some(e) => r == Err::<Self, SetupError>(e),
                None => {
                    &&& r is Ok
                    &&& r->Ok_0.wf()
                    &&& r->Ok_0.config() == config
                    &&& r->Ok_0@ == SchedulerView::initial(
                        region_views(config.regions@),
                        config.attempts as nat,
                        config.concurrency as nat,
                    )
                    &&& r->Ok_0@.total == config.regions@.len() * config.attempts
                    &&& r->Ok_0@.dispatched() == 0
                },
            },
    {
        let total = match config.regions.len().checked_mul(config.attempts) {
            None => { return Err(SetupError::TooManyJobs); },
            Some(total) => total,
        };
        if config.concurrency == 0 {
            return Err(SetupError::ZeroConcurrency);
        }
        if !is_header_value(config.api_key.as_str()) {
            return Err(SetupError::InvalidApiKey);
        }
        let s = JobScheduler {
            config,
            total,
            region_index: 0,
            attempt_index: 0,
            executing: 0,
            completed: 0,
        };
        assert(s@.dispatched() == 0) by (nonlinear_arith)
            requires
                s@.region_index == 0,
                s@.attempt_index == 0,
        ;
        Ok(s)
    }

    /// The number of all jobs: regions times attempts.
    pub fn total_jobs(&self) -> (n: usize)
        requires
            self.wf(),
        ensures
            n == self@.total,
            n == self.config().regions@.len() * self.config().attempts,
    {
        self.total
    }

    /// The number of results that may wait for the display at one time: the
    /// concurrency limit.
    pub fn channel_capacity(&self) -> (n: usize)
        requires
            self.wf(),
        ensures
            n == self@.concurrency,
            n >= 1,
    {
        self.config.concurrency
    }

    /// The number of jobs that have ended, and the number of all jobs.
    pub fn progress(&self) -> (r: (usize, usize))
        requires
            self.wf(),
        ensures
            r.0 == self@.completed,
            r.1 == self@.total,
            r.0 <= r.1,
    {
        proof {
            lemma_count_complete(self@);
        }
        (self.completed, self.total)
    }

    /// The number of jobs that run.
    pub fn executing(&self) -> (n: usize)
        requires
            self.wf(),
        ensures
            n == self@.executing,
            n <= self@.concurrency,
    {
        self.executing
    }

    /// Whether every job has ended.
    pub fn is_finished(&self) -> (r: bool)
        requires
            self.wf(),
        ensures
            r == self@.finished(),
    {
        self.completed == self.total
    }

    /// Dispatches the next job, if one is left and fewer jobs run than may.
    /// The job given is the next in order: that of the region and the attempt
    /// at which the scheduler stands. Else nothing changes.
    pub fn next_job(&mut self) -> (r: Option<IcmpJob<'a>>)
        requires
            old(self).wf(),
        ensures
            final(self).wf(),
            final(self).config() == old(self).config(),
            match r {
                Some(job) => {
                    &&& old(self)@.can_dispatch()
                    &&& final(self)@ == old(self)@.after_dispatch()
                    &&& job.config == old(self).config()
                    &&& job.region@ == old(self)@.next_region()
                    &&& job.attempt == old(self)@.attempt_index
                },
                None => !old(self)@.can_dispatch() && final(self)@ == old(self)@,
            },
    {
        proof {
            lemma_job_left(self@);
            if self@.can_dispatch() {
                lemma_after_dispatch(self@);
            }
        }
        if self.executing >= self.config.concurrency || self.region_index
            >= self.config.regions.len() || self.config.attempts == 0 {
            return None;
        }
        let job = IcmpJob::new(
            self.config,
            self.config.regions[self.region_index].clone(),
            self.attempt_index,
        );
        if self.attempt_index + 1 < self.config.attempts {
            self.attempt_index = self.attempt_index + 1;
        } else {
            self.region_index = self.region_index + 1;
            self.attempt_index = 0;
        }
        self.executing = self.executing + 1;
        Some(job)
    }

    /// Takes note that a running job has ended in `outcome`, and says what
    /// is done with it. The job leaves the running ones and is counted as
    /// ended, once, whether it succeeded or failed. Where no job runs, the
    /// call is refused and nothing changes.
    pub fn complete(&mut self, outcome: &Result<(), Errors>) -> (r: Result<
        Completion,
        SchedulerError,
    >)
        requires
            old(self).wf(),
        ensures
            final(self).wf(),
            final(self).config() == old(self).config(),
            old(self)@.executing == 0 ==> r == Err::<Completion, SchedulerError>(
                SchedulerError::NothingExecuting,
            ) && final(self)@ == old(self)@,
            old(self)@.executing > 0 ==> r == Ok::<Completion, SchedulerError>(
                completion_for(*outcome),
            ) && final(self)@ == old(self)@.after_completion(),
    {
        if self.executing == 0 {
            return Err(SchedulerError::NothingExecuting);
        }
        proof {
            lemma_count_complete(self@);
        }
        self.executing = self.executing - 1;
        self.completed = self.completed + 1;
        let action = match outcome {
            Ok(_) => Completion::Forward,
            Err(e) => if e.is_fatal() {
                Completion::ReportFatal
            } else {
                Completion::ReportFailure
            },
        };
        Ok(action)
    }
}

} // verus!
