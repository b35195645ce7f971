//! The display side of the progress pipeline: it takes the results in the
//! order in which they arrive, draws each, and finishes when no sender is
//! left.

use vstd::prelude::*;
use crate::options::Opts;
use crate::scheduler::SetupError;

verus! {

/// The message that the progress bar ends with.
pub const COMPLETION_MESSAGE: &'static str = "Completed";

/// What the display does in one turn of its loop.
#[derive(Clone, Copy, Debug, PartialEq, Eq, Structural)]
pub enum DisplayStep {
    /// The result that arrived is drawn.
    Render,
    /// The progress bar is finished with the completion message, and the
    /// loop ends.
    Finish,
    /// Nothing is done.
    Ignore,
}

/// The state of the display: how long the progress bar is, how many results
/// may wait for the display at one time, how many it has drawn, and whether
/// it has finished.
#[derive(Debug)]
pub struct ProgressDisplay {
    total: usize,
    capacity: usize,
    rendered: usize,
    finished: bool,
}

/// The mathematical value of a [`ProgressDisplay`].
pub ghost struct DisplayView {
    /// The number of all jobs: the length of the progress bar.
    pub total: nat,
    /// The number of results that may wait in the channel.
    pub capacity: nat,
    /// The number of results drawn so far, as far as the machine can count.
    pub rendered: nat,
    /// Whether the progress bar was finished.
    pub finished: bool,
}

impl DisplayView {
    /// What holds of a display at all times: the channel holds at least one
    /// result, and the count of the results drawn is one that the machine
    /// can hold.
    pub open spec fn wf(self) -> bool {
        self.capacity >= 1 && self.rendered <= usize::MAX
    }

    /// The display of a configuration before anything was drawn.
    pub open spec fn initial(regions: nat, attempts: nat, concurrency: nat) -> DisplayView {
        DisplayView { total: regions * attempts, capacity: concurrency, rendered: 0, finished: false }
    }

    /// What the display does when a result arrives (`received`) or when the
    /// channel was found closed (not `received`). Every result that arrives
    /// is drawn, until the display has finished. The first time the channel
    /// is found closed, the display finishes. After that nothing is done.
    pub open spec fn step(self, received: bool) -> DisplayStep {
        if self.finished {
            DisplayStep::Ignore
        } else if received {
            DisplayStep::Render
        } else {
            DisplayStep::Finish
        }
    }

    /// The count of the results drawn after one more was drawn: it stops at
    /// the largest number that the machine can hold.
    pub open spec fn counted_one_more(self) -> nat {
        if self.rendered < usize::MAX {
            self.rendered + 1
        } else {
            self.rendered
        }
    }

    /// The display after one turn of its loop.
    pub open spec fn after(self, received: bool) -> DisplayView {
        match self.step(received) {
            DisplayStep::Render => DisplayView { rendered: self.counted_one_more(), ..self },
            DisplayStep::Finish => DisplayView { finished: true, ..self },
            DisplayStep::Ignore => self,
        }
    }

    /// The display after `n` results arrived, one after the other.
    pub open spec fn after_results(self, n: nat) -> DisplayView
        decreases n,
    {
        if n == 0 {
            self
        } else {
            self.after(true).after_results((n - 1) as nat)
        }
    }
}

impl View for ProgressDisplay {
    type V = DisplayView;

    closed spec fn view(&self) -> DisplayView {
        DisplayView {
            total: self.total as nat,
            capacity: self.capacity as nat,
            rendered: self.rendered as nat,
            finished: self.finished,
        }
    }
}

impl ProgressDisplay {
    /// The display for a configuration, with nothing drawn yet: the
    /// progress bar is as long as there are jobs, regions times attempts,
    /// and as many results may wait as jobs may run at one time. It is
    /// refused where the jobs cannot be counted, and else where the
    /// concurrency limit is zero.
    pub fn new(config: &Opts) -> (r: Result<ProgressDisplay, SetupError>)
        ensures
            config.regions@.len() * config.attempts > usize::MAX ==> r == Err::<
                ProgressDisplay,
                SetupError,
            >(SetupError::TooManyJobs),
            config.regions@.len() * config.attempts <= usize::MAX && config.concurrency == 0 ==> r
                == Err::<ProgressDisplay, SetupError>(SetupError::ZeroConcurrency),
            config.regions@.len() * config.attempts <= usize::MAX && config.concurrency > 0 ==> r
                is Ok && r->Ok_0@ == DisplayView::initial(
                config.regions@.len(),
                config.attempts as nat,
                config.concurrency as nat,
            ),
            r is Ok ==> r->Ok_0@.wf(),
    {
        match config.regions.len().checked_mul(config.attempts) {
            None => Err(SetupError::TooManyJobs),
            Some(total) => {
                if config.concurrency == 0 {
                    Err(SetupError::ZeroConcurrency)
                } else {
                    Ok(
                        ProgressDisplay {
                            total,
                            capacity: config.concurrency,
                            rendered: 0,
                            finished: false,
                        },
                    )
                }
            },
        }
    }

    /// The length of the progress bar: the number of all jobs.
    pub fn total(&self) -> (n: usize)
        ensures
            n == self@.total,
    {
        self.total
    }

    /// The number of results that may wait for the display at one time.
    pub fn capacity(&self) -> (n: usize)
        ensures
            n == self@.capacity,
    {
        self.capacity
    }

    /// The number of results drawn so far.
    pub fn rendered(&self) -> (n: usize)
        ensures
            n == self@.rendered,
    {
        self.rendered
    }

    /// Whether the progress bar was finished.
    pub fn is_finished(&self) -> (r: bool)
        ensures
            r == self@.finished,
    {
        self.finished
    }

    /// One turn of the display's loop: a result has arrived (`received`), or
    /// the channel was found closed because no sender is left. Says what to
    /// do, and takes note of it.
    pub fn display_job_thread(&mut self, received: bool) -> (step: DisplayStep)
        ensures
            step == old(self)@.step(received),
            final(self)@ == old(self)@.after(received),
            old(self)@.wf() ==> final(self)@.wf(),
    {
        if self.finished {
            DisplayStep::Ignore
        } else if received {
            if self.rendered < usize::MAX {
                self.rendered = self.rendered + 1;
            }
            DisplayStep::Render
        } else {
            self.finished = true;
            DisplayStep::Finish
        }
    }
}

/// The display never goes back: what it has drawn is never fewer after a
/// turn, and once finished it stays finished and draws nothing more.
pub proof fn lemma_display_monotonic(d: DisplayView, received: bool)
    requires
        d.wf(),
    ensures
        d.after(received).wf(),
        d.after(received).rendered >= d.rendered,
        d.after(received).total == d.total,
        d.after(received).capacity == d.capacity,
        d.finished ==> d.after(received) == d,
        d.after(received).finished <==> d.finished || !received,
{
}

/// Every result that arrives is drawn, however many there are: a display
/// that has not finished draws each of `n` results in turn, has not
/// finished after them, has counted them all as far as the machine can
/// count, and finishes when the channel is then found closed.
pub proof fn lemma_every_result_drawn(d: DisplayView, n: nat)
    requires
        d.wf(),
        !d.finished,
    ensures
        forall|k: nat| k < n ==> (#[trigger] d.after_results(k)).step(true) == DisplayStep::Render,
        !d.after_results(n).finished,
        d.after_results(n).wf(),
        d.after_results(n).rendered == if d.rendered + n <= usize::MAX {
            d.rendered + n
        } else {
            usize::MAX as nat
        },
        d.after_results(n).step(false) == DisplayStep::Finish,
    decreases n,
{
    if n > 0 {
        lemma_every_result_drawn(d.after(true), (n - 1) as nat);
        assert forall|k: nat| k < n implies (#[trigger] d.after_results(k)).step(true)
            == DisplayStep::Render by {
            if k > 0 {
                assert(d.after_results(k) == d.after(true).after_results((k - 1) as nat));
            }
        }
    }
}

} // verus!
