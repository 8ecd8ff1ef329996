//! The probe engine: a dense grid of numbered sheet locations, handed out to
//! a pool of workers one job at a time from a shared queue.
use vstd::prelude::*;

use crate::hierarchy::BASE_URL;
use crate::text::{decimal, push_decimal};

verus! {

/// Sheet numbers probed: `0..PROBE_SHEETS`.
pub const PROBE_SHEETS: u64 = 100;

/// Page numbers probed go up in steps of this size.
pub const PAGE_STEP: u64 = 100;

/// Page numbers probed per sheet number: `0, PAGE_STEP, ..` below 100000.
pub const PAGES_PER_SHEET: u64 = 1000;

/// The number of jobs of the grid.
pub const GRID_SIZE: u64 = PROBE_SHEETS * PAGES_PER_SHEET;

/// The directory that receives the bodies of the probes that hit.
pub const HITS_DIR: &'static str = "valid-paths";

/// One location to probe.
#[derive(Clone, Copy, Debug, PartialEq, Eq, Structural)]
pub struct ProbeJob {
    pub sheet_index: u64,
    pub page_index: u64,
}

/// The `i`-th job of the grid: sheet numbers in the outer order, page
/// numbers in the inner.
pub open spec fn grid_job(i: int) -> ProbeJob {
    ProbeJob {
        sheet_index: (i / PAGES_PER_SHEET as int) as u64,
        page_index: ((i % PAGES_PER_SHEET as int) * PAGE_STEP as int) as u64,
    }
}

/// `{base}/resources/sheets/{sheet}/{page}.png`.
pub open spec fn probe_url_of(job: ProbeJob) -> Seq<char> {
    BASE_URL@ + "/resources/sheets/"@ + decimal(job.sheet_index as nat) + "/"@ + decimal(job.page_index as nat)
        + ".png"@
}

/// `valid-paths/{sheet}-{page}`.
pub open spec fn hit_path_of(job: ProbeJob) -> Seq<char> {
    HITS_DIR@ + "/"@ + decimal(job.sheet_index as nat) + "-"@ + decimal(job.page_index as nat)
}

/// Every job of the grid, in grid order.
pub fn probe_grid() -> (r: Vec<ProbeJob>)
    ensures
        r@.len() == GRID_SIZE,
        forall|i: int| 0 <= i < GRID_SIZE ==> #[trigger] r@[i] == grid_job(i),
{
    let mut r: Vec<ProbeJob> = Vec::new();
    let mut i: u64 = 0;
    while i < GRID_SIZE
        invariant
            i <= GRID_SIZE,
            r@.len() == i,
            forall|j: int| 0 <= j < i ==> #[trigger] r@[j] == grid_job(j),
        decreases GRID_SIZE - i,
    {
        r.push(ProbeJob { sheet_index: i / PAGES_PER_SHEET, page_index: (i % PAGES_PER_SHEET) * PAGE_STEP });
        i = i + 1;
    }
    r
}

/// No two jobs of the grid are the same.
pub proof fn lemma_grid_distinct(i: int, j: int)
    requires
        0 <= i < GRID_SIZE,
        0 <= j < GRID_SIZE,
        i != j,
    ensures
        grid_job(i) != grid_job(j),
{
    assert(i == 1000 * (i / 1000) + i % 1000) by (nonlinear_arith);
    assert(j == 1000 * (j / 1000) + j % 1000) by (nonlinear_arith);
}

/// The URL that a job probes.
pub fn probe_url(job: ProbeJob) -> (r: String)
    ensures
        r@ == probe_url_of(job),
{
    let mut r = BASE_URL.to_string();
    r.append("/resources/sheets/");
    push_decimal(&mut r, job.sheet_index);
    r.append("/");
    push_decimal(&mut r, job.page_index);
    r.append(".png");
    r
}

/// Where the body of a probe is kept if the server answered `status`: only
/// a 200 is a hit; anything else is a miss and keeps nothing.
pub fn probe_outcome(job: ProbeJob, status: u16) -> (r: Option<String>)
    ensures
        status == 200 ==> (r matches Some(p) && p@ == hit_path_of(job)),
        status != 200 ==> r is None,
{
    if status == 200 {
        let mut r = HITS_DIR.to_string();
        r.append("/");
        push_decimal(&mut r, job.sheet_index);
        r.append("-");
        push_decimal(&mut r, job.page_index);
        Some(r)
    } else {
        None
    }
}

/// The jobs not yet claimed by any worker. Workers share one queue behind a
/// lock and take jobs from its end.
pub struct ProbeQueue {
    jobs: Vec<ProbeJob>,
}

impl View for ProbeQueue {
    type V = Seq<ProbeJob>;

    closed spec fn view(&self) -> Seq<ProbeJob> {
        self.jobs@
    }
}

impl ProbeQueue {
    pub fn new(jobs: Vec<ProbeJob>) -> (r: ProbeQueue)
        ensures
            r@ == jobs@,
    {
        ProbeQueue { jobs }
    }

    /// The whole grid, unclaimed.
    pub fn grid() -> (r: ProbeQueue)
        ensures
            r@.len() == GRID_SIZE,
            forall|i: int| 0 <= i < GRID_SIZE ==> #[trigger] r@[i] == grid_job(i),
    {
        ProbeQueue { jobs: probe_grid() }
    }

    pub fn len(&self) -> (r: usize)
        ensures
            r == self@.len(),
    {
        self.jobs.len()
    }

    /// Claims the last unclaimed job; none once the queue is empty.
    pub fn take(&mut self) -> (r: Option<ProbeJob>)
        ensures
            old(self)@.len() == 0 ==> r is None && final(self)@ == old(self)@,
            old(self)@.len() > 0 ==> r == Some(old(self)@.last()) && final(self)@ == old(self)@.drop_last(),
    {
        self.jobs.pop()
    }

    /// Claims every job, one `take` after another, until the queue is empty.
    pub fn drain(&mut self) -> (r: Vec<ProbeJob>)
        ensures
            r@ == old(self)@.reverse(),
            final(self)@.len() == 0,
    {
        let ghost start = self@;
        let mut r: Vec<ProbeJob> = Vec::new();
        while self.jobs.len() > 0
            invariant
                self@ == start.subrange(0, start.len() - r@.len()),
                r@.len() <= start.len(),
                forall|j: int| 0 <= j < r@.len() ==> #[trigger] r@[j] == start[start.len() - 1 - j],
            decreases self@.len(),
        {
            match self.take() {
                Some(job) => r.push(job),
                None => {},
            }
        }
        assert(r@ =~= start.reverse());
        r
    }
}

/// Claiming jobs until the queue is empty hands out every job exactly once:
/// the `j`-th claim is the job at position `n - 1 - j`, so the claims are the
/// queued jobs, each as often as it was queued; with no job queued twice, no
/// job is claimed twice.
pub proof fn lemma_each_job_claimed_once(jobs: Seq<ProbeJob>)
    ensures
        jobs.reverse().len() == jobs.len(),
        forall|j: int| 0 <= j < jobs.len() ==> #[trigger] jobs.reverse()[j] == jobs[jobs.len() - 1 - j],
        jobs.reverse().to_multiset() == jobs.to_multiset(),
        jobs.no_duplicates() ==> jobs.reverse().no_duplicates(),
{
    jobs.lemma_reverse_to_multiset();
    assert(jobs.reverse().to_multiset() =~= jobs.to_multiset());
}

} // verus!
