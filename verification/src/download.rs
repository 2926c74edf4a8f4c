//! Planning the download of a selection: which file to fetch and which
//! directory to list next, where each goes below the destination, and which
//! failures to report at the end.
//!
//! The plan makes no request and writes no file. Each step takes the outcome
//! of the work it asked for last and says what to do next. A failure is
//! recorded under the name of the row it belongs to and changes nothing
//! else: the rows still waiting are all worked on.

use vstd::prelude::*;
use vstd::string::*;
use crate::item::{entries_of, RepoItem, TreeEntry};
use crate::text::views_of;

verus! {

/// A row to materialize and where, as a mathematical value.
pub ghost struct JobView {
    pub entry: TreeEntry,
    pub dest: Seq<Seq<char>>,
}

/// A row to materialize, and the names that lead from the destination root
/// to it.
#[derive(Debug)]
pub struct Job {
    pub item: RepoItem,
    pub dest: Vec<String>,
}

impl View for Job {
    type V = JobView;

    open spec fn view(&self) -> JobView {
        JobView { entry: self.item@, dest: views_of(self.dest@) }
    }
}

/// The views of a list of jobs.
pub open spec fn jobs_of(v: Seq<Job>) -> Seq<JobView> {
    Seq::new(v.len(), |i: int| v[i]@)
}

/// What the driver is asked to do, as a mathematical value.
pub ghost enum ActionView {
    Fetch { url: Seq<char>, dest: Seq<Seq<char>>, message: Seq<char> },
    Scan { api_url: Seq<char>, dest: Seq<Seq<char>>, message: Seq<char> },
    Finished,
}

/// What the driver is asked to do. `message` is the progress line to show
/// before the work begins; `dest` leads from the destination root to the
/// file or directory.
#[derive(Debug)]
pub enum DownloadAction {
    /// Fetch the bytes at `url` and write them to `dest`, making the
    /// directories above it.
    Fetch { url: String, dest: Vec<String>, message: String },
    /// Make the directory `dest` and fetch the listing at `api_url`.
    Scan { api_url: String, dest: Vec<String>, message: String },
    /// Nothing is left to do.
    Finished,
}

impl View for DownloadAction {
    type V = ActionView;

    open spec fn view(&self) -> ActionView {
        match self {
            DownloadAction::Fetch { url, dest, message } => ActionView::Fetch {
                url: url@,
                dest: views_of(dest@),
                message: message@,
            },
            DownloadAction::Scan { api_url, dest, message } => ActionView::Scan {
                api_url: api_url@,
                dest: views_of(dest@),
                message: message@,
            },
            DownloadAction::Finished => ActionView::Finished,
        }
    }
}

/// How the work asked for last ended, as a mathematical value.
pub ghost enum OutcomeView {
    Done,
    Failed(Seq<char>),
    Listed(Seq<TreeEntry>),
}

/// How the work asked for last ended.
#[derive(Debug)]
pub enum Outcome {
    /// The file was written, or there was no work to report on.
    Done,
    /// The work failed, for the reason given.
    Failed(String),
    /// The directory was made and these are its rows.
    Listed(Vec<RepoItem>),
}

impl View for Outcome {
    type V = OutcomeView;

    open spec fn view(&self) -> OutcomeView {
        match self {
            Outcome::Done => OutcomeView::Done,
            Outcome::Failed(reason) => OutcomeView::Failed(reason@),
            Outcome::Listed(rows) => OutcomeView::Listed(entries_of(rows@)),
        }
    }
}

/// The state of a download, as a mathematical value.
pub ghost struct PlanView {
    pub pending: Seq<JobView>,
    pub errors: Seq<Seq<char>>,
    pub current: Option<JobView>,
}

/// The state of a download: the rows still to work on, first one first; the
/// failures so far; and the row that the last action was about.
#[derive(Debug)]
pub struct DownloadPlan {
    pub pending: Vec<Job>,
    pub errors: Vec<String>,
    pub current: Option<Job>,
}

impl View for DownloadPlan {
    type V = PlanView;

    open spec fn view(&self) -> PlanView {
        PlanView {
            pending: jobs_of(self.pending@),
            errors: views_of(self.errors@),
            current: match self.current {
                Some(job) => Some(job@),
                None => None,
            },
        }
    }
}

/// The jobs of a selection: one for each selected row, in listing order,
/// each directly below the destination root.
pub open spec fn selected_jobs(entries: Seq<TreeEntry>) -> Seq<JobView>
    decreases entries.len(),
{
    if entries.len() == 0 {
        Seq::empty()
    } else if entries.last().selected {
        selected_jobs(entries.drop_last()).push(
            JobView { entry: entries.last(), dest: seq![entries.last().name] },
        )
    } else {
        selected_jobs(entries.drop_last())
    }
}

/// The jobs of a directory's rows: one for each, selected or not, below the
/// directory's own place.
pub open spec fn child_jobs(children: Seq<TreeEntry>, dest: Seq<Seq<char>>) -> Seq<JobView> {
    Seq::new(
        children.len(),
        |i: int| JobView { entry: children[i], dest: dest.push(children[i].name) },
    )
}

/// The line that reports a failure.
pub open spec fn failure_text(name: Seq<char>, reason: Seq<char>) -> Seq<char> {
    "Failed to download "@ + name + ": "@ + reason
}

/// The progress line of a file.
pub open spec fn fetch_message(e: TreeEntry) -> Seq<char> {
    if e.lfs_oid is Some {
        "Downloading [LFS]: "@ + e.name
    } else {
        "Downloading: "@ + e.name
    }
}

/// The progress line of a directory.
pub open spec fn scan_message(e: TreeEntry) -> Seq<char> {
    "Scanning folder: "@ + e.name
}

/// The plan after the outcome of its current job is taken in: a failure
/// adds one line to the errors, a listing puts the directory's rows before
/// all that is pending, and in every case no job is current any more.
pub open spec fn settled(p: PlanView, o: OutcomeView) -> PlanView {
    match p.current {
        None => p,
        Some(job) => match o {
            OutcomeView::Done => PlanView { current: None, ..p },
            OutcomeView::Failed(reason) => PlanView {
                errors: p.errors.push(failure_text(job.entry.name, reason)),
                current: None,
                ..p
            },
            OutcomeView::Listed(children) => if job.entry.is_file() {
                PlanView { current: None, ..p }
            } else {
                PlanView {
                    pending: child_jobs(children, job.dest) + p.pending,
                    current: None,
                    ..p
                }
            },
        },
    }
}

/// The plan moved on to its next job, and the action for it. A file without
/// any download address is reported and passed over.
pub open spec fn advanced(p: PlanView) -> (PlanView, ActionView)
    decreases p.pending.len(),
{
    if p.pending.len() == 0 {
        (PlanView { current: None, ..p }, ActionView::Finished)
    } else {
        let job = p.pending[0];
        let rest = p.pending.skip(1);
        if job.entry.is_file() {
            match job.entry.effective_url() {
                Some(url) => (
                    PlanView { pending: rest, current: Some(job), ..p },
                    ActionView::Fetch { url, dest: job.dest, message: fetch_message(job.entry) },
                ),
                None => advanced(
                    PlanView {
                        pending: rest,
                        errors: p.errors.push(
                            failure_text(job.entry.name, "No download URL for file"@),
                        ),
                        current: None,
                    },
                ),
            }
        } else {
            (
                PlanView { pending: rest, current: Some(job), ..p },
                ActionView::Scan {
                    api_url: job.entry.url,
                    dest: job.dest,
                    message: scan_message(job.entry),
                },
            )
        }
    }
}

/// A failure changes nothing but the list of errors, which gains one line
/// that names the row: every row that was pending still is.
pub proof fn lemma_failure_is_isolated(p: PlanView, reason: Seq<char>)
    requires
        p.current is Some,
    ensures
        settled(p, OutcomeView::Failed(reason)).pending == p.pending,
        settled(p, OutcomeView::Failed(reason)).errors == p.errors.push(
            failure_text(p.current->0.entry.name, reason),
        ),
{
}

/// Moving on drops rows from the front of the pending ones only, keeps
/// every error recorded before, and records exactly one error for each row
/// that it passes over.
pub proof fn lemma_advance_accounts(p: PlanView)
    ensures
        ({
            let (q, action) = advanced(p);
            let taken = p.pending.len() - q.pending.len();
            &&& 0 <= taken
            &&& q.pending == p.pending.skip(taken)
            &&& p.errors.len() <= q.errors.len()
            &&& q.errors.take(p.errors.len() as int) == p.errors
            &&& if action is Finished {
                q.pending.len() == 0 && q.current is None && q.errors.len() - p.errors.len()
                    == taken
            } else {
                taken >= 1 && q.current == Some(p.pending[taken - 1]) && q.errors.len()
                    - p.errors.len() == taken - 1
            }
        }),
    decreases p.pending.len(),
{
    if p.pending.len() == 0 {
        assert(p.pending.skip(0) =~= p.pending);
        assert(p.errors.take(p.errors.len() as int) =~= p.errors);
    } else {
        let job = p.pending[0];
        let rest = p.pending.skip(1);
        if job.entry.is_file() && job.entry.effective_url() is None {
            let next = PlanView {
                pending: rest,
                errors: p.errors.push(failure_text(job.entry.name, "No download URL for file"@)),
                current: None,
            };
            lemma_advance_accounts(next);
            let (q, action) = advanced(next);
            let taken = rest.len() - q.pending.len();
            assert(rest.skip(taken) =~= p.pending.skip(taken + 1));
            assert(q.errors.take(p.errors.len() as int) =~= q.errors.take(
                next.errors.len() as int,
            ).take(p.errors.len() as int));
            assert(next.errors.take(p.errors.len() as int) =~= p.errors);
            if taken >= 1 {
                assert(rest[taken - 1] == p.pending[taken]);
            }
        } else {
            assert(p.errors.take(p.errors.len() as int) =~= p.errors);
        }
    }
}

/// The plan at the end of a run in which every fetch succeeds and no
/// directory holds a row.
pub open spec fn run_quiet(p: PlanView) -> PlanView
    decreases p.pending.len(),
    via run_quiet_decreases
{
    let (q, action) = advanced(p);
    if action is Finished {
        q
    } else {
        run_quiet(settled(q, OutcomeView::Done))
    }
}

#[via_fn]
proof fn run_quiet_decreases(p: PlanView) {
    lemma_advance_accounts(p);
}

/// The lines that report the files among `jobs` that have no download
/// address, one for each, in order.
pub open spec fn missing_lines(jobs: Seq<JobView>) -> Seq<Seq<char>>
    decreases jobs.len(),
{
    if jobs.len() == 0 {
        Seq::empty()
    } else if jobs[0].entry.is_file() && jobs[0].entry.effective_url() is None {
        seq![failure_text(jobs[0].entry.name, "No download URL for file"@)] + missing_lines(
            jobs.skip(1),
        )
    } else {
        missing_lines(jobs.skip(1))
    }
}

/// Where nothing else fails, a run ends with nothing pending and reports
/// exactly the files that have no download address, each once and by name,
/// after the errors it began with. No such file keeps another row from
/// being worked on.
pub proof fn lemma_missing_addresses_are_isolated(p: PlanView)
    ensures
        run_quiet(p).pending.len() == 0,
        run_quiet(p).errors == p.errors + missing_lines(p.pending),
    decreases p.pending.len(),
{
    lemma_advance_accounts(p);
    if p.pending.len() == 0 {
        assert(p.errors + missing_lines(p.pending) =~= p.errors);
    } else {
        let job = p.pending[0];
        let rest = p.pending.skip(1);
        if job.entry.is_file() && job.entry.effective_url() is None {
            let line = failure_text(job.entry.name, "No download URL for file"@);
            let next = PlanView { pending: rest, errors: p.errors.push(line), current: None };
            lemma_missing_addresses_are_isolated(next);
            assert(p.errors.push(line) + missing_lines(rest) =~= p.errors + (seq![line]
                + missing_lines(rest)));
        } else {
            let (q, action) = advanced(p);
            let next = settled(q, OutcomeView::Done);
            lemma_missing_addresses_are_isolated(next);
        }
    }
}

/// A copy of a list of strings.
pub fn copy_strings(v: &Vec<String>) -> (r: Vec<String>)
    ensures
        views_of(r@) == views_of(v@),
{
    let mut out: Vec<String> = Vec::new();
    let mut i: usize = 0;
    while i < v.len()
        invariant
            i <= v@.len(),
            views_of(out@) == views_of(v@).take(i as int),
        decreases v@.len() - i,
    {
        let ghost before = views_of(out@);
        out.push(v[i].clone());
        proof {
            assert(views_of(out@) =~= before.push(v@[i as int]@));
            assert(views_of(out@) =~= views_of(v@).take(i + 1));
        }
        i += 1;
    }
    proof {
        assert(views_of(v@).take(v@.len() as int) =~= views_of(v@));
    }
    out
}

/// The line that reports the failure of the row `name`.
pub fn failure_line(name: &str, reason: &str) -> (r: String)
    ensures
        r@ == failure_text(name@, reason@),
{
    let mut out = "Failed to download ".to_owned();
    out.append(name);
    out.append(": ");
    out.append(reason);
    out
}

impl DownloadPlan {
    /// The plan for a selection: the rows marked as selected, in order.
    pub fn new(items: &Vec<RepoItem>) -> (r: DownloadPlan)
        ensures
            r@ == (PlanView {
                pending: selected_jobs(entries_of(items@)),
                errors: Seq::empty(),
                current: None,
            }),
    {
        let mut pending: Vec<Job> = Vec::new();
        let ghost all = entries_of(items@);
        let mut i: usize = 0;
        while i < items.len()
            invariant
                i <= items@.len(),
                all == entries_of(items@),
                jobs_of(pending@) == selected_jobs(all.take(i as int)),
            decreases items@.len() - i,
        {
            proof {
                assert(all.take(i + 1).drop_last() =~= all.take(i as int));
                assert(all.take(i + 1).last() == items@[i as int]@);
            }
            if items[i].selected {
                let item = items[i].clone();
                let mut dest: Vec<String> = Vec::new();
                dest.push(item.name.clone());
                let ghost before = jobs_of(pending@);
                proof {
                    assert(views_of(dest@) =~= seq![items@[i as int]@.name]);
                }
                pending.push(Job { item, dest });
                proof {
                    assert(jobs_of(pending@) =~= before.push(pending@.last()@));
                }
            }
            i += 1;
        }
        proof {
            assert(all.take(items@.len() as int) =~= all);
        }
        let r = DownloadPlan { pending, errors: Vec::new(), current: None };
        proof {
            assert(r@.errors =~= Seq::<Seq<char>>::empty());
        }
        r
    }

    /// Takes in the outcome of the current job.
    fn settle(&mut self, outcome: Outcome)
        ensures
            final(self)@ == settled(old(self)@, outcome@),
    {
        let job = match self.current.take() {
            Some(job) => job,
            None => {
                return ;
            },
        };
        match outcome {
            Outcome::Done => {},
            Outcome::Failed(reason) => {
                let line = failure_line(job.item.name.as_str(), reason.as_str());
                let ghost before = views_of(self.errors@);
                self.errors.push(line);
                proof {
                    assert(views_of(self.errors@) =~= before.push(line@));
                }
            },
            Outcome::Listed(children) => {
                if !job.item.is_file() {
                    let mut front: Vec<Job> = Vec::new();
                    let ghost rows = entries_of(children@);
                    let ghost wanted = child_jobs(rows, job@.dest);
                    let mut k: usize = 0;
                    while k < children.len()
                        invariant
                            k <= children@.len(),
                            rows == entries_of(children@),
                            wanted == child_jobs(rows, job@.dest),
                            jobs_of(front@) == wanted.take(k as int),
                        decreases children@.len() - k,
                    {
                        let item = children[k].clone();
                        let mut dest = copy_strings(&job.dest);
                        let ghost base = views_of(dest@);
                        dest.push(item.name.clone());
                        proof {
                            assert(views_of(dest@) =~= base.push(item.name@));
                        }
                        let ghost before = jobs_of(front@);
                        front.push(Job { item, dest });
                        proof {
                            assert(jobs_of(front@) =~= before.push(front@.last()@));
                            assert(jobs_of(front@) =~= wanted.take(k + 1));
                        }
                        k += 1;
                    }
                    let ghost old_pending = jobs_of(self.pending@);
                    front.append(&mut self.pending);
                    proof {
                        assert(wanted.take(children@.len() as int) =~= wanted);
                        assert(jobs_of(front@) =~= wanted + old_pending);
                    }
                    self.pending = front;
                }
            },
        }
    }

    /// Moves on to the next job.
    fn advance(&mut self) -> (action: DownloadAction)
        requires
            old(self).current is None,
        ensures
            (final(self)@, action@) == advanced(old(self)@),
    {
        let ghost goal = advanced(self@);
        loop
            invariant
                self.current is None,
                advanced(self@) == goal,
                goal == advanced(old(self)@),
            decreases self.pending@.len(),
        {
            if self.pending.len() == 0 {
                return DownloadAction::Finished;
            }
            let ghost before = self@;
            let job = self.pending.remove(0);
            proof {
                assert(jobs_of(self.pending@) =~= before.pending.skip(1));
                assert(job@ == before.pending[0]);
            }
            if job.item.is_file() {
                let found = match job.item.actual_download_url() {
                    Some(url) => Some(url.clone()),
                    None => None,
                };
                match found {
                    Some(url) => {
                        let mut message = if job.item.is_lfs() {
                            "Downloading [LFS]: ".to_owned()
                        } else {
                            "Downloading: ".to_owned()
                        };
                        message.append(job.item.name.as_str());
                        let dest = copy_strings(&job.dest);
                        self.current = Some(job);
                        return DownloadAction::Fetch { url, dest, message };
                    },
                    None => {
                        let line = failure_line(job.item.name.as_str(), "No download URL for file");
                        let ghost errors = views_of(self.errors@);
                        self.errors.push(line);
                        proof {
                            assert(views_of(self.errors@) =~= errors.push(line@));
                        }
                    },
                }
            } else {
                let mut message = "Scanning folder: ".to_owned();
                message.append(job.item.name.as_str());
                let dest = copy_strings(&job.dest);
                let api_url = job.item.url.clone();
                self.current = Some(job);
                return DownloadAction::Scan { api_url, dest, message };
            }
        }
    }

    /// Takes in the outcome of the work asked for last and says what to do
    /// next. The first step, before any work, takes any outcome.
    pub fn step(&mut self, outcome: Outcome) -> (action: DownloadAction)
        ensures
            (final(self)@, action@) == advanced(settled(old(self)@, outcome@)),
    {
        self.settle(outcome);
        self.advance()
    }

    /// The failures recorded so far, one line each.
    pub fn into_errors(self) -> (r: Vec<String>)
        ensures
            views_of(r@) == self@.errors,
    {
        self.errors
    }
}

} // verus!
