//! The print job queue: jobs, their status, and the user's controls over
//! them (cancel, retry, reprint).

use vstd::prelude::*;
use crate::models::{new_v4_id, now, Timestamp};
use crate::text::{clone_opt, opt_view};

verus! {

/// Where a print job stands.
#[derive(Clone, Copy, Debug, PartialEq, Eq, Structural)]
pub enum JobStatus {
    Pending,
    Printing,
    Complete,
    Error,
    NeedsAttention,
}

/// One image to print with one preset.
pub struct PrintJob {
    pub id: u128,
    pub filename: String,
    pub file_path: String,
    pub preset_id: Option<u128>,
    pub preset_name: Option<String>,
    pub status: JobStatus,
    pub error_message: Option<String>,
    pub created_at: Timestamp,
    pub completed_at: Option<Timestamp>,
}

/// The mathematical model of a [`PrintJob`].
pub struct PrintJobView {
    pub id: u128,
    pub filename: Seq<char>,
    pub file_path: Seq<char>,
    pub preset_id: Option<u128>,
    pub preset_name: Option<Seq<char>>,
    pub status: JobStatus,
    pub error_message: Option<Seq<char>>,
    pub created_at: Timestamp,
    pub completed_at: Option<Timestamp>,
}

impl View for PrintJob {
    type V = PrintJobView;

    open spec fn view(&self) -> PrintJobView {
        PrintJobView {
            id: self.id,
            filename: self.filename@,
            file_path: self.file_path@,
            preset_id: self.preset_id,
            preset_name: opt_view(self.preset_name),
            status: self.status,
            error_message: opt_view(self.error_message),
            created_at: self.created_at,
            completed_at: self.completed_at,
        }
    }
}

/// A job freshly queued for the given file and preset.
pub open spec fn is_new_job(
    j: PrintJobView,
    filename: Seq<char>,
    file_path: Seq<char>,
    preset_id: Option<u128>,
    preset_name: Option<Seq<char>>,
) -> bool {
    &&& j.filename == filename
    &&& j.file_path == file_path
    &&& j.preset_id == preset_id
    &&& j.preset_name == preset_name
    &&& j.status == JobStatus::Pending
    &&& j.error_message is None
    &&& j.completed_at is None
}

impl PrintJob {
    /// A pending job for the file and preset, with a fresh random id and the
    /// current time as its creation time (see [`PrintJob::new_at`]).
    pub fn new(
        filename: String,
        file_path: String,
        preset_id: Option<u128>,
        preset_name: Option<String>,
    ) -> (res: Self)
        ensures
            is_new_job(res@, filename@, file_path@, preset_id, opt_view(preset_name)),
            (res.id >> 76u128) & 0xfu128 == 4,
            (res.id >> 62u128) & 0x3u128 == 2,
    {
        PrintJob::new_at(new_v4_id(), now(), filename, file_path, preset_id, preset_name)
    }

    /// A pending job for the file and preset with the given id and creation time.
    pub fn new_at(
        id: u128,
        created_at: Timestamp,
        filename: String,
        file_path: String,
        preset_id: Option<u128>,
        preset_name: Option<String>,
    ) -> (res: Self)
        ensures
            is_new_job(res@, filename@, file_path@, preset_id, opt_view(preset_name)),
            res.id == id,
            res.created_at == created_at,
    {
        PrintJob {
            id,
            filename,
            file_path,
            preset_id,
            preset_name,
            status: JobStatus::Pending,
            error_message: None,
            created_at,
            completed_at: None,
        }
    }

    /// A copy of the job.
    pub fn duplicate(&self) -> (res: Self)
        ensures
            res@ == self@,
    {
        PrintJob {
            id: self.id,
            filename: self.filename.clone(),
            file_path: self.file_path.clone(),
            preset_id: self.preset_id,
            preset_name: clone_opt(&self.preset_name),
            status: self.status,
            error_message: clone_opt(&self.error_message),
            created_at: self.created_at,
            completed_at: self.completed_at,
        }
    }
}

/// The models of a list of jobs.
pub open spec fn jobs_view(v: Seq<PrintJob>) -> Seq<PrintJobView> {
    v.map_values(|j: PrintJob| j@)
}

/// `i` is the first position of a job with id `id`.
pub open spec fn is_first_job(v: Seq<PrintJobView>, id: u128, i: int) -> bool {
    0 <= i < v.len() && v[i].id == id && forall|k: int| 0 <= k < i ==> v[k].id != id
}

/// Some job of the queue has id `id`.
pub open spec fn has_job(v: Seq<PrintJobView>, id: u128) -> bool {
    exists|i: int| 0 <= i < v.len() && #[trigger] v[i].id == id
}

/// The first position of a job with id `id`.
pub open spec fn job_index(v: Seq<PrintJobView>, id: u128) -> int {
    choose|i: int| is_first_job(v, id, i)
}

/// Complete and Error are the statuses that end a job.
pub open spec fn is_terminal(s: JobStatus) -> bool {
    s == JobStatus::Complete || s == JobStatus::Error
}

/// The queue after the first job with `id` gets `status` and `error`; a
/// job that reaches Complete or Error gets `now` as its completion time.
pub open spec fn status_updated(
    v: Seq<PrintJobView>,
    id: u128,
    status: JobStatus,
    error: Option<Seq<char>>,
    now: Timestamp,
) -> Seq<PrintJobView> {
    if has_job(v, id) {
        let i = job_index(v, id);
        v.update(
            i,
            PrintJobView {
                status: status,
                error_message: error,
                completed_at: if is_terminal(status) {
                    Some(now)
                } else {
                    v[i].completed_at
                },
                ..v[i]
            },
        )
    } else {
        v
    }
}

/// The error text a cancelled job carries.
pub open spec fn cancelled_message() -> Seq<char> {
    "Cancelled by user"@
}

/// The queue after the first job with `id`, when it is pending, is
/// cancelled: it becomes an error with [`cancelled_message`].
pub open spec fn cancelled(v: Seq<PrintJobView>, id: u128) -> Seq<PrintJobView> {
    if has_job(v, id) && v[job_index(v, id)].status == JobStatus::Pending {
        let i = job_index(v, id);
        v.update(
            i,
            PrintJobView {
                status: JobStatus::Error,
                error_message: Some(cancelled_message()),
                ..v[i]
            },
        )
    } else {
        v
    }
}

/// The queue after the first job with `id`, when it failed, is retried: it
/// is pending again, with no error and no completion time.
pub open spec fn retried(v: Seq<PrintJobView>, id: u128) -> Seq<PrintJobView> {
    if has_job(v, id) && v[job_index(v, id)].status == JobStatus::Error {
        let i = job_index(v, id);
        v.update(
            i,
            PrintJobView {
                status: JobStatus::Pending,
                error_message: None,
                completed_at: None,
                ..v[i]
            },
        )
    } else {
        v
    }
}

/// The error text of a reprint of an unknown job.
pub open spec fn job_not_found() -> Seq<char> {
    "Job not found"@
}

proof fn lemma_first_job(v: Seq<PrintJobView>, id: u128, i: int)
    requires
        is_first_job(v, id, i),
    ensures
        job_index(v, id) == i,
        has_job(v, id),
{
    let j = job_index(v, id);
    assert(is_first_job(v, id, j));
    assert(v[i].id == id);
}

proof fn lemma_exists_first(v: Seq<PrintJobView>, id: u128, i: int)
    requires
        0 <= i < v.len(),
        v[i].id == id,
    ensures
        exists|j: int| is_first_job(v, id, j),
    decreases i,
{
    if exists|k: int| 0 <= k < i && v[k].id == id {
        let k = choose|k: int| 0 <= k < i && v[k].id == id;
        lemma_exists_first(v, id, k);
    } else {
        assert(is_first_job(v, id, i));
    }
}

/// A queue that holds a job with `id` has a first such job.
pub proof fn lemma_job_index(v: Seq<PrintJobView>, id: u128)
    requires
        has_job(v, id),
    ensures
        is_first_job(v, id, job_index(v, id)),
{
    let i = choose|i: int| 0 <= i < v.len() && #[trigger] v[i].id == id;
    lemma_exists_first(v, id, i);
}

/// The jobs, in the order they were queued.
pub struct JobQueueState {
    pub jobs: Vec<PrintJob>,
}

impl View for JobQueueState {
    type V = Seq<PrintJobView>;

    open spec fn view(&self) -> Seq<PrintJobView> {
        jobs_view(self.jobs@)
    }
}

impl JobQueueState {
    /// An empty queue.
    pub fn new() -> (res: Self)
        ensures
            res@.len() == 0,
    {
        JobQueueState { jobs: Vec::new() }
    }

    fn find(&self, id: u128) -> (res: Option<usize>)
        ensures
            res matches Some(i) ==> is_first_job(self@, id, i as int),
            res is None ==> !has_job(self@, id),
    {
        let mut i: usize = 0;
        while i < self.jobs.len()
            invariant
                i <= self.jobs.len(),
                forall|k: int| 0 <= k < i ==> self.jobs@[k].id != id,
            decreases self.jobs.len() - i,
        {
            if self.jobs[i].id == id {
                return Some(i);
            }
            i = i + 1;
        }
        assert forall|k: int| 0 <= k < self@.len() implies #[trigger] self@[k].id != id by {
            assert(self@[k] == self.jobs@[k]@);
        }
        None
    }

    /// Appends a job to the queue.
    pub fn add_job(&mut self, job: PrintJob)
        ensures
            final(self)@ == old(self)@.push(job@),
    {
        let ghost v = job@;
        self.jobs.push(job);
        assert(self@ =~= old(self)@.push(v));
    }

    /// Sets the status and error of the first job with `job_id`, stamping
    /// the given time when the job reaches Complete or Error.  An unknown id
    /// leaves the queue as it is.
    pub fn update_status_at(
        &mut self,
        job_id: u128,
        status: JobStatus,
        error: Option<String>,
        at: Timestamp,
    )
        ensures
            final(self)@ == status_updated(old(self)@, job_id, status, opt_view(error), at),
    {
        match self.find(job_id) {
            Some(i) => {
                proof {
                    lemma_first_job(self@, job_id, i as int);
                }
                let ghost before = self.jobs@;
                let mut job = self.jobs[i].duplicate();
                job.status = status;
                job.error_message = error;
                if status == JobStatus::Complete || status == JobStatus::Error {
                    job.completed_at = Some(at);
                }
                let ghost jv = job@;
                self.jobs.set(i, job);
                assert(self@ =~= jobs_view(before).update(i as int, jv));
            },
            None => {},
        }
    }

    /// Sets the status and error of the first job with `job_id`; a job that
    /// reaches Complete or Error is stamped with the current time.
    pub fn update_status(&mut self, job_id: u128, status: JobStatus, error: Option<String>)
        ensures
            exists|at: Timestamp|
                final(self)@ == #[trigger] status_updated(
                    old(self)@,
                    job_id,
                    status,
                    opt_view(error),
                    at,
                ),
    {
        let at = now();
        self.update_status_at(job_id, status, error, at);
    }

    /// Cancels the first job with `id` when it is still pending.
    pub fn cancel_job(&mut self, id: u128)
        ensures
            final(self)@ == cancelled(old(self)@, id),
    {
        match self.find(id) {
            Some(i) => {
                proof {
                    lemma_first_job(self@, id, i as int);
                }
                if self.jobs[i].status == JobStatus::Pending {
                    let ghost before = self.jobs@;
                    let mut job = self.jobs[i].duplicate();
                    job.status = JobStatus::Error;
                    job.error_message = Some(String::from_str("Cancelled by user"));
                    let ghost jv = job@;
                    self.jobs.set(i, job);
                    assert(self@ =~= jobs_view(before).update(i as int, jv));
                }
            },
            None => {},
        }
    }

    /// Retries the first job with `id` when it failed.
    pub fn retry_job(&mut self, id: u128)
        ensures
            final(self)@ == retried(old(self)@, id),
    {
        match self.find(id) {
            Some(i) => {
                proof {
                    lemma_first_job(self@, id, i as int);
                }
                if self.jobs[i].status == JobStatus::Error {
                    let ghost before = self.jobs@;
                    let mut job = self.jobs[i].duplicate();
                    job.status = JobStatus::Pending;
                    job.error_message = None;
                    job.completed_at = None;
                    let ghost jv = job@;
                    self.jobs.set(i, job);
                    assert(self@ =~= jobs_view(before).update(i as int, jv));
                }
            },
            None => {},
        }
    }

    /// Queues a new pending job for the same file and preset as the first
    /// job with `id`; an unknown id is an error and leaves the queue as it is.
    pub fn reprint_job(&mut self, id: u128) -> (res: Result<(), String>)
        ensures
            has_job(old(self)@, id) ==> res is Ok && final(self)@.len() == old(self)@.len() + 1
                && final(self)@.take(old(self)@.len() as int) == old(self)@ && ({
                let o = old(self)@[job_index(old(self)@, id)];
                is_new_job(
                    final(self)@.last(),
                    o.filename,
                    o.file_path,
                    o.preset_id,
                    o.preset_name,
                )
            }),
            !has_job(old(self)@, id) ==> (res matches Err(e) && e@ == job_not_found()
                && final(self)@ == old(self)@),
    {
        match self.find(id) {
            Some(i) => {
                proof {
                    lemma_first_job(self@, id, i as int);
                }
                let source_job = self.jobs[i].duplicate();
                let new_job = PrintJob::new(
                    source_job.filename,
                    source_job.file_path,
                    source_job.preset_id,
                    source_job.preset_name,
                );
                self.add_job(new_job);
                assert(self@.take(old(self)@.len() as int) =~= old(self)@);
                Ok(())
            },
            None => Err(String::from_str("Job not found")),
        }
    }
}

// ───────────────────────── laws ─────────────────────────

/// Cancelling a pending job and then retrying it gives back the queue it
/// started from, when the job carried no error and no completion time.
pub proof fn law_cancel_then_retry_restores(v: Seq<PrintJobView>, id: u128)
    requires
        has_job(v, id),
        v[job_index(v, id)].status == JobStatus::Pending,
        v[job_index(v, id)].error_message is None,
        v[job_index(v, id)].completed_at is None,
    ensures
        retried(cancelled(v, id), id) == v,
{
    lemma_job_index(v, id);
    let i = job_index(v, id);
    let c = cancelled(v, id);
    assert(is_first_job(c, id, i));
    lemma_first_job(c, id, i);
    assert(retried(c, id) =~= v);
}

/// Only a pending job can be cancelled: cancelling any other job, or an
/// unknown id, changes nothing.
pub proof fn law_cancel_only_pending(v: Seq<PrintJobView>, id: u128)
    requires
        !has_job(v, id) || v[job_index(v, id)].status != JobStatus::Pending,
    ensures
        cancelled(v, id) == v,
{
}

/// Only a failed job can be retried: retrying any other job, or an
/// unknown id, changes nothing.
pub proof fn law_retry_only_errors(v: Seq<PrintJobView>, id: u128)
    requires
        !has_job(v, id) || v[job_index(v, id)].status != JobStatus::Error,
    ensures
        retried(v, id) == v,
{
}

/// A status update touches one job only: the queue keeps its length and
/// every other job, and the target carries the new status and error; it is
/// stamped exactly when the new status ends the job.
pub proof fn law_update_status_touches_one_job(
    v: Seq<PrintJobView>,
    id: u128,
    status: JobStatus,
    error: Option<Seq<char>>,
    at: Timestamp,
)
    requires
        has_job(v, id),
    ensures
        status_updated(v, id, status, error, at).len() == v.len(),
        forall|k: int|
            0 <= k < v.len() && k != job_index(v, id) ==> #[trigger] status_updated(
                v,
                id,
                status,
                error,
                at,
            )[k] == v[k],
        status_updated(v, id, status, error, at)[job_index(v, id)].status == status,
        status_updated(v, id, status, error, at)[job_index(v, id)].error_message == error,
        is_terminal(status) ==> status_updated(v, id, status, error, at)[job_index(
            v,
            id,
        )].completed_at == Some(at),
        !is_terminal(status) ==> status_updated(v, id, status, error, at)[job_index(
            v,
            id,
        )].completed_at == v[job_index(v, id)].completed_at,
{
    lemma_job_index(v, id);
}

/// A cancelled job is an error with the cancellation message, and retrying
/// it makes it pending again.
pub proof fn law_cancelled_job_can_be_retried(v: Seq<PrintJobView>, id: u128)
    requires
        has_job(v, id),
        v[job_index(v, id)].status == JobStatus::Pending,
    ensures
        cancelled(v, id)[job_index(v, id)].status == JobStatus::Error,
        cancelled(v, id)[job_index(v, id)].error_message == Some(cancelled_message()),
        retried(cancelled(v, id), id)[job_index(v, id)].status == JobStatus::Pending,
        retried(cancelled(v, id), id)[job_index(v, id)].error_message is None,
{
    lemma_job_index(v, id);
    let i = job_index(v, id);
    let c = cancelled(v, id);
    assert(is_first_job(c, id, i));
    lemma_first_job(c, id, i);
}

} // verus!
