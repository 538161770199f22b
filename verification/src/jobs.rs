//! The jobs of a scan: what each kind of path becomes, what running it
//! decides, and the count by which the end of the scan is known.

use crate::dicom_file_reader::{explains, handle_file, is_record, record_of};
use crate::dicom_file_reader::{DicomError, DicomFileData, File, Record};
use dicom::object::ReadError;
use std::io;
use std::path::PathBuf;
use vstd::prelude::*;

verus! {

/// Why a job gave nothing.
#[derive(Debug)]
pub enum JobError {
    /// The directory could not be listed.
    Dir(PathBuf, io::Error),
    /// The path is neither a directory nor a regular file.
    UndefinedPath(PathBuf),
    /// A query on the file system failed.
    IO(io::Error),
    /// The worker pool could not be built.
    RayonBuild(rayon::ThreadPoolBuildError),
    /// The file gave no record.
    Dicom(Box<DicomError>),
}

impl From<io::Error> for JobError {
    fn from(err: io::Error) -> (job_error: JobError) {
        JobError::IO(err)
    }
}

impl vstd::std_specs::convert::FromSpecImpl<io::Error> for JobError {
    open spec fn obeys_from_spec() -> bool {
        true
    }

    open spec fn from_spec(err: io::Error) -> JobError {
        JobError::IO(err)
    }
}

/// A unit of work of the scan, by the kind of its path.
#[derive(Debug)]
pub enum JobsType {
    Dir(DirJob),
    File(FileJob),
    UndefinedPath(UndefinedPathJob),
}

/// Listing a directory and submitting a job for each entry.
#[derive(Debug)]
pub struct DirJob(pub PathBuf);

/// Reading one regular file for its record.
#[derive(Debug)]
pub struct FileJob(pub PathBuf);

/// Reporting a path that is neither a directory nor a regular file.
#[derive(Debug)]
pub struct UndefinedPathJob(pub PathBuf);

/// What the file system's metadata say of a path.
#[derive(Copy, Clone, Debug)]
pub struct PathFacts {
    pub is_dir: bool,
    pub is_file: bool,
    pub is_symlink: bool,
}

/// Why a metadata query failed, as far as the classification depends on it.
#[derive(Copy, Clone, PartialEq, Eq, Debug, Structural)]
pub enum QueryFailure {
    /// Nothing is at the path.
    NotFound,
    /// The query was refused for want of permission.
    PermissionDenied,
    /// Any other failure.
    Other,
}

/// A metadata query that failed: the kind of its failure, and the error
/// that the file system gave.
#[derive(Debug)]
pub struct QueryError {
    pub failure: QueryFailure,
    pub cause: io::Error,
}

/// What a path turned out to be.
#[derive(Debug)]
pub enum PathCheck {
    /// The path's job.
    Job(JobsType),
    /// The path is a symbolic link: its canonical target is to be checked in
    /// its place.
    Link(PathBuf),
}

/// The job of a path whose metadata are known, or the link to follow.
pub open spec fn classified(path: PathBuf, facts: PathFacts, resolved: bool) -> PathCheck {
    if facts.is_dir {
        PathCheck::Job(JobsType::Dir(DirJob(path)))
    } else if facts.is_file {
        PathCheck::Job(JobsType::File(FileJob(path)))
    } else if facts.is_symlink && !resolved {
        PathCheck::Link(path)
    } else {
        PathCheck::Job(JobsType::UndefinedPath(UndefinedPathJob(path)))
    }
}

/// What checking a path gives, by what the metadata query on it gave: the
/// classification of a path whose metadata are known; the error of the
/// query where nothing is at the path; and, where the query failed for
/// another reason, the job that reports the path.
pub open spec fn checked(path: PathBuf, metadata: Result<PathFacts, QueryError>, resolved: bool)
    -> Result<PathCheck, JobError> {
    match metadata {
        Ok(facts) => Ok(classified(path, facts, resolved)),
        Err(failed) => match failed.failure {
            QueryFailure::NotFound => Err(JobError::IO(failed.cause)),
            _ => Ok(PathCheck::Job(JobsType::UndefinedPath(UndefinedPathJob(path)))),
        },
    }
}

/// Classifies a path by what the metadata query on it gave.
///
/// A directory gives a directory job, a regular file a file job, in that
/// order of precedence. A symbolic link is handed back for its canonical
/// target to be checked in its place, with `resolved` set; a path that is
/// still a link then, like any other path, gives a job that reports it. So
/// one level of links is followed and no more.
///
/// A query that failed because nothing is at the path is an error: a scan
/// of a root that does not exist does not begin. A query that failed for
/// another reason, such as want of permission, gives a job that reports the
/// path, and stops nothing.
pub fn check_path(path: PathBuf, metadata: Result<PathFacts, QueryError>, resolved: bool) -> (check:
    Result<PathCheck, JobError>)
    ensures
        check == checked(path, metadata, resolved),
{
    let facts = match metadata {
        Ok(facts) => facts,
        Err(failed) => {
            return match failed.failure {
                QueryFailure::NotFound => Err(JobError::IO(failed.cause)),
                _ => Ok(PathCheck::Job(JobsType::UndefinedPath(UndefinedPathJob(path)))),
            };
        },
    };
    if facts.is_dir {
        Ok(PathCheck::Job(JobsType::Dir(DirJob(path))))
    } else if facts.is_file {
        Ok(PathCheck::Job(JobsType::File(FileJob(path))))
    } else if facts.is_symlink && !resolved {
        Ok(PathCheck::Link(path))
    } else {
        Ok(PathCheck::Job(JobsType::UndefinedPath(UndefinedPathJob(path))))
    }
}

/// Where a link leads.
#[derive(Debug)]
pub enum LinkCheck {
    /// To this path, which is to be checked in the link's place.
    Target(PathBuf),
    /// Nowhere: the job reports the link.
    Job(JobsType),
}

/// Decides what follows a symbolic link, by what resolving it gave: its
/// canonical target is checked in its place; a link that cannot be
/// resolved, a broken one for instance, gives a job that reports the link.
pub fn follow_link(link: PathBuf, resolution: Result<PathBuf, io::Error>) -> (next: LinkCheck)
    ensures
        next == match resolution {
            Ok(target) => LinkCheck::Target(target),
            Err(_) => LinkCheck::Job(JobsType::UndefinedPath(UndefinedPathJob(link))),
        },
{
    match resolution {
        Ok(target) => LinkCheck::Target(target),
        Err(_) => LinkCheck::Job(JobsType::UndefinedPath(UndefinedPathJob(link))),
    }
}

/// One entry of a listed directory: its path, and what checking the path
/// gave.
#[derive(Debug)]
pub struct Entry {
    pub path: PathBuf,
    pub job: Result<JobsType, JobError>,
}

/// The job that an entry is run as: its own, or, where checking its path
/// failed, one that reports the path.
pub open spec fn entry_job(entry: Entry) -> JobsType {
    match entry.job {
        Ok(job) => job,
        Err(_) => JobsType::UndefinedPath(UndefinedPathJob(entry.path)),
    }
}

/// The jobs that the entries of a listing are run as, in the listing's order.
pub open spec fn entry_jobs(entries: Seq<Entry>) -> Seq<JobsType> {
    entries.map_values(|entry: Entry| entry_job(entry))
}

impl DirJob {
    /// Makes the list of jobs for the entries of the directory.
    ///
    /// A listing that failed gives the directory's error, with its path and
    /// the cause. Else every entry gives one job, in the listing's order: an
    /// entry whose path could not be checked gives a job that reports the
    /// path, and keeps no other entry from its job.
    pub fn scan_jobs(self, listing: Result<Vec<Entry>, io::Error>) -> (jobs: Result<
        Vec<JobsType>,
        JobError,
    >)
        ensures
            match listing {
                Ok(entries) => jobs matches Ok(found) && found@ == entry_jobs(entries@),
                Err(e) => jobs == Err::<Vec<JobsType>, JobError>(JobError::Dir(self.0, e)),
            },
    {
        let entries = match listing {
            Ok(entries) => entries,
            Err(e) => {
                return Err(JobError::Dir(self.0, e));
            },
        };
        let ghost listed = entries@;
        let mut jobs: Vec<JobsType> = Vec::new();
        for entry in it: entries
            invariant
                it.seq() == listed,
                jobs@ == entry_jobs(listed.take(it.index() as int)),
        {
            proof {
                let done = listed.take(it.index() as int);
                assert(listed.take(it.index() + 1) == done.push(entry));
                assert(entry_jobs(done.push(entry)) == entry_jobs(done).push(entry_job(entry)));
            }
            let job = match entry.job {
                Ok(job) => job,
                Err(_) => JobsType::UndefinedPath(UndefinedPathJob(entry.path)),
            };
            jobs.push(job);
        }
        proof {
            assert(listed.take(listed.len() as int) == listed);
        }
        Ok(jobs)
    }
}

/// The count of the jobs that were submitted and have not finished, by
/// which the end of the scan is known, and whether the result stream was
/// released.
#[derive(Debug)]
pub struct JobCtx {
    outstanding: usize,
    closed: bool,
}

impl JobCtx {
    /// How many jobs were submitted and have not finished.
    pub closed spec fn outstanding(&self) -> nat {
        self.outstanding as nat
    }

    /// Whether the result stream was released.
    pub closed spec fn is_closed(&self) -> bool {
        self.closed
    }

    /// Whether `more` jobs can be submitted: the stream is not released and
    /// the count stays within the machine's range.
    pub open spec fn accepts(&self, more: nat) -> bool {
        !self.is_closed() && self.outstanding() + more <= usize::MAX
    }

    /// The context of a scan that has not begun: no job, and the stream held.
    pub fn new() -> (ctx: JobCtx)
        ensures
            ctx.outstanding() == 0,
            !ctx.is_closed(),
    {
        JobCtx { outstanding: 0, closed: false }
    }

    /// How many jobs were submitted and have not finished.
    pub fn jobs_outstanding(&self) -> (count: usize)
        ensures
            count == self.outstanding(),
    {
        self.outstanding
    }

    /// Whether the result stream was released.
    pub fn closed(&self) -> (closed: bool)
        ensures
            closed == self.is_closed(),
    {
        self.closed
    }

    /// Whether `more` jobs can be submitted.
    pub fn can_accept(&self, more: usize) -> (accepted: bool)
        ensures
            accepted == self.accepts(more as nat),
    {
        !self.closed && more <= usize::MAX - self.outstanding
    }

    /// Counts one more submitted job; the caller then hands the job to the
    /// pool.
    pub fn run_job_parralel(&mut self, job: &JobsType)
        requires
            old(self).accepts(1),
        ensures
            final(self).outstanding() == old(self).outstanding() + 1,
            !final(self).is_closed(),
    {
        self.outstanding = self.outstanding + 1;
    }

    /// Counts one job as finished, and releases the stream when it was the
    /// last one outstanding. Returns whether it released the stream.
    fn finish(&mut self) -> (released: bool)
        requires
            old(self).outstanding() >= 1,
            !old(self).is_closed(),
        ensures
            final(self).outstanding() == old(self).outstanding() - 1,
            final(self).is_closed() == (final(self).outstanding() == 0),
            released == final(self).is_closed(),
    {
        self.outstanding = self.outstanding - 1;
        self.closed = self.outstanding == 0;
        self.closed
    }
}

impl DirJob {
    /// Runs the job on what listing the directory gave: makes the jobs of
    /// the entries and counts each as submitted. A listing that failed
    /// submits nothing.
    pub fn do_job(self, listing: Result<Vec<Entry>, io::Error>, ctx: &mut JobCtx) -> (jobs: Result<
        Vec<JobsType>,
        JobError,
    >)
        requires
            listing matches Ok(entries) ==> old(ctx).accepts(entries@.len()),
        ensures
            match listing {
                Ok(entries) => {
                    &&& jobs matches Ok(found)
                    &&& found@ == entry_jobs(entries@)
                    &&& final(ctx).outstanding() == old(ctx).outstanding() + entries@.len()
                    &&& final(ctx).is_closed() == old(ctx).is_closed()
                },
                Err(e) => {
                    &&& jobs == Err::<Vec<JobsType>, JobError>(JobError::Dir(self.0, e))
                    &&& *final(ctx) == *old(ctx)
                },
            },
    {
        let jobs = self.scan_jobs(listing)?;
        let mut i: usize = 0;
        while i < jobs.len()
            invariant
                i <= jobs.len(),
                !ctx.is_closed(),
                ctx.outstanding() == old(ctx).outstanding() + i,
                old(ctx).outstanding() + jobs.len() <= usize::MAX,
            decreases jobs.len() - i,
        {
            ctx.run_job_parralel(&jobs[i]);
            i = i + 1;
        }
        Ok(jobs)
    }
}

impl FileJob {
    /// Runs the job on what opening the file gave: the file's record, to be
    /// sent on the result stream, or the reason why there is none.
    pub fn do_job(self, opened: Result<File, ReadError>) -> (data: Result<DicomFileData, JobError>)
        ensures
            data is Ok <==> is_record(opened),
            data matches Ok(d) ==> d@ == record_of(self.0, opened),
            data matches Err(err) ==> (err matches JobError::Dicom(cause) && explains(
                *cause,
                self.0,
                opened,
            )),
    {
        match handle_file(self.0, opened) {
            Ok(data) => Ok(data),
            Err(err) => Err(JobError::Dicom(Box::new(err))),
        }
    }
}

impl UndefinedPathJob {
    /// Runs the job: reports the path, which no job can handle.
    pub fn do_job(self) -> (done: Result<(), JobError>)
        ensures
            done == Err::<(), JobError>(JobError::UndefinedPath(self.0)),
    {
        Err(JobError::UndefinedPath(self.0))
    }
}

/// A job together with what the file system answered when it was run.
#[derive(Debug)]
pub enum JobRun {
    /// A directory, and its listing or why it could not be listed.
    Dir(DirJob, Result<Vec<Entry>, io::Error>),
    /// A regular file, and the file opened or why it could not be read.
    File(FileJob, Result<File, ReadError>),
    /// A path of another kind, of which nothing was asked.
    UndefinedPath(UndefinedPathJob),
}

impl JobRun {
    /// The job that was run.
    pub open spec fn job(self) -> JobsType {
        match self {
            JobRun::Dir(job, _) => JobsType::Dir(job),
            JobRun::File(job, _) => JobsType::File(job),
            JobRun::UndefinedPath(job) => JobsType::UndefinedPath(job),
        }
    }

    /// The path of the job that was run.
    pub open spec fn job_path(self) -> PathBuf {
        match self {
            JobRun::Dir(job, _) => job.0,
            JobRun::File(job, _) => job.0,
            JobRun::UndefinedPath(job) => job.0,
        }
    }

    /// The path of the job that was run.
    pub fn path(&self) -> (path: PathBuf)
        ensures
            path == self.job_path(),
    {
        match self {
            JobRun::Dir(job, _) => job.0.clone(),
            JobRun::File(job, _) => job.0.clone(),
            JobRun::UndefinedPath(job) => job.0.clone(),
        }
    }

    /// How many jobs the run submits.
    pub fn submits(&self) -> (count: usize)
        ensures
            count == self.spawned().len(),
    {
        match self {
            JobRun::Dir(_, Ok(entries)) => entries.len(),
            _ => 0,
        }
    }

    /// The jobs that the run submits: those of the entries of a directory
    /// that was listed, and none otherwise.
    pub open spec fn spawned(self) -> Seq<JobsType> {
        match self {
            JobRun::Dir(_, Ok(entries)) => entry_jobs(entries@),
            _ => Seq::empty(),
        }
    }

    /// The record that the run sends: that of a regular file that gave one,
    /// and none otherwise.
    pub open spec fn sent(self) -> Option<Record> {
        match self {
            JobRun::File(job, opened) => if is_record(opened) {
                Some(record_of(job.0, opened))
            } else {
                None
            },
            _ => None,
        }
    }

    /// Whether the run ends in an error: a directory that could not be
    /// listed, a regular file that gave no record, a path of another kind.
    pub open spec fn fails(self) -> bool {
        match self {
            JobRun::Dir(_, listing) => listing is Err,
            JobRun::File(_, opened) => !is_record(opened),
            JobRun::UndefinedPath(_) => true,
        }
    }

    /// Whether `err` is the error that the run ends in.
    pub open spec fn fails_with(self, err: JobError) -> bool {
        match self {
            JobRun::Dir(job, Err(e)) => err == JobError::Dir(job.0, e),
            JobRun::Dir(_, Ok(_)) => false,
            JobRun::File(job, opened) => !is_record(opened) && (err matches JobError::Dicom(cause)
                && explains(*cause, job.0, opened)),
            JobRun::UndefinedPath(job) => err == JobError::UndefinedPath(job.0),
        }
    }
}

/// What a job that ran without error gave.
#[derive(Debug)]
pub struct JobYield {
    /// The jobs to hand to the pool, each already counted as submitted.
    pub spawned: Vec<JobsType>,
    /// The record to send on the result stream.
    pub sent: Option<DicomFileData>,
}

/// The record that an optional piece of data holds.
pub open spec fn sent_record(sent: Option<DicomFileData>) -> Option<Record> {
    match sent {
        Some(data) => Some(data@),
        None => None,
    }
}

/// Runs a job, by its kind, on what the file system answered.
///
/// A run that does not fail gives the jobs that it submits, counted in
/// `ctx`, and the record that it sends. One that fails gives its error and
/// leaves `ctx` as it was.
pub fn do_job_result(run: JobRun, ctx: &mut JobCtx) -> (done: Result<JobYield, JobError>)
    requires
        old(ctx).accepts(run.spawned().len()),
    ensures
        done is Err <==> run.fails(),
        done matches Err(err) ==> run.fails_with(err) && *final(ctx) == *old(ctx),
        done matches Ok(given) ==> {
            &&& given.spawned@ == run.spawned()
            &&& sent_record(given.sent) == run.sent()
            &&& final(ctx).outstanding() == old(ctx).outstanding() + run.spawned().len()
            &&& !final(ctx).is_closed()
        },
{
    match run {
        JobRun::Dir(dir_job, listing) => {
            let spawned = dir_job.do_job(listing, ctx)?;
            Ok(JobYield { spawned, sent: None })
        },
        JobRun::File(file_job, opened) => {
            let data = file_job.do_job(opened)?;
            Ok(JobYield { spawned: Vec::new(), sent: Some(data) })
        },
        JobRun::UndefinedPath(job) => {
            job.do_job()?;
            Ok(JobYield { spawned: Vec::new(), sent: None })
        },
    }
}

/// The count of outstanding jobs after one of them has run: the jobs that it
/// submitted are added, and the job itself is taken off.
pub open spec fn count_after(outstanding: int, run: JobRun) -> int {
    outstanding - 1 + run.spawned().len()
}

/// What finishing one job asks of the caller.
#[derive(Debug)]
pub struct JobReport {
    /// The path of the job that ran: the path that its error, if it has one,
    /// is reported with.
    pub path: PathBuf,
    /// The jobs to hand to the pool, each already counted as submitted.
    pub spawned: Vec<JobsType>,
    /// The record to send on the result stream.
    pub sent: Option<DicomFileData>,
    /// The error to report; it stops no other job.
    pub error: Option<JobError>,
    /// Whether this was the last job outstanding, so that the result stream
    /// is to be released.
    pub closed: bool,
}

/// Runs a job on what the file system answered, and counts it as finished.
///
/// The job's error, if it has one, is handed back with the job's path, to be
/// reported, and stops nothing. The jobs that it submits are counted before
/// it is counted as finished, so the stream is released by the job that
/// leaves none outstanding, and by no other.
pub fn do_job(run: JobRun, ctx: &mut JobCtx) -> (report: JobReport)
    requires
        old(ctx).outstanding() >= 1,
        old(ctx).accepts(run.spawned().len()),
    ensures
        report.path == run.job_path(),
        report.spawned@ == run.spawned(),
        sent_record(report.sent) == run.sent(),
        report.error is Some <==> run.fails(),
        report.error matches Some(err) ==> run.fails_with(err),
        final(ctx).outstanding() == count_after(old(ctx).outstanding() as int, run),
        final(ctx).is_closed() == (final(ctx).outstanding() == 0),
        report.closed == final(ctx).is_closed(),
{
    let path = run.path();
    let done = do_job_result(run, ctx);
    let closed = ctx.finish();
    match done {
        Ok(given) => JobReport {
            path,
            spawned: given.spawned,
            sent: given.sent,
            error: None,
            closed,
        },
        Err(err) => JobReport { path, spawned: Vec::new(), sent: None, error: Some(err), closed },
    }
}

/// Submits the first job of a scan, the job that checking the root path
/// gave: counts it as submitted and hands it back for the pool.
pub fn start_job(first_job: JobsType, ctx: &mut JobCtx) -> (first: JobsType)
    requires
        old(ctx).accepts(1),
    ensures
        first == first_job,
        final(ctx).outstanding() == old(ctx).outstanding() + 1,
        !final(ctx).is_closed(),
{
    ctx.run_job_parralel(&first_job);
    first_job
}

} // verus!
