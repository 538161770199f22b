//! One run, from the worker pool to the last record: which step follows
//! which, and how each failure ends the run.

use crate::app_config::{Cli, OutputFormat};
use crate::dicom_file_reader::DicomFileData;
use crate::display_strategy::DisplayError;
use crate::jobs::{JobError, JobsType};
use std::io;
use std::path::PathBuf;
use vstd::prelude::*;

verus! {

/// Why the output could not be had.
#[derive(Debug)]
pub enum OutputError {
    /// The result file could not be opened.
    OpenFile(io::Error),
}

/// Why a run ended early.
#[derive(Debug)]
pub enum AppError {
    /// The root path could not be checked.
    Job(JobError),
    /// A header or a record could not be rendered or written.
    Other(DisplayError),
    /// The output could not be had.
    OutputError(OutputError),
    /// The worker pool could not be built.
    ThreadPoolBuild(rayon::ThreadPoolBuildError),
}

/// Where the records go.
#[derive(Debug)]
pub enum PipeOutput {
    /// Into the file at the path, made anew.
    File(PathBuf),
    /// To the standard output.
    Stdout,
}

/// The place of the output: the result file where one was named, the
/// standard output otherwise.
pub fn get_pipe_output(file_path: Option<PathBuf>) -> (pipe: PipeOutput)
    ensures
        pipe == match file_path {
            Some(path) => PipeOutput::File(path),
            None => PipeOutput::Stdout,
        },
{
    match file_path {
        Some(path) => PipeOutput::File(path),
        None => PipeOutput::Stdout,
    }
}

/// How far a run has come: what it waits for.
#[derive(Debug)]
pub enum Stage {
    /// Nothing was done yet.
    Idle,
    /// The worker pool is being built.
    Pool,
    /// The root path is being checked.
    Root,
    /// The output is being opened. The job of the root path waits: it is
    /// submitted once the output is open, and not before.
    Sink(JobsType),
    /// The first job is being submitted.
    Submit,
    /// The header is being written.
    Header,
    /// The next record is awaited.
    Receive,
    /// A record is being written.
    Element,
    /// The run has ended.
    Done,
}

/// What happened outside, told to the run.
#[derive(Debug)]
pub enum Event {
    /// The run is to begin.
    Start,
    /// The worker pool was built, or could not be.
    PoolBuilt(Result<(), rayon::ThreadPoolBuildError>),
    /// The root path was checked and gave its job, or could not be checked.
    Checked(Result<JobsType, JobError>),
    /// The output was opened, or could not be.
    Opened(Result<(), io::Error>),
    /// The first job was submitted.
    Started,
    /// The header or the record was rendered and written, or could not be.
    Displayed(Result<(), DisplayError>),
    /// The result stream gave a record, or, closed, gave none.
    Received(Option<DicomFileData>),
}

/// What the run asks to be done outside.
#[derive(Debug)]
pub enum Action {
    /// Build a pool of so many workers.
    BuildPool(usize),
    /// Check the path, and submit nothing yet.
    CheckRoot(PathBuf),
    /// Open the output.
    OpenOutput(PipeOutput),
    /// Submit the job as the first of the scan.
    StartJob(JobsType),
    /// Render the header in the format and write it.
    DisplayHeaders(OutputFormat),
    /// Take the next record from the result stream.
    Receive,
    /// Render the record and write it.
    DisplayElement(DicomFileData),
    /// End the run with this result.
    Exit(Result<(), AppError>),
}

impl Stage {
    /// Whether the stage waits for the event.
    pub open spec fn awaits(self, event: Event) -> bool {
        match self {
            Stage::Idle => event is Start,
            Stage::Pool => event is PoolBuilt,
            Stage::Root => event is Checked,
            Stage::Sink(_) => event is Opened,
            Stage::Submit => event is Started,
            Stage::Header => event is Displayed,
            Stage::Receive => event is Received,
            Stage::Element => event is Displayed,
            Stage::Done => false,
        }
    }

    /// Whether the stage waits for the event.
    pub fn expects(&self, event: &Event) -> (awaited: bool)
        ensures
            awaited == self.awaits(*event),
    {
        match (self, event) {
            (Stage::Idle, Event::Start) => true,
            (Stage::Pool, Event::PoolBuilt(_)) => true,
            (Stage::Root, Event::Checked(_)) => true,
            (Stage::Sink(_), Event::Opened(_)) => true,
            (Stage::Submit, Event::Started) => true,
            (Stage::Header, Event::Displayed(_)) => true,
            (Stage::Receive, Event::Received(_)) => true,
            (Stage::Element, Event::Displayed(_)) => true,
            _ => false,
        }
    }
}

/// A run with its settings.
pub struct App {
    config: Cli,
}

impl App {
    /// The settings of the run.
    pub closed spec fn config(&self) -> Cli {
        self.config
    }

    pub fn new(config: Cli) -> (app: App)
        ensures
            app.config() == config,
    {
        App { config }
    }

    /// The stage that follows, and what is to be done, when `event` comes in
    /// a `stage` that waits for it. Of an event that the stage does not wait
    /// for nothing is said.
    ///
    /// The steps follow one another in a fixed order: the pool, the check of
    /// the root path, the output, the first job, the header, and then the
    /// records as they arrive, one at a time, until the stream is closed. So
    /// no job is submitted before the pool, the root path and the output are
    /// known to be good. A step that failed ends the run with its error and
    /// nothing further is asked.
    pub open spec fn step(&self, stage: Stage, event: Event) -> (Stage, Action) {
        match event {
            Event::Start => (Stage::Pool, Action::BuildPool(self.config().num_workers)),
            Event::PoolBuilt(Ok(())) => (Stage::Root, Action::CheckRoot(self.config().path)),
            Event::PoolBuilt(Err(e)) => (
                Stage::Done,
                Action::Exit(Err(AppError::ThreadPoolBuild(e))),
            ),
            Event::Checked(Ok(job)) => (
                Stage::Sink(job),
                Action::OpenOutput(
                    match self.config().result_filepath {
                        Some(path) => PipeOutput::File(path),
                        None => PipeOutput::Stdout,
                    },
                ),
            ),
            Event::Checked(Err(e)) => (Stage::Done, Action::Exit(Err(AppError::Job(e)))),
            Event::Opened(Ok(())) => match stage {
                Stage::Sink(job) => (Stage::Submit, Action::StartJob(job)),
                _ => arbitrary(),
            },
            Event::Opened(Err(e)) => (
                Stage::Done,
                Action::Exit(Err(AppError::OutputError(OutputError::OpenFile(e)))),
            ),
            Event::Started => (Stage::Header, Action::DisplayHeaders(self.config().output_format)),
            Event::Displayed(Ok(())) => (Stage::Receive, Action::Receive),
            Event::Displayed(Err(e)) => (Stage::Done, Action::Exit(Err(AppError::Other(e)))),
            Event::Received(Some(data)) => (Stage::Element, Action::DisplayElement(data)),
            Event::Received(None) => (Stage::Done, Action::Exit(Ok(()))),
        }
    }

    /// Takes one step of the run: tells the stage that follows and what is
    /// to be done, when `event` comes in `stage`.
    pub fn start_handle(&self, stage: Stage, event: Event) -> (next: (Stage, Action))
        requires
            stage.awaits(event),
        ensures
            next == self.step(stage, event),
    {
        match event {
            Event::Start => (Stage::Pool, Action::BuildPool(self.config.num_workers)),
            Event::PoolBuilt(Ok(())) => (Stage::Root, Action::CheckRoot(self.config.path.clone())),
            Event::PoolBuilt(Err(e)) => (
                Stage::Done,
                Action::Exit(Err(AppError::ThreadPoolBuild(e))),
            ),
            Event::Checked(Ok(job)) => {
                let file_path = match &self.config.result_filepath {
                    Some(path) => Some(path.clone()),
                    None => None,
                };
                (Stage::Sink(job), Action::OpenOutput(get_pipe_output(file_path)))
            },
            Event::Checked(Err(e)) => (Stage::Done, Action::Exit(Err(AppError::Job(e)))),
            Event::Opened(Ok(())) => match stage {
                Stage::Sink(job) => (Stage::Submit, Action::StartJob(job)),
                _ => unreached(),
            },
            Event::Opened(Err(e)) => (
                Stage::Done,
                Action::Exit(Err(AppError::OutputError(OutputError::OpenFile(e)))),
            ),
            Event::Started => (Stage::Header, Action::DisplayHeaders(self.config.output_format)),
            Event::Displayed(Ok(())) => (Stage::Receive, Action::Receive),
            Event::Displayed(Err(e)) => (Stage::Done, Action::Exit(Err(AppError::Other(e)))),
            Event::Received(Some(data)) => (Stage::Element, Action::DisplayElement(data)),
            Event::Received(None) => (Stage::Done, Action::Exit(Ok(()))),
        }
    }
}

/// What a run asks to be done, step by step, when it is in `stage` and is
/// told `events` one after another.
pub open spec fn actions_of(app: App, stage: Stage, events: Seq<Event>) -> Seq<Action>
    decreases events.len(),
{
    if events.len() == 0 {
        Seq::empty()
    } else {
        seq![app.step(stage, events[0]).1] + actions_of(
            app,
            app.step(stage, events[0]).0,
            events.drop_first(),
        )
    }
}

/// Whether each of `events` comes in a stage that waits for it, for a run
/// that is in `stage`.
pub open spec fn in_order(app: App, stage: Stage, events: Seq<Event>) -> bool
    decreases events.len(),
{
    events.len() > 0 ==> stage.awaits(events[0]) && in_order(
        app,
        app.step(stage, events[0]).0,
        events.drop_first(),
    )
}

/// How many of the actions ask for the header.
pub open spec fn headers_among(actions: Seq<Action>) -> nat
    decreases actions.len(),
{
    if actions.len() == 0 {
        0
    } else if actions[0] is DisplayHeaders {
        1 + headers_among(actions.drop_first())
    } else {
        headers_among(actions.drop_first())
    }
}

/// How many of the actions ask for a job to be submitted.
pub open spec fn jobs_among(actions: Seq<Action>) -> nat
    decreases actions.len(),
{
    if actions.len() == 0 {
        0
    } else if actions[0] is StartJob {
        1 + jobs_among(actions.drop_first())
    } else {
        jobs_among(actions.drop_first())
    }
}

/// How many headers a run has asked for when it is in `stage`.
pub open spec fn headers_by(stage: Stage) -> nat {
    match stage {
        Stage::Header | Stage::Receive | Stage::Element => 1,
        _ => 0,
    }
}

/// How many jobs a run has asked to be submitted when it is in `stage`.
pub open spec fn jobs_by(stage: Stage) -> nat {
    match stage {
        Stage::Submit | Stage::Header | Stage::Receive | Stage::Element => 1,
        _ => 0,
    }
}

/// Whether the action ends the run because the pool could not be built, the
/// root path not be checked or the output not be opened.
pub open spec fn ends_before_scan(action: Action) -> bool {
    action matches Action::Exit(Err(err)) && !(err is Other)
}

/// Whether the action is asked of a run whose scan has begun: the header, a
/// record, the next record, a good end, or an end because something could
/// not be rendered or written.
pub open spec fn follows_scan(action: Action) -> bool {
    ||| action is DisplayHeaders
    ||| action is DisplayElement
    ||| action is Receive
    ||| action == Action::Exit(Ok(()))
    ||| action matches Action::Exit(Err(err)) && err is Other
}

/// What holds of the action at place `at`, given the number of headers
/// asked for before it: a header is asked for after none, a record and a
/// good end after exactly one, an end for want of the pool, of the root
/// path or of the output after none, and an end is the last action.
pub open spec fn header_rule(actions: Seq<Action>, at: int, headers_before: nat) -> bool {
    &&& actions[at] is DisplayHeaders ==> headers_before == 0
    &&& actions[at] is DisplayElement ==> headers_before == 1
    &&& actions[at] == Action::Exit(Ok(())) ==> headers_before == 1
    &&& ends_before_scan(actions[at]) ==> headers_before == 0
    &&& actions[at] is Exit ==> at == actions.len() - 1
}

/// What holds of the action at place `at`, given the number of jobs asked
/// to be submitted before it: the output is opened, and the first job
/// submitted, after none; the run ends for want of the pool, of the root
/// path or of the output after none; and whatever follows the scan's
/// beginning comes after exactly one.
pub open spec fn job_rule(actions: Seq<Action>, at: int, jobs_before: nat) -> bool {
    &&& actions[at] is OpenOutput ==> jobs_before == 0
    &&& actions[at] is StartJob ==> jobs_before == 0
    &&& ends_before_scan(actions[at]) ==> jobs_before == 0
    &&& follows_scan(actions[at]) ==> jobs_before == 1
}

/// Where the job that is submitted comes from, and how a failure to open
/// the output ends the run, for a run that was in `stage` before `events`:
/// the job is the one that the check of the root path gave, one event
/// before; the failure ends the run with the error of the output.
pub open spec fn output_rule(stage: Stage, events: Seq<Event>, actions: Seq<Action>, at: int) -> bool {
    &&& actions[at] matches Action::StartJob(job) ==> if at == 0 {
        stage == Stage::Sink(job)
    } else {
        events[at - 1] == Event::Checked(Ok(job))
    }
    &&& events[at] matches Event::Opened(Err(e)) ==> actions[at] == Action::Exit(
        Err(AppError::OutputError(OutputError::OpenFile(e))),
    )
}

/// A run asks for one thing at each event.
proof fn lemma_actions_len(app: App, stage: Stage, events: Seq<Event>)
    ensures
        actions_of(app, stage, events).len() == events.len(),
    decreases events.len(),
{
    if events.len() > 0 {
        lemma_actions_len(app, app.step(stage, events[0]).0, events.drop_first());
    }
}

/// The rules of the header, of the first job and of the output, for a run
/// in any stage.
proof fn lemma_rules(app: App, stage: Stage, events: Seq<Event>, at: int)
    requires
        in_order(app, stage, events),
        0 <= at < events.len(),
    ensures
        actions_of(app, stage, events).len() == events.len(),
        header_rule(
            actions_of(app, stage, events),
            at,
            headers_by(stage) + headers_among(actions_of(app, stage, events).take(at)),
        ),
        job_rule(
            actions_of(app, stage, events),
            at,
            jobs_by(stage) + jobs_among(actions_of(app, stage, events).take(at)),
        ),
        output_rule(stage, events, actions_of(app, stage, events), at),
    decreases events.len(),
{
    let actions = actions_of(app, stage, events);
    let next = app.step(stage, events[0]).0;
    let later = events.drop_first();
    let rest = actions_of(app, next, later);
    lemma_actions_len(app, next, later);
    assert(actions == seq![app.step(stage, events[0]).1] + rest);
    assert(in_order(app, next, later));
    if at == 0 {
        assert(actions.take(0) == Seq::<Action>::empty());
    } else {
        assert(next.awaits(later[0]));
        lemma_rules(app, next, later, at - 1);
        assert(actions.take(at).drop_first() == rest.take(at - 1));
        assert(actions[at] == rest[at - 1]);
        assert(later[at - 1] == events[at]);
        if at > 1 {
            assert(later[at - 2] == events[at - 1]);
        }
    }
}

/// The header is asked for once, before any record, and also when no record
/// comes.
///
/// Take a run from its beginning through any events that come in order.
/// Where it asks for the header, it has not asked for it before. Where it
/// asks for a record to be written, and where it ends well, it has asked for
/// the header exactly once before. Where it ends because the pool could not
/// be built, the root path not be checked or the output not be opened, it
/// has asked for no header. Where it ends, well or not, it asks for nothing
/// more.
pub proof fn law_header_once_before_records(app: App, events: Seq<Event>, at: int)
    requires
        in_order(app, Stage::Idle, events),
        0 <= at < events.len(),
    ensures
        actions_of(app, Stage::Idle, events).len() == events.len(),
        header_rule(
            actions_of(app, Stage::Idle, events),
            at,
            headers_among(actions_of(app, Stage::Idle, events).take(at)),
        ),
{
    lemma_rules(app, Stage::Idle, events, at);
}

/// No job is submitted before the output is open.
///
/// Take a run from its beginning through any events that come in order.
/// Where it asks for the output to be opened, and where it asks for the
/// first job to be submitted, it has asked for no job before; the job is
/// the one that the check of the root path gave, and it is asked for when
/// the output was opened, one event after the check. Where the output
/// cannot be opened the run ends with the error of the output; where it
/// ends so, or because the pool could not be built or the root path not be
/// checked, it has asked for no job. The header, the records and a good end
/// come after exactly one job was asked for.
pub proof fn law_no_job_before_output(app: App, events: Seq<Event>, at: int)
    requires
        in_order(app, Stage::Idle, events),
        0 <= at < events.len(),
    ensures
        job_rule(
            actions_of(app, Stage::Idle, events),
            at,
            jobs_among(actions_of(app, Stage::Idle, events).take(at)),
        ),
        actions_of(app, Stage::Idle, events)[at] matches Action::StartJob(job) ==> at >= 2
            && events[at - 1] == Event::Checked(Ok(job)) && events[at] == Event::Opened(Ok(())),
        events[at] matches Event::Opened(Err(e)) ==> actions_of(app, Stage::Idle, events)[at]
            == Action::Exit(Err(AppError::OutputError(OutputError::OpenFile(e)))),
{
    lemma_rules(app, Stage::Idle, events, at);
    let then = lemma_stage_at(app, Stage::Idle, events, at);
    assert(Stage::Idle.awaits(events[0]));
    if actions_of(app, Stage::Idle, events)[at] is StartJob {
        assert(then is Sink);
        assert(events[at] is Opened);
        assert(events[at]->Opened_0 is Ok);
        assert(events[at]->Opened_0->Ok_0 == ());
        assert(events[at] == Event::Opened(Ok(())));
    }
}

/// The stage that a run is in when the event at place `at` comes: it waits
/// for that event, and the action at that place is the step that the event
/// asks for in it.
proof fn lemma_stage_at(app: App, stage: Stage, events: Seq<Event>, at: int) -> (then: Stage)
    requires
        in_order(app, stage, events),
        0 <= at < events.len(),
    ensures
        then.awaits(events[at]),
        app.step(then, events[at]).1 == actions_of(app, stage, events)[at],
    decreases events.len(),
{
    let actions = actions_of(app, stage, events);
    let next = app.step(stage, events[0]).0;
    let later = events.drop_first();
    let rest = actions_of(app, next, later);
    lemma_actions_len(app, next, later);
    assert(actions == seq![app.step(stage, events[0]).1] + rest);
    assert(in_order(app, next, later));
    if at == 0 {
        stage
    } else {
        let then = lemma_stage_at(app, next, later, at - 1);
        assert(actions[at] == rest[at - 1]);
        assert(later[at - 1] == events[at]);
        then
    }
}

/// Where the records go changes nothing but the place that is opened.
///
/// Two runs whose settings differ at most in the result file take the same
/// steps, but for the place named when the output is to be opened: what is
/// rendered, and in which order, is the same for a file as for the standard
/// output.
pub proof fn law_place_changes_no_step(first: App, second: App, stage: Stage, event: Event)
    requires
        first.config().path == second.config().path,
        first.config().num_workers == second.config().num_workers,
        first.config().output_format == second.config().output_format,
    ensures
        first.step(stage, event).0 == second.step(stage, event).0,
        first.step(stage, event).1 is OpenOutput <==> second.step(stage, event).1 is OpenOutput,
        !(first.step(stage, event).1 is OpenOutput) ==> first.step(stage, event).1 == second.step(
            stage,
            event,
        ).1,
{
}

} // verus!
