//! One image-enhancement job as a protocol between the library and its host.
//!
//! The library decides, the host acts. A job hands the host one action at a
//! time: a call into the engine, a file operation or a pause. The host
//! performs it and hands back what came of it as an event; the job answers
//! with the next action, until the action is to finish with an outcome.
//!
//! The scale factor of the task is not part of the protocol: the host holds
//! it and passes it to the engine together with the task.

use crate::catalog::{table_view, EngineSymbol, ModelCatalog, SymbolView};
use crate::resolver::{resolution, resolve, ResolveError};
use crate::text::{decimal_of, decimal_text};
use vstd::prelude::*;
use vstd::string::StringExecFns;

verus! {

/// The number of polls after which a job that has no result is given up.
pub const MAX_POLL_ATTEMPTS: u32 = 60;

/// The pause after a poll that found no result, in milliseconds.
pub const POLL_INTERVAL_MILLIS: u64 = 500;

/// The output slot of the engine that results are polled from.
pub const POLL_SLOT: i32 = 0;

/// The priority under which every task is added.
pub const TASK_PRIORITY: i32 = 1;

/// What a job is asked to do.
#[derive(Debug)]
pub struct JobRequest {
    /// The path of the image to enhance.
    pub input: String,
    /// The path that the enhanced image is delivered to.
    pub output: String,
    /// The model's name as the user typed it.
    pub model: String,
    /// The index of the GPU to run on.
    pub gpu_id: i32,
    /// Whether the user asked for the CPU.
    pub cpu: bool,
    /// The directory of the model weights that the user named.
    pub model_path: Option<String>,
    /// The directory of the model weights that the environment names.
    pub fallback_model_path: Option<String>,
}

/// A task as it is added to the engine.
#[derive(Debug)]
pub struct TaskRequest {
    pub image_bytes: Vec<u8>,
    pub model_id: i32,
    pub priority: i32,
}

/// What a poll of the engine brought: the output where there is one, its
/// format, the engine's number for the result and the elapsed time as text.
#[derive(Debug)]
pub struct PollPayload {
    pub output: Option<Vec<u8>>,
    pub format: String,
    pub result_id: i32,
    pub elapsed: String,
}

/// How a job ended.
#[derive(Debug)]
pub enum JobOutcome {
    /// The enhanced image is at the output path.
    Completed { elapsed: String },
    /// The engine refused the device configuration.
    InitializationFailed,
    /// The model name resolved to nothing.
    UnknownModel { name: String },
    /// There is no file at the input path.
    InputNotFound { path: String },
    /// The engine refused the task.
    SubmissionFailed { error: String },
    /// No result came within the allowed polls.
    Timeout,
    /// An action of the host raised an error.
    Failed { message: String },
}

/// What the host is to do next.
#[derive(Debug)]
pub enum Action {
    /// Engine: set the directory of the model weights.
    SetModelPath { path: String },
    /// Engine: initialize; answers with a code.
    Init,
    /// Engine: count the CPU cores; answers with the count.
    QueryCpuCores,
    /// Engine: configure for the CPU with this many cores; answers with a
    /// code.
    ConfigureCpu { cores: i32 },
    /// Engine: configure for this GPU; answers with a code.
    ConfigureGpu { gpu_id: i32 },
    /// Engine: enumerate the symbol table.
    EnumerateSymbols,
    /// Host: say whether a file is at the path.
    CheckInput { path: String },
    /// Host: read the file at the path.
    ReadInput { path: String },
    /// Engine: add the task; answers with a code.
    AddTask { task: TaskRequest },
    /// Engine: tell the last error.
    QueryLastError,
    /// Engine: poll the slot for a result.
    Poll { slot: i32 },
    /// Host: pause.
    Sleep { millis: u64 },
    /// Host: write the bytes to the path.
    WriteFile { path: String, bytes: Vec<u8> },
    /// Host: rename the file.
    Rename { from: String, to: String },
    /// Engine: stop.
    Stop,
    /// The job is over.
    Finish { outcome: JobOutcome },
}

/// What came of the action that the host performed.
#[derive(Debug)]
pub enum Event {
    /// The action was performed and brought nothing.
    Done,
    /// The engine answered with an integer.
    Code(i32),
    /// The engine answered with a text.
    Text(String),
    /// The engine's symbol table.
    Symbols(Vec<EngineSymbol>),
    /// Whether a file is at the input path.
    InputFound(bool),
    /// The bytes of the input file.
    InputBytes(Vec<u8>),
    /// What the poll brought, if anything.
    Polled(Option<PollPayload>),
    /// The action raised an error.
    Failed(String),
}

/// Why a job did not take a step.
#[derive(Clone, Copy, Debug, PartialEq, Eq, Structural)]
pub enum StepError {
    /// The job is over.
    Finished,
    /// The event does not answer the action that the job asked for.
    Unexpected,
}

/// What a job waits for.
enum Phase {
    Configuring,
    Initializing,
    CountingCores,
    SelectingDevice,
    Enumerating,
    CheckingInput { model_id: i32 },
    ReadingInput { model_id: i32 },
    Submitting,
    Diagnosing,
    Polling { attempts: u32 },
    Sleeping { attempts: u32 },
    Writing { temp: String, elapsed: String },
    Renaming { elapsed: String },
    Stopping { outcome: JobOutcome },
    Finished,
}

/// A job in progress.
pub struct Job {
    input: String,
    output: String,
    model: String,
    gpu_id: i32,
    cpu: bool,
    phase: Phase,
}

/// A request as plain values.
pub struct RequestView {
    pub input: Seq<char>,
    pub output: Seq<char>,
    pub model: Seq<char>,
    pub gpu_id: i32,
    pub cpu: bool,
    pub model_path: Option<Seq<char>>,
    pub fallback_model_path: Option<Seq<char>>,
}

/// A task as plain values.
pub struct TaskView {
    pub image_bytes: Seq<u8>,
    pub model_id: i32,
    pub priority: i32,
}

/// A poll's payload as plain values.
pub struct PayloadView {
    pub output: Option<Seq<u8>>,
    pub format: Seq<char>,
    pub result_id: i32,
    pub elapsed: Seq<char>,
}

/// An outcome as plain values.
pub enum OutcomeView {
    Completed { elapsed: Seq<char> },
    InitializationFailed,
    UnknownModel { name: Seq<char> },
    InputNotFound { path: Seq<char> },
    SubmissionFailed { error: Seq<char> },
    Timeout,
    Failed { message: Seq<char> },
}

/// An action as plain values.
pub enum ActionView {
    SetModelPath { path: Seq<char> },
    Init,
    QueryCpuCores,
    ConfigureCpu { cores: i32 },
    ConfigureGpu { gpu_id: i32 },
    EnumerateSymbols,
    CheckInput { path: Seq<char> },
    ReadInput { path: Seq<char> },
    AddTask { task: TaskView },
    QueryLastError,
    Poll { slot: i32 },
    Sleep { millis: u64 },
    WriteFile { path: Seq<char>, bytes: Seq<u8> },
    Rename { from: Seq<char>, to: Seq<char> },
    Stop,
    Finish { outcome: OutcomeView },
}

/// An event as plain values.
pub enum EventView {
    Done,
    Code(i32),
    Text(Seq<char>),
    Symbols(Seq<SymbolView>),
    InputFound(bool),
    InputBytes(Seq<u8>),
    Polled(Option<PayloadView>),
    Failed(Seq<char>),
}

/// What a job waits for, as plain values.
pub enum PhaseView {
    /// For the engine to take the directory of the model weights.
    Configuring,
    /// For the code of the engine's initialization.
    Initializing,
    /// For the number of CPU cores.
    CountingCores,
    /// For the code of the device configuration.
    SelectingDevice,
    /// For the engine's symbol table.
    Enumerating,
    /// For the word whether the input file is there.
    CheckingInput { model_id: i32 },
    /// For the bytes of the input file.
    ReadingInput { model_id: i32 },
    /// For the code of the added task.
    Submitting,
    /// For the engine's last error.
    Diagnosing,
    /// For a poll; `attempts` polls have found nothing so far.
    Polling { attempts: u32 },
    /// For the end of the pause after a poll that found nothing.
    Sleeping { attempts: u32 },
    /// For the result to be written to the temporary file.
    Writing { temp: Seq<char>, elapsed: Seq<char> },
    /// For the temporary file to be renamed to the output path.
    Renaming { elapsed: Seq<char> },
    /// For the engine to stop.
    Stopping { outcome: OutcomeView },
    /// For nothing: the job is over.
    Finished,
}

/// A job as plain values.
pub struct JobView {
    pub input: Seq<char>,
    pub output: Seq<char>,
    pub model: Seq<char>,
    pub gpu_id: i32,
    pub cpu: bool,
    pub phase: PhaseView,
}

impl View for JobRequest {
    type V = RequestView;

    open spec fn view(&self) -> RequestView {
        RequestView {
            input: self.input@,
            output: self.output@,
            model: self.model@,
            gpu_id: self.gpu_id,
            cpu: self.cpu,
            model_path: match self.model_path {
                Some(path) => Some(path@),
                None => None,
            },
            fallback_model_path: match self.fallback_model_path {
                Some(path) => Some(path@),
                None => None,
            },
        }
    }
}

impl View for TaskRequest {
    type V = TaskView;

    open spec fn view(&self) -> TaskView {
        TaskView {
            image_bytes: self.image_bytes@,
            model_id: self.model_id,
            priority: self.priority,
        }
    }
}

impl View for PollPayload {
    type V = PayloadView;

    open spec fn view(&self) -> PayloadView {
        PayloadView {
            output: match self.output {
                Some(bytes) => Some(bytes@),
                None => None,
            },
            format: self.format@,
            result_id: self.result_id,
            elapsed: self.elapsed@,
        }
    }
}

impl View for JobOutcome {
    type V = OutcomeView;

    open spec fn view(&self) -> OutcomeView {
        match self {
            JobOutcome::Completed { elapsed } => OutcomeView::Completed { elapsed: elapsed@ },
            JobOutcome::InitializationFailed => OutcomeView::InitializationFailed,
            JobOutcome::UnknownModel { name } => OutcomeView::UnknownModel { name: name@ },
            JobOutcome::InputNotFound { path } => OutcomeView::InputNotFound { path: path@ },
            JobOutcome::SubmissionFailed { error } => OutcomeView::SubmissionFailed {
                error: error@,
            },
            JobOutcome::Timeout => OutcomeView::Timeout,
            JobOutcome::Failed { message } => OutcomeView::Failed { message: message@ },
        }
    }
}

impl View for Action {
    type V = ActionView;

    open spec fn view(&self) -> ActionView {
        match self {
            Action::SetModelPath { path } => ActionView::SetModelPath { path: path@ },
            Action::Init => ActionView::Init,
            Action::QueryCpuCores => ActionView::QueryCpuCores,
            Action::ConfigureCpu { cores } => ActionView::ConfigureCpu { cores: *cores },
            Action::ConfigureGpu { gpu_id } => ActionView::ConfigureGpu { gpu_id: *gpu_id },
            Action::EnumerateSymbols => ActionView::EnumerateSymbols,
            Action::CheckInput { path } => ActionView::CheckInput { path: path@ },
            Action::ReadInput { path } => ActionView::ReadInput { path: path@ },
            Action::AddTask { task } => ActionView::AddTask { task: task@ },
            Action::QueryLastError => ActionView::QueryLastError,
            Action::Poll { slot } => ActionView::Poll { slot: *slot },
            Action::Sleep { millis } => ActionView::Sleep { millis: *millis },
            Action::WriteFile { path, bytes } => ActionView::WriteFile {
                path: path@,
                bytes: bytes@,
            },
            Action::Rename { from, to } => ActionView::Rename { from: from@, to: to@ },
            Action::Stop => ActionView::Stop,
            Action::Finish { outcome } => ActionView::Finish { outcome: outcome@ },
        }
    }
}

impl View for Event {
    type V = EventView;

    open spec fn view(&self) -> EventView {
        match self {
            Event::Done => EventView::Done,
            Event::Code(code) => EventView::Code(*code),
            Event::Text(text) => EventView::Text(text@),
            Event::Symbols(symbols) => EventView::Symbols(table_view(symbols@)),
            Event::InputFound(found) => EventView::InputFound(*found),
            Event::InputBytes(bytes) => EventView::InputBytes(bytes@),
            Event::Polled(payload) => EventView::Polled(
                match payload {
                    Some(p) => Some(p@),
                    None => None,
                },
            ),
            Event::Failed(message) => EventView::Failed(message@),
        }
    }
}

impl View for Phase {
    type V = PhaseView;

    closed spec fn view(&self) -> PhaseView {
        match self {
            Phase::Configuring => PhaseView::Configuring,
            Phase::Initializing => PhaseView::Initializing,
            Phase::CountingCores => PhaseView::CountingCores,
            Phase::SelectingDevice => PhaseView::SelectingDevice,
            Phase::Enumerating => PhaseView::Enumerating,
            Phase::CheckingInput { model_id } => PhaseView::CheckingInput { model_id: *model_id },
            Phase::ReadingInput { model_id } => PhaseView::ReadingInput { model_id: *model_id },
            Phase::Submitting => PhaseView::Submitting,
            Phase::Diagnosing => PhaseView::Diagnosing,
            Phase::Polling { attempts } => PhaseView::Polling { attempts: *attempts },
            Phase::Sleeping { attempts } => PhaseView::Sleeping { attempts: *attempts },
            Phase::Writing { temp, elapsed } => PhaseView::Writing {
                temp: temp@,
                elapsed: elapsed@,
            },
            Phase::Renaming { elapsed } => PhaseView::Renaming { elapsed: elapsed@ },
            Phase::Stopping { outcome } => PhaseView::Stopping { outcome: outcome@ },
            Phase::Finished => PhaseView::Finished,
        }
    }
}

impl View for Job {
    type V = JobView;

    closed spec fn view(&self) -> JobView {
        JobView {
            input: self.input@,
            output: self.output@,
            model: self.model@,
            gpu_id: self.gpu_id,
            cpu: self.cpu,
            phase: self.phase@,
        }
    }
}

/// The directory of the model weights to configure: the one that the user
/// named, else the one that the environment names, else none.
pub open spec fn effective_model_path(
    explicit: Option<Seq<char>>,
    fallback: Option<Seq<char>>,
) -> Option<Seq<char>> {
    if explicit is Some {
        explicit
    } else {
        fallback
    }
}

/// Whether the job runs on the CPU: the user asked for it, or the engine's
/// initialization failed, which it reports with a negative code.
pub open spec fn cpu_mode(cpu_requested: bool, init_code: i32) -> bool {
    cpu_requested || init_code < 0
}

/// Whether a poll brought a result: a payload that holds an output.
pub open spec fn is_ready(polled: Option<PayloadView>) -> bool {
    polled matches Some(payload) && payload.output is Some
}

/// The name of the temporary file of a result: the engine's number for the
/// result, a dot, and the format.
pub open spec fn temp_file_name(result_id: i32, format: Seq<char>) -> Seq<char> {
    decimal_text(result_id as int) + "."@ + format
}

/// The message of an outcome.
pub open spec fn outcome_message(outcome: OutcomeView) -> Seq<char> {
    match outcome {
        OutcomeView::Completed { elapsed } => elapsed,
        OutcomeView::InitializationFailed => "Initialization failed"@,
        OutcomeView::UnknownModel { name } => "Unknown model: "@ + name,
        OutcomeView::InputNotFound { path } => "Input file not found: "@ + path,
        OutcomeView::SubmissionFailed { error } => "Failed to add task: "@ + error,
        OutcomeView::Timeout => "Processing timeout"@,
        OutcomeView::Failed { message } => message,
    }
}

/// The job of a request before its first action.
pub open spec fn first_job(request: RequestView, phase: PhaseView) -> JobView {
    JobView {
        input: request.input,
        output: request.output,
        model: request.model,
        gpu_id: request.gpu_id,
        cpu: request.cpu,
        phase,
    }
}

/// How a job begins: with the directory of the model weights where there is
/// one to configure, else with the engine's initialization.
pub open spec fn begin(request: RequestView) -> (JobView, ActionView) {
    match effective_model_path(request.model_path, request.fallback_model_path) {
        Some(path) => (
            first_job(request, PhaseView::Configuring),
            ActionView::SetModelPath { path },
        ),
        None => (first_job(request, PhaseView::Initializing), ActionView::Init),
    }
}

/// The job in another phase.
pub open spec fn moved(job: JobView, phase: PhaseView) -> JobView {
    JobView { phase, ..job }
}

/// The job at its end.
pub open spec fn finished(job: JobView, outcome: OutcomeView) -> Option<(JobView, ActionView)> {
    Some((moved(job, PhaseView::Finished), ActionView::Finish { outcome }))
}

/// The job before its end: the engine is asked to stop, and the job ends with
/// the outcome when it has.
pub open spec fn stopping(job: JobView, outcome: OutcomeView) -> Option<(JobView, ActionView)> {
    Some((moved(job, PhaseView::Stopping { outcome }), ActionView::Stop))
}

/// The engine works on the task of the job: the task was added and the engine
/// has not been asked to stop.
pub open spec fn task_is_running(phase: PhaseView) -> bool {
    phase is Polling || phase is Sleeping || phase is Writing || phase is Renaming
}

/// What an error does to a job that is not over: while the engine works on
/// the task, the engine is asked to stop before the job ends with the error;
/// at every other time the job ends with it at once.
pub open spec fn failed(job: JobView, message: Seq<char>) -> Option<(JobView, ActionView)> {
    if task_is_running(job.phase) {
        stopping(job, OutcomeView::Failed { message })
    } else {
        finished(job, OutcomeView::Failed { message })
    }
}

/// The step that a job takes on an event: the job after the step and the next
/// action, or nothing where the event does not answer the action that the
/// job waits for. An error ends every job that is not over, after a stop of
/// the engine where the engine works on the task; nothing answers a job that
/// is over.
pub open spec fn advance(job: JobView, event: EventView) -> Option<(JobView, ActionView)> {
    match (job.phase, event) {
        (PhaseView::Finished, _) => None,
        (_, EventView::Failed(message)) => failed(job, message),
        (PhaseView::Configuring, EventView::Done) => Some(
            (moved(job, PhaseView::Initializing), ActionView::Init),
        ),
        (PhaseView::Initializing, EventView::Code(code)) => if cpu_mode(job.cpu, code) {
            Some((moved(job, PhaseView::CountingCores), ActionView::QueryCpuCores))
        } else {
            Some(
                (
                    moved(job, PhaseView::SelectingDevice),
                    ActionView::ConfigureGpu { gpu_id: job.gpu_id },
                ),
            )
        },
        (PhaseView::CountingCores, EventView::Code(cores)) => Some(
            (moved(job, PhaseView::SelectingDevice), ActionView::ConfigureCpu { cores }),
        ),
        (PhaseView::SelectingDevice, EventView::Code(code)) => if code < 0 {
            stopping(job, OutcomeView::InitializationFailed)
        } else {
            Some((moved(job, PhaseView::Enumerating), ActionView::EnumerateSymbols))
        },
        (PhaseView::Enumerating, EventView::Symbols(table)) => match resolution(
            job.model,
            table,
        ) {
            Some(found) => Some(
                (
                    moved(job, PhaseView::CheckingInput { model_id: found.id }),
                    ActionView::CheckInput { path: job.input },
                ),
            ),
            None => finished(job, OutcomeView::UnknownModel { name: job.model }),
        },
        (PhaseView::CheckingInput { model_id }, EventView::InputFound(found)) => if found {
            Some(
                (
                    moved(job, PhaseView::ReadingInput { model_id }),
                    ActionView::ReadInput { path: job.input },
                ),
            )
        } else {
            finished(job, OutcomeView::InputNotFound { path: job.input })
        },
        (PhaseView::ReadingInput { model_id }, EventView::InputBytes(bytes)) => Some(
            (
                moved(job, PhaseView::Submitting),
                ActionView::AddTask {
                    task: TaskView { image_bytes: bytes, model_id, priority: TASK_PRIORITY },
                },
            ),
        ),
        (PhaseView::Submitting, EventView::Code(code)) => if code <= 0 {
            Some((moved(job, PhaseView::Diagnosing), ActionView::QueryLastError))
        } else {
            Some(
                (
                    moved(job, PhaseView::Polling { attempts: 0 }),
                    ActionView::Poll { slot: POLL_SLOT },
                ),
            )
        },
        (PhaseView::Diagnosing, EventView::Text(error)) => finished(
            job,
            OutcomeView::SubmissionFailed { error },
        ),
        (PhaseView::Polling { attempts }, EventView::Polled(polled)) => if is_ready(polled) {
            let payload = polled->0;
            let temp = temp_file_name(payload.result_id, payload.format);
            Some(
                (
                    moved(job, PhaseView::Writing { temp, elapsed: payload.elapsed }),
                    ActionView::WriteFile { path: temp, bytes: payload.output->0 },
                ),
            )
        } else {
            Some(
                (
                    moved(job, PhaseView::Sleeping { attempts }),
                    ActionView::Sleep { millis: POLL_INTERVAL_MILLIS },
                ),
            )
        },
        (PhaseView::Sleeping { attempts }, EventView::Done) => if attempts + 1
            < MAX_POLL_ATTEMPTS {
            Some(
                (
                    moved(job, PhaseView::Polling { attempts: (attempts + 1) as u32 }),
                    ActionView::Poll { slot: POLL_SLOT },
                ),
            )
        } else {
            stopping(job, OutcomeView::Timeout)
        },
        (PhaseView::Writing { temp, elapsed }, EventView::Done) => Some(
            (
                moved(job, PhaseView::Renaming { elapsed }),
                ActionView::Rename { from: temp, to: job.output },
            ),
        ),
        (PhaseView::Renaming { elapsed }, EventView::Done) => stopping(
            job,
            OutcomeView::Completed { elapsed },
        ),
        (PhaseView::Stopping { outcome }, EventView::Done) => finished(job, outcome),
        _ => None,
    }
}

/// The event is of the kind that answers the action: an error answers every
/// action, the end of a job none.
pub open spec fn answers(action: ActionView, event: EventView) -> bool {
    match action {
        ActionView::Finish { .. } => false,
        _ => event is Failed || match action {
            ActionView::SetModelPath { .. } => event is Done,
            ActionView::Init => event is Code,
            ActionView::QueryCpuCores => event is Code,
            ActionView::ConfigureCpu { .. } => event is Code,
            ActionView::ConfigureGpu { .. } => event is Code,
            ActionView::EnumerateSymbols => event is Symbols,
            ActionView::CheckInput { .. } => event is InputFound,
            ActionView::ReadInput { .. } => event is InputBytes,
            ActionView::AddTask { .. } => event is Code,
            ActionView::QueryLastError => event is Text,
            ActionView::Poll { .. } => event is Polled,
            ActionView::Sleep { .. } => event is Done,
            ActionView::WriteFile { .. } => event is Done,
            ActionView::Rename { .. } => event is Done,
            ActionView::Stop => event is Done,
            ActionView::Finish { .. } => false,
        },
    }
}

/// The protocol keeps its word: the job accepts every event of the kind that
/// answers the action it asked for, and an action that ends the job is the
/// only one after which nothing is accepted.
pub proof fn lemma_answer_is_accepted(job: JobView, event: EventView, answer: EventView)
    requires
        advance(job, event) is Some,
    ensures
        ({
            let (next, action) = advance(job, event)->0;
            &&& answers(action, answer) <==> advance(next, answer) is Some
            &&& action is Finish <==> next.phase is Finished
        }),
{
}

/// The first action of a job is answered like every other.
pub proof fn lemma_first_answer_is_accepted(request: RequestView, answer: EventView)
    ensures
        ({
            let (job, action) = begin(request);
            &&& answers(action, answer) <==> advance(job, answer) is Some
            &&& !(job.phase is Finished)
        }),
{
}

/// The job after a number of polls that found nothing, each followed by its
/// pause; nothing where one of these steps is refused.
pub open spec fn after_idle_polls(job: JobView, rounds: nat) -> Option<JobView>
    decreases rounds,
{
    if rounds == 0 {
        Some(job)
    } else {
        match after_idle_polls(job, (rounds - 1) as nat) {
            Some(before) => match advance(before, EventView::Polled(None)) {
                Some((paused, _)) => match advance(paused, EventView::Done) {
                    Some((after, _)) => Some(after),
                    None => None,
                },
                None => None,
            },
            None => None,
        }
    }
}

/// A poll that finds nothing is followed by a pause of the fixed length, and
/// the pause by the next poll; but after the last allowed poll the pause is
/// followed by the request to stop the engine. A payload without an output
/// counts as nothing.
pub proof fn lemma_idle_poll(job: JobView, attempts: u32, polled: Option<PayloadView>)
    requires
        job.phase == (PhaseView::Polling { attempts }),
        !is_ready(polled),
    ensures
        advance(job, EventView::Polled(polled)) == Some(
            (
                moved(job, PhaseView::Sleeping { attempts }),
                ActionView::Sleep { millis: POLL_INTERVAL_MILLIS },
            ),
        ),
        attempts + 1 < MAX_POLL_ATTEMPTS ==> advance(
            moved(job, PhaseView::Sleeping { attempts }),
            EventView::Done,
        ) == Some(
            (
                moved(job, PhaseView::Polling { attempts: (attempts + 1) as u32 }),
                ActionView::Poll { slot: POLL_SLOT },
            ),
        ),
        attempts + 1 >= MAX_POLL_ATTEMPTS ==> advance(
            moved(job, PhaseView::Sleeping { attempts }),
            EventView::Done,
        ) == Some(
            (moved(job, PhaseView::Stopping { outcome: OutcomeView::Timeout }), ActionView::Stop),
        ),
{
}

/// The poll bound. A job whose polls never find a result polls exactly
/// `MAX_POLL_ATTEMPTS` times: after fewer rounds of poll and pause it waits
/// for its next poll, after the last round it waits for the engine to stop.
/// When the engine has stopped, the job finishes with a timeout and takes no
/// further step, so that the engine is asked to stop once.
pub proof fn lemma_poll_bound(job: JobView, rounds: nat)
    requires
        job.phase == (PhaseView::Polling { attempts: 0 }),
        rounds <= MAX_POLL_ATTEMPTS,
    ensures
        rounds < MAX_POLL_ATTEMPTS ==> after_idle_polls(job, rounds) == Some(
            moved(job, PhaseView::Polling { attempts: rounds as u32 }),
        ),
        rounds == MAX_POLL_ATTEMPTS ==> {
            let stopping = moved(job, PhaseView::Stopping { outcome: OutcomeView::Timeout });
            &&& after_idle_polls(job, rounds) == Some(stopping)
            &&& advance(stopping, EventView::Done) == finished(job, OutcomeView::Timeout)
            &&& forall|event: EventView|
                advance(moved(job, PhaseView::Finished), event) is None
        },
    decreases rounds,
{
    if rounds == 0 {
        assert(moved(job, PhaseView::Polling { attempts: 0 }) == job);
    } else {
        let done = (rounds - 1) as nat;
        lemma_poll_bound(job, done);
        let before = moved(job, PhaseView::Polling { attempts: done as u32 });
        lemma_idle_poll(before, done as u32, None);
    }
}

/// The fallback to the CPU. A negative code of the engine's initialization
/// ends nothing: the job goes on to count the CPU cores and configures the
/// engine for the CPU with that count, whether or not the user asked for the
/// CPU. Only a negative code of that configuration is fatal: the engine is
/// asked to stop, and the job ends with the failed initialization.
pub proof fn lemma_gpu_failure_falls_back(job: JobView, init_code: i32, cores: i32, code: i32)
    requires
        job.phase == PhaseView::Initializing,
        init_code < 0,
    ensures
        advance(job, EventView::Code(init_code)) == Some(
            (moved(job, PhaseView::CountingCores), ActionView::QueryCpuCores),
        ),
        advance(moved(job, PhaseView::CountingCores), EventView::Code(cores)) == Some(
            (moved(job, PhaseView::SelectingDevice), ActionView::ConfigureCpu { cores }),
        ),
        advance(moved(job, PhaseView::SelectingDevice), EventView::Code(code)) == if code < 0 {
            stopping(job, OutcomeView::InitializationFailed)
        } else {
            Some((moved(job, PhaseView::Enumerating), ActionView::EnumerateSymbols))
        },
        advance(
            moved(job, PhaseView::Stopping { outcome: OutcomeView::InitializationFailed }),
            EventView::Done,
        ) == finished(job, OutcomeView::InitializationFailed),
{
}

/// An error while the engine works on the task does not end the job at once:
/// whether a poll, a pause, the write or the rename raised it, the engine is
/// asked to stop, and the job ends with the error when the engine has stopped.
pub proof fn lemma_failure_of_a_running_task_stops(job: JobView, message: Seq<char>)
    requires
        task_is_running(job.phase),
    ensures
        advance(job, EventView::Failed(message)) == stopping(
            job,
            OutcomeView::Failed { message },
        ),
        advance(
            moved(job, PhaseView::Stopping { outcome: OutcomeView::Failed { message } }),
            EventView::Done,
        ) == finished(job, OutcomeView::Failed { message }),
{
}

/// The engine is asked to stop once. A job asks for the stop exactly when it
/// begins to wait for it, whatever answers the stop ends the job, and a job
/// whose task the engine works on does not end without it.
pub proof fn lemma_stop_comes_once(job: JobView, event: EventView)
    requires
        advance(job, event) is Some,
    ensures
        ({
            let (next, action) = advance(job, event)->0;
            &&& action is Stop <==> next.phase is Stopping
            &&& job.phase is Stopping ==> action is Finish
            &&& task_is_running(job.phase) ==> !(action is Finish)
        }),
{
}

/// A task that the engine refused is not stopped: the job asks for the
/// engine's last error and finishes with it.
pub proof fn lemma_refused_task_is_not_stopped(job: JobView, code: i32, error: Seq<char>)
    requires
        job.phase == PhaseView::Submitting,
        code <= 0,
    ensures
        advance(job, EventView::Code(code)) == Some(
            (moved(job, PhaseView::Diagnosing), ActionView::QueryLastError),
        ),
        advance(moved(job, PhaseView::Diagnosing), EventView::Text(error)) == finished(
            job,
            OutcomeView::SubmissionFailed { error },
        ),
{
}

/// The name of the temporary file of a result.
pub fn temp_name(result_id: i32, format: &str) -> (r: String)
    ensures
        r@ == temp_file_name(result_id, format@),
{
    let mut r = decimal_of(result_id);
    r.append(".");
    r.append(format);
    r
}

/// The directory of the model weights to configure.
pub fn choose_model_path(explicit: Option<String>, fallback: Option<String>) -> (r: Option<String>)
    ensures
        option_text(r) == effective_model_path(option_text(explicit), option_text(fallback)),
{
    match explicit {
        Some(path) => Some(path),
        None => fallback,
    }
}

/// An optional text as plain values.
pub open spec fn option_text(text: Option<String>) -> Option<Seq<char>> {
    match text {
        Some(t) => Some(t@),
        None => None,
    }
}

impl JobOutcome {
    /// Whether the job delivered the enhanced image.
    pub fn success(&self) -> (r: bool)
        ensures
            r == (self@ is Completed),
    {
        match self {
            JobOutcome::Completed { .. } => true,
            _ => false,
        }
    }

    /// The message of the outcome: the elapsed time of a job that delivered,
    /// else what went wrong.
    pub fn message(&self) -> (r: String)
        ensures
            r@ == outcome_message(self@),
    {
        match self {
            JobOutcome::Completed { elapsed } => elapsed.clone(),
            JobOutcome::InitializationFailed => String::from_str("Initialization failed"),
            JobOutcome::UnknownModel { name } => {
                let mut r = String::from_str("Unknown model: ");
                r.append(name.as_str());
                r
            },
            JobOutcome::InputNotFound { path } => {
                let mut r = String::from_str("Input file not found: ");
                r.append(path.as_str());
                r
            },
            JobOutcome::SubmissionFailed { error } => {
                let mut r = String::from_str("Failed to add task: ");
                r.append(error.as_str());
                r
            },
            JobOutcome::Timeout => String::from_str("Processing timeout"),
            JobOutcome::Failed { message } => message.clone(),
        }
    }

    /// The outcome as a report: whether the job delivered, with the message;
    /// or, where an action of the host raised an error, that error.
    pub fn report(&self) -> (r: Result<(bool, String), String>)
        ensures
            match r {
                Ok((delivered, message)) => {
                    &&& !(self@ is Failed)
                    &&& delivered == (self@ is Completed)
                    &&& message@ == outcome_message(self@)
                },
                Err(message) => self@ is Failed && message@ == outcome_message(self@),
            },
    {
        match self {
            JobOutcome::Failed { message } => Err(message.clone()),
            _ => Ok((self.success(), self.message())),
        }
    }
}

impl Job {
    /// Begins the job of a request: the job, and its first action.
    pub fn start(request: JobRequest) -> (r: (Job, Action))
        ensures
            (r.0@, r.1@) == begin(request@),
    {
        let JobRequest { input, output, model, gpu_id, cpu, model_path, fallback_model_path } =
            request;
        match choose_model_path(model_path, fallback_model_path) {
            Some(path) => (
                Job { input, output, model, gpu_id, cpu, phase: Phase::Configuring },
                Action::SetModelPath { path },
            ),
            None => (
                Job { input, output, model, gpu_id, cpu, phase: Phase::Initializing },
                Action::Init,
            ),
        }
    }

    /// Whether the job is over.
    pub fn is_finished(&self) -> (r: bool)
        ensures
            r == (self@.phase is Finished),
    {
        match self.phase {
            Phase::Finished => true,
            _ => false,
        }
    }

    /// Whether the engine works on the task of the job.
    pub fn has_running_task(&self) -> (r: bool)
        ensures
            r == task_is_running(self@.phase),
    {
        match self.phase {
            Phase::Polling { .. } => true,
            Phase::Sleeping { .. } => true,
            Phase::Writing { .. } => true,
            Phase::Renaming { .. } => true,
            _ => false,
        }
    }

    /// Ends the job with an outcome.
    fn finish(self, outcome: JobOutcome) -> (r: (Job, Action))
        ensures
            Some((r.0@, r.1@)) == finished(self@, outcome@),
    {
        let Job { input, output, model, gpu_id, cpu, phase } = self;
        (
            Job { input, output, model, gpu_id, cpu, phase: Phase::Finished },
            Action::Finish { outcome },
        )
    }

    /// Moves the job to another phase.
    fn move_to(self, phase: Phase) -> (r: Job)
        ensures
            r@ == moved(self@, phase@),
    {
        let Job { input, output, model, gpu_id, cpu, phase: _ } = self;
        Job { input, output, model, gpu_id, cpu, phase }
    }

    /// Takes the step that the event calls for: returns the job after the
    /// step and the next action. An event that does not answer the action
    /// that the job waits for is refused, and so is every event once the job
    /// is over.
    pub fn step(self, event: Event) -> (r: Result<(Job, Action), StepError>)
        ensures
            match r {
                Ok((job, action)) => advance(self@, event@) == Some((job@, action@)),
                Err(error) => {
                    &&& advance(self@, event@) is None
                    &&& error == if self@.phase is Finished {
                        StepError::Finished
                    } else {
                        StepError::Unexpected
                    }
                },
            },
    {
        if self.is_finished() {
            return Err(StepError::Finished);
        }
        let event = match event {
            Event::Failed(message) => {
                let outcome = JobOutcome::Failed { message };
                return if self.has_running_task() {
                    Ok((self.move_to(Phase::Stopping { outcome }), Action::Stop))
                } else {
                    Ok(self.finish(outcome))
                };
            },
            other => other,
        };
        let Job { input, output, model, gpu_id, cpu, phase } = self;
        match (phase, event) {
            (Phase::Configuring, Event::Done) => Ok(
                (
                    Job { input, output, model, gpu_id, cpu, phase: Phase::Initializing },
                    Action::Init,
                ),
            ),
            (Phase::Initializing, Event::Code(code)) => if cpu || code < 0 {
                Ok(
                    (
                        Job { input, output, model, gpu_id, cpu, phase: Phase::CountingCores },
                        Action::QueryCpuCores,
                    ),
                )
            } else {
                Ok(
                    (
                        Job { input, output, model, gpu_id, cpu, phase: Phase::SelectingDevice },
                        Action::ConfigureGpu { gpu_id },
                    ),
                )
            },
            (Phase::CountingCores, Event::Code(cores)) => Ok(
                (
                    Job { input, output, model, gpu_id, cpu, phase: Phase::SelectingDevice },
                    Action::ConfigureCpu { cores },
                ),
            ),
            (Phase::SelectingDevice, Event::Code(code)) => if code < 0 {
                Ok(
                    (
                        Job {
                            input,
                            output,
                            model,
                            gpu_id,
                            cpu,
                            phase: Phase::Stopping { outcome: JobOutcome::InitializationFailed },
                        },
                        Action::Stop,
                    ),
                )
            } else {
                Ok(
                    (
                        Job { input, output, model, gpu_id, cpu, phase: Phase::Enumerating },
                        Action::EnumerateSymbols,
                    ),
                )
            },
            (Phase::Enumerating, Event::Symbols(symbols)) => {
                let catalog = ModelCatalog::build(symbols);
                match resolve(model.as_str(), &catalog) {
                    Ok(found) => {
                        let path = input.clone();
                        Ok(
                            (
                                Job {
                                    input,
                                    output,
                                    model,
                                    gpu_id,
                                    cpu,
                                    phase: Phase::CheckingInput { model_id: found.id },
                                },
                                Action::CheckInput { path },
                            ),
                        )
                    },
                    Err(ResolveError::UnknownModel { name }) => Ok(
                        (
                            Job { input, output, model, gpu_id, cpu, phase: Phase::Finished },
                            Action::Finish { outcome: JobOutcome::UnknownModel { name } },
                        ),
                    ),
                }
            },
            (Phase::CheckingInput { model_id }, Event::InputFound(found)) => {
                let path = input.clone();
                if found {
                    Ok(
                        (
                            Job {
                                input,
                                output,
                                model,
                                gpu_id,
                                cpu,
                                phase: Phase::ReadingInput { model_id },
                            },
                            Action::ReadInput { path },
                        ),
                    )
                } else {
                    Ok(
                        (
                            Job { input, output, model, gpu_id, cpu, phase: Phase::Finished },
                            Action::Finish { outcome: JobOutcome::InputNotFound { path } },
                        ),
                    )
                }
            },
            (Phase::ReadingInput { model_id }, Event::InputBytes(image_bytes)) => Ok(
                (
                    Job { input, output, model, gpu_id, cpu, phase: Phase::Submitting },
                    Action::AddTask {
                        task: TaskRequest { image_bytes, model_id, priority: TASK_PRIORITY },
                    },
                ),
            ),
            (Phase::Submitting, Event::Code(code)) => if code <= 0 {
                Ok(
                    (
                        Job { input, output, model, gpu_id, cpu, phase: Phase::Diagnosing },
                        Action::QueryLastError,
                    ),
                )
            } else {
                Ok(
                    (
                        Job {
                            input,
                            output,
                            model,
                            gpu_id,
                            cpu,
                            phase: Phase::Polling { attempts: 0 },
                        },
                        Action::Poll { slot: POLL_SLOT },
                    ),
                )
            },
            (Phase::Diagnosing, Event::Text(error)) => Ok(
                (
                    Job { input, output, model, gpu_id, cpu, phase: Phase::Finished },
                    Action::Finish { outcome: JobOutcome::SubmissionFailed { error } },
                ),
            ),
            (Phase::Polling { attempts }, Event::Polled(polled)) => {
                match polled {
                    Some(PollPayload { output: Some(bytes), format, result_id, elapsed }) => {
                        let temp = temp_name(result_id, format.as_str());
                        let path = temp.clone();
                        Ok(
                            (
                                Job {
                                    input,
                                    output,
                                    model,
                                    gpu_id,
                                    cpu,
                                    phase: Phase::Writing { temp, elapsed },
                                },
                                Action::WriteFile { path, bytes },
                            ),
                        )
                    },
                    _ => Ok(
                        (
                            Job {
                                input,
                                output,
                                model,
                                gpu_id,
                                cpu,
                                phase: Phase::Sleeping { attempts },
                            },
                            Action::Sleep { millis: POLL_INTERVAL_MILLIS },
                        ),
                    ),
                }
            },
            (Phase::Sleeping { attempts }, Event::Done) => if attempts < MAX_POLL_ATTEMPTS - 1 {
                Ok(
                    (
                        Job {
                            input,
                            output,
                            model,
                            gpu_id,
                            cpu,
                            phase: Phase::Polling { attempts: attempts + 1 },
                        },
                        Action::Poll { slot: POLL_SLOT },
                    ),
                )
            } else {
                Ok(
                    (
                        Job {
                            input,
                            output,
                            model,
                            gpu_id,
                            cpu,
                            phase: Phase::Stopping { outcome: JobOutcome::Timeout },
                        },
                        Action::Stop,
                    ),
                )
            },
            (Phase::Writing { temp, elapsed }, Event::Done) => {
                let to = output.clone();
                Ok(
                    (
                        Job { input, output, model, gpu_id, cpu, phase: Phase::Renaming { elapsed } },
                        Action::Rename { from: temp, to },
                    ),
                )
            },
            (Phase::Renaming { elapsed }, Event::Done) => Ok(
                (
                    Job {
                        input,
                        output,
                        model,
                        gpu_id,
                        cpu,
                        phase: Phase::Stopping { outcome: JobOutcome::Completed { elapsed } },
                    },
                    Action::Stop,
                ),
            ),
            (Phase::Stopping { outcome }, Event::Done) => Ok(
                (
                    Job { input, output, model, gpu_id, cpu, phase: Phase::Finished },
                    Action::Finish { outcome },
                ),
            ),
            _ => Err(StepError::Unexpected),
        }
    }
}

} // verus!
