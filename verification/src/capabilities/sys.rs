//! Process execution: requests, buffered results, bounded output, and the
//! decisions that take a child process from its start to its reaping.
//!
//! The child itself is spawned, read and reaped by the caller; this module
//! decides what happens at each step and which result crosses the boundary.
use vstd::prelude::*;
use vstd::string::*;

use crate::runtime::error::{cancelled_model, error_model, ErrorCode, ErrorModel, RuntimeError};

verus! {

// ---------------------------------------------------------------------------
// Requests
// ---------------------------------------------------------------------------

/// The mathematical content of a [`ProcessRequest`].
pub struct RequestModel {
    pub program: Seq<char>,
    pub arguments: Seq<Seq<char>>,
    pub environment: Seq<(Seq<char>, Seq<char>)>,
}

/// One argv-safe process execution request.
#[derive(Clone, Debug, PartialEq, Eq)]
pub struct ProcessRequest {
    program: String,
    arguments: Vec<String>,
    environment: Vec<(String, String)>,
}

/// The text of each string of a vector.
pub open spec fn texts(strings: Seq<String>) -> Seq<Seq<char>> {
    strings.map_values(|s: String| s@)
}

/// The text of each name and value of a vector of pairs.
pub open spec fn text_pairs(pairs: Seq<(String, String)>) -> Seq<(Seq<char>, Seq<char>)> {
    pairs.map_values(|p: (String, String)| (p.0@, p.1@))
}

impl View for ProcessRequest {
    type V = RequestModel;

    closed spec fn view(&self) -> RequestModel {
        RequestModel {
            program: self.program@,
            arguments: texts(self.arguments@),
            environment: text_pairs(self.environment@),
        }
    }
}

impl ProcessRequest {
    /// Creates a request for `program` with no arguments or environment entries.
    pub fn new(program: &str) -> (request: Self)
        ensures
            request@ == (RequestModel {
                program: program@,
                arguments: Seq::empty(),
                environment: Seq::empty(),
            }),
    {
        let request = ProcessRequest {
            program: program.to_owned(),
            arguments: Vec::new(),
            environment: Vec::new(),
        };
        assert(texts(request.arguments@) =~= Seq::empty());
        assert(text_pairs(request.environment@) =~= Seq::empty());
        request
    }

    /// Appends one argument without shell interpretation.
    pub fn arg(self, argument: &str) -> (request: Self)
        ensures
            request@ == (RequestModel { arguments: self@.arguments.push(argument@), ..self@ }),
    {
        let mut request = self;
        let ghost before = request.arguments@;
        request.arguments.push(argument.to_owned());
        assert(texts(request.arguments@) =~= texts(before).push(argument@));
        request
    }

    /// Appends an explicit environment entry for the child process.
    pub fn env(self, name: &str, value: &str) -> (request: Self)
        ensures
            request@ == (RequestModel {
                environment: self@.environment.push((name@, value@)),
                ..self@
            }),
    {
        let mut request = self;
        let ghost before = request.environment@;
        request.environment.push((name.to_owned(), value.to_owned()));
        assert(text_pairs(request.environment@) =~= text_pairs(before).push((name@, value@)));
        request
    }

    /// Returns the program to execute.
    pub fn program(&self) -> (program: &str)
        ensures
            program@ == self@.program,
    {
        self.program.as_str()
    }

    /// Returns the arguments, in the order they were appended.
    pub fn arguments(&self) -> (arguments: &Vec<String>)
        ensures
            texts(arguments@) == self@.arguments,
    {
        &self.arguments
    }

    /// Returns the environment entries, in the order they were appended.
    pub fn environment(&self) -> (environment: &Vec<(String, String)>)
        ensures
            text_pairs(environment@) == self@.environment,
    {
        &self.environment
    }
}

// ---------------------------------------------------------------------------
// Results
// ---------------------------------------------------------------------------

/// The mathematical content of a [`ProcessOutput`].
pub struct OutputModel {
    pub success: bool,
    pub exit_code: Option<i32>,
    pub stdout: Seq<u8>,
    pub stderr: Seq<u8>,
}

/// Buffered status and output from a completed process.
#[derive(Debug, PartialEq, Eq)]
pub struct ProcessOutput {
    success: bool,
    exit_code: Option<i32>,
    stdout: Vec<u8>,
    stderr: Vec<u8>,
}

impl View for ProcessOutput {
    type V = OutputModel;

    closed spec fn view(&self) -> OutputModel {
        OutputModel {
            success: self.success,
            exit_code: self.exit_code,
            stdout: self.stdout@,
            stderr: self.stderr@,
        }
    }
}

/// Whether a process with this exit code terminated successfully: success
/// is a zero exit status, and a process stopped by a signal has no exit code.
pub open spec fn exit_success(exit_code: Option<i32>) -> bool {
    exit_code == Some(0i32)
}

/// Assembles the result of a completed process from its exit code and its
/// captured output.
pub fn process_output(exit_code: Option<i32>, stdout: Vec<u8>, stderr: Vec<u8>) -> (output: ProcessOutput)
    ensures
        output@ == (OutputModel {
            success: exit_success(exit_code),
            exit_code,
            stdout: stdout@,
            stderr: stderr@,
        }),
{
    let success = match exit_code {
        Some(code) => code == 0,
        None => false,
    };
    ProcessOutput { success, exit_code, stdout, stderr }
}

impl Clone for ProcessOutput {
    /// Copies the status and both captured streams.
    fn clone(&self) -> (copy: Self)
        ensures
            copy@ == self@,
    {
        proof {
            use_type_invariant(self);
        }
        let copy = ProcessOutput {
            success: self.success,
            exit_code: self.exit_code,
            stdout: self.stdout.clone(),
            stderr: self.stderr.clone(),
        };
        assert(copy.stdout@ =~= self.stdout@);
        assert(copy.stderr@ =~= self.stderr@);
        copy
    }
}

impl ProcessOutput {
    /// A process succeeded exactly when it exited with status zero.
    #[verifier::type_invariant]
    closed spec fn success_is_zero_exit(self) -> bool {
        self.success == exit_success(self.exit_code)
    }

    /// Returns whether the process reported successful termination, which is
    /// exactly an exit code of zero.
    pub fn success(&self) -> (success: bool)
        ensures
            success == self@.success,
            success == exit_success(self@.exit_code),
    {
        proof {
            use_type_invariant(self);
        }
        self.success
    }

    /// Returns the process exit code, when the platform supplied one.
    pub fn exit_code(&self) -> (code: Option<i32>)
        ensures
            code == self@.exit_code,
    {
        self.exit_code
    }

    /// Returns the captured standard output bytes.
    pub fn stdout(&self) -> (bytes: &[u8])
        ensures
            bytes@ == self@.stdout,
    {
        self.stdout.as_slice()
    }

    /// Returns the captured standard error bytes.
    pub fn stderr(&self) -> (bytes: &[u8])
        ensures
            bytes@ == self@.stderr,
    {
        self.stderr.as_slice()
    }
}

/// A process-execution grant with a fixed output limit.
#[derive(Clone, Copy, Debug, PartialEq, Eq, Structural)]
pub struct ProcessCapability {
    max_output_bytes_per_stream: usize,
}

impl View for ProcessCapability {
    type V = usize;

    /// The byte limit applied independently to stdout and stderr.
    closed spec fn view(&self) -> usize {
        self.max_output_bytes_per_stream
    }
}

impl ProcessCapability {
    /// Creates a process capability with a separate byte limit for each output stream.
    pub fn new(max_output_bytes_per_stream: usize) -> (capability: Self)
        ensures
            capability@ == max_output_bytes_per_stream,
    {
        ProcessCapability { max_output_bytes_per_stream }
    }

    /// Returns the byte limit applied independently to stdout and stderr.
    pub fn max_output_bytes_per_stream(&self) -> (limit: usize)
        ensures
            limit == self@,
    {
        self.max_output_bytes_per_stream
    }

    /// A capability is determined by its limit: equal limits give equal capabilities.
    pub proof fn lemma_determined_by_limit(first: ProcessCapability, second: ProcessCapability)
        ensures
            first@ == second@ <==> first == second,
    {
    }
}

// ---------------------------------------------------------------------------
// Decimal text
// ---------------------------------------------------------------------------

/// The character of one decimal digit.
pub open spec fn digit_char(d: nat) -> char {
    if d == 0 {
        '0'
    } else if d == 1 {
        '1'
    } else if d == 2 {
        '2'
    } else if d == 3 {
        '3'
    } else if d == 4 {
        '4'
    } else if d == 5 {
        '5'
    } else if d == 6 {
        '6'
    } else if d == 7 {
        '7'
    } else if d == 8 {
        '8'
    } else {
        '9'
    }
}

/// The decimal notation of a natural number, without leading zeros.
pub open spec fn decimal(n: nat) -> Seq<char>
    decreases n,
{
    if n < 10 {
        seq![digit_char(n)]
    } else {
        decimal(n / 10).push(digit_char(n % 10))
    }
}

fn digit_text(d: usize) -> (text: &'static str)
    requires
        d < 10,
    ensures
        text@ == seq![digit_char(d as nat)],
{
    proof {
        reveal_strlit("0");
        reveal_strlit("1");
        reveal_strlit("2");
        reveal_strlit("3");
        reveal_strlit("4");
        reveal_strlit("5");
        reveal_strlit("6");
        reveal_strlit("7");
        reveal_strlit("8");
        reveal_strlit("9");
    }
    let text = if d == 0 {
        "0"
    } else if d == 1 {
        "1"
    } else if d == 2 {
        "2"
    } else if d == 3 {
        "3"
    } else if d == 4 {
        "4"
    } else if d == 5 {
        "5"
    } else if d == 6 {
        "6"
    } else if d == 7 {
        "7"
    } else if d == 8 {
        "8"
    } else {
        "9"
    };
    assert(text@ =~= seq![digit_char(d as nat)]);
    text
}

fn append_decimal(out: &mut String, n: usize)
    ensures
        final(out)@ == old(out)@ + decimal(n as nat),
    decreases n,
{
    if n >= 10 {
        append_decimal(out, n / 10);
    }
    out.append(digit_text(n % 10));
    proof {
        if n >= 10 {
            assert(old(out)@ + decimal((n / 10) as nat) + seq![digit_char((n % 10) as nat)]
                =~= old(out)@ + decimal(n as nat));
        } else {
            assert(old(out)@ + seq![digit_char((n % 10) as nat)] =~= old(out)@ + decimal(n as nat));
        }
    }
}

// ---------------------------------------------------------------------------
// Failures
// ---------------------------------------------------------------------------

/// One of a child's two captured output streams.
#[derive(Clone, Copy, Debug, PartialEq, Eq, Structural)]
pub enum OutputStream {
    Stdout,
    Stderr,
}

/// The name a stream is reported by.
pub open spec fn stream_name(stream: OutputStream) -> Seq<char> {
    match stream {
        OutputStream::Stdout => "stdout"@,
        OutputStream::Stderr => "stderr"@,
    }
}

impl OutputStream {
    /// Returns the name this stream is reported by.
    pub fn name(self) -> (name: &'static str)
        ensures
            name@ == stream_name(self),
    {
        match self {
            OutputStream::Stdout => "stdout",
            OutputStream::Stderr => "stderr",
        }
    }
}

/// The mathematical content of a [`ProcessFailure`].
pub enum FailureModel {
    WaitFailed(Seq<char>),
    ReadFailed(OutputStream, Seq<char>),
    OutputLimitExceeded(OutputStream, usize),
}

/// Why a running process stopped without a buffered result. The I/O failures
/// carry the text of the operating system's error.
#[derive(Clone, Debug, PartialEq, Eq)]
pub enum ProcessFailure {
    /// Waiting for the child's exit failed.
    WaitFailed(String),
    /// Reading one of the child's output streams failed.
    ReadFailed { stream: OutputStream, detail: String },
    /// One of the child's output streams produced more than the limit.
    OutputLimitExceeded { stream: OutputStream, limit: usize },
}

impl View for ProcessFailure {
    type V = FailureModel;

    open spec fn view(&self) -> FailureModel {
        match self {
            ProcessFailure::WaitFailed(detail) => FailureModel::WaitFailed(detail@),
            ProcessFailure::ReadFailed { stream, detail } => FailureModel::ReadFailed(
                *stream,
                detail@,
            ),
            ProcessFailure::OutputLimitExceeded { stream, limit } => FailureModel::OutputLimitExceeded(
                *stream,
                *limit,
            ),
        }
    }
}

/// The boundary error a process failure becomes.
pub open spec fn failure_error(failure: FailureModel) -> ErrorModel {
    match failure {
        FailureModel::WaitFailed(detail) => error_model(
            ErrorCode::CapabilityFailed,
            "failed to wait for process: "@ + detail,
        ),
        FailureModel::ReadFailed(stream, detail) => error_model(
            ErrorCode::CapabilityFailed,
            "failed to read process "@ + stream_name(stream) + ": "@ + detail,
        ),
        FailureModel::OutputLimitExceeded(stream, limit) => error_model(
            ErrorCode::ResourceLimitExceeded,
            "process "@ + stream_name(stream) + " exceeded "@ + decimal(limit as nat)
                + " byte output limit"@,
        ),
    }
}

/// The boundary error of a process that could not be started.
pub open spec fn spawn_error(detail: Seq<char>) -> ErrorModel {
    error_model(ErrorCode::CapabilityFailed, "failed to spawn process: "@ + detail)
}

/// The boundary error of a process that could not be terminated and reaped.
pub open spec fn cleanup_error_model(detail: Seq<char>) -> ErrorModel {
    error_model(ErrorCode::CapabilityFailed, "failed to terminate and reap process: "@ + detail)
}

impl ProcessFailure {
    /// Converts the failure into the structured error reported at the boundary.
    pub fn into_runtime_error(self) -> (error: RuntimeError)
        ensures
            error@ == failure_error(self@),
    {
        match self {
            ProcessFailure::WaitFailed(detail) => {
                let mut message = "failed to wait for process: ".to_owned();
                message.append(detail.as_str());
                RuntimeError::capability_failed(message)
            },
            ProcessFailure::ReadFailed { stream, detail } => {
                let mut message = "failed to read process ".to_owned();
                message.append(stream.name());
                message.append(": ");
                message.append(detail.as_str());
                RuntimeError::capability_failed(message)
            },
            ProcessFailure::OutputLimitExceeded { stream, limit } => {
                let mut message = "process ".to_owned();
                message.append(stream.name());
                message.append(" exceeded ");
                append_decimal(&mut message, limit);
                message.append(" byte output limit");
                RuntimeError::resource_limit_exceeded(message)
            },
        }
    }
}

/// The error of a process that could not be started.
pub fn spawn_failure_error(detail: String) -> (error: RuntimeError)
    ensures
        error@ == spawn_error(detail@),
{
    let mut message = "failed to spawn process: ".to_owned();
    message.append(detail.as_str());
    RuntimeError::capability_failed(message)
}

/// The error of a process that could not be terminated and reaped.
pub fn cleanup_error(detail: String) -> (error: RuntimeError)
    ensures
        error@ == cleanup_error_model(detail@),
{
    let mut message = "failed to terminate and reap process: ".to_owned();
    message.append(detail.as_str());
    RuntimeError::capability_failed(message)
}

// ---------------------------------------------------------------------------
// Bounded output
// ---------------------------------------------------------------------------

/// The mathematical content of a [`BoundedOutput`].
pub struct BoundedModel {
    pub stream: OutputStream,
    pub limit: usize,
    pub bytes: Seq<u8>,
}

/// The captured bytes of one output stream, which never exceed the limit.
pub struct BoundedOutput {
    stream: OutputStream,
    limit: usize,
    bytes: Vec<u8>,
}

impl View for BoundedOutput {
    type V = BoundedModel;

    closed spec fn view(&self) -> BoundedModel {
        BoundedModel { stream: self.stream, limit: self.limit, bytes: self.bytes@ }
    }
}

impl BoundedOutput {
    #[verifier::type_invariant]
    closed spec fn within_limit(self) -> bool {
        self.bytes@.len() <= self.limit
    }

    /// Starts capturing `stream` with no bytes yet.
    pub fn new(stream: OutputStream, limit: usize) -> (output: Self)
        ensures
            output@ == (BoundedModel { stream, limit, bytes: Seq::empty() }),
    {
        BoundedOutput { stream, limit, bytes: Vec::new() }
    }

    /// Takes in the bytes of one read from the stream.
    ///
    /// An empty read marks the end of the stream and returns `Ok(true)`. A read
    /// that would carry the captured bytes past the limit fails with
    /// [`ProcessFailure::OutputLimitExceeded`] and keeps nothing of it. Any
    /// other read is appended and returns `Ok(false)`.
    pub fn accept(&mut self, chunk: &[u8]) -> (result: Result<bool, ProcessFailure>)
        requires
            old(self)@.bytes.len() + chunk@.len() <= usize::MAX,
        ensures
            final(self)@.bytes.len() <= final(self)@.limit,
            chunk@.len() == 0 ==> result == Ok::<bool, ProcessFailure>(true) && final(self)@ == old(self)@,
            chunk@.len() != 0 && old(self)@.bytes.len() + chunk@.len() > old(self)@.limit ==> result
                is Err && result->Err_0@ == FailureModel::OutputLimitExceeded(
                old(self)@.stream,
                old(self)@.limit,
            ) && final(self)@ == old(self)@,
            chunk@.len() != 0 && old(self)@.bytes.len() + chunk@.len() <= old(self)@.limit ==> result
                == Ok::<bool, ProcessFailure>(false) && final(self)@ == (BoundedModel {
                bytes: old(self)@.bytes + chunk@,
                ..old(self)@
            }),
    {
        proof {
            use_type_invariant(&*self);
        }
        let count = chunk.len();
        if count == 0 {
            return Ok(true);
        }
        if self.bytes.len().saturating_add(count) > self.limit {
            return Err(ProcessFailure::OutputLimitExceeded { stream: self.stream, limit: self.limit });
        }
        let mut bytes = Vec::new();
        std::mem::swap(&mut bytes, &mut self.bytes);
        let ghost before = bytes@;
        bytes.extend_from_slice(chunk);
        assert(bytes@ =~= before + chunk@);
        self.bytes = bytes;
        Ok(false)
    }

    /// Returns the number of bytes captured so far.
    pub fn len(&self) -> (count: usize)
        ensures
            count == self@.bytes.len(),
    {
        self.bytes.len()
    }

    /// Returns the captured bytes.
    pub fn into_bytes(self) -> (bytes: Vec<u8>)
        ensures
            bytes@ == self@.bytes,
    {
        self.bytes
    }
}

// ---------------------------------------------------------------------------
// Running a process
// ---------------------------------------------------------------------------

/// Where a process execution stands.
pub enum ProcessPhase {
    /// Nothing has happened yet; each output stream may hold `limit` bytes.
    Ready { limit: usize },
    /// The child is being started.
    Spawning { limit: usize },
    /// The child runs; its exit and output are awaited.
    Running { limit: usize },
    /// The child is being terminated and reaped; afterwards the held error is reported.
    Reaping(RuntimeError),
    /// A result has been reported.
    Finished,
}

/// What was observed since the last step.
pub enum ProcessEvent {
    /// The execution begins; `cancelled` tells whether its request was already cancelled.
    Started { cancelled: bool },
    /// The child could not be started; the text of the operating system's error.
    SpawnFailed(String),
    /// The child was started.
    Spawned,
    /// The child exited with this exit code and both output streams were read
    /// to their end, each into its own bounded buffer.
    Completed { exit_code: Option<i32>, stdout: BoundedOutput, stderr: BoundedOutput },
    /// Waiting for the child or reading its output failed.
    Failed(ProcessFailure),
    /// The request was cancelled while the child ran.
    CancelObserved,
    /// Terminating and reaping the child ended, with the text of its error if it failed.
    Reaped(Result<(), String>),
}

/// What the caller does next.
pub enum ProcessAction {
    /// Start the child.
    Spawn,
    /// Wait for the child's completion or for the request's cancellation.
    Await,
    /// Terminate and reap the child.
    Reap,
    /// Report this result; the execution is over.
    Finish(Result<ProcessOutput, RuntimeError>),
}

/// The mathematical content of a [`ProcessPhase`].
pub enum PhaseModel {
    Ready(usize),
    Spawning(usize),
    Running(usize),
    Reaping(ErrorModel),
    Finished,
}

/// The mathematical content of a [`ProcessEvent`].
pub enum EventModel {
    Started(bool),
    SpawnFailed(Seq<char>),
    Spawned,
    Completed(Option<i32>, BoundedModel, BoundedModel),
    Failed(FailureModel),
    CancelObserved,
    Reaped(Result<(), Seq<char>>),
}

/// The mathematical content of a [`ProcessAction`].
pub enum ActionModel {
    Spawn,
    Await,
    Reap,
    Finish(Result<OutputModel, ErrorModel>),
}

/// The text of an optional error.
pub open spec fn outcome_text(outcome: Result<(), String>) -> Result<(), Seq<char>> {
    match outcome {
        Ok(()) => Ok(()),
        Err(detail) => Err(detail@),
    }
}

impl View for ProcessPhase {
    type V = PhaseModel;

    open spec fn view(&self) -> PhaseModel {
        match self {
            ProcessPhase::Ready { limit } => PhaseModel::Ready(*limit),
            ProcessPhase::Spawning { limit } => PhaseModel::Spawning(*limit),
            ProcessPhase::Running { limit } => PhaseModel::Running(*limit),
            ProcessPhase::Reaping(error) => PhaseModel::Reaping(error@),
            ProcessPhase::Finished => PhaseModel::Finished,
        }
    }
}

impl View for ProcessEvent {
    type V = EventModel;

    open spec fn view(&self) -> EventModel {
        match self {
            ProcessEvent::Started { cancelled } => EventModel::Started(*cancelled),
            ProcessEvent::SpawnFailed(detail) => EventModel::SpawnFailed(detail@),
            ProcessEvent::Spawned => EventModel::Spawned,
            ProcessEvent::Completed { exit_code, stdout, stderr } => EventModel::Completed(
                *exit_code,
                stdout@,
                stderr@,
            ),
            ProcessEvent::Failed(failure) => EventModel::Failed(failure@),
            ProcessEvent::CancelObserved => EventModel::CancelObserved,
            ProcessEvent::Reaped(outcome) => EventModel::Reaped(outcome_text(*outcome)),
        }
    }
}

impl View for ProcessAction {
    type V = ActionModel;

    open spec fn view(&self) -> ActionModel {
        match self {
            ProcessAction::Spawn => ActionModel::Spawn,
            ProcessAction::Await => ActionModel::Await,
            ProcessAction::Reap => ActionModel::Reap,
            ProcessAction::Finish(Ok(output)) => ActionModel::Finish(Ok(output@)),
            ProcessAction::Finish(Err(error)) => ActionModel::Finish(Err(error@)),
        }
    }
}

/// Whether `event` is one that can be observed in `phase`.
pub open spec fn process_accepts(phase: PhaseModel, event: EventModel) -> bool {
    match phase {
        PhaseModel::Ready(_) => event is Started,
        PhaseModel::Spawning(_) => event is SpawnFailed || event is Spawned,
        PhaseModel::Running(limit) => match event {
            EventModel::Completed(_, stdout, stderr) => {
                &&& stdout.stream == OutputStream::Stdout
                &&& stderr.stream == OutputStream::Stderr
                &&& stdout.limit == limit
                &&& stderr.limit == limit
                &&& stdout.bytes.len() <= limit
                &&& stderr.bytes.len() <= limit
            },
            EventModel::Failed(_) => true,
            EventModel::CancelObserved => true,
            _ => false,
        },
        PhaseModel::Reaping(_) => event is Reaped,
        PhaseModel::Finished => false,
    }
}

/// One step of a process execution: the next phase and what to do next.
///
/// A request cancelled before the start never spawns. A started child that
/// completes reports its output; a child that fails or whose request is
/// cancelled is terminated and reaped first, and a failure to reap is what
/// is then reported.
pub open spec fn process_transition(phase: PhaseModel, event: EventModel) -> (PhaseModel, ActionModel) {
    match (phase, event) {
        (PhaseModel::Ready(_), EventModel::Started(true)) => (
            PhaseModel::Finished,
            ActionModel::Finish(Err(cancelled_model())),
        ),
        (PhaseModel::Ready(limit), EventModel::Started(false)) => (
            PhaseModel::Spawning(limit),
            ActionModel::Spawn,
        ),
        (PhaseModel::Spawning(_), EventModel::SpawnFailed(detail)) => (
            PhaseModel::Finished,
            ActionModel::Finish(Err(spawn_error(detail))),
        ),
        (PhaseModel::Spawning(limit), EventModel::Spawned) => (
            PhaseModel::Running(limit),
            ActionModel::Await,
        ),
        (PhaseModel::Running(_), EventModel::Completed(exit_code, stdout, stderr)) => (
            PhaseModel::Finished,
            ActionModel::Finish(
                Ok(
                    OutputModel {
                        success: exit_success(exit_code),
                        exit_code,
                        stdout: stdout.bytes,
                        stderr: stderr.bytes,
                    },
                ),
            ),
        ),
        (PhaseModel::Running(_), EventModel::Failed(failure)) => (
            PhaseModel::Reaping(failure_error(failure)),
            ActionModel::Reap,
        ),
        (PhaseModel::Running(_), EventModel::CancelObserved) => (
            PhaseModel::Reaping(cancelled_model()),
            ActionModel::Reap,
        ),
        (PhaseModel::Reaping(error), EventModel::Reaped(Ok(()))) => (
            PhaseModel::Finished,
            ActionModel::Finish(Err(error)),
        ),
        (PhaseModel::Reaping(_), EventModel::Reaped(Err(detail))) => (
            PhaseModel::Finished,
            ActionModel::Finish(Err(cleanup_error_model(detail))),
        ),
        _ => (phase, ActionModel::Await),
    }
}

impl ProcessPhase {
    /// Takes one step of a process execution; see [`process_transition`].
    pub fn step(self, event: ProcessEvent) -> (next: (ProcessPhase, ProcessAction))
        requires
            process_accepts(self@, event@),
        ensures
            (next.0@, next.1@) == process_transition(self@, event@),
    {
        match (self, event) {
            (ProcessPhase::Ready { limit }, ProcessEvent::Started { cancelled }) => {
                if cancelled {
                    (ProcessPhase::Finished, ProcessAction::Finish(Err(RuntimeError::cancelled())))
                } else {
                    (ProcessPhase::Spawning { limit }, ProcessAction::Spawn)
                }
            },
            (ProcessPhase::Spawning { .. }, ProcessEvent::SpawnFailed(detail)) => (
                ProcessPhase::Finished,
                ProcessAction::Finish(Err(spawn_failure_error(detail))),
            ),
            (ProcessPhase::Spawning { limit }, ProcessEvent::Spawned) => (
                ProcessPhase::Running { limit },
                ProcessAction::Await,
            ),
            (ProcessPhase::Running { .. }, ProcessEvent::Completed { exit_code, stdout, stderr }) => (
                ProcessPhase::Finished,
                ProcessAction::Finish(
                    Ok(process_output(exit_code, stdout.into_bytes(), stderr.into_bytes())),
                ),
            ),
            (ProcessPhase::Running { .. }, ProcessEvent::Failed(failure)) => (
                ProcessPhase::Reaping(failure.into_runtime_error()),
                ProcessAction::Reap,
            ),
            (ProcessPhase::Running { .. }, ProcessEvent::CancelObserved) => (
                ProcessPhase::Reaping(RuntimeError::cancelled()),
                ProcessAction::Reap,
            ),
            (ProcessPhase::Reaping(error), ProcessEvent::Reaped(outcome)) => {
                match outcome {
                    Ok(()) => (ProcessPhase::Finished, ProcessAction::Finish(Err(error))),
                    Err(detail) => (
                        ProcessPhase::Finished,
                        ProcessAction::Finish(Err(cleanup_error(detail))),
                    ),
                }
            },
            (phase, _) => (phase, ProcessAction::Await),
        }
    }
}

/// A request cancelled before its process starts is answered with a
/// cancellation error and no process is spawned.
pub proof fn lemma_cancelled_request_never_spawns(limit: usize)
    ensures
        process_transition(PhaseModel::Ready(limit), EventModel::Started(true)) == (
            PhaseModel::Finished,
            ActionModel::Finish(Err(cancelled_model())),
        ),
        forall|event: EventModel|
            process_accepts(PhaseModel::Ready(limit), event) ==> (process_transition(
                PhaseModel::Ready(limit),
                event,
            ).1 is Spawn <==> event == EventModel::Started(false)),
{
}

/// A running child finishes directly only by completing; every failure and
/// every cancellation first terminates and reaps it.
pub proof fn lemma_running_child_is_reaped_unless_completed(limit: usize, event: EventModel)
    requires
        process_accepts(PhaseModel::Running(limit), event),
    ensures
        process_transition(PhaseModel::Running(limit), event).1 is Finish ==> event is Completed,
        !(event is Completed) ==> process_transition(PhaseModel::Running(limit), event).1 is Reap,
{
}

/// A cancelled running child is reported as cancelled once it is reaped; only
/// a failure to reap it replaces that report.
pub proof fn lemma_cancellation_outcome(limit: usize, outcome: Result<(), Seq<char>>)
    ensures
        ({
            let reaping = process_transition(PhaseModel::Running(limit), EventModel::CancelObserved).0;
            let finish = process_transition(reaping, EventModel::Reaped(outcome)).1;
            match outcome {
                Ok(()) => finish == ActionModel::Finish(Err(cancelled_model())),
                Err(detail) => finish == ActionModel::Finish(Err(cleanup_error_model(detail))),
            }
        }),
{
}

/// A reported output is the exit code and the two bounded buffers of a
/// running child: success is a zero exit status, and each stream holds at most
/// the limit the execution started with, independently of the other.
pub proof fn lemma_reported_output_within_limit(phase: PhaseModel, event: EventModel)
    requires
        process_accepts(phase, event),
    ensures
        process_transition(phase, event).1 matches ActionModel::Finish(Ok(output)) ==> {
            &&& phase matches PhaseModel::Running(limit)
            &&& output.stdout.len() <= limit
            &&& output.stderr.len() <= limit
            &&& output.success == exit_success(output.exit_code)
        },
        phase matches PhaseModel::Ready(limit) ==> process_transition(phase, event).0 is Finished
            || process_transition(phase, event).0 == PhaseModel::Spawning(limit),
        phase matches PhaseModel::Spawning(limit) ==> process_transition(phase, event).0 is Finished
            || process_transition(phase, event).0 == PhaseModel::Running(limit),
{
}

/// Whether each event of `events` can be observed in the phase reached by the
/// events before it, starting from `phase`.
pub open spec fn process_trace_accepted(phase: PhaseModel, events: Seq<EventModel>) -> bool
    decreases events.len(),
{
    events.len() == 0 || (process_accepts(phase, events[0]) && process_trace_accepted(
        process_transition(phase, events[0]).0,
        events.drop_first(),
    ))
}

/// The actions a process execution asks for while observing `events`, starting from `phase`.
pub open spec fn process_trace_actions(phase: PhaseModel, events: Seq<EventModel>) -> Seq<ActionModel>
    decreases events.len(),
{
    if events.len() == 0 {
        Seq::empty()
    } else {
        seq![process_transition(phase, events[0]).1] + process_trace_actions(
            process_transition(phase, events[0]).0,
            events.drop_first(),
        )
    }
}

/// Once a child runs, the execution never reports a failure before it has
/// asked for the child to be terminated and reaped: every failed finish of a
/// running child is preceded by a reap.
pub proof fn lemma_spawned_child_reaped_before_failure(limit: usize, events: Seq<EventModel>, i: int)
    requires
        process_trace_accepted(PhaseModel::Running(limit), events),
        0 <= i < process_trace_actions(PhaseModel::Running(limit), events).len(),
        process_trace_actions(PhaseModel::Running(limit), events)[i] matches ActionModel::Finish(Err(_)),
    ensures
        exists|j: int| 0 <= j < i && process_trace_actions(PhaseModel::Running(limit), events)[j] == ActionModel::Reap,
{
    let actions = process_trace_actions(PhaseModel::Running(limit), events);
    assert(events.len() > 0);
    let first = process_transition(PhaseModel::Running(limit), events[0]);
    let rest = events.drop_first();
    assert(actions == seq![first.1] + process_trace_actions(first.0, rest));
    assert(process_trace_accepted(first.0, rest));
    if events[0] is Completed {
        assert(first.0 == PhaseModel::Finished);
        if rest.len() > 0 {
            assert(!process_accepts(PhaseModel::Finished, rest[0]));
        }
        assert(rest.len() == 0);
        assert(actions.len() == 1);
        assert(actions[0] matches ActionModel::Finish(Ok(_)));
    } else {
        assert(first.1 == ActionModel::Reap);
        assert(i > 0);
        assert(actions[0] == ActionModel::Reap);
    }
}

// ---------------------------------------------------------------------------
// Terminating and reaping a child
// ---------------------------------------------------------------------------

/// Where terminating and reaping a child stands.
pub enum ReapPhase {
    /// Checking whether the child has already exited.
    Polling,
    /// Asking the child to stop.
    Killing,
    /// The kill request failed with this error; checking whether the child exited anyway.
    Confirming(String),
    /// Waiting for the killed child to exit.
    Waiting,
    /// The outcome has been reported.
    Done,
}

/// What was observed since the last step of reaping.
pub enum ReapEvent {
    /// A check for exit returned whether the child had exited, or failed with this error.
    Polled(Result<bool, String>),
    /// The kill request was sent, or failed with this error.
    KillSent(Result<(), String>),
    /// Waiting for exit ended, with this error if it failed.
    Waited(Result<(), String>),
}

/// What the caller does next while reaping.
pub enum ReapAction {
    /// Check, without blocking, whether the child has exited.
    TryWait,
    /// Ask the child to stop.
    StartKill,
    /// Wait for the child to exit.
    Wait,
    /// Report this outcome; reaping is over.
    Finish(Result<(), String>),
}

/// The mathematical content of a [`ReapPhase`].
pub enum ReapPhaseModel {
    Polling,
    Killing,
    Confirming(Seq<char>),
    Waiting,
    Done,
}

/// The mathematical content of a [`ReapEvent`].
pub enum ReapEventModel {
    Polled(Result<bool, Seq<char>>),
    KillSent(Result<(), Seq<char>>),
    Waited(Result<(), Seq<char>>),
}

/// The mathematical content of a [`ReapAction`].
pub enum ReapActionModel {
    TryWait,
    StartKill,
    Wait,
    Finish(Result<(), Seq<char>>),
}

impl View for ReapPhase {
    type V = ReapPhaseModel;

    open spec fn view(&self) -> ReapPhaseModel {
        match self {
            ReapPhase::Polling => ReapPhaseModel::Polling,
            ReapPhase::Killing => ReapPhaseModel::Killing,
            ReapPhase::Confirming(detail) => ReapPhaseModel::Confirming(detail@),
            ReapPhase::Waiting => ReapPhaseModel::Waiting,
            ReapPhase::Done => ReapPhaseModel::Done,
        }
    }
}

impl View for ReapEvent {
    type V = ReapEventModel;

    open spec fn view(&self) -> ReapEventModel {
        match self {
            ReapEvent::Polled(Ok(exited)) => ReapEventModel::Polled(Ok(*exited)),
            ReapEvent::Polled(Err(detail)) => ReapEventModel::Polled(Err(detail@)),
            ReapEvent::KillSent(outcome) => ReapEventModel::KillSent(outcome_text(*outcome)),
            ReapEvent::Waited(outcome) => ReapEventModel::Waited(outcome_text(*outcome)),
        }
    }
}

impl View for ReapAction {
    type V = ReapActionModel;

    open spec fn view(&self) -> ReapActionModel {
        match self {
            ReapAction::TryWait => ReapActionModel::TryWait,
            ReapAction::StartKill => ReapActionModel::StartKill,
            ReapAction::Wait => ReapActionModel::Wait,
            ReapAction::Finish(outcome) => ReapActionModel::Finish(outcome_text(*outcome)),
        }
    }
}

/// Whether `event` is one that can be observed in `phase`.
pub open spec fn reap_accepts(phase: ReapPhaseModel, event: ReapEventModel) -> bool {
    match phase {
        ReapPhaseModel::Polling => event is Polled,
        ReapPhaseModel::Killing => event is KillSent,
        ReapPhaseModel::Confirming(_) => event is Polled,
        ReapPhaseModel::Waiting => event is Waited,
        ReapPhaseModel::Done => false,
    }
}

/// One step of terminating and reaping a child.
///
/// A child that has already exited is left alone. Otherwise it is killed and
/// waited for. When the kill request fails, the child counts as reaped only if
/// it is seen to have exited; otherwise the kill error is reported.
pub open spec fn reap_transition(phase: ReapPhaseModel, event: ReapEventModel) -> (ReapPhaseModel, ReapActionModel) {
    match (phase, event) {
        (ReapPhaseModel::Polling, ReapEventModel::Polled(Err(detail))) => (
            ReapPhaseModel::Done,
            ReapActionModel::Finish(Err(detail)),
        ),
        (ReapPhaseModel::Polling, ReapEventModel::Polled(Ok(true))) => (
            ReapPhaseModel::Done,
            ReapActionModel::Finish(Ok(())),
        ),
        (ReapPhaseModel::Polling, ReapEventModel::Polled(Ok(false))) => (
            ReapPhaseModel::Killing,
            ReapActionModel::StartKill,
        ),
        (ReapPhaseModel::Killing, ReapEventModel::KillSent(Ok(()))) => (
            ReapPhaseModel::Waiting,
            ReapActionModel::Wait,
        ),
        (ReapPhaseModel::Killing, ReapEventModel::KillSent(Err(detail))) => (
            ReapPhaseModel::Confirming(detail),
            ReapActionModel::TryWait,
        ),
        (ReapPhaseModel::Confirming(_), ReapEventModel::Polled(Ok(true))) => (
            ReapPhaseModel::Done,
            ReapActionModel::Finish(Ok(())),
        ),
        (ReapPhaseModel::Confirming(kill_error), ReapEventModel::Polled(_)) => (
            ReapPhaseModel::Done,
            ReapActionModel::Finish(Err(kill_error)),
        ),
        (ReapPhaseModel::Waiting, ReapEventModel::Waited(outcome)) => (
            ReapPhaseModel::Done,
            ReapActionModel::Finish(outcome),
        ),
        _ => (phase, ReapActionModel::Wait),
    }
}

impl ReapPhase {
    /// Takes one step of terminating and reaping a child; see [`reap_transition`].
    pub fn step(self, event: ReapEvent) -> (next: (ReapPhase, ReapAction))
        requires
            reap_accepts(self@, event@),
        ensures
            (next.0@, next.1@) == reap_transition(self@, event@),
    {
        match (self, event) {
            (ReapPhase::Polling, ReapEvent::Polled(Err(detail))) => (
                ReapPhase::Done,
                ReapAction::Finish(Err(detail)),
            ),
            (ReapPhase::Polling, ReapEvent::Polled(Ok(exited))) => {
                if exited {
                    (ReapPhase::Done, ReapAction::Finish(Ok(())))
                } else {
                    (ReapPhase::Killing, ReapAction::StartKill)
                }
            },
            (ReapPhase::Killing, ReapEvent::KillSent(Ok(()))) => (ReapPhase::Waiting, ReapAction::Wait),
            (ReapPhase::Killing, ReapEvent::KillSent(Err(detail))) => (
                ReapPhase::Confirming(detail),
                ReapAction::TryWait,
            ),
            (ReapPhase::Confirming(kill_error), ReapEvent::Polled(polled)) => {
                match polled {
                    Ok(true) => (ReapPhase::Done, ReapAction::Finish(Ok(()))),
                    _ => (ReapPhase::Done, ReapAction::Finish(Err(kill_error))),
                }
            },
            (ReapPhase::Waiting, ReapEvent::Waited(outcome)) => (ReapPhase::Done, ReapAction::Finish(outcome)),
            (phase, _) => (phase, ReapAction::Wait),
        }
    }
}

/// Reaping reports success only after the child was seen to have exited,
/// either by a check for exit or by waiting for it.
pub proof fn lemma_reaped_only_after_exit(phase: ReapPhaseModel, event: ReapEventModel)
    requires
        reap_accepts(phase, event),
    ensures
        reap_transition(phase, event).1 == ReapActionModel::Finish(Ok(())) ==> event
            == ReapEventModel::Polled(Ok(true)) || event == ReapEventModel::Waited(Ok(())),
{
}


// ---------------------------------------------------------------------------
// Laws stated over inputs and results
// ---------------------------------------------------------------------------

/// The numeric value a character denotes as a decimal digit.
pub open spec fn digit_value(c: char) -> int {
    c as int - '0' as int
}

/// The number that a sequence of decimal digits denotes, most significant first.
pub open spec fn digits_value(digits: Seq<char>) -> int
    decreases digits.len(),
{
    if digits.len() == 0 {
        0
    } else {
        digits_value(digits.drop_last()) * 10 + digit_value(digits.last())
    }
}

/// The decimal text of a number is a nonempty string of the characters `0`
/// to `9` that denotes exactly that number, with no leading zero.
pub proof fn lemma_decimal_denotes(n: nat)
    ensures
        decimal(n).len() >= 1,
        forall|i: int| 0 <= i < decimal(n).len() ==> '0' <= #[trigger] decimal(n)[i] <= '9',
        digits_value(decimal(n)) == n,
        n > 0 ==> decimal(n)[0] != '0',
        n == 0 ==> decimal(n) == seq!['0'],
    decreases n,
{
    if n < 10 {
        assert(decimal(n).drop_last() =~= Seq::<char>::empty());
        assert(digits_value(decimal(n).drop_last()) == 0);
        assert(decimal(n).last() == digit_char(n));
        assert(digit_value(digit_char(n)) == n);
        assert(digits_value(decimal(n)) == digit_value(decimal(n).last()));
    } else {
        let q = n / 10;
        let r = n % 10;
        lemma_decimal_denotes(q);
        let d = decimal(n);
        assert(d == decimal(q).push(digit_char(r)));
        assert(d.drop_last() =~= decimal(q));
        assert(d.last() == digit_char(r));
        assert(digit_value(digit_char(r)) == r);
        assert(q * 10 + r == n) by (nonlinear_arith)
            requires
                q == n / 10,
                r == n % 10,
        ;
        assert(d[0] == decimal(q)[0]);
        assert forall|i: int| 0 <= i < d.len() implies '0' <= #[trigger] d[i] <= '9' by {
            if i < d.len() - 1 {
                assert(d[i] == decimal(q)[i]);
            }
        }
    }
}

/// Success is a zero exit status: a process that exits with any other code,
/// or that has no exit code because a signal stopped it, did not succeed.
pub proof fn lemma_success_is_zero_exit(code: i32)
    ensures
        exit_success(Some(code)) <==> code == 0,
        !exit_success(None),
{
}

/// The error each process failure becomes: an output overrun, on either
/// stream, is a resource-limit error that names the stream and the limit in
/// decimal; a failed wait or read is a capability failure that carries the
/// operating system's text.
pub proof fn lemma_failure_errors(stream: OutputStream, limit: usize, detail: Seq<char>)
    ensures
        failure_error(FailureModel::OutputLimitExceeded(stream, limit)).code
            == ErrorCode::ResourceLimitExceeded,
        failure_error(FailureModel::OutputLimitExceeded(stream, limit)).message == "process "@ + (
        if stream == OutputStream::Stdout {
            "stdout"@
        } else {
            "stderr"@
        }) + " exceeded "@ + decimal(limit as nat) + " byte output limit"@,
        digits_value(decimal(limit as nat)) == limit,
        failure_error(FailureModel::WaitFailed(detail)) == (ErrorModel {
            code: ErrorCode::CapabilityFailed,
            message: "failed to wait for process: "@ + detail,
        }),
        failure_error(FailureModel::ReadFailed(stream, detail)) == (ErrorModel {
            code: ErrorCode::CapabilityFailed,
            message: "failed to read process "@ + (if stream == OutputStream::Stdout {
                "stdout"@
            } else {
                "stderr"@
            }) + ": "@ + detail,
        }),
{
    lemma_decimal_denotes(limit as nat);
}

/// A running child that completes is reported with exactly what was
/// observed: the event's exit code, success exactly when that code is zero,
/// and the captured bytes of each stream.
pub proof fn lemma_completed_output_is_observed(
    limit: usize,
    exit_code: Option<i32>,
    stdout: BoundedModel,
    stderr: BoundedModel,
)
    requires
        process_accepts(PhaseModel::Running(limit), EventModel::Completed(exit_code, stdout, stderr)),
    ensures
        process_transition(PhaseModel::Running(limit), EventModel::Completed(exit_code, stdout, stderr))
            == (
            PhaseModel::Finished,
            ActionModel::Finish(
                Ok(
                    OutputModel {
                        success: exit_code == Some(0i32),
                        exit_code: exit_code,
                        stdout: stdout.bytes,
                        stderr: stderr.bytes,
                    },
                ),
            ),
        ),
{
}

/// Each step of a process execution, stated over its inputs: a cancelled
/// request finishes as cancelled; a started request spawns; a spawn failure
/// is a capability failure carrying the system's text; a spawned child is
/// awaited; a failure or a cancellation of a running child is reaped first
/// with the failure's error or cancellation held; a reaped child reports the
/// held error, and a failed reap reports a capability failure with its text.
pub proof fn lemma_process_steps(
    limit: usize,
    detail: Seq<char>,
    failure: FailureModel,
    held: ErrorModel,
)
    ensures
        process_transition(PhaseModel::Ready(limit), EventModel::Started(true)) == (
            PhaseModel::Finished,
            ActionModel::Finish(
                Err(ErrorModel { code: ErrorCode::Cancelled, message: "request cancelled"@ }),
            ),
        ),
        process_transition(PhaseModel::Ready(limit), EventModel::Started(false)) == (
            PhaseModel::Spawning(limit),
            ActionModel::Spawn,
        ),
        process_transition(PhaseModel::Spawning(limit), EventModel::SpawnFailed(detail)) == (
            PhaseModel::Finished,
            ActionModel::Finish(
                Err(
                    ErrorModel {
                        code: ErrorCode::CapabilityFailed,
                        message: "failed to spawn process: "@ + detail,
                    },
                ),
            ),
        ),
        process_transition(PhaseModel::Spawning(limit), EventModel::Spawned) == (
            PhaseModel::Running(limit),
            ActionModel::Await,
        ),
        process_transition(PhaseModel::Running(limit), EventModel::Failed(failure)) == (
            PhaseModel::Reaping(failure_error(failure)),
            ActionModel::Reap,
        ),
        process_transition(PhaseModel::Running(limit), EventModel::CancelObserved) == (
            PhaseModel::Reaping(
                ErrorModel { code: ErrorCode::Cancelled, message: "request cancelled"@ },
            ),
            ActionModel::Reap,
        ),
        process_transition(PhaseModel::Reaping(held), EventModel::Reaped(Ok(()))) == (
            PhaseModel::Finished,
            ActionModel::Finish(Err(held)),
        ),
        process_transition(PhaseModel::Reaping(held), EventModel::Reaped(Err(detail))) == (
            PhaseModel::Finished,
            ActionModel::Finish(
                Err(
                    ErrorModel {
                        code: ErrorCode::CapabilityFailed,
                        message: "failed to terminate and reap process: "@ + detail,
                    },
                ),
            ),
        ),
{
}

/// Each step of reaping, stated over its inputs: an exited child is left
/// alone, a running one is killed and waited for and the wait's outcome is
/// reported, a failed check is reported, and a failed kill is reported
/// unless the child is then seen to have exited.
pub proof fn lemma_reap_steps(detail: Seq<char>, kill_error: Seq<char>, waited: Result<(), Seq<char>>, polled: Result<bool, Seq<char>>)
    ensures
        reap_transition(ReapPhaseModel::Polling, ReapEventModel::Polled(Ok(true))) == (
            ReapPhaseModel::Done,
            ReapActionModel::Finish(Ok(())),
        ),
        reap_transition(ReapPhaseModel::Polling, ReapEventModel::Polled(Ok(false))) == (
            ReapPhaseModel::Killing,
            ReapActionModel::StartKill,
        ),
        reap_transition(ReapPhaseModel::Polling, ReapEventModel::Polled(Err(detail))) == (
            ReapPhaseModel::Done,
            ReapActionModel::Finish(Err(detail)),
        ),
        reap_transition(ReapPhaseModel::Killing, ReapEventModel::KillSent(Ok(()))) == (
            ReapPhaseModel::Waiting,
            ReapActionModel::Wait,
        ),
        reap_transition(ReapPhaseModel::Killing, ReapEventModel::KillSent(Err(kill_error))) == (
            ReapPhaseModel::Confirming(kill_error),
            ReapActionModel::TryWait,
        ),
        reap_transition(ReapPhaseModel::Confirming(kill_error), ReapEventModel::Polled(polled)).1
            == if polled == Ok::<bool, Seq<char>>(true) {
            ReapActionModel::Finish(Ok(()))
        } else {
            ReapActionModel::Finish(Err(kill_error))
        },
        reap_transition(ReapPhaseModel::Waiting, ReapEventModel::Waited(waited)) == (
            ReapPhaseModel::Done,
            ReapActionModel::Finish(waited),
        ),
{
}


/// The text of a request's arguments and environment is the text of each
/// entry, one for one and in order; streams are reported as `stdout` and
/// `stderr`; an outcome keeps its error text.
pub proof fn lemma_texts(strings: Seq<String>, pairs: Seq<(String, String)>, detail: String)
    ensures
        texts(strings).len() == strings.len(),
        forall|i: int| 0 <= i < strings.len() ==> #[trigger] texts(strings)[i] == strings[i]@,
        text_pairs(pairs).len() == pairs.len(),
        forall|i: int| 0 <= i < pairs.len() ==> #[trigger] text_pairs(pairs)[i] == (pairs[i].0@, pairs[i].1@),
        stream_name(OutputStream::Stdout) == "stdout"@,
        stream_name(OutputStream::Stderr) == "stderr"@,
        outcome_text(Ok(())) == Ok::<(), Seq<char>>(()),
        outcome_text(Err(detail)) == Err::<(), Seq<char>>(detail@),
{
}

} // verus!
