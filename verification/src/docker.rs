//! The container runtime as the application sees it: whether it is there,
//! whether the sandbox image is, and the supervisor of the one sandbox
//! process that the application runs.
//!
//! Commands are run and processes are spawned, signalled and polled by the
//! shell around the library. The functions here build the argument
//! vectors, read what a command printed, and keep the supervisor's state.

use vstd::prelude::*;
use vstd::string::*;
use crate::text::{join, opt_view, strings_view, trim, trimmed};

verus! {

/// The program that talks to the container runtime.
pub const DOCKER: &'static str = "docker";

/// The package runner that starts the sandbox.
pub const RUNNER: &'static str = "npx";

/// The package that the runner is asked for.
pub const SANDBOX_PACKAGE: &'static str = "@hackerai/local";

/// The image of the sandbox where the caller names none.
pub const DEFAULT_IMAGE: &'static str = "hackerai/sandbox";

/// What a status request says of a process that it has no handle for.
pub const NO_HANDLE: &'static str = "no handle for the process";

/// How long a sandbox that was asked to terminate is given, in
/// milliseconds, before it is polled.
pub const GRACE_MILLIS: u64 = 2000;

/// Whether the container runtime is there.
#[derive(Debug, Clone, PartialEq, Eq)]
pub struct DockerStatus {
    pub available: bool,
    pub version: Option<String>,
    pub error: Option<String>,
}

/// The mathematical value of a [`DockerStatus`].
pub struct DockerStatusView {
    pub available: bool,
    pub version: Option<Seq<char>>,
    pub error: Option<Seq<char>>,
}

impl View for DockerStatus {
    type V = DockerStatusView;

    open spec fn view(&self) -> DockerStatusView {
        DockerStatusView {
            available: self.available,
            version: opt_view(self.version),
            error: opt_view(self.error),
        }
    }
}

/// What the supervisor reports of the sandbox.
#[derive(Debug, Clone, PartialEq, Eq)]
pub struct SandboxStatus {
    pub running: bool,
    pub pid: Option<u32>,
    pub image: String,
    pub name: Option<String>,
}

/// The mathematical value of a [`SandboxStatus`].
pub struct SandboxStatusView {
    pub running: bool,
    pub pid: Option<u32>,
    pub image: Seq<char>,
    pub name: Option<Seq<char>>,
}

impl View for SandboxStatus {
    type V = SandboxStatusView;

    open spec fn view(&self) -> SandboxStatusView {
        SandboxStatusView {
            running: self.running,
            pid: self.pid,
            image: self.image@,
            name: opt_view(self.name),
        }
    }
}

/// How a sandbox is to be started.
#[derive(Debug, Clone, PartialEq, Eq)]
pub struct SandboxConfig {
    pub token: String,
    pub name: String,
    pub image: Option<String>,
    pub dangerous: Option<bool>,
    pub persist: Option<bool>,
}

/// The mathematical value of a [`SandboxConfig`].
pub struct SandboxConfigView {
    pub token: Seq<char>,
    pub name: Seq<char>,
    pub image: Option<Seq<char>>,
    pub dangerous: Option<bool>,
    pub persist: Option<bool>,
}

impl View for SandboxConfig {
    type V = SandboxConfigView;

    open spec fn view(&self) -> SandboxConfigView {
        SandboxConfigView {
            token: self.token@,
            name: self.name@,
            image: opt_view(self.image),
            dangerous: self.dangerous,
            persist: self.persist,
        }
    }
}

/// How the run of a command ended.
#[derive(Debug, Clone, PartialEq, Eq)]
pub enum CommandRun {
    /// The command ran to its end: whether it reported success, and what
    /// it wrote to its standard output and standard error.
    Finished { success: bool, stdout: String, stderr: String },
    /// The command could not be started.
    NotStarted(String),
}

/// The image that a request means: the one it names, or the default.
pub open spec fn image_or_default(image: Option<Seq<char>>) -> Seq<char> {
    match image {
        Some(name) => name,
        None => DEFAULT_IMAGE@,
    }
}

/// The image that a request means: the one it names, or the default.
pub fn image_name(image: Option<String>) -> (r: String)
    ensures
        r@ == image_or_default(opt_view(image)),
{
    match image {
        Some(name) => name,
        None => String::from_str(DEFAULT_IMAGE),
    }
}

/// The arguments that ask the container runtime for its version.
pub fn version_args() -> (r: Vec<String>)
    ensures
        strings_view(r@) == seq!["--version"@],
{
    let mut args: Vec<String> = Vec::new();
    args.push(String::from_str("--version"));
    args
}

/// What the run of the version command says of the container runtime:
/// available, with the trimmed output as the version, where the command
/// succeeded; not available, with what it wrote to standard error, where
/// it failed; not available, with the reason, where it did not start.
pub open spec fn docker_status(run: CommandRun) -> DockerStatusView {
    match run {
        CommandRun::Finished { success, stdout, stderr } => {
            if success {
                DockerStatusView { available: true, version: Some(trimmed(stdout@)), error: None }
            } else {
                DockerStatusView { available: false, version: None, error: Some(stderr@) }
            }
        },
        CommandRun::NotStarted(detail) => DockerStatusView {
            available: false,
            version: None,
            error: Some("Failed to run docker command: "@ + detail@),
        },
    }
}

/// Whether the container runtime is there, from how the version command
/// ended.
pub fn check_docker(run: CommandRun) -> (r: Result<DockerStatus, String>)
    ensures
        r is Ok,
        r->Ok_0@ == docker_status(run),
{
    match run {
        CommandRun::Finished { success, stdout, stderr } => {
            if success {
                Ok(
                    DockerStatus {
                        available: true,
                        version: Some(trim(stdout.as_str())),
                        error: None,
                    },
                )
            } else {
                Ok(DockerStatus { available: false, version: None, error: Some(stderr) })
            }
        },
        CommandRun::NotStarted(detail) => Ok(
            DockerStatus {
                available: false,
                version: None,
                error: Some(join("Failed to run docker command: ", detail.as_str())),
            },
        ),
    }
}

/// The arguments that ask the container runtime for the identifier of an
/// image.
pub fn image_query_args(image: Option<String>) -> (r: Vec<String>)
    ensures
        strings_view(r@) == seq!["images"@, "-q"@, image_or_default(opt_view(image))],
{
    let mut args: Vec<String> = Vec::new();
    args.push(String::from_str("images"));
    args.push(String::from_str("-q"));
    args.push(image_name(image));
    args
}

/// What the run of the image query says: the image is there where the
/// command printed anything but white space.
pub open spec fn image_present(run: CommandRun) -> Result<bool, Seq<char>> {
    match run {
        CommandRun::Finished { success, stdout, stderr } => Ok(trimmed(stdout@).len() > 0),
        CommandRun::NotStarted(detail) => Err("Failed to check image: "@ + detail@),
    }
}

/// The characters of an error, and the value of a success.
pub open spec fn err_view<T>(r: Result<T, String>) -> Result<T, Seq<char>> {
    match r {
        Ok(value) => Ok(value),
        Err(detail) => Err(detail@),
    }
}

/// Whether the sandbox image is there, from how the image query ended.
pub fn check_sandbox_image(run: CommandRun) -> (r: Result<bool, String>)
    ensures
        err_view(r) == image_present(run),
{
    match run {
        CommandRun::Finished { success, stdout, stderr } => {
            let printed = trim(stdout.as_str());
            Ok(!printed.as_str().is_empty())
        },
        CommandRun::NotStarted(detail) => Err(join("Failed to check image: ", detail.as_str())),
    }
}

/// The arguments that ask the container runtime to pull an image.
pub fn pull_args(image: Option<String>) -> (r: Vec<String>)
    ensures
        strings_view(r@) == seq!["pull"@, image_or_default(opt_view(image))],
{
    let mut args: Vec<String> = Vec::new();
    args.push(String::from_str("pull"));
    args.push(image_name(image));
    args
}

/// What the run of a pull says: done where the command succeeded, else
/// what it wrote to standard error, or why it did not start.
pub open spec fn pull_result(run: CommandRun) -> Result<(), Seq<char>> {
    match run {
        CommandRun::Finished { success, stdout, stderr } => {
            if success {
                Ok(())
            } else {
                Err("Pull failed: "@ + stderr@)
            }
        },
        CommandRun::NotStarted(detail) => Err("Failed to pull image: "@ + detail@),
    }
}

/// Whether the sandbox image was pulled, from how the pull ended.
pub fn pull_sandbox_image(run: CommandRun) -> (r: Result<(), String>)
    ensures
        err_view(r) == pull_result(run),
{
    match run {
        CommandRun::Finished { success, stdout, stderr } => {
            if success {
                Ok(())
            } else {
                Err(join("Pull failed: ", stderr.as_str()))
            }
        },
        CommandRun::NotStarted(detail) => Err(join("Failed to pull image: ", detail.as_str())),
    }
}

/// Why an operation of the supervisor failed.
#[derive(Debug, Clone, PartialEq, Eq)]
pub enum SandboxError {
    /// A sandbox is held already.
    AlreadyRunning,
    /// The sandbox could not be spawned or polled; the text says which and
    /// why.
    Process(String),
}

/// The mathematical value of a [`SandboxError`].
pub enum SandboxErrorView {
    AlreadyRunning,
    Process(Seq<char>),
}

impl View for SandboxError {
    type V = SandboxErrorView;

    open spec fn view(&self) -> SandboxErrorView {
        match self {
            SandboxError::AlreadyRunning => SandboxErrorView::AlreadyRunning,
            SandboxError::Process(text) => SandboxErrorView::Process(text@),
        }
    }
}

impl SandboxError {
    /// The line that describes the error to the user.
    pub fn message(&self) -> (r: String)
        ensures
            r@ == match self@ {
                SandboxErrorView::AlreadyRunning => "Sandbox is already running"@,
                SandboxErrorView::Process(text) => text,
            },
    {
        match self {
            SandboxError::AlreadyRunning => String::from_str("Sandbox is already running"),
            SandboxError::Process(text) => text.clone(),
        }
    }
}

/// The sandbox process that the supervisor holds, by its process id.
#[derive(Debug, Clone, Copy, PartialEq, Eq, Structural)]
pub struct SandboxProcess {
    pub pid: u32,
}

/// The supervisor's state: the one sandbox process that it holds, or none.
#[derive(Debug, Clone, Copy, PartialEq, Eq, Structural)]
pub struct SandboxState {
    pub process: Option<SandboxProcess>,
}

impl SandboxState {
    /// A supervisor that holds no process.
    pub fn new() -> (r: SandboxState)
        ensures
            r.process is None,
    {
        SandboxState { process: None }
    }

    /// Whether a process is held.
    pub open spec fn is_running(&self) -> bool {
        self.process is Some
    }

    /// The id of the held process, if there is one: the process to poll
    /// before the status is asked for.
    pub fn pid(&self) -> (r: Option<u32>)
        ensures
            r == match self.process {
                Some(process) => Some(process.pid),
                None => None,
            },
    {
        match self.process {
            Some(process) => Some(process.pid),
            None => None,
        }
    }
}

impl Default for SandboxState {
    fn default() -> (r: SandboxState)
        ensures
            r.process is None,
    {
        SandboxState { process: None }
    }
}

/// The flag of an option that is set.
pub open spec fn flag(option: Option<bool>, name: Seq<char>) -> Seq<Seq<char>> {
    if option == Some(true) {
        seq![name]
    } else {
        Seq::empty()
    }
}

/// The arguments that start a sandbox: the package, then the token, the
/// name and the image, each after its flag, then `--dangerous` and
/// `--persist` where the configuration sets them.
pub open spec fn sandbox_args(config: SandboxConfigView) -> Seq<Seq<char>> {
    seq![
        SANDBOX_PACKAGE@,
        "--token"@,
        config.token,
        "--name"@,
        config.name,
        "--image"@,
        image_or_default(config.image),
    ] + flag(config.dangerous, "--dangerous"@) + flag(config.persist, "--persist"@)
}

/// What is to be spawned to start a sandbox.
#[derive(Debug, Clone, PartialEq, Eq)]
pub struct SpawnRequest {
    pub program: String,
    pub args: Vec<String>,
    pub image: String,
    pub name: String,
}

/// The mathematical value of a [`SpawnRequest`].
pub struct SpawnRequestView {
    pub program: Seq<char>,
    pub args: Seq<Seq<char>>,
    pub image: Seq<char>,
    pub name: Seq<char>,
}

impl View for SpawnRequest {
    type V = SpawnRequestView;

    open spec fn view(&self) -> SpawnRequestView {
        SpawnRequestView {
            program: self.program@,
            args: strings_view(self.args@),
            image: self.image@,
            name: self.name@,
        }
    }
}

/// The request that a configuration asks for.
pub open spec fn spawn_request(config: SandboxConfigView) -> SpawnRequestView {
    SpawnRequestView {
        program: RUNNER@,
        args: sandbox_args(config),
        image: image_or_default(config.image),
        name: config.name,
    }
}

/// How a spawn ended.
#[derive(Debug, Clone, PartialEq, Eq)]
pub enum SpawnOutcome {
    /// The process runs, under this id.
    Spawned(u32),
    /// No process was started.
    Failed(String),
}

/// What a poll of a process found.
#[derive(Debug, Clone, PartialEq, Eq)]
pub enum PollOutcome {
    /// The process has exited.
    Exited,
    /// The process still runs.
    Running,
    /// The poll itself failed.
    Failed(String),
    /// There was no handle to poll the process by.
    NoHandle,
}

/// The arguments that start a sandbox.
pub fn build_args(config: &SandboxConfig) -> (r: Vec<String>)
    ensures
        strings_view(r@) == sandbox_args(config@),
{
    let mut args: Vec<String> = Vec::new();
    args.push(String::from_str(SANDBOX_PACKAGE));
    args.push(String::from_str("--token"));
    args.push(config.token.clone());
    args.push(String::from_str("--name"));
    args.push(config.name.clone());
    args.push(String::from_str("--image"));
    args.push(image_name(config.image.clone()));
    let dangerous = match config.dangerous {
        Some(set) => set,
        None => false,
    };
    if dangerous {
        args.push(String::from_str("--dangerous"));
    }
    let persist = match config.persist {
        Some(set) => set,
        None => false,
    };
    if persist {
        args.push(String::from_str("--persist"));
    }
    args
}

/// Decides whether a sandbox may be started. Where a process is held the
/// answer is [`SandboxError::AlreadyRunning`], and nothing is to be
/// spawned; else it is the request to spawn.
pub fn prepare_start(state: &SandboxState, config: &SandboxConfig) -> (r: Result<
    SpawnRequest,
    SandboxError,
>)
    ensures
        state.is_running() ==> r == Err::<SpawnRequest, SandboxError>(SandboxError::AlreadyRunning),
        !state.is_running() ==> r is Ok && r->Ok_0@ == spawn_request(config@),
{
    if state.process.is_some() {
        return Err(SandboxError::AlreadyRunning);
    }
    Ok(
        SpawnRequest {
            program: String::from_str(RUNNER),
            args: build_args(config),
            image: image_name(config.image.clone()),
            name: config.name.clone(),
        },
    )
}

/// The status of a sandbox that runs.
pub open spec fn running_status(
    pid: u32,
    image: Seq<char>,
    name: Option<Seq<char>>,
) -> SandboxStatusView {
    SandboxStatusView { running: true, pid: Some(pid), image, name }
}

/// The status of a supervisor that holds no process.
pub open spec fn stopped_status() -> SandboxStatusView {
    SandboxStatusView { running: false, pid: None, image: DEFAULT_IMAGE@, name: None }
}

/// Takes in how the spawn of a request ended. Where a process is held
/// already, the answer is [`SandboxError::AlreadyRunning`]; where the
/// spawn failed, it is a process error; in both cases the state stays as
/// it is. Else the supervisor now holds the process, and the answer is its
/// status.
pub fn start_sandbox(state: &mut SandboxState, request: SpawnRequest, outcome: SpawnOutcome) -> (r:
    Result<SandboxStatus, SandboxError>)
    ensures
        old(state).is_running() ==> *final(state) == *old(state) && r == Err::<
            SandboxStatus,
            SandboxError,
        >(SandboxError::AlreadyRunning),
        !old(state).is_running() ==> match outcome {
            SpawnOutcome::Spawned(pid) => {
                &&& final(state).process == Some(SandboxProcess { pid })
                &&& r is Ok
                &&& r->Ok_0@ == running_status(pid, request.image@, Some(request.name@))
            },
            SpawnOutcome::Failed(detail) => {
                &&& *final(state) == *old(state)
                &&& r is Err
                &&& r->Err_0@ == SandboxErrorView::Process("Failed to start sandbox: "@ + detail@)
            },
        },
{
    if state.process.is_some() {
        return Err(SandboxError::AlreadyRunning);
    }
    match outcome {
        SpawnOutcome::Spawned(pid) => {
            state.process = Some(SandboxProcess { pid });
            Ok(
                SandboxStatus {
                    running: true,
                    pid: Some(pid),
                    image: request.image,
                    name: Some(request.name),
                },
            )
        },
        SpawnOutcome::Failed(detail) => Err(
            SandboxError::Process(join("Failed to start sandbox: ", detail.as_str())),
        ),
    }
}

/// What the shell reports to the supervisor while a sandbox is stopped.
/// Every report but the request names the process that it is about, so
/// that a stop never acts on a process that was started after it began.
#[derive(Debug, Clone, PartialEq, Eq)]
pub enum StopEvent {
    /// A stop is asked for. `graceful` says whether the platform can ask
    /// a process to terminate by itself.
    Requested { graceful: bool },
    /// The process was asked to terminate; whether the request arrived is
    /// not known.
    TerminateSent { pid: u32 },
    /// The grace period is over.
    GraceElapsed { pid: u32 },
    /// The process was polled.
    Polled { pid: u32, outcome: PollOutcome },
    /// The process was killed, or the kill was tried and failed.
    KillAttempted { pid: u32 },
}

/// What the shell is to do next while a sandbox is stopped.
#[derive(Debug, Clone, Copy, PartialEq, Eq, Structural)]
pub enum StopAction {
    /// Nothing: the stop is over.
    Finished,
    /// Ask the process to terminate, then report [`StopEvent::TerminateSent`].
    Terminate { pid: u32 },
    /// Wait that long, then report [`StopEvent::GraceElapsed`].
    Wait { pid: u32, millis: u64 },
    /// Poll the process without blocking, then report [`StopEvent::Polled`].
    Poll { pid: u32 },
    /// Kill the process, then report [`StopEvent::KillAttempted`].
    Kill { pid: u32 },
}

/// Whether an event is about the process `pid`: the request is about
/// whatever process is held, every other event about the one it names.
pub open spec fn concerns(event: StopEvent, pid: u32) -> bool {
    match event {
        StopEvent::Requested { graceful } => true,
        StopEvent::TerminateSent { pid: named } => named == pid,
        StopEvent::GraceElapsed { pid: named } => named == pid,
        StopEvent::Polled { pid: named, outcome } => named == pid,
        StopEvent::KillAttempted { pid: named } => named == pid,
    }
}

/// One step of a stop: the state after an event, and the next action.
///
/// With no process held there is nothing to stop, whatever the event; and
/// an event about another process than the one held ends the stop and
/// leaves the held process alone. Else a request leads to the request to
/// terminate where the platform has one and straight to the poll where it
/// has none; the request to terminate is followed by the grace period, the
/// grace period by one poll. A process that the poll finds exited, or for
/// which there is no handle to poll or kill it by, is let go of. One that
/// still runs, or whose poll failed, is killed, and let go of whatever
/// became of the kill.
pub open spec fn stop_step(state: SandboxState, event: StopEvent) -> (SandboxState, StopAction) {
    match state.process {
        None => (state, StopAction::Finished),
        Some(process) => if !concerns(event, process.pid) {
            (state, StopAction::Finished)
        } else {
            match event {
                StopEvent::Requested { graceful } => if graceful {
                    (state, StopAction::Terminate { pid: process.pid })
                } else {
                    (state, StopAction::Poll { pid: process.pid })
                },
                StopEvent::TerminateSent { pid } => (
                    state,
                    StopAction::Wait { pid: process.pid, millis: GRACE_MILLIS },
                ),
                StopEvent::GraceElapsed { pid } => (state, StopAction::Poll { pid: process.pid }),
                StopEvent::Polled { pid, outcome: PollOutcome::Exited } => (
                    SandboxState { process: None },
                    StopAction::Finished,
                ),
                StopEvent::Polled { pid, outcome: PollOutcome::NoHandle } => (
                    SandboxState { process: None },
                    StopAction::Finished,
                ),
                StopEvent::Polled { pid, outcome } => (
                    state,
                    StopAction::Kill { pid: process.pid },
                ),
                StopEvent::KillAttempted { pid } => (
                    SandboxState { process: None },
                    StopAction::Finished,
                ),
            }
        },
    }
}

/// Takes one step of a stop: moves the supervisor on by `event` and says
/// what the shell is to do next. A stop begins with
/// [`StopEvent::Requested`] and is over at [`StopAction::Finished`].
pub fn stop_sandbox(state: &mut SandboxState, event: StopEvent) -> (r: StopAction)
    ensures
        (*final(state), r) == stop_step(*old(state), event),
{
    let held = match state.process {
        None => {
            return StopAction::Finished;
        },
        Some(process) => process.pid,
    };
    match event {
        StopEvent::Requested { graceful } => {
            if graceful {
                StopAction::Terminate { pid: held }
            } else {
                StopAction::Poll { pid: held }
            }
        },
        StopEvent::TerminateSent { pid } => {
            if pid != held {
                return StopAction::Finished;
            }
            StopAction::Wait { pid: held, millis: GRACE_MILLIS }
        },
        StopEvent::GraceElapsed { pid } => {
            if pid != held {
                return StopAction::Finished;
            }
            StopAction::Poll { pid: held }
        },
        StopEvent::Polled { pid, outcome } => {
            if pid != held {
                return StopAction::Finished;
            }
            match outcome {
                PollOutcome::Exited | PollOutcome::NoHandle => {
                    state.process = None;
                    StopAction::Finished
                },
                _ => StopAction::Kill { pid: held },
            }
        },
        StopEvent::KillAttempted { pid } => {
            if pid != held {
                return StopAction::Finished;
            }
            state.process = None;
            StopAction::Finished
        },
    }
}

/// What a status request yields: the state afterwards, and the answer.
/// `poll` is what a poll of the held process found, or `None` where no
/// poll was made.
///
/// With no process held the sandbox is stopped. A held process that the
/// poll finds running, or that was not polled, is reported as running,
/// under its id. One that has exited is let go of, and the sandbox is
/// stopped. Where the poll itself failed, or there was no handle to poll
/// by, the process is let go of and the answer is a process error.
pub open spec fn status_step(state: SandboxState, poll: Option<PollOutcome>) -> (
    SandboxState,
    Result<SandboxStatusView, SandboxErrorView>,
) {
    match state.process {
        None => (state, Ok(stopped_status())),
        Some(process) => match poll {
            None => (state, Ok(running_status(process.pid, DEFAULT_IMAGE@, None))),
            Some(PollOutcome::Running) => (
                state,
                Ok(running_status(process.pid, DEFAULT_IMAGE@, None)),
            ),
            Some(PollOutcome::Exited) => (SandboxState { process: None }, Ok(stopped_status())),
            Some(PollOutcome::Failed(detail)) => (
                SandboxState { process: None },
                Err(SandboxErrorView::Process("Status check failed: "@ + detail@)),
            ),
            Some(PollOutcome::NoHandle) => (
                SandboxState { process: None },
                Err(SandboxErrorView::Process("Status check failed: "@ + NO_HANDLE@)),
            ),
        },
    }
}

/// The mathematical value of the answer to a status request.
pub open spec fn status_view(r: Result<SandboxStatus, SandboxError>) -> Result<
    SandboxStatusView,
    SandboxErrorView,
> {
    match r {
        Ok(status) => Ok(status@),
        Err(error) => Err(error@),
    }
}

/// The status of the sandbox. `poll` is what a poll of the held process
/// found, made without blocking just before the call, or `None` where
/// there was no process to poll. The status names the default image and no
/// name, whatever the sandbox was started with.
pub fn get_sandbox_status(state: &mut SandboxState, poll: Option<PollOutcome>) -> (r: Result<
    SandboxStatus,
    SandboxError,
>)
    ensures
        (*final(state), status_view(r)) == status_step(*old(state), poll),
{
    let process = match state.process {
        None => {
            return Ok(
                SandboxStatus {
                    running: false,
                    pid: None,
                    image: String::from_str(DEFAULT_IMAGE),
                    name: None,
                },
            );
        },
        Some(process) => process,
    };
    match poll {
        None | Some(PollOutcome::Running) => Ok(
            SandboxStatus {
                running: true,
                pid: Some(process.pid),
                image: String::from_str(DEFAULT_IMAGE),
                name: None,
            },
        ),
        Some(PollOutcome::Exited) => {
            state.process = None;
            Ok(
                SandboxStatus {
                    running: false,
                    pid: None,
                    image: String::from_str(DEFAULT_IMAGE),
                    name: None,
                },
            )
        },
        Some(PollOutcome::Failed(detail)) => {
            state.process = None;
            Err(SandboxError::Process(join("Status check failed: ", detail.as_str())))
        },
        Some(PollOutcome::NoHandle) => {
            state.process = None;
            Err(SandboxError::Process(join("Status check failed: ", NO_HANDLE)))
        },
    }
}

/// The event that the shell reports once it has done what `action` asks;
/// `poll` is what the poll finds, if it comes to one.
pub open spec fn report_of(action: StopAction, poll: PollOutcome) -> StopEvent {
    match action {
        StopAction::Terminate { pid } => StopEvent::TerminateSent { pid },
        StopAction::Wait { pid, millis } => StopEvent::GraceElapsed { pid },
        StopAction::Poll { pid } => StopEvent::Polled { pid, outcome: poll },
        StopAction::Kill { pid } => StopEvent::KillAttempted { pid },
        StopAction::Finished => StopEvent::Requested { graceful: false },
    }
}

/// The state in which a stop ends that starts in `state` with `event`, if
/// it ends within `steps` steps.
pub open spec fn stop_end(
    state: SandboxState,
    event: StopEvent,
    poll: PollOutcome,
    steps: nat,
) -> Option<SandboxState>
    decreases steps,
{
    if steps == 0 {
        None
    } else {
        let (next, action) = stop_step(state, event);
        if action == StopAction::Finished {
            Some(next)
        } else {
            stop_end(next, report_of(action, poll), poll, (steps - 1) as nat)
        }
    }
}

/// With no process held a stop is over at once, whatever the event, and
/// the supervisor stays as it is.
pub proof fn lemma_stop_without_process(state: SandboxState, event: StopEvent)
    requires
        !state.is_running(),
    ensures
        stop_step(state, event) == (state, StopAction::Finished),
{
}

/// A stop that is not disturbed always ends, after five steps at most, and
/// the supervisor then holds no process: whether or not the platform can
/// ask a process to terminate, whatever the poll finds, and whatever became
/// of the kill.
pub proof fn lemma_stop_converges(state: SandboxState, graceful: bool, poll: PollOutcome)
    ensures
        stop_end(state, StopEvent::Requested { graceful }, poll, 5) == Some(
            SandboxState { process: None },
        ),
{
    reveal_with_fuel(stop_end, 6);
}

/// A report about a process that is no longer the one held ends the stop
/// and touches nothing: a sandbox that was started while an earlier one
/// was being stopped is neither signalled, polled nor killed by that stop.
pub proof fn lemma_stop_spares_another_process(state: SandboxState, event: StopEvent, pid: u32)
    requires
        state.process == Some(SandboxProcess { pid }),
        !concerns(event, pid),
    ensures
        stop_step(state, event) == (state, StopAction::Finished),
{
}

/// Every action of a stop is about the process that is held.
pub proof fn lemma_stop_acts_on_the_held_process(state: SandboxState, event: StopEvent)
    ensures
        match stop_step(state, event).1 {
            StopAction::Finished => true,
            StopAction::Terminate { pid } => state.process == Some(SandboxProcess { pid }),
            StopAction::Wait { pid, millis } => state.process == Some(SandboxProcess { pid })
                && millis == GRACE_MILLIS,
            StopAction::Poll { pid } => state.process == Some(SandboxProcess { pid }),
            StopAction::Kill { pid } => state.process == Some(SandboxProcess { pid }),
        },
{
}

/// A process is killed only after a poll of that process that found it
/// running or that failed.
pub proof fn lemma_kill_follows_poll(state: SandboxState, event: StopEvent)
    requires
        stop_step(state, event).1 is Kill,
    ensures
        event is Polled,
        event->outcome is Running || event->outcome is Failed,
        event->Polled_pid == stop_step(state, event).1->Kill_pid,
        state.process == Some(SandboxProcess { pid: stop_step(state, event).1->Kill_pid }),
{
}

/// What a status request answers is what the supervisor then holds: it
/// reports a running sandbox exactly where a process is still held, under
/// the id of that process; and an error leaves no process held.
pub proof fn lemma_status_agrees_with_state(state: SandboxState, poll: Option<PollOutcome>)
    ensures
        ({
            let (next, answer) = status_step(state, poll);
            match answer {
                Ok(status) => {
                    &&& status.running == next.is_running()
                    &&& status.pid == match next.process {
                        Some(process) => Some(process.pid),
                        None => None,
                    }
                },
                Err(_) => !next.is_running(),
            }
        }),
{
}

/// A status request lets go of a process only where a poll was made and
/// did not find it running, and never takes one up.
pub proof fn lemma_status_keeps_a_running_process(state: SandboxState, poll: Option<PollOutcome>)
    ensures
        status_step(state, poll).0 == state || (state.is_running() && poll is Some && !(
        poll->Some_0 is Running) && !status_step(state, poll).0.is_running()),
{
}

} // verus!
