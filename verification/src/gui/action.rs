//! Starting and stopping the service from the user interface: a helper runs with administrator
//! rights, and then the interface watches the state of the service until it has changed.

use vstd::prelude::*;
use vstd::string::*;

use crate::failure::{outcome, text_outcome, Failure};
use crate::file_path::{path_outcome, FilePath, FilePathValue};
use crate::platform::Platform;
use crate::state::{idle_state, state_or_default, state_outcome, ServiceState, ServiceStateValue};
use crate::text::{same_opt_text, same_text, texts};

verus! {

/// What the user can ask for.
#[derive(Debug, Clone, Copy, PartialEq, Eq, Structural)]
pub enum GuiAction {
    Start,
    Stop,
}

impl GuiAction {
    /// What is shown while the action is under way.
    pub open spec fn pending_text(self) -> Seq<char> {
        match self {
            GuiAction::Start => "正在申请权限并启动加速..."@,
            GuiAction::Stop => "正在停止加速并恢复 hosts..."@,
        }
    }

    /// The subcommand of the program that carries the action out.
    pub open spec fn subcommand_text(self) -> Seq<char> {
        match self {
            GuiAction::Start => "helper-start"@,
            GuiAction::Stop => "helper-stop"@,
        }
    }

    /// The message that stands above the cause where the action fails.
    pub open spec fn error_text(self) -> Seq<char> {
        match self {
            GuiAction::Start => "elevation or command execution failed"@,
            GuiAction::Stop => "failed to stop acceleration from GUI"@,
        }
    }

    /// What is shown while the action is under way.
    pub fn pending_message(self) -> (text: &'static str)
        ensures
            text@ == self.pending_text(),
    {
        match self {
            GuiAction::Start => "正在申请权限并启动加速...",
            GuiAction::Stop => "正在停止加速并恢复 hosts...",
        }
    }

    /// The subcommand of the program that carries the action out.
    pub fn subcommand(self) -> (text: &'static str)
        ensures
            text@ == self.subcommand_text(),
    {
        match self {
            GuiAction::Start => "helper-start",
            GuiAction::Stop => "helper-stop",
        }
    }

    /// The title of the window that asks for confirmation.
    pub fn confirm_title(self) -> (text: &'static str)
        ensures
            text@ == "确认操作"@,
    {
        "确认操作"
    }

    /// The label of the button that confirms.
    pub fn confirm_button(self) -> (text: &'static str)
        ensures
            text@ == "确认"@,
    {
        "确认"
    }

    /// The message that stands above the cause where the action fails.
    pub fn error_context(self) -> (text: &'static str)
        ensures
            text@ == self.error_text(),
    {
        match self {
            GuiAction::Start => "elevation or command execution failed",
            GuiAction::Stop => "failed to stop acceleration from GUI",
        }
    }
}

/// Whether two states of the service differ in anything.
pub fn service_state_changed(before: &ServiceState, after: &ServiceState) -> (changed: bool)
    ensures
        changed == (before@ != after@),
{
    before.running != after.running || before.pid != after.pid || !same_text(
        before.status_text.as_str(),
        after.status_text.as_str(),
    ) || !same_opt_text(&before.last_error, &after.last_error) || before.updated_at
        != after.updated_at
}

// ---------------------------------------------------------------------------------------------
// Requests and replies
// ---------------------------------------------------------------------------------------------

/// The weight of a line in the log.
#[derive(Debug, Clone, Copy, PartialEq, Eq, Structural)]
pub enum LogLevel {
    Info,
    Warn,
    Error,
}

impl LogLevel {
    /// The name that stands in the log.
    pub fn name(self) -> (text: &'static str)
        ensures
            text@ == (match self {
                LogLevel::Info => "INFO"@,
                LogLevel::Warn => "WARN"@,
                LogLevel::Error => "ERROR"@,
            }),
    {
        match self {
            LogLevel::Info => "INFO",
            LogLevel::Warn => "WARN",
            LogLevel::Error => "ERROR",
        }
    }
}

/// What an action asks to be done next.
#[derive(Debug)]
pub enum Request<P> {
    /// Prepare the certificate of macOS.
    PrepareCertificate,
    /// Ask for the state of the service.
    QueryStatus,
    /// Add a line to the log, under the name of the subcommand; whether that works is no matter.
    Log(LogLevel, String),
    /// Find the program.
    LocateBinary,
    /// Run the program with these arguments and administrator rights.
    RunElevated(FilePath<P>, Vec<String>),
    /// Wait for so many milliseconds.
    Sleep(u64),
    /// The action is over, with a message or a failure.
    Finish(Result<String, Failure>),
}

/// What an action asks to be done next, as values.
pub enum RequestValue<P> {
    PrepareCertificate,
    QueryStatus,
    Log(LogLevel, Seq<char>),
    LocateBinary,
    RunElevated(FilePathValue<P>, Seq<Seq<char>>),
    Sleep(u64),
    Finish(Result<Seq<char>, Seq<Seq<char>>>),
}

impl<P> View for Request<P> {
    type V = RequestValue<P>;

    open spec fn view(&self) -> RequestValue<P> {
        match self {
            Request::PrepareCertificate => RequestValue::PrepareCertificate,
            Request::QueryStatus => RequestValue::QueryStatus,
            Request::Log(level, line) => RequestValue::Log(*level, line@),
            Request::LocateBinary => RequestValue::LocateBinary,
            Request::RunElevated(binary, args) => RequestValue::RunElevated(
                binary@,
                texts(args@),
            ),
            Request::Sleep(millis) => RequestValue::Sleep(*millis),
            Request::Finish(result) => RequestValue::Finish(text_outcome(*result)),
        }
    }
}

/// What came of a request.
#[derive(Debug)]
pub enum Reply<P> {
    /// The certificate was prepared or not.
    Prepared(Result<(), Failure>),
    /// The state of the service, the seconds since the epoch, and the milliseconds since the
    /// program ran with administrator rights.
    Status { status: Result<ServiceState, Failure>, now: u64, waited: u64 },
    /// The line was added to the log, or could not be.
    Logged,
    /// The program was found or not.
    Located(Result<FilePath<P>, Failure>),
    /// The program ran with administrator rights or not.
    Elevated(Result<(), Failure>),
    /// The wait is over.
    Slept,
}

/// What came of a request, as values.
pub enum ReplyValue<P> {
    Prepared(Result<(), Seq<Seq<char>>>),
    Status { status: Result<ServiceStateValue, Seq<Seq<char>>>, now: u64, waited: u64 },
    Logged,
    Located(Result<FilePathValue<P>, Seq<Seq<char>>>),
    Elevated(Result<(), Seq<Seq<char>>>),
    Slept,
}

impl<P> View for Reply<P> {
    type V = ReplyValue<P>;

    open spec fn view(&self) -> ReplyValue<P> {
        match self {
            Reply::Prepared(result) => ReplyValue::Prepared(outcome(*result)),
            Reply::Status { status, now, waited } => ReplyValue::Status {
                status: state_outcome(*status),
                now: *now,
                waited: *waited,
            },
            Reply::Logged => ReplyValue::Logged,
            Reply::Located(result) => ReplyValue::Located(path_outcome(*result)),
            Reply::Elevated(result) => ReplyValue::Elevated(outcome(*result)),
            Reply::Slept => ReplyValue::Slept,
        }
    }
}

// ---------------------------------------------------------------------------------------------
// The course of an action
// ---------------------------------------------------------------------------------------------

/// How far an action has come.
#[derive(Debug)]
pub enum Phase {
    /// The certificate is being prepared.
    Preparing,
    /// The state before the action is being asked for.
    Asking,
    /// The log is being told that the action begins.
    Announcing { before: ServiceState },
    /// The program is being looked for.
    Locating { before: ServiceState },
    /// The program is running with administrator rights.
    Elevating { before: ServiceState },
    /// The program failed, and the state is being asked for the reason.
    Explaining { before: ServiceState, error: Failure },
    /// The log is being told why the action failed.
    Reporting { failure: Failure },
    /// The program has run, and the state is being asked for.
    Watching,
    /// The state has not changed yet.
    Pausing,
    /// The action is over.
    Over,
}

/// How far an action has come, as values.
pub enum PhaseValue {
    Preparing,
    Asking,
    Announcing { before: ServiceStateValue },
    Locating { before: ServiceStateValue },
    Elevating { before: ServiceStateValue },
    Explaining { before: ServiceStateValue, error: Seq<Seq<char>> },
    Reporting { failure: Seq<Seq<char>> },
    Watching,
    Pausing,
    Over,
}

impl View for Phase {
    type V = PhaseValue;

    open spec fn view(&self) -> PhaseValue {
        match self {
            Phase::Preparing => PhaseValue::Preparing,
            Phase::Asking => PhaseValue::Asking,
            Phase::Announcing { before } => PhaseValue::Announcing { before: before@ },
            Phase::Locating { before } => PhaseValue::Locating { before: before@ },
            Phase::Elevating { before } => PhaseValue::Elevating { before: before@ },
            Phase::Explaining { before, error } => PhaseValue::Explaining {
                before: before@,
                error: error@,
            },
            Phase::Reporting { failure } => PhaseValue::Reporting { failure: failure@ },
            Phase::Watching => PhaseValue::Watching,
            Phase::Pausing => PhaseValue::Pausing,
            Phase::Over => PhaseValue::Over,
        }
    }
}

impl PhaseValue {
    /// The reply is one to the request that led to this phase.
    pub open spec fn awaits<P>(self, reply: ReplyValue<P>) -> bool {
        match self {
            PhaseValue::Preparing => reply is Prepared,
            PhaseValue::Asking => reply is Status,
            PhaseValue::Announcing { .. } => reply is Logged,
            PhaseValue::Locating { .. } => reply is Located,
            PhaseValue::Elevating { .. } => reply is Elevated,
            PhaseValue::Explaining { .. } => reply is Status,
            PhaseValue::Reporting { .. } => reply is Logged,
            PhaseValue::Watching => reply is Status,
            PhaseValue::Pausing => reply is Slept,
            PhaseValue::Over => false,
        }
    }
}

/// The milliseconds that the service has to change its state.
pub const PATIENCE_MILLIS: u64 = 12_000;

/// The milliseconds between two looks at the state.
pub const PAUSE_MILLIS: u64 = 200;

/// The arguments of the program.
pub open spec fn helper_args(config_path: Seq<char>, action: GuiAction) -> Seq<Seq<char>> {
    seq!["--config"@, config_path, action.subcommand_text()]
}

/// The first phase of an action and its first request.
pub open spec fn first_step<P>(platform: Platform, action: GuiAction) -> (PhaseValue, RequestValue<P>) {
    if platform is Macos && action is Start {
        (PhaseValue::Preparing, RequestValue::PrepareCertificate)
    } else {
        (PhaseValue::Asking, RequestValue::QueryStatus)
    }
}

/// The end of an action.
pub open spec fn over<P>(result: Result<Seq<char>, Seq<Seq<char>>>) -> (PhaseValue, RequestValue<P>) {
    (PhaseValue::Over, RequestValue::Finish(result))
}

/// The log is told of a failure, and then the action ends with it, below the action's own message.
pub open spec fn report<P>(
    action: GuiAction,
    level: LogLevel,
    line: Seq<char>,
    causes: Seq<Seq<char>>,
) -> (PhaseValue, RequestValue<P>) {
    (
        PhaseValue::Reporting { failure: seq![action.error_text()] + causes },
        RequestValue::Log(level, line),
    )
}

/// What is made of the failure of the program, given the state of the service after it: an error
/// in the state is the reason; a state that has changed under a stop is; and otherwise the failure
/// itself is.
pub open spec fn explained<P>(
    action: GuiAction,
    before: ServiceStateValue,
    error: Seq<Seq<char>>,
    status: Result<ServiceStateValue, Seq<Seq<char>>>,
) -> (PhaseValue, RequestValue<P>) {
    let plain = report(action, LogLevel::Error, "GUI 提权执行失败："@ + error[0], error);
    match status {
        Err(_) => plain,
        Ok(status) => match status.last_error {
            Some(last_error) => report(
                action,
                LogLevel::Error,
                "GUI 操作失败："@ + last_error,
                seq![last_error],
            ),
            None => if action is Stop && before != status {
                report(
                    action,
                    LogLevel::Warn,
                    "GUI 检测到状态已变化："@ + status.status_text,
                    seq![status.status_text],
                )
            } else {
                plain
            },
        },
    }
}

/// What is made of the state of the service after the program has run: the action is over once
/// the service runs or has stopped, as asked for; an error in the state ends it; and so does
/// the end of the patience.
pub open spec fn watched<P>(
    action: GuiAction,
    status: Result<ServiceStateValue, Seq<Seq<char>>>,
    waited: u64,
) -> (PhaseValue, RequestValue<P>) {
    match status {
        Err(causes) => over(Err(causes)),
        Ok(status) => if action is Start && status.running {
            over(Ok("加速已启动，可以直接最小化窗口"@))
        } else if action is Stop && !status.running {
            over(Ok(status.status_text))
        } else {
            match status.last_error {
                Some(error) => over(Err(seq![error])),
                None => if waited >= PATIENCE_MILLIS {
                    over(
                        Err(
                            seq![
                                "service state did not update in time (status: "@
                                    + status.status_text + ")"@,
                            ],
                        ),
                    )
                } else {
                    (PhaseValue::Pausing, RequestValue::Sleep(PAUSE_MILLIS))
                },
            }
        },
    }
}

/// The phase that follows a reply, and the next request.
pub open spec fn next_step<P>(
    action: GuiAction,
    config_path: Seq<char>,
    phase: PhaseValue,
    reply: ReplyValue<P>,
) -> (PhaseValue, RequestValue<P>) {
    match (phase, reply) {
        (PhaseValue::Preparing, ReplyValue::Prepared(Ok(_))) => (
            PhaseValue::Asking,
            RequestValue::QueryStatus,
        ),
        (PhaseValue::Preparing, ReplyValue::Prepared(Err(causes))) => over(
            Err(seq!["macOS certificate preparation failed"@] + causes),
        ),
        (PhaseValue::Asking, ReplyValue::Status { status, now, .. }) => (
            PhaseValue::Announcing {
                before: match status {
                    Ok(status) => status,
                    Err(_) => idle_state(now),
                },
            },
            RequestValue::Log(LogLevel::Info, "GUI 已发起管理员操作请求"@),
        ),
        (PhaseValue::Announcing { before }, _) => (
            PhaseValue::Locating { before },
            RequestValue::LocateBinary,
        ),
        (PhaseValue::Locating { before }, ReplyValue::Located(Ok(binary))) => (
            PhaseValue::Elevating { before },
            RequestValue::RunElevated(binary, helper_args(config_path, action)),
        ),
        (PhaseValue::Locating { .. }, ReplyValue::Located(Err(causes))) => over(Err(causes)),
        (PhaseValue::Elevating { .. }, ReplyValue::Elevated(Ok(_))) => (
            PhaseValue::Watching,
            RequestValue::QueryStatus,
        ),
        (PhaseValue::Elevating { before }, ReplyValue::Elevated(Err(error))) => (
            PhaseValue::Explaining { before, error },
            RequestValue::QueryStatus,
        ),
        (PhaseValue::Explaining { before, error }, ReplyValue::Status { status, .. }) => explained(
            action,
            before,
            error,
            status,
        ),
        (PhaseValue::Reporting { failure }, _) => over(Err(failure)),
        (PhaseValue::Watching, ReplyValue::Status { status, waited, .. }) => watched(
            action,
            status,
            waited,
        ),
        (PhaseValue::Pausing, _) => (PhaseValue::Watching, RequestValue::QueryStatus),
        _ => (phase, RequestValue::QueryStatus),
    }
}

/// An action that is under way.
#[derive(Debug)]
pub struct ActionRun {
    pub action: GuiAction,
    pub config_path: String,
    pub phase: Phase,
}

/// Adds the log line of a failure and the failure itself.
fn reporting<P>(action: GuiAction, level: LogLevel, line: String, cause: Failure) -> (step: (
    Phase,
    Request<P>,
))
    ensures
        (step.0@, step.1@) == report::<P>(action, level, line@, cause@),
{
    let failure = cause.context(action.error_context().to_string());
    (Phase::Reporting { failure }, Request::Log(level, line))
}

/// What is made of the failure of the program, given the state of the service after it.
fn explain<P>(
    action: GuiAction,
    before: ServiceState,
    error: Failure,
    status: Result<ServiceState, Failure>,
) -> (step: (Phase, Request<P>))
    ensures
        (step.0@, step.1@) == explained::<P>(action, before@, error@, state_outcome(status)),
{
    assert(error@[0] == error.message@);
    if let Ok(status) = status {
        let changed = service_state_changed(&before, &status);
        if let Some(last_error) = status.last_error {
            let line = "GUI 操作失败：".to_string().concat(last_error.as_str());
            return reporting(action, LogLevel::Error, line, Failure::new(last_error));
        }
        if !matches!(action, GuiAction::Start) && changed {
            let line = "GUI 检测到状态已变化：".to_string().concat(status.status_text.as_str());
            return reporting(action, LogLevel::Warn, line, Failure::new(status.status_text));
        }
    }
    let line = "GUI 提权执行失败：".to_string().concat(error.message.as_str());
    reporting(action, LogLevel::Error, line, error)
}

/// What is made of the state of the service after the program has run.
fn watch<P>(action: GuiAction, status: Result<ServiceState, Failure>, waited: u64) -> (step: (
    Phase,
    Request<P>,
))
    ensures
        (step.0@, step.1@) == watched::<P>(action, state_outcome(status), waited),
{
    let status = match status {
        Err(failure) => {
            return (Phase::Over, Request::Finish(Err(failure)));
        },
        Ok(status) => status,
    };
    match action {
        GuiAction::Start if status.running => {
            return (
                Phase::Over,
                Request::Finish(Ok("加速已启动，可以直接最小化窗口".to_string())),
            );
        },
        GuiAction::Stop if !status.running => {
            return (Phase::Over, Request::Finish(Ok(status.status_text)));
        },
        _ => {},
    }
    if let Some(error) = status.last_error {
        return (Phase::Over, Request::Finish(Err(Failure::new(error))));
    }
    if waited >= PATIENCE_MILLIS {
        let message = "service state did not update in time (status: ".to_string().concat(
            status.status_text.as_str(),
        ).concat(")");
        return (Phase::Over, Request::Finish(Err(Failure::new(message))));
    }
    (Phase::Pausing, Request::Sleep(PAUSE_MILLIS))
}

/// The arguments of the program.
fn args_of(config_path: &str, action: GuiAction) -> (args: Vec<String>)
    ensures
        texts(args@) == helper_args(config_path@, action),
{
    let mut args: Vec<String> = Vec::new();
    args.push("--config".to_string());
    args.push(config_path.to_string());
    args.push(action.subcommand().to_string());
    assert(texts(args@) =~= helper_args(config_path@, action));
    args
}

impl ActionRun {
    /// Begins an action, with its first request.
    pub fn execute_action<P>(platform: Platform, config_path: String, action: GuiAction) -> (begun: (
        ActionRun,
        Request<P>,
    ))
        ensures
            begun.0.action == action,
            begun.0.config_path@ == config_path@,
            (begun.0.phase@, begun.1@) == first_step::<P>(platform, action),
    {
        if matches!(platform, Platform::Macos) && matches!(action, GuiAction::Start) {
            (
                ActionRun { action, config_path, phase: Phase::Preparing },
                Request::PrepareCertificate,
            )
        } else {
            (ActionRun { action, config_path, phase: Phase::Asking }, Request::QueryStatus)
        }
    }

    /// Goes on with an action after a reply, with the next request.
    pub fn resume<P>(self, reply: Reply<P>) -> (next: (ActionRun, Request<P>))
        requires
            self.phase@.awaits(reply@),
        ensures
            next.0.action == self.action,
            next.0.config_path@ == self.config_path@,
            (next.0.phase@, next.1@) == next_step(
                self.action,
                self.config_path@,
                self.phase@,
                reply@,
            ),
    {
        let action = self.action;
        let config_path = self.config_path;
        let (phase, request) = match (self.phase, reply) {
            (Phase::Preparing, Reply::Prepared(Ok(_))) => (Phase::Asking, Request::QueryStatus),
            (Phase::Preparing, Reply::Prepared(Err(error))) => {
                let failure = error.context("macOS certificate preparation failed".to_string());
                (Phase::Over, Request::Finish(Err(failure)))
            },
            (Phase::Asking, Reply::Status { status, now, .. }) => {
                let stored = match status {
                    Ok(status) => Some(status),
                    Err(_) => None,
                };
                (
                    Phase::Announcing { before: state_or_default(stored, now) },
                    Request::Log(LogLevel::Info, "GUI 已发起管理员操作请求".to_string()),
                )
            },
            (Phase::Announcing { before }, _) => (
                Phase::Locating { before },
                Request::LocateBinary,
            ),
            (Phase::Locating { before }, Reply::Located(Ok(binary))) => (
                Phase::Elevating { before },
                Request::RunElevated(binary, args_of(config_path.as_str(), action)),
            ),
            (Phase::Locating { .. }, Reply::Located(Err(error))) => (
                Phase::Over,
                Request::Finish(Err(error)),
            ),
            (Phase::Elevating { .. }, Reply::Elevated(Ok(_))) => (
                Phase::Watching,
                Request::QueryStatus,
            ),
            (Phase::Elevating { before }, Reply::Elevated(Err(error))) => (
                Phase::Explaining { before, error },
                Request::QueryStatus,
            ),
            (Phase::Explaining { before, error }, Reply::Status { status, .. }) => explain(
                action,
                before,
                error,
                status,
            ),
            (Phase::Reporting { failure }, _) => (Phase::Over, Request::Finish(Err(failure))),
            (Phase::Watching, Reply::Status { status, waited, .. }) => watch(
                action,
                status,
                waited,
            ),
            (Phase::Pausing, _) => (Phase::Watching, Request::QueryStatus),
            (phase, _) => (phase, Request::QueryStatus),
        };
        (ActionRun { action, config_path, phase }, request)
    }
}

// ---------------------------------------------------------------------------------------------
// Laws
// ---------------------------------------------------------------------------------------------

/// The request is the end of an action, and a good one.
pub open spec fn ends_well<P>(request: RequestValue<P>) -> bool {
    match request {
        RequestValue::Finish(result) => result is Ok,
        _ => false,
    }
}

/// The request is the end of an action with a failure below the action's own message.
pub open spec fn ends_with_reason<P>(action: GuiAction, request: RequestValue<P>) -> bool {
    match request {
        RequestValue::Finish(Err(messages)) => messages.len() > 1 && messages[0]
            == action.error_text(),
        _ => false,
    }
}

/// The reply shows the service as the action wants it.
pub open spec fn shows_wanted<P>(action: GuiAction, reply: ReplyValue<P>) -> bool {
    match reply {
        ReplyValue::Status { status: Ok(status), .. } => status.running == (action is Start),
        _ => false,
    }
}

/// The state of the service gives no reason to stop waiting for it.
pub open spec fn is_undecided(
    action: GuiAction,
    status: Result<ServiceStateValue, Seq<Seq<char>>>,
) -> bool {
    match status {
        Ok(status) => status.running != (action is Start) && status.last_error is None,
        Err(_) => false,
    }
}

/// An action ends well only where the service was seen to be as asked for, after the program ran
/// with administrator rights: running after a start, stopped after a stop.
pub proof fn law_success_was_seen<P>(
    action: GuiAction,
    config_path: Seq<char>,
    phase: PhaseValue,
    reply: ReplyValue<P>,
)
    requires
        phase.awaits(reply),
        ends_well(next_step(action, config_path, phase, reply).1),
    ensures
        phase is Watching,
        shows_wanted(action, reply),
{
}

/// From a failure of the program on, every way leads to a failure, below the action's own
/// message: the state is asked for the reason, the log is told, and the action is over.
pub proof fn law_failed_elevation_is_reported<P>(
    action: GuiAction,
    config_path: Seq<char>,
    before: ServiceStateValue,
    error: Seq<Seq<char>>,
    status: ReplyValue<P>,
    logged: ReplyValue<P>,
)
    requires
        error.len() > 0,
        status is Status,
        logged is Logged,
    ensures
        next_step(
            action,
            config_path,
            (PhaseValue::Elevating { before }),
            ReplyValue::<P>::Elevated(Err(error)),
        ) == ((PhaseValue::Explaining { before, error }), RequestValue::<P>::QueryStatus),
        next_step(action, config_path, (PhaseValue::Explaining { before, error }), status).1 is Log,
        ends_with_reason(
            action,
            next_step(
                action,
                config_path,
                next_step(action, config_path, (PhaseValue::Explaining { before, error }), status).0,
                logged,
            ).1,
        ),
{
}

/// Watching goes on only while the service shows neither what was asked for nor an error, and no
/// longer than the patience lasts.
pub proof fn law_watch_comes_to_an_end<P>(
    action: GuiAction,
    status: Result<ServiceStateValue, Seq<Seq<char>>>,
    waited: u64,
)
    ensures
        watched::<P>(action, status, waited).0 is Pausing <==> (waited < PATIENCE_MILLIS
            && is_undecided(action, status)),
        !(watched::<P>(action, status, waited).0 is Pausing) ==> watched::<P>(action, status, waited).0
            is Over,
{
}

/// The program is never run with administrator rights on other arguments than the path of the
/// settings and the subcommand of the action.
pub proof fn law_helper_gets_its_subcommand<P>(
    action: GuiAction,
    config_path: Seq<char>,
    phase: PhaseValue,
    reply: ReplyValue<P>,
    binary: FilePathValue<P>,
    args: Seq<Seq<char>>,
)
    requires
        phase.awaits(reply),
        next_step(action, config_path, phase, reply).1 == RequestValue::RunElevated(binary, args),
    ensures
        args == helper_args(config_path, action),
        reply == ReplyValue::Located(Ok(binary)),
{
}

/// The phase that `replies`, one after the other, lead to.
pub open spec fn phase_after<P>(
    action: GuiAction,
    config_path: Seq<char>,
    first: PhaseValue,
    replies: Seq<ReplyValue<P>>,
) -> PhaseValue
    decreases replies.len(),
{
    if replies.len() == 0 {
        first
    } else {
        next_step(
            action,
            config_path,
            phase_after(action, config_path, first, replies.drop_last()),
            replies.last(),
        ).0
    }
}

/// Each of the replies is one to the request before it.
pub open spec fn is_course<P>(
    action: GuiAction,
    config_path: Seq<char>,
    first: PhaseValue,
    replies: Seq<ReplyValue<P>>,
) -> bool
    decreases replies.len(),
{
    replies.len() == 0 || {
        &&& is_course(action, config_path, first, replies.drop_last())
        &&& phase_after(action, config_path, first, replies.drop_last()).awaits(replies.last())
    }
}

/// The reply says that the program ran with administrator rights.
pub open spec fn is_granted<P>(reply: ReplyValue<P>) -> bool {
    match reply {
        ReplyValue::Elevated(result) => result is Ok,
        _ => false,
    }
}

/// The program ran with administrator rights.
pub open spec fn was_elevated<P>(replies: Seq<ReplyValue<P>>) -> bool {
    exists|i: int| 0 <= i < replies.len() && is_granted(#[trigger] replies[i])
}

/// No course of an action ends well unless the program ran with administrator rights in it and
/// the last reply shows the service as asked for.
pub proof fn law_success_needs_rights<P>(
    platform: Platform,
    action: GuiAction,
    config_path: Seq<char>,
    replies: Seq<ReplyValue<P>>,
    last: ReplyValue<P>,
)
    requires
        is_course(action, config_path, first_step::<P>(platform, action).0, replies.push(last)),
        ends_well(
            next_step(
                action,
                config_path,
                phase_after(action, config_path, first_step::<P>(platform, action).0, replies),
                last,
            ).1,
        ),
    ensures
        was_elevated(replies),
        shows_wanted(action, last),
{
    assert(replies.push(last).drop_last() =~= replies);
    lemma_watch_follows_rights(platform, action, config_path, replies);
}

/// The state is watched only after the program ran with administrator rights.
proof fn lemma_watch_follows_rights<P>(
    platform: Platform,
    action: GuiAction,
    config_path: Seq<char>,
    replies: Seq<ReplyValue<P>>,
)
    requires
        is_course(action, config_path, first_step::<P>(platform, action).0, replies),
    ensures
        ({
            let phase = phase_after(action, config_path, first_step::<P>(platform, action).0, replies);
            phase is Watching || phase is Pausing ==> was_elevated(replies)
        }),
    decreases replies.len(),
{
    let first = first_step::<P>(platform, action).0;
    let phase = phase_after(action, config_path, first, replies);
    if replies.len() > 0 && (phase is Watching || phase is Pausing) {
        let fewer = replies.drop_last();
        lemma_watch_follows_rights(platform, action, config_path, fewer);
        let before = phase_after(action, config_path, first, fewer);
        if before is Elevating {
            assert(is_granted(replies[replies.len() - 1]));
        } else {
            assert(before is Watching || before is Pausing);
            let i = choose|i: int| 0 <= i < fewer.len() && is_granted(#[trigger] fewer[i]);
            assert(is_granted(replies[i]));
        }
    }
}

/// The first reply of a course without trouble, on the platform that prepares a certificate first.
pub open spec fn preparation<P>(platform: Platform, action: GuiAction) -> Seq<ReplyValue<P>> {
    if platform is Macos && action is Start {
        seq![ReplyValue::Prepared(Ok(()))]
    } else {
        Seq::empty()
    }
}

/// The replies of an action of which every step succeeds and the last look shows the service in
/// the state `shown`.
pub open spec fn untroubled<P>(
    platform: Platform,
    action: GuiAction,
    asked: ReplyValue<P>,
    binary: FilePathValue<P>,
) -> Seq<ReplyValue<P>> {
    preparation(platform, action).push(asked).push(ReplyValue::Logged).push(
        ReplyValue::Located(Ok(binary)),
    ).push(ReplyValue::Elevated(Ok(())))
}

/// The request that follows `replies`.
pub open spec fn request_after<P>(
    platform: Platform,
    action: GuiAction,
    config_path: Seq<char>,
    replies: Seq<ReplyValue<P>>,
) -> RequestValue<P> {
    if replies.len() == 0 {
        first_step(platform, action).1
    } else {
        next_step(
            action,
            config_path,
            phase_after(
                action,
                config_path,
                first_step::<P>(platform, action).0,
                replies.drop_last(),
            ),
            replies.last(),
        ).1
    }
}

/// On every platform and for both actions, the course of replies in which every step succeeds leads
/// on from step to step: the certificate is prepared on macOS before a start and nowhere else, the
/// state is asked for, the log is told, the program is found and run with the path of the settings
/// and its subcommand, and the state is asked for again.
pub proof fn law_untroubled_action_leads_on<P>(
    platform: Platform,
    action: GuiAction,
    config_path: Seq<char>,
    asked: ReplyValue<P>,
    binary: FilePathValue<P>,
)
    requires
        asked is Status,
    ensures
        ({
            let all = untroubled(platform, action, asked, binary);
            let first = first_step::<P>(platform, action).0;
            let at = all.len() - 4;
            &&& is_course(action, config_path, first, all)
            &&& phase_after(action, config_path, first, all) is Watching
            &&& request_after(platform, action, config_path, all) is QueryStatus
            &&& request_after(platform, action, config_path, all.take(at)) is QueryStatus
            &&& request_after(platform, action, config_path, all.take(at + 1)) == RequestValue::<
                P,
            >::Log(LogLevel::Info, "GUI 已发起管理员操作请求"@)
            &&& request_after(platform, action, config_path, all.take(at + 2)) is LocateBinary
            &&& request_after(platform, action, config_path, all.take(at + 3))
                == RequestValue::RunElevated(
                binary,
                seq![
                    "--config"@,
                    config_path,
                    if action is Start {
                        "helper-start"@
                    } else {
                        "helper-stop"@
                    },
                ],
            )
        }),
        request_after::<P>(platform, action, config_path, Seq::empty()) is PrepareCertificate <==> (
        platform is Macos && action is Start),
        request_after::<P>(platform, action, config_path, Seq::empty()) is PrepareCertificate
            || request_after::<P>(platform, action, config_path, Seq::empty()) is QueryStatus,
{
    let all = untroubled(platform, action, asked, binary);
    let first = first_step::<P>(platform, action).0;
    let at = all.len() - 4;
    reveal_with_fuel(phase_after, 7);
    reveal_with_fuel(is_course, 7);
    let prepared = preparation::<P>(platform, action);
    assert(all.take(at) =~= prepared);
    assert(all.take(at + 1) =~= prepared.push(asked));
    assert(all.take(at + 2) =~= prepared.push(asked).push(ReplyValue::Logged));
    assert(all.take(at + 3) =~= prepared.push(asked).push(ReplyValue::Logged).push(
        ReplyValue::Located(Ok(binary)),
    ));
    assert(all.drop_last() =~= all.take(at + 3));
    assert(all.take(at + 3).drop_last() =~= all.take(at + 2));
    assert(all.take(at + 2).drop_last() =~= all.take(at + 1));
    assert(all.take(at + 1).drop_last() =~= prepared);
    assert(phase_after(action, config_path, first, prepared) is Asking) by {
        if platform is Macos && action is Start {
            assert(prepared.drop_last() =~= Seq::<ReplyValue<P>>::empty());
        }
    }
    if platform is Macos && action is Start {
        assert(prepared.drop_last() =~= Seq::<ReplyValue<P>>::empty());
    }
}

/// Once the program has run, a look that shows the service as wanted ends the action well: a start
/// with a message of its own, a stop with what the service says. A look that shows neither that nor an
/// error leads to a pause and to the next look, as long as the patience lasts.
pub proof fn law_watch_ends_with_what_was_wanted<P>(
    action: GuiAction,
    config_path: Seq<char>,
    status: ServiceStateValue,
    now: u64,
    waited: u64,
)
    ensures
        status.running == (action is Start) ==> next_step::<P>(
            action,
            config_path,
            PhaseValue::Watching,
            (ReplyValue::Status { status: Ok(status), now, waited }),
        ) == (
            PhaseValue::Over,
            RequestValue::<P>::Finish(
                Ok(
                    if action is Start {
                        "加速已启动，可以直接最小化窗口"@
                    } else {
                        status.status_text
                    },
                ),
            ),
        ),
        status.running != (action is Start) && status.last_error is Some ==> next_step::<P>(
            action,
            config_path,
            PhaseValue::Watching,
            (ReplyValue::Status { status: Ok(status), now, waited }),
        ).1 == RequestValue::<P>::Finish(Err(seq![status.last_error->0])),
        status.running != (action is Start) && status.last_error is None && waited < 12_000
            ==> next_step::<P>(
            action,
            config_path,
            PhaseValue::Watching,
            (ReplyValue::Status { status: Ok(status), now, waited }),
        ) == (PhaseValue::Pausing, RequestValue::<P>::Sleep(200)),
        status.running != (action is Start) && status.last_error is None && waited >= 12_000
            ==> next_step::<P>(
            action,
            config_path,
            PhaseValue::Watching,
            (ReplyValue::Status { status: Ok(status), now, waited }),
        ).1 == RequestValue::<P>::Finish(
            Err(
                seq![
                    "service state did not update in time (status: "@ + status.status_text + ")"@,
                ],
            ),
        ),
        next_step::<P>(action, config_path, PhaseValue::Pausing, ReplyValue::Slept) == (
            PhaseValue::Watching,
            RequestValue::<P>::QueryStatus,
        ),
{
}

/// The reply tells of trouble: a failure, an error in the state of the service, or the end of the
/// patience.
pub open spec fn is_trouble<P>(reply: ReplyValue<P>) -> bool {
    match reply {
        ReplyValue::Prepared(result) => result is Err,
        ReplyValue::Located(result) => result is Err,
        ReplyValue::Elevated(result) => result is Err,
        ReplyValue::Status { status: Err(_), .. } => true,
        ReplyValue::Status { status: Ok(status), waited, .. } => status.last_error is Some || waited
            >= 12_000,
        _ => false,
    }
}

/// The request is the end of an action with a failure.
pub open spec fn ends_badly<P>(request: RequestValue<P>) -> bool {
    match request {
        RequestValue::Finish(result) => result is Err,
        _ => false,
    }
}

/// An action ends in failure only where some reply told of trouble.
pub proof fn law_failure_follows_trouble<P>(
    platform: Platform,
    action: GuiAction,
    config_path: Seq<char>,
    replies: Seq<ReplyValue<P>>,
)
    requires
        is_course(action, config_path, first_step::<P>(platform, action).0, replies),
        ends_badly(request_after(platform, action, config_path, replies)),
    ensures
        exists|i: int| 0 <= i < replies.len() && is_trouble(#[trigger] replies[i]),
{
    let fewer = replies.drop_last();
    let first = first_step::<P>(platform, action).0;
    let phase = phase_after(action, config_path, first, fewer);
    if phase is Reporting {
        lemma_explanations_follow_trouble(platform, action, config_path, fewer);
        let i = choose|i: int| 0 <= i < fewer.len() && is_trouble(#[trigger] fewer[i]);
        assert(is_trouble(replies[i]));
    } else {
        assert(is_trouble(replies[replies.len() - 1]));
    }
}

/// A failure is explained and reported only after a reply that told of trouble.
proof fn lemma_explanations_follow_trouble<P>(
    platform: Platform,
    action: GuiAction,
    config_path: Seq<char>,
    replies: Seq<ReplyValue<P>>,
)
    requires
        is_course(action, config_path, first_step::<P>(platform, action).0, replies),
    ensures
        ({
            let phase = phase_after(
                action,
                config_path,
                first_step::<P>(platform, action).0,
                replies,
            );
            phase is Explaining || phase is Reporting ==> exists|i: int|
                0 <= i < replies.len() && is_trouble(#[trigger] replies[i])
        }),
    decreases replies.len(),
{
    let first = first_step::<P>(platform, action).0;
    let phase = phase_after(action, config_path, first, replies);
    if replies.len() > 0 && (phase is Explaining || phase is Reporting) {
        let fewer = replies.drop_last();
        lemma_explanations_follow_trouble(platform, action, config_path, fewer);
        let before = phase_after(action, config_path, first, fewer);
        if before is Elevating {
            assert(is_trouble(replies[replies.len() - 1]));
        } else {
            let i = choose|i: int| 0 <= i < fewer.len() && is_trouble(#[trigger] fewer[i]);
            assert(is_trouble(replies[i]));
        }
    }
}

/// The program is run with administrator rights at most once in an action.
pub proof fn law_helper_runs_once<P>(
    platform: Platform,
    action: GuiAction,
    config_path: Seq<char>,
    replies: Seq<ReplyValue<P>>,
)
    requires
        is_course(action, config_path, first_step::<P>(platform, action).0, replies),
    ensures
        forall|i: int, j: int|
            0 <= i < j < replies.len() ==> !((#[trigger] replies[i]) is Elevated && (
            #[trigger] replies[j]) is Elevated),
        request_after(platform, action, config_path, replies) is RunElevated ==> forall|i: int|
            0 <= i < replies.len() ==> !((#[trigger] replies[i]) is Elevated),
    decreases replies.len(),
{
    let first = first_step::<P>(platform, action).0;
    if replies.len() > 0 {
        let fewer = replies.drop_last();
        law_helper_runs_once(platform, action, config_path, fewer);
        lemma_no_helper_before(platform, action, config_path, fewer);
        lemma_no_helper_before(platform, action, config_path, replies);
        assert forall|i: int, j: int| 0 <= i < j < replies.len() implies !((
        #[trigger] replies[i]) is Elevated && (#[trigger] replies[j]) is Elevated) by {
            assert(replies[i] == fewer[i]);
            if j < fewer.len() {
                assert(replies[j] == fewer[j]);
            }
        }
    }
}

/// Up to the moment at which the program runs, it has not run before.
proof fn lemma_no_helper_before<P>(
    platform: Platform,
    action: GuiAction,
    config_path: Seq<char>,
    replies: Seq<ReplyValue<P>>,
)
    requires
        is_course(action, config_path, first_step::<P>(platform, action).0, replies),
    ensures
        ({
            let phase = phase_after(
                action,
                config_path,
                first_step::<P>(platform, action).0,
                replies,
            );
            phase is Preparing || phase is Asking || phase is Announcing || phase is Locating
                || phase is Elevating ==> forall|i: int|
                0 <= i < replies.len() ==> !((#[trigger] replies[i]) is Elevated)
        }),
    decreases replies.len(),
{
    if replies.len() > 0 {
        let fewer = replies.drop_last();
        lemma_no_helper_before(platform, action, config_path, fewer);
        assert(forall|i: int| 0 <= i < fewer.len() ==> #[trigger] replies[i] == fewer[i]);
    }
}

/// What is made of a program that failed: the log is told the reason, and the action ends with that
/// reason below its own message. The reason is the error that the service reports; after a failed stop it
/// is what the service says, where it changed since the action began; and otherwise it is what the
/// program failed with. A state that was not known counts as that of a service never started.
pub proof fn law_failed_action_says_why<P>(
    action: GuiAction,
    config_path: Seq<char>,
    asked: Result<ServiceStateValue, Seq<Seq<char>>>,
    asked_at: u64,
    binary: FilePathValue<P>,
    error: Seq<Seq<char>>,
    status: Result<ServiceStateValue, Seq<Seq<char>>>,
    now: u64,
    waited: u64,
)
    requires
        error.len() > 0,
    ensures
        ({
            let before = match asked {
                Ok(before) => before,
                Err(_) => idle_state(asked_at),
            };
            let replies = seq![
                (ReplyValue::Status { status: asked, now: asked_at, waited: 0 }),
                ReplyValue::Logged,
                ReplyValue::Located(Ok(binary)),
                ReplyValue::Elevated(Err(error)),
                (ReplyValue::Status { status, now, waited }),
            ];
            let phase = phase_after(action, config_path, PhaseValue::Asking, replies);
            let log = next_step(
                action,
                config_path,
                phase_after(action, config_path, PhaseValue::Asking, replies.drop_last()),
                replies.last(),
            ).1;
            let end = next_step(action, config_path, phase, ReplyValue::<P>::Logged);
            let context = if action is Start {
                "elevation or command execution failed"@
            } else {
                "failed to stop acceleration from GUI"@
            };
            &&& end.0 is Over
            &&& match status {
                Ok(after) if after.last_error is Some => {
                    let reason = after.last_error->0;
                    &&& log == RequestValue::<P>::Log(LogLevel::Error, "GUI 操作失败："@ + reason)
                    &&& end.1 == RequestValue::<P>::Finish(Err(seq![context] + seq![reason]))
                },
                Ok(after) if action is Stop && before != after => {
                    &&& log == RequestValue::<P>::Log(
                        LogLevel::Warn,
                        "GUI 检测到状态已变化："@ + after.status_text,
                    )
                    &&& end.1 == RequestValue::<P>::Finish(
                        Err(seq![context] + seq![after.status_text]),
                    )
                },
                _ => {
                    &&& log == RequestValue::<P>::Log(
                        LogLevel::Error,
                        "GUI 提权执行失败："@ + error[0],
                    )
                    &&& end.1 == RequestValue::<P>::Finish(Err(seq![context] + error))
                },
            }
        }),
{
    let replies = seq![
        (ReplyValue::Status { status: asked, now: asked_at, waited: 0 }),
        ReplyValue::Logged,
        ReplyValue::Located(Ok(binary)),
        ReplyValue::Elevated(Err(error)),
        (ReplyValue::Status { status, now, waited }),
    ];
    reveal_with_fuel(phase_after, 6);
    assert(replies.drop_last() =~= replies.take(4));
    assert(replies.take(4).drop_last() =~= replies.take(3));
    assert(replies.take(3).drop_last() =~= replies.take(2));
    assert(replies.take(2).drop_last() =~= replies.take(1));
    assert(replies.take(1).drop_last() =~= Seq::<ReplyValue<P>>::empty());
}

/// A certificate that cannot be prepared, a program that cannot be found and a state that cannot be
/// asked for after the program ran end the action with what they failed with.
pub proof fn law_failed_steps_end_the_action<P>(
    action: GuiAction,
    config_path: Seq<char>,
    before: ServiceStateValue,
    causes: Seq<Seq<char>>,
    now: u64,
    waited: u64,
)
    ensures
        next_step::<P>(
            action,
            config_path,
            PhaseValue::Preparing,
            ReplyValue::Prepared(Err(causes)),
        ) == (
            PhaseValue::Over,
            RequestValue::<P>::Finish(
                Err(seq!["macOS certificate preparation failed"@] + causes),
            ),
        ),
        next_step::<P>(
            action,
            config_path,
            (PhaseValue::Locating { before }),
            ReplyValue::Located(Err(causes)),
        ) == (PhaseValue::Over, RequestValue::<P>::Finish(Err(causes))),
        next_step::<P>(
            action,
            config_path,
            PhaseValue::Watching,
            (ReplyValue::Status { status: Err(causes), now, waited }),
        ) == (PhaseValue::Over, RequestValue::<P>::Finish(Err(causes))),
{
}

/// Each action has its words: what is shown while it is under way, the subcommand that carries it out, and
/// what stands above the cause where it fails.
pub proof fn law_actions_have_their_words(action: GuiAction, config_path: Seq<char>)
    ensures
        action is Start ==> {
            &&& action.pending_text() == "正在申请权限并启动加速..."@
            &&& action.subcommand_text() == "helper-start"@
            &&& action.error_text() == "elevation or command execution failed"@
        },
        action is Stop ==> {
            &&& action.pending_text() == "正在停止加速并恢复 hosts..."@
            &&& action.subcommand_text() == "helper-stop"@
            &&& action.error_text() == "failed to stop acceleration from GUI"@
        },
        helper_args(config_path, action).len() == 3,
        helper_args(config_path, action)[0] == "--config"@,
        helper_args(config_path, action)[1] == config_path,
        helper_args(config_path, action)[2] == action.subcommand_text(),
{
}

/// Each phase awaits one kind of reply, that to the request which led to it, and an action that is over
/// awaits none.
pub proof fn law_each_phase_awaits_one_reply<P>(phase: PhaseValue, reply: ReplyValue<P>)
    ensures
        phase.awaits(reply) <==> {
            ||| phase is Preparing && reply is Prepared
            ||| (phase is Asking || phase is Explaining || phase is Watching) && reply is Status
            ||| (phase is Announcing || phase is Reporting) && reply is Logged
            ||| phase is Locating && reply is Located
            ||| phase is Elevating && reply is Elevated
            ||| phase is Pausing && reply is Slept
        },
{
}

} // verus!
