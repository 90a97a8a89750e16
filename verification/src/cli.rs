//! The command line of the program: what each subcommand has the rest of the program do.

use vstd::prelude::*;
use vstd::string::*;

use crate::failure::{outcome, Failure};
use crate::platform::Platform;

verus! {

/// The subcommands.
#[derive(Debug, Clone, Copy, PartialEq, Eq, Structural)]
pub enum Command {
    Gui,
    InitConfig,
    Setup,
    Run,
    Start,
    Stop,
    Status,
    CleanHosts,
    ApplyHosts,
    BackupHosts,
    RestoreHosts,
    UninstallCert,
    Cleanup,
    /// Have the program started when the user logs in.
    EnableAutostart,
    /// No longer have the program started when the user logs in.
    DisableAutostart,
    ConfigJson,
    HelperStart,
    HelperStop,
    Daemon,
    TrayShell,
}

/// The command line. `P` is the type of paths.
#[derive(Debug)]
pub struct Cli<P> {
    /// The path of the settings.
    pub config: Option<P>,
    /// Show the window and start the service at once.
    pub autostart: bool,
    pub command: Option<Command>,
}

/// Something that the rest of the program does.
#[derive(Debug, Clone, Copy, PartialEq, Eq, Structural)]
pub enum CliTask {
    /// Make sure that there are settings.
    InitConfig,
    /// Bring back the window of another process of the program; where there is one, nothing more
    /// is to be done.
    RestoreExistingWindow,
    RunGui { autostart: bool },
    RunTrayShell,
    Setup,
    /// Run the service in this process, as `start` does or as `run` does.
    RunForeground { start: bool },
    HelperStart,
    HelperStop,
    CleanHosts,
    ApplyHosts,
    BackupHosts,
    RestoreHosts,
    UninstallCertificate,
    Cleanup,
    EnableAutostart,
    DisableAutostart,
    /// Print the state of the service.
    PrintStatus,
    /// Print the settings.
    PrintConfig,
    /// Print a line.
    Print(Line),
}

/// The lines that are printed.
#[derive(Debug, Clone, Copy, PartialEq, Eq, Structural)]
pub enum Line {
    /// With the path of the settings behind it.
    ConfigReady,
    SetupComplete,
    ServiceStopped,
    ServiceStarted,
    HostsCleaned,
    HostsApplied,
    HostsBackupReady,
    HostsRestored,
    CertificateRemoved,
    CleanupComplete,
    AutostartEnabled,
    AutostartDisabled,
}

impl Line {
    /// What is printed.
    pub fn text(self) -> (text: &'static str)
        ensures
            text@ == (match self {
                Line::ConfigReady => "config ready: "@,
                Line::SetupComplete => "setup complete"@,
                Line::ServiceStopped => "service stopped"@,
                Line::ServiceStarted => "service started"@,
                Line::HostsCleaned => "hosts cleaned"@,
                Line::HostsApplied => "hosts applied"@,
                Line::HostsBackupReady => "hosts backup ready"@,
                Line::HostsRestored => "hosts restored"@,
                Line::CertificateRemoved => "certificate removed"@,
                Line::CleanupComplete => "cleanup complete"@,
                Line::AutostartEnabled => "autostart enabled"@,
                Line::AutostartDisabled => "autostart disabled"@,
            }),
    {
        match self {
            Line::ConfigReady => "config ready: ",
            Line::SetupComplete => "setup complete",
            Line::ServiceStopped => "service stopped",
            Line::ServiceStarted => "service started",
            Line::HostsCleaned => "hosts cleaned",
            Line::HostsApplied => "hosts applied",
            Line::HostsBackupReady => "hosts backup ready",
            Line::HostsRestored => "hosts restored",
            Line::CertificateRemoved => "certificate removed",
            Line::CleanupComplete => "cleanup complete",
            Line::AutostartEnabled => "autostart enabled",
            Line::AutostartDisabled => "autostart disabled",
        }
    }
}

/// The platforms on which the program has a window.
pub open spec fn has_window(platform: Platform) -> bool {
    platform is Windows || platform is Linux || platform is Macos
}

/// One thing to do.
pub open spec fn one(task: CliTask) -> Seq<CliTask> {
    Seq::empty().push(task)
}

/// What the window is shown by.
pub open spec fn gui_tasks(platform: Platform, autostart: bool) -> Result<
    Seq<CliTask>,
    Seq<Seq<char>>,
> {
    let ready = one(CliTask::InitConfig);
    let gui = CliTask::RunGui { autostart };
    match platform {
        Platform::Windows => Ok(ready.push(CliTask::RestoreExistingWindow).push(gui)),
        Platform::Linux | Platform::Macos => Ok(ready.push(gui)),
        Platform::Android => Err(
            seq!["GUI is not supported on Android yet; use CLI subcommands"@],
        ),
        Platform::Other => Ok(Seq::empty()),
    }
}

/// What the program does for a command line, or why it refuses.
pub open spec fn tasks_of(platform: Platform, command: Option<Command>, autostart: bool) -> Result<
    Seq<CliTask>,
    Seq<Seq<char>>,
> {
    match command {
        None | Some(Command::Gui) => gui_tasks(platform, autostart),
        Some(Command::InitConfig) => Ok(
            one(CliTask::InitConfig).push(CliTask::Print(Line::ConfigReady)),
        ),
        Some(Command::Setup) => Ok(one(CliTask::Setup).push(CliTask::Print(Line::SetupComplete))),
        Some(Command::Run) | Some(Command::Daemon) => Ok(
            one(CliTask::RunForeground { start: false }),
        ),
        Some(Command::Start) => Ok(one(CliTask::RunForeground { start: true })),
        Some(Command::Stop) | Some(Command::HelperStop) => Ok(
            one(CliTask::HelperStop).push(CliTask::Print(Line::ServiceStopped)),
        ),
        Some(Command::Status) => Ok(one(CliTask::PrintStatus)),
        Some(Command::CleanHosts) => Ok(
            one(CliTask::CleanHosts).push(CliTask::Print(Line::HostsCleaned)),
        ),
        Some(Command::ApplyHosts) => Ok(
            one(CliTask::ApplyHosts).push(CliTask::Print(Line::HostsApplied)),
        ),
        Some(Command::BackupHosts) => Ok(
            one(CliTask::BackupHosts).push(CliTask::Print(Line::HostsBackupReady)),
        ),
        Some(Command::RestoreHosts) => Ok(
            one(CliTask::RestoreHosts).push(CliTask::Print(Line::HostsRestored)),
        ),
        Some(Command::UninstallCert) => Ok(
            one(CliTask::UninstallCertificate).push(CliTask::Print(Line::CertificateRemoved)),
        ),
        Some(Command::Cleanup) => Ok(
            one(CliTask::Cleanup).push(CliTask::Print(Line::CleanupComplete)),
        ),
        Some(Command::EnableAutostart) => Ok(
            one(CliTask::InitConfig).push(CliTask::EnableAutostart).push(
                CliTask::Print(Line::AutostartEnabled),
            ),
        ),
        Some(Command::DisableAutostart) => Ok(
            one(CliTask::DisableAutostart).push(CliTask::Print(Line::AutostartDisabled)),
        ),
        Some(Command::ConfigJson) => Ok(one(CliTask::PrintConfig)),
        Some(Command::HelperStart) => Ok(
            one(CliTask::HelperStart).push(CliTask::Print(Line::ServiceStarted)),
        ),
        Some(Command::TrayShell) => if has_window(platform) {
            Ok(one(CliTask::InitConfig).push(CliTask::RunTrayShell))
        } else {
            Err(seq!["tray-shell is not supported on this platform"@])
        },
    }
}

/// The tasks, or why there are none.
pub open spec fn tasks_outcome(result: Result<Vec<CliTask>, Failure>) -> Result<
    Seq<CliTask>,
    Seq<Seq<char>>,
> {
    match result {
        Ok(tasks) => Ok(tasks@),
        Err(failure) => Err(failure@),
    }
}

fn single(task: CliTask) -> (tasks: Vec<CliTask>)
    ensures
        tasks@ == one(task),
{
    let mut tasks: Vec<CliTask> = Vec::new();
    tasks.push(task);
    tasks
}

fn task_then_print(task: CliTask, line: Line) -> (tasks: Vec<CliTask>)
    ensures
        tasks@ == one(task).push(CliTask::Print(line)),
{
    let mut tasks: Vec<CliTask> = Vec::new();
    tasks.push(task);
    tasks.push(CliTask::Print(line));
    tasks
}

/// What the window is shown by.
fn show_window(platform: Platform, autostart: bool) -> (tasks: Result<Vec<CliTask>, Failure>)
    ensures
        tasks_outcome(tasks) == gui_tasks(platform, autostart),
{
    let gui = CliTask::RunGui { autostart };
    match platform {
        Platform::Windows => {
            let mut tasks = single(CliTask::InitConfig);
            tasks.push(CliTask::RestoreExistingWindow);
            tasks.push(gui);
            Ok(tasks)
        },
        Platform::Linux | Platform::Macos => {
            let mut tasks = single(CliTask::InitConfig);
            tasks.push(gui);
            Ok(tasks)
        },
        Platform::Android => Err(
            Failure::new(
                "GUI is not supported on Android yet; use CLI subcommands".to_string(),
            ),
        ),
        Platform::Other => Ok(Vec::new()),
    }
}

/// The tasks of a command line, or why it is refused.
fn list_tasks(platform: Platform, command: Option<Command>, autostart: bool) -> (tasks: Result<
    Vec<CliTask>,
    Failure,
>)
    ensures
        tasks_outcome(tasks) == tasks_of(platform, command, autostart),
{
    let command = match command {
        None => {
            return show_window(platform, autostart);
        },
        Some(command) => command,
    };
    let tasks = match command {
        Command::Gui => {
            return show_window(platform, autostart);
        },
        Command::InitConfig => task_then_print(CliTask::InitConfig, Line::ConfigReady),
        Command::Setup => task_then_print(CliTask::Setup, Line::SetupComplete),
        Command::Run | Command::Daemon => single(CliTask::RunForeground { start: false }),
        Command::Start => single(CliTask::RunForeground { start: true }),
        Command::Stop | Command::HelperStop => task_then_print(
            CliTask::HelperStop,
            Line::ServiceStopped,
        ),
        Command::Status => single(CliTask::PrintStatus),
        Command::CleanHosts => task_then_print(CliTask::CleanHosts, Line::HostsCleaned),
        Command::ApplyHosts => task_then_print(CliTask::ApplyHosts, Line::HostsApplied),
        Command::BackupHosts => task_then_print(CliTask::BackupHosts, Line::HostsBackupReady),
        Command::RestoreHosts => task_then_print(CliTask::RestoreHosts, Line::HostsRestored),
        Command::UninstallCert => task_then_print(
            CliTask::UninstallCertificate,
            Line::CertificateRemoved,
        ),
        Command::Cleanup => task_then_print(CliTask::Cleanup, Line::CleanupComplete),
        Command::EnableAutostart => {
            let mut tasks = single(CliTask::InitConfig);
            tasks.push(CliTask::EnableAutostart);
            tasks.push(CliTask::Print(Line::AutostartEnabled));
            tasks
        },
        Command::DisableAutostart => task_then_print(
            CliTask::DisableAutostart,
            Line::AutostartDisabled,
        ),
        Command::ConfigJson => single(CliTask::PrintConfig),
        Command::HelperStart => task_then_print(CliTask::HelperStart, Line::ServiceStarted),
        Command::TrayShell => {
            if !matches!(platform, Platform::Windows | Platform::Linux | Platform::Macos) {
                return Err(
                    Failure::new("tray-shell is not supported on this platform".to_string()),
                );
            }
            let mut tasks = single(CliTask::InitConfig);
            tasks.push(CliTask::RunTrayShell);
            tasks
        },
    };
    Ok(tasks)
}

// ---------------------------------------------------------------------------------------------
// Carrying the tasks out
// ---------------------------------------------------------------------------------------------

/// The path of the settings that a task is handed.
#[derive(Debug)]
pub enum TaskInput<'a, P> {
    Nothing,
    /// The path on the command line, if any.
    Given(&'a Option<P>),
    /// The path that the settings were found at.
    Found(&'a P),
}

/// The path of the settings that a task is handed, as values.
pub enum TaskInputValue<P> {
    Nothing,
    Given(Option<P>),
    Found(P),
}

impl<'a, P> View for TaskInput<'a, P> {
    type V = TaskInputValue<P>;

    open spec fn view(&self) -> TaskInputValue<P> {
        match self {
            TaskInput::Nothing => TaskInputValue::Nothing,
            TaskInput::Given(config) => TaskInputValue::Given(**config),
            TaskInput::Found(path) => TaskInputValue::Found(**path),
        }
    }
}

/// The task works on the settings that were found before it.
pub open spec fn uses_found(task: CliTask) -> bool {
    match task {
        CliTask::RestoreExistingWindow => true,
        CliTask::RunGui { .. } => true,
        CliTask::RunTrayShell => true,
        CliTask::EnableAutostart => true,
        CliTask::Print(line) => line is ConfigReady,
        _ => false,
    }
}

/// The task has nothing to do with the settings.
pub open spec fn uses_nothing(task: CliTask) -> bool {
    match task {
        CliTask::DisableAutostart => true,
        CliTask::Print(line) => !(line is ConfigReady),
        _ => false,
    }
}

/// The path that a task is handed, where the command line gives `config` and the settings were found
/// at `found`.
pub open spec fn task_input<P>(task: CliTask, config: Option<P>, found: Option<P>) -> TaskInputValue<
    P,
> {
    if uses_nothing(task) {
        TaskInputValue::Nothing
    } else if uses_found(task) {
        TaskInputValue::Found(found->0)
    } else {
        TaskInputValue::Given(config)
    }
}

/// What a task came to.
#[derive(Debug)]
pub enum CliEvent<P> {
    /// The settings were found at this path, or why they were not.
    Settings(Result<P, Failure>),
    /// The window of another process was brought back, or there is none.
    Window(bool),
    /// Any other task succeeded or failed.
    Done(Result<(), Failure>),
}

/// What a task came to, as values.
pub enum CliEventValue<P> {
    Settings(Result<P, Seq<Seq<char>>>),
    Window(bool),
    Done(Result<(), Seq<Seq<char>>>),
}

impl<P> View for CliEvent<P> {
    type V = CliEventValue<P>;

    open spec fn view(&self) -> CliEventValue<P> {
        match self {
            CliEvent::Settings(Ok(path)) => CliEventValue::Settings(Ok(*path)),
            CliEvent::Settings(Err(failure)) => CliEventValue::Settings(Err(failure@)),
            CliEvent::Window(restored) => CliEventValue::Window(*restored),
            CliEvent::Done(result) => CliEventValue::Done(outcome(*result)),
        }
    }
}

/// The event is one that the task can come to.
pub open spec fn fits<P>(task: CliTask, event: CliEventValue<P>) -> bool {
    match task {
        CliTask::InitConfig => event is Settings,
        CliTask::RestoreExistingWindow => event is Window,
        _ => event is Done,
    }
}

/// The tasks of a command line that are still to be done, and the paths of its settings.
pub struct CliRunValue<P> {
    pub rest: Seq<CliTask>,
    pub config: Option<P>,
    pub found: Option<P>,
}

/// The settings are found before any task works on them.
pub open spec fn in_order(rest: Seq<CliTask>) -> bool {
    forall|i: int|
        0 <= i < rest.len() && uses_found(#[trigger] rest[i]) ==> i > 0 && rest[0] is InitConfig
}

/// What is left after the first task came to `event`, and what that means for the whole: the first
/// failure is the result and nothing follows it, a window that was brought back ends the command
/// line well, and otherwise the next task comes.
pub open spec fn cli_step<P>(run: CliRunValue<P>, event: CliEventValue<P>) -> (
    CliRunValue<P>,
    Result<(), Seq<Seq<char>>>,
) {
    let over = CliRunValue { rest: Seq::empty(), ..run };
    let on = CliRunValue { rest: run.rest.drop_first(), ..run };
    match event {
        CliEventValue::Settings(Ok(path)) => (CliRunValue { found: Some(path), ..on }, Ok(())),
        CliEventValue::Settings(Err(causes)) => (over, Err(causes)),
        CliEventValue::Window(restored) => if restored {
            (over, Ok(()))
        } else {
            (on, Ok(()))
        },
        CliEventValue::Done(Ok(_)) => (on, Ok(())),
        CliEventValue::Done(Err(causes)) => (over, Err(causes)),
    }
}

/// A command line that is being carried out.
#[derive(Debug)]
pub struct CliRun<P> {
    tasks: Vec<CliTask>,
    next: usize,
    config: Option<P>,
    found: Option<P>,
}

impl<P> View for CliRun<P> {
    type V = CliRunValue<P>;

    closed spec fn view(&self) -> CliRunValue<P> {
        CliRunValue {
            rest: self.tasks@.skip(self.next as int),
            config: self.config,
            found: self.found,
        }
    }
}

/// What is to be carried out, or why nothing is.
pub open spec fn cli_run_outcome<P>(result: Result<CliRun<P>, Failure>) -> Result<
    CliRunValue<P>,
    Seq<Seq<char>>,
> {
    match result {
        Ok(run) => Ok(run@),
        Err(failure) => Err(failure@),
    }
}

/// What is to be carried out for a command line, or why it is refused.
pub open spec fn cli_run<P>(
    platform: Platform,
    command: Option<Command>,
    autostart: bool,
    config: Option<P>,
) -> Result<CliRunValue<P>, Seq<Seq<char>>> {
    match tasks_of(platform, command, autostart) {
        Ok(tasks) => Ok(CliRunValue { rest: tasks, config, found: None }),
        Err(causes) => Err(causes),
    }
}

/// What is to be carried out for a command line, or why it is refused.
pub fn run<P>(platform: Platform, cli: Cli<P>) -> (run: Result<CliRun<P>, Failure>)
    ensures
        cli_run_outcome(run) == cli_run(platform, cli.command, cli.autostart, cli.config),
{
    match list_tasks(platform, cli.command, cli.autostart) {
        Err(failure) => Err(failure),
        Ok(tasks) => {
            proof {
                lemma_tasks_in_order(platform, cli.command, cli.autostart);
                assert(tasks@.skip(0) =~= tasks@);
            }
            Ok(CliRun { tasks, next: 0, config: cli.config, found: None })
        },
    }
}

proof fn lemma_tasks_in_order(platform: Platform, command: Option<Command>, autostart: bool)
    ensures
        match tasks_of(platform, command, autostart) {
            Ok(tasks) => in_order(tasks),
            Err(_) => true,
        },
{
}

impl<P> CliRun<P> {
    #[verifier::type_invariant]
    spec fn in_range(&self) -> bool {
        &&& self.next <= self.tasks@.len()
        &&& self.found is None ==> in_order(self.tasks@.skip(self.next as int))
    }

    /// The task to be done now and the path that it is handed; none where all is done.
    pub fn current(&self) -> (step: Option<(CliTask, TaskInput<'_, P>)>)
        ensures
            match step {
                Some((task, input)) => {
                    &&& self@.rest.len() > 0
                    &&& task == self@.rest[0]
                    &&& input@ == task_input(task, self@.config, self@.found)
                    &&& uses_found(task) ==> self@.found is Some
                },
                None => self@.rest.len() == 0,
            },
    {
        proof {
            use_type_invariant(self);
        }
        if self.next >= self.tasks.len() {
            return None;
        }
        assert(self@.rest[0] == self.tasks@[self.next as int]);
        let task = self.tasks[self.next];
        let input = match task {
            CliTask::DisableAutostart => TaskInput::Nothing,
            CliTask::RestoreExistingWindow
            | CliTask::RunGui { .. }
            | CliTask::RunTrayShell
            | CliTask::EnableAutostart
            | CliTask::Print(Line::ConfigReady) => match &self.found {
                Some(path) => TaskInput::Found(path),
                None => TaskInput::Nothing,
            },
            CliTask::Print(_) => TaskInput::Nothing,
            _ => TaskInput::Given(&self.config),
        };
        Some((task, input))
    }

    /// Takes note of what the current task came to.
    pub fn record(&mut self, event: CliEvent<P>) -> (result: Result<(), Failure>)
        requires
            old(self)@.rest.len() > 0,
            fits(old(self)@.rest[0], event@),
        ensures
            (final(self)@, outcome(result)) == cli_step(old(self)@, event@),
    {
        proof {
            use_type_invariant(&*self);
            assert(self.tasks@.skip(self.next as int).drop_first() =~= self.tasks@.skip(
                self.next + 1,
            ));
            assert(self.tasks@.skip(self.tasks@.len() as int) =~= Seq::<CliTask>::empty());
            lemma_order_is_kept(self.tasks@.skip(self.next as int));
        }
        let end: usize = self.tasks.len();
        match event {
            CliEvent::Settings(Ok(path)) => {
                self.found = Some(path);
                self.next = self.next + 1;
                Ok(())
            },
            CliEvent::Settings(Err(failure)) => {
                self.next = end;
                Err(failure)
            },
            CliEvent::Window(restored) => {
                self.next = if restored {
                    end
                } else {
                    self.next + 1
                };
                Ok(())
            },
            CliEvent::Done(Ok(_)) => {
                self.next = self.next + 1;
                Ok(())
            },
            CliEvent::Done(Err(failure)) => {
                self.next = end;
                Err(failure)
            },
        }
    }
}

/// Tasks that begin with another one than finding the settings work on none of them.
proof fn lemma_order_is_kept(rest: Seq<CliTask>)
    requires
        rest.len() > 0,
    ensures
        in_order(rest) && !(rest[0] is InitConfig) ==> in_order(rest.drop_first()),
{
    if in_order(rest) && !(rest[0] is InitConfig) {
        assert forall|i: int|
            0 <= i < rest.drop_first().len() && uses_found(
                #[trigger] rest.drop_first()[i],
            ) implies i > 0 && rest.drop_first()[0] is InitConfig by {
            assert(uses_found(rest[i + 1]));
        }
    }
}

// ---------------------------------------------------------------------------------------------
// Laws
// ---------------------------------------------------------------------------------------------

/// Only what needs a window is refused, and only where there is none; everything else is done
/// alike on every platform.
pub proof fn law_only_windows_are_refused(
    platform: Platform,
    other: Platform,
    command: Command,
    autostart: bool,
)
    ensures
        tasks_of(platform, Some(command), autostart) is Err ==> !has_window(platform) && (
        command is Gui || command is TrayShell),
        !(command is Gui) && !(command is TrayShell) ==> tasks_of(
            platform,
            Some(command),
            autostart,
        ) == tasks_of(other, Some(command), autostart),
{
}

/// A program without a subcommand shows its window, and the wish to start the service at once
/// matters to the window alone.
pub proof fn law_window_is_the_default(platform: Platform, command: Command, autostart: bool)
    ensures
        tasks_of(platform, None, autostart) == tasks_of(platform, Some(Command::Gui), autostart),
        !(command is Gui) ==> tasks_of(platform, Some(command), autostart) == tasks_of(
            platform,
            Some(command),
            !autostart,
        ),
{
}

/// What each task comes to, by the path that it is handed.
pub type Replies<P> = spec_fn(CliTask, TaskInputValue<P>) -> CliEventValue<P>;

/// What is done for a command line, where each task comes to what `reply` says: the tasks that are
/// begun, in order, with the paths that they are handed.
pub open spec fn calls<P>(run: CliRunValue<P>, reply: Replies<P>) -> Seq<(CliTask, TaskInputValue<P>)>
    decreases run.rest.len(),
{
    if run.rest.len() == 0 {
        Seq::empty()
    } else {
        let task = run.rest[0];
        let input = task_input(task, run.config, run.found);
        seq![(task, input)] + calls(cli_step(run, reply(task, input)).0, reply)
    }
}

/// The result of a command line, where each task comes to what `reply` says.
pub open spec fn cli_result<P>(run: CliRunValue<P>, reply: Replies<P>) -> Result<
    (),
    Seq<Seq<char>>,
>
    decreases run.rest.len(),
{
    if run.rest.len() == 0 {
        Ok(())
    } else {
        let task = run.rest[0];
        let input = task_input(task, run.config, run.found);
        match cli_step(run, reply(task, input)) {
            (_, Err(causes)) => Err(causes),
            (next, Ok(_)) => cli_result(next, reply),
        }
    }
}

/// The failure that a task came to, if any.
pub open spec fn event_failure<P>(event: CliEventValue<P>) -> Option<Seq<Seq<char>>> {
    match event {
        CliEventValue::Settings(Err(causes)) => Some(causes),
        CliEventValue::Done(Err(causes)) => Some(causes),
        _ => None,
    }
}

/// The first task that fails is the last that is begun, and its failure is the result; where none
/// fails, the result is good.
pub proof fn law_first_failure_ends_the_command<P>(run: CliRunValue<P>, reply: Replies<P>)
    ensures
        ({
            let made = calls(run, reply);
            &&& forall|i: int|
                0 <= i < made.len() - 1 ==> event_failure(
                    reply((#[trigger] made[i]).0, made[i].1),
                ) is None
            &&& match cli_result(run, reply) {
                Err(causes) => made.len() > 0 && event_failure(reply(made.last().0, made.last().1))
                    == Some(causes),
                Ok(_) => made.len() > 0 ==> event_failure(
                    reply(made.last().0, made.last().1),
                ) is None,
            }
        }),
    decreases run.rest.len(),
{
    if run.rest.len() > 0 {
        let task = run.rest[0];
        let input = task_input(task, run.config, run.found);
        let next = cli_step(run, reply(task, input)).0;
        let made = calls(run, reply);
        let later = calls(next, reply);
        law_first_failure_ends_the_command(next, reply);
        assert forall|i: int| 0 <= i < made.len() - 1 implies event_failure(
            reply((#[trigger] made[i]).0, made[i].1),
        ) is None by {
            if i > 0 {
                assert(made[i] == later[i - 1]);
            }
        }
        if later.len() > 0 {
            assert(made.last() == later.last());
        }
    }
}

/// The subcommand has one service task and one line that confirms it.
pub open spec fn is_confirmed(command: Command) -> bool {
    match command {
        Command::Setup | Command::Stop | Command::HelperStop | Command::CleanHosts => true,
        Command::ApplyHosts | Command::BackupHosts | Command::RestoreHosts => true,
        Command::UninstallCert | Command::Cleanup | Command::HelperStart => true,
        _ => false,
    }
}

/// The service task of a subcommand that has one.
pub open spec fn service_task(command: Command) -> CliTask {
    match command {
        Command::Setup => CliTask::Setup,
        Command::CleanHosts => CliTask::CleanHosts,
        Command::ApplyHosts => CliTask::ApplyHosts,
        Command::BackupHosts => CliTask::BackupHosts,
        Command::RestoreHosts => CliTask::RestoreHosts,
        Command::UninstallCert => CliTask::UninstallCertificate,
        Command::Cleanup => CliTask::Cleanup,
        Command::HelperStart => CliTask::HelperStart,
        _ => CliTask::HelperStop,
    }
}

/// The line that confirms the service task of a subcommand that has one.
pub open spec fn confirmation(command: Command) -> Line {
    match command {
        Command::Setup => Line::SetupComplete,
        Command::CleanHosts => Line::HostsCleaned,
        Command::ApplyHosts => Line::HostsApplied,
        Command::BackupHosts => Line::HostsBackupReady,
        Command::RestoreHosts => Line::HostsRestored,
        Command::UninstallCert => Line::CertificateRemoved,
        Command::Cleanup => Line::CleanupComplete,
        Command::HelperStart => Line::ServiceStarted,
        _ => Line::ServiceStopped,
    }
}

/// Both are good, or both are the same failure.
pub open spec fn same_result(
    a: Result<(), Seq<Seq<char>>>,
    b: Result<(), Seq<Seq<char>>>,
) -> bool {
    match (a, b) {
        (Ok(_), Ok(_)) => true,
        (Err(these), Err(those)) => these == those,
        _ => false,
    }
}

/// What a task is begun with.
pub open spec fn call<P>(task: CliTask, input: TaskInputValue<P>) -> Seq<
    (CliTask, TaskInputValue<P>),
> {
    seq![(task, input)]
}

/// A service task is handed the path on the command line. Its line is printed if and only if the task
/// succeeded; where it failed, that failure is the result.
pub proof fn law_confirmation_follows_success<P>(
    platform: Platform,
    command: Command,
    autostart: bool,
    config: Option<P>,
    reply: Replies<P>,
    done: Result<(), Seq<Seq<char>>>,
)
    requires
        is_confirmed(command),
        reply(service_task(command), TaskInputValue::Given(config)) == CliEventValue::<
            P,
        >::Done(done),
        reply(CliTask::Print(confirmation(command)), TaskInputValue::Nothing)
            == CliEventValue::<P>::Done(Ok(())),
    ensures
        ({
            let task = service_task(command);
            let print = CliTask::Print(confirmation(command));
            let run = cli_run(platform, Some(command), autostart, config)->Ok_0;
            &&& cli_run(platform, Some(command), autostart, config) is Ok
            &&& same_result(cli_result(run, reply), done)
            &&& calls(run, reply) == (if done is Ok {
                call(task, TaskInputValue::Given(config)) + call(print, TaskInputValue::Nothing)
            } else {
                call(task, TaskInputValue::Given(config))
            })
        }),
{
    reveal_with_fuel(calls, 4);
    reveal_with_fuel(cli_result, 4);
    let task = service_task(command);
    let print = CliTask::Print(confirmation(command));
    let run = cli_run(platform, Some(command), autostart, config)->Ok_0;
    assert(run.rest == one(task).push(print));
    assert(run.rest.drop_first() =~= one(print));
    assert(one(print).drop_first() =~= Seq::<CliTask>::empty());
    assert(calls(run, reply) =~= (if done is Ok {
        call(task, TaskInputValue::Given(config)) + call(print, TaskInputValue::Nothing)
    } else {
        call(task, TaskInputValue::Given(config))
    }));
}

/// The window is shown once, with the settings that were found and with the wish to start the service
/// at once, and its result is the result; where the settings cannot be found, no window is shown and
/// that failure is the result; and where Windows brings another window back, there is nothing more
/// to do.
pub proof fn law_window_gets_the_settings<P>(
    platform: Platform,
    command: Option<Command>,
    autostart: bool,
    config: Option<P>,
    reply: Replies<P>,
    settings: Result<P, Seq<Seq<char>>>,
    restored: bool,
    shown: Result<(), Seq<Seq<char>>>,
)
    requires
        has_window(platform),
        command is None || command == Some(Command::Gui),
        reply(CliTask::InitConfig, TaskInputValue::Given(config)) == CliEventValue::Settings(
            settings,
        ),
        settings is Ok ==> reply(
            CliTask::RestoreExistingWindow,
            TaskInputValue::Found(settings->Ok_0),
        ) == CliEventValue::<P>::Window(restored),
        settings is Ok ==> reply(
            (CliTask::RunGui { autostart }),
            TaskInputValue::Found(settings->Ok_0),
        ) == CliEventValue::<P>::Done(shown),
    ensures
        ({
            let run = cli_run(platform, command, autostart, config)->Ok_0;
            let found = call(CliTask::InitConfig, TaskInputValue::Given(config));
            &&& cli_run(platform, command, autostart, config) is Ok
            &&& match settings {
                Err(causes) => calls(run, reply) == found && cli_result(run, reply) == Err::<
                    (),
                    Seq<Seq<char>>,
                >(causes),
                Ok(path) => {
                    let asked = if platform is Windows {
                        found + call(CliTask::RestoreExistingWindow, TaskInputValue::Found(path))
                    } else {
                        found
                    };
                    let gui = call((CliTask::RunGui { autostart }), TaskInputValue::Found(path));
                    if platform is Windows && restored {
                        calls(run, reply) == asked && cli_result(run, reply) is Ok
                    } else {
                        calls(run, reply) == asked + gui && same_result(
                            cli_result(run, reply),
                            shown,
                        )
                    }
                },
            }
        }),
{
    reveal_with_fuel(calls, 5);
    reveal_with_fuel(cli_result, 5);
    let run = cli_run(platform, command, autostart, config)->Ok_0;
    let gui = CliTask::RunGui { autostart };
    let restore = CliTask::RestoreExistingWindow;
    assert(one(gui).drop_first() =~= Seq::<CliTask>::empty());
    assert(one(restore).push(gui).drop_first() =~= one(gui));
    if platform is Windows {
        assert(run.rest.drop_first() =~= one(restore).push(gui));
    } else {
        assert(run.rest.drop_first() =~= one(gui));
    }
    if let Ok(path) = settings {
        let found = call(CliTask::InitConfig, TaskInputValue::Given(config));
        let asked = if platform is Windows {
            found + call(restore, TaskInputValue::Found(path))
        } else {
            found
        };
        if platform is Windows && restored {
            assert(calls(run, reply) =~= asked);
        } else {
            assert(calls(run, reply) =~= asked + call(gui, TaskInputValue::Found(path)));
        }
    } else {
        assert(calls(run, reply) =~= call(CliTask::InitConfig, TaskInputValue::Given(config)));
    }
}

/// The start at the login is enabled with the settings that were found, and confirmed if and only if
/// that succeeded; the first failure is the result, and where the settings cannot be found nothing
/// is enabled.
pub proof fn law_autostart_gets_the_settings<P>(
    platform: Platform,
    autostart: bool,
    config: Option<P>,
    reply: Replies<P>,
    settings: Result<P, Seq<Seq<char>>>,
    enabled: Result<(), Seq<Seq<char>>>,
)
    requires
        reply(CliTask::InitConfig, TaskInputValue::Given(config)) == CliEventValue::Settings(
            settings,
        ),
        settings is Ok ==> reply(
            CliTask::EnableAutostart,
            TaskInputValue::Found(settings->Ok_0),
        ) == CliEventValue::<P>::Done(enabled),
        reply(CliTask::Print(Line::AutostartEnabled), TaskInputValue::Nothing)
            == CliEventValue::<P>::Done(Ok(())),
    ensures
        ({
            let start = cli_run(platform, Some(Command::EnableAutostart), autostart, config);
            let run = start->Ok_0;
            let found = call(CliTask::InitConfig, TaskInputValue::Given(config));
            &&& start is Ok
            &&& match settings {
                Err(causes) => calls(run, reply) == found && cli_result(run, reply) == Err::<
                    (),
                    Seq<Seq<char>>,
                >(causes),
                Ok(path) => {
                    let told = found + call(CliTask::EnableAutostart, TaskInputValue::Found(path));
                    &&& same_result(cli_result(run, reply), enabled)
                    &&& calls(run, reply) == (if enabled is Ok {
                        told + call(
                            CliTask::Print(Line::AutostartEnabled),
                            TaskInputValue::Nothing,
                        )
                    } else {
                        told
                    })
                },
            }
        }),
{
    reveal_with_fuel(calls, 5);
    reveal_with_fuel(cli_result, 5);
    let run = cli_run(platform, Some(Command::EnableAutostart), autostart, config)->Ok_0;
    let print = CliTask::Print(Line::AutostartEnabled);
    assert(one(print).drop_first() =~= Seq::<CliTask>::empty());
    assert(one(CliTask::EnableAutostart).push(print).drop_first() =~= one(print));
    assert(run.rest.drop_first() =~= one(CliTask::EnableAutostart).push(print));
    let found = call(CliTask::InitConfig, TaskInputValue::Given(config));
    if let Ok(path) = settings {
        let told = found + call(CliTask::EnableAutostart, TaskInputValue::Found(path));
        if enabled is Ok {
            assert(calls(run, reply) =~= told + call(print, TaskInputValue::Nothing));
        } else {
            assert(calls(run, reply) =~= told);
        }
    } else {
        assert(calls(run, reply) =~= found);
    }
}

/// What each subcommand has the program do, on every platform.
pub proof fn law_subcommands_do_what_they_say(platform: Platform, autostart: bool)
    ensures
        ({
            let does = |command: Command, tasks: Seq<CliTask>| tasks_of(
                platform,
                Some(command),
                autostart,
            ) == Ok::<Seq<CliTask>, Seq<Seq<char>>>(tasks);
            &&& does(
                Command::InitConfig,
                seq![CliTask::InitConfig, CliTask::Print(Line::ConfigReady)],
            )
            &&& does(Command::Setup, seq![CliTask::Setup, CliTask::Print(Line::SetupComplete)])
            &&& does(Command::Run, seq![CliTask::RunForeground { start: false }])
            &&& does(Command::Daemon, seq![CliTask::RunForeground { start: false }])
            &&& does(Command::Start, seq![CliTask::RunForeground { start: true }])
            &&& does(Command::Stop, seq![CliTask::HelperStop, CliTask::Print(Line::ServiceStopped)])
            &&& does(
                Command::HelperStop,
                seq![CliTask::HelperStop, CliTask::Print(Line::ServiceStopped)],
            )
            &&& does(
                Command::HelperStart,
                seq![CliTask::HelperStart, CliTask::Print(Line::ServiceStarted)],
            )
            &&& does(Command::Status, seq![CliTask::PrintStatus])
            &&& does(Command::ConfigJson, seq![CliTask::PrintConfig])
            &&& does(
                Command::CleanHosts,
                seq![CliTask::CleanHosts, CliTask::Print(Line::HostsCleaned)],
            )
            &&& does(
                Command::ApplyHosts,
                seq![CliTask::ApplyHosts, CliTask::Print(Line::HostsApplied)],
            )
            &&& does(
                Command::BackupHosts,
                seq![CliTask::BackupHosts, CliTask::Print(Line::HostsBackupReady)],
            )
            &&& does(
                Command::RestoreHosts,
                seq![CliTask::RestoreHosts, CliTask::Print(Line::HostsRestored)],
            )
            &&& does(
                Command::UninstallCert,
                seq![CliTask::UninstallCertificate, CliTask::Print(Line::CertificateRemoved)],
            )
            &&& does(Command::Cleanup, seq![CliTask::Cleanup, CliTask::Print(Line::CleanupComplete)])
            &&& does(
                Command::EnableAutostart,
                seq![
                    CliTask::InitConfig,
                    CliTask::EnableAutostart,
                    CliTask::Print(Line::AutostartEnabled),
                ],
            )
            &&& does(
                Command::DisableAutostart,
                seq![CliTask::DisableAutostart, CliTask::Print(Line::AutostartDisabled)],
            )
        }),
{
    assert(forall|a: CliTask| #[trigger] one(a) =~= seq![a]);
    assert(forall|a: CliTask, b: CliTask| #[trigger] one(a).push(b) =~= seq![a, b]);
    assert(one(CliTask::InitConfig).push(CliTask::EnableAutostart).push(
        CliTask::Print(Line::AutostartEnabled),
    ) =~= seq![
        CliTask::InitConfig,
        CliTask::EnableAutostart,
        CliTask::Print(Line::AutostartEnabled),
    ]);
}

/// What needs a window: it is shown on Windows, Linux and macOS once the settings are there, on Windows after
/// the question for a window that is there already. Android refuses both the window and the icon, and
/// other platforms refuse the icon and have no window to show.
pub proof fn law_windows_are_shown_where_there_are_any(platform: Platform, autostart: bool)
    ensures
        ({
            let gui = tasks_of(platform, Some(Command::Gui), autostart);
            let icon = tasks_of(platform, Some(Command::TrayShell), autostart);
            &&& match platform {
                Platform::Windows => gui == Ok::<Seq<CliTask>, Seq<Seq<char>>>(
                    seq![
                        CliTask::InitConfig,
                        CliTask::RestoreExistingWindow,
                        CliTask::RunGui { autostart },
                    ],
                ),
                Platform::Linux => gui == Ok::<Seq<CliTask>, Seq<Seq<char>>>(
                    seq![CliTask::InitConfig, CliTask::RunGui { autostart }],
                ),
                Platform::Macos => gui == Ok::<Seq<CliTask>, Seq<Seq<char>>>(
                    seq![CliTask::InitConfig, CliTask::RunGui { autostart }],
                ),
                Platform::Android => gui == Err::<Seq<CliTask>, Seq<Seq<char>>>(
                    seq!["GUI is not supported on Android yet; use CLI subcommands"@],
                ),
                Platform::Other => gui is Ok && gui->Ok_0.len() == 0,
            }
            &&& platform is Windows || platform is Linux || platform is Macos ==> icon == Ok::<
                Seq<CliTask>,
                Seq<Seq<char>>,
            >(seq![CliTask::InitConfig, CliTask::RunTrayShell])
            &&& platform is Android || platform is Other ==> icon == Err::<
                Seq<CliTask>,
                Seq<Seq<char>>,
            >(seq!["tray-shell is not supported on this platform"@])
        }),
{
    let gui = CliTask::RunGui { autostart };
    assert(one(CliTask::InitConfig).push(CliTask::RestoreExistingWindow).push(gui) =~= seq![
        CliTask::InitConfig,
        CliTask::RestoreExistingWindow,
        gui,
    ]);
    assert(one(CliTask::InitConfig).push(gui) =~= seq![CliTask::InitConfig, gui]);
    assert(one(CliTask::InitConfig).push(CliTask::RunTrayShell) =~= seq![
        CliTask::InitConfig,
        CliTask::RunTrayShell,
    ]);
}

/// A task is handed the settings that were found where it shows something of them, nothing where it has
/// nothing to do with them, and else what the command line says.
pub proof fn law_tasks_are_handed_their_settings<P>(task: CliTask, config: Option<P>, found: P)
    ensures
        ({
            let input = task_input(task, config, Some(found));
            match task {
                CliTask::RestoreExistingWindow => input == TaskInputValue::Found(found),
                CliTask::RunGui { .. } => input == TaskInputValue::Found(found),
                CliTask::RunTrayShell => input == TaskInputValue::Found(found),
                CliTask::EnableAutostart => input == TaskInputValue::Found(found),
                CliTask::Print(Line::ConfigReady) => input == TaskInputValue::Found(found),
                CliTask::Print(_) => input is Nothing,
                CliTask::DisableAutostart => input is Nothing,
                _ => input == TaskInputValue::Given(config),
            }
        }),
{
}

/// After a task that went well the next one comes, with the settings where they were just found; a failure,
/// or a window that was brought back, is the end, and only a failure is the result.
pub proof fn law_tasks_follow_each_other<P>(
    run: CliRunValue<P>,
    task: CliTask,
    rest: Seq<CliTask>,
    path: P,
    causes: Seq<Seq<char>>,
)
    requires
        run.rest == seq![task] + rest,
    ensures
        ({
            let found = cli_step(run, CliEventValue::Settings(Ok(path)));
            let lost = cli_step(run, CliEventValue::Settings(Err(causes)));
            let restored = cli_step(run, CliEventValue::Window(true));
            let none = cli_step(run, CliEventValue::Window(false));
            let done = cli_step(run, CliEventValue::Done(Ok(())));
            let failed = cli_step(run, CliEventValue::Done(Err(causes)));
            &&& found.0.rest == rest && found.0.found == Some(path) && found.1 is Ok
            &&& none.0.rest == rest && none.0.found == run.found && none.1 is Ok
            &&& done.0.rest == rest && done.0.found == run.found && done.1 is Ok
            &&& restored.0.rest.len() == 0 && restored.1 is Ok
            &&& lost.0.rest.len() == 0 && lost.1 == Err::<(), Seq<Seq<char>>>(causes)
            &&& failed.0.rest.len() == 0 && failed.1 == Err::<(), Seq<Seq<char>>>(causes)
            &&& found.0.config == run.config && none.0.config == run.config && done.0.config
                == run.config
        }),
{
    assert((seq![task] + rest).drop_first() =~= rest);
}

/// A command line that is carried out begins with its first task, the path that it gives and no settings
/// found; one that is refused is refused with its reason.
pub proof fn law_command_lines_begin_at_the_start<P>(
    platform: Platform,
    command: Option<Command>,
    autostart: bool,
    config: Option<P>,
)
    ensures
        match cli_run(platform, command, autostart, config) {
            Ok(run) => {
                &&& tasks_of(platform, command, autostart) == Ok::<Seq<CliTask>, Seq<Seq<char>>>(
                    run.rest,
                )
                &&& run.config == config
                &&& run.found is None
            },
            Err(causes) => tasks_of(platform, command, autostart) == Err::<
                Seq<CliTask>,
                Seq<Seq<char>>,
            >(causes),
        },
{
}

/// Finding the settings comes to a path or a failure, the question for a window to yes or no, and every
/// other task to success or failure.
pub proof fn law_events_fit_their_tasks<P>(task: CliTask, event: CliEventValue<P>)
    ensures
        fits(task, event) <==> (task is InitConfig && event is Settings) || (task
            is RestoreExistingWindow && event is Window) || (!(task is InitConfig) && !(task
            is RestoreExistingWindow) && event is Done),
{
}

} // verus!
