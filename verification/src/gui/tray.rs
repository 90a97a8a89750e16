//! The icon in the tray, the process that shows it where the window is gone, and the processes
//! that bring the window back.

use vstd::prelude::*;
use vstd::string::*;

use crate::failure::{outcome, Failure};
use crate::file_path::{path_outcome, FilePath, FilePathValue};
use crate::gui::window::TrayCommand;
use crate::platform::Platform;
use crate::state::UiLeaseState;
use crate::text::{opt_str, opt_text, same_text, texts};

verus! {

// ---------------------------------------------------------------------------------------------
// The icon and its menu
// ---------------------------------------------------------------------------------------------

/// What the entry of the menu with this name asks for.
pub open spec fn menu_entry(id: Seq<char>) -> Option<TrayCommand> {
    if id == "tray-show"@ {
        Some(TrayCommand::Restore)
    } else if id == "tray-quit"@ {
        Some(TrayCommand::Quit)
    } else {
        None
    }
}

/// What the entry of the menu with this name asks for, if anything.
pub fn menu_command(id: &str) -> (command: Option<TrayCommand>)
    ensures
        command == menu_entry(id@),
{
    if same_text(id, "tray-show") {
        Some(TrayCommand::Restore)
    } else if same_text(id, "tray-quit") {
        Some(TrayCommand::Quit)
    } else {
        None
    }
}

/// What happened to the icon.
#[derive(Debug, Clone, Copy, PartialEq, Eq, Structural)]
pub enum IconEvent {
    /// A button of the mouse, the left one or another, was pressed or let go.
    Click { left: bool, released: bool },
    DoubleClick { left: bool },
    Other,
}

/// What a click on the icon asks for, if anything: the left button brings the window back.
pub fn icon_command(event: IconEvent) -> (command: Option<TrayCommand>)
    ensures
        command == (match event {
            IconEvent::Click { left, released } => if left && released {
                Some(TrayCommand::Restore)
            } else {
                None
            },
            IconEvent::DoubleClick { left } => if left {
                Some(TrayCommand::Restore)
            } else {
                None
            },
            IconEvent::Other => None,
        }),
{
    match event {
        IconEvent::Click { left: true, released: true } => Some(TrayCommand::Restore),
        IconEvent::DoubleClick { left: true } => Some(TrayCommand::Restore),
        _ => None,
    }
}

/// What the window tells the icon.
#[derive(Debug, Clone, Copy, PartialEq, Eq, Structural)]
pub enum TrayVisibilityCommand {
    Show,
    Hide,
    Quit,
}

/// What becomes of the icon.
#[derive(Debug, Clone, Copy, PartialEq, Eq, Structural)]
pub struct IconState {
    pub visible: bool,
    /// The icon is gone for good.
    pub over: bool,
}

/// What becomes of the icon.
pub fn tray_visibility(command: TrayVisibilityCommand) -> (state: IconState)
    ensures
        state == (IconState {
            visible: command is Show,
            over: command is Quit,
        }),
{
    match command {
        TrayVisibilityCommand::Show => IconState { visible: true, over: false },
        TrayVisibilityCommand::Hide => IconState { visible: false, over: false },
        TrayVisibilityCommand::Quit => IconState { visible: false, over: true },
    }
}

/// The icon as it is made, where the toolkit could be set up and the menu, the picture and the icon
/// itself could be made or not: it is not visible as long as the window is.
pub fn first_icon(toolkit: bool, menu: bool, picture: bool, icon: bool) -> (state: Option<
    IconState,
>)
    ensures
        state == (if toolkit && menu && picture && icon {
            Some(IconState { visible: false, over: false })
        } else {
            None
        }),
{
    if toolkit && menu && picture && icon {
        Some(IconState { visible: false, over: false })
    } else {
        None
    }
}

/// What the window has in hand of its icon.
#[derive(Debug, Clone, Copy, PartialEq, Eq, Structural)]
pub enum TrayState {
    /// A way to tell the thread that makes the icon and shows it, whatever became of the icon.
    Thread,
    /// The icon itself.
    Icon(IconState),
}

/// What the window has in hand of its icon, where `icon` is the icon as it was made. On Linux a
/// thread of its own makes the icon, and the window can speak to the thread in any case; on Windows
/// the window holds the icon, where there is one; elsewhere it has none.
pub fn build_tray_state(platform: Platform, icon: Option<IconState>) -> (state: Option<TrayState>)
    ensures
        state == (match platform {
            Platform::Linux => Some(TrayState::Thread),
            Platform::Windows => match icon {
                Some(icon) => Some(TrayState::Icon(icon)),
                None => None,
            },
            _ => None,
        }),
{
    match platform {
        Platform::Linux => Some(TrayState::Thread),
        Platform::Windows => match icon {
            Some(icon) => Some(TrayState::Icon(icon)),
            None => None,
        },
        _ => None,
    }
}

/// Whether the window has an icon to hide behind: always on Linux, where the icon is there on
/// Windows, and never elsewhere.
pub fn has_tray(platform: Platform, icon: Option<IconState>) -> (tray: bool)
    ensures
        tray == (platform is Linux || (platform is Windows && icon is Some)),
{
    build_tray_state(platform, icon).is_some()
}

// ---------------------------------------------------------------------------------------------
// The process that shows the icon
// ---------------------------------------------------------------------------------------------

/// What the process with the icon does.
#[derive(Debug, Clone, Copy, PartialEq, Eq, Structural)]
pub enum ShellTask {
    /// Note in the log that the process begins.
    LogStart,
    /// Make the toolkit ready.
    InitToolkit,
    /// Make the event loop ready.
    BuildLoop,
    BuildMenu,
    /// Make the picture of the icon.
    BuildPicture,
    BuildIcon,
    ShowIcon,
    /// Note in the log that the icon is visible.
    LogVisible,
    /// Renew the lease in the background.
    StartHeartbeat,
    /// Wait until the icon is asked for something.
    Wait,
    /// Note in the log that the icon was asked for this.
    LogCommand(TrayCommand),
    HideIcon(TrayCommand),
    /// Stop renewing the lease, because of this.
    StopHeartbeat(TrayCommand),
    /// Start the process with the window.
    SpawnUi,
    /// Leave the event loop.
    Quit,
    /// Stop renewing the lease, now that the event loop is left.
    Release,
    /// Note in the log that the process ends.
    LogExit,
    /// The process is over.
    Over,
}

/// What happened to the process with the icon.
#[derive(Debug)]
pub enum ShellEvent {
    /// The task succeeded or failed.
    Done(Result<(), Failure>),
    /// The icon was asked for this.
    Asked(TrayCommand),
    /// The event loop is left, with this result.
    Left(Result<(), Failure>),
}

/// What happened to the process with the icon, as values.
pub enum ShellEventValue {
    Done(Result<(), Seq<Seq<char>>>),
    Asked(TrayCommand),
    Left(Result<(), Seq<Seq<char>>>),
}

impl View for ShellEvent {
    type V = ShellEventValue;

    open spec fn view(&self) -> ShellEventValue {
        match self {
            ShellEvent::Done(result) => ShellEventValue::Done(outcome(*result)),
            ShellEvent::Asked(command) => ShellEventValue::Asked(*command),
            ShellEvent::Left(result) => ShellEventValue::Left(outcome(*result)),
        }
    }
}

/// The process with the icon: what it does now, and the result that it is to end with.
#[derive(Debug)]
pub struct ShellRun {
    pub platform: Platform,
    pub task: ShellTask,
    pub result: Result<(), Failure>,
}

/// The process with the icon, as values.
pub struct ShellRunValue {
    pub platform: Platform,
    pub task: ShellTask,
    pub result: Result<(), Seq<Seq<char>>>,
}

impl View for ShellRun {
    type V = ShellRunValue;

    open spec fn view(&self) -> ShellRunValue {
        ShellRunValue {
            platform: self.platform,
            task: self.task,
            result: outcome(self.result),
        }
    }
}

/// The process is inside its event loop, which may be left without its doing. The loop of Linux is
/// never left so.
pub open spec fn is_in_loop(platform: Platform, task: ShellTask) -> bool {
    !(platform is Linux) && match task {
        ShellTask::BuildMenu | ShellTask::BuildPicture | ShellTask::BuildIcon => true,
        ShellTask::Wait => true,
        _ => false,
    }
}

/// The event can be what a task comes to. While the process waits the icon can be asked for
/// something, and off Linux it still can until the event loop is left.
pub open spec fn shell_fits(platform: Platform, task: ShellTask, event: ShellEventValue) -> bool {
    match event {
        ShellEventValue::Asked(_) => task is Wait || (task is Quit && !(platform is Linux)),
        ShellEventValue::Left(_) => task is Quit || is_in_loop(platform, task),
        ShellEventValue::Done(_) => !(task is Wait) && !(task is Quit) && !(task is Over),
    }
}

/// The message above the cause where a task by which the process begins fails.
pub open spec fn shell_task_context(platform: Platform, task: ShellTask) -> Option<Seq<char>> {
    match task {
        ShellTask::InitToolkit => Some("failed to initialize GTK for tray shell"@),
        ShellTask::BuildIcon => Some(
            if platform is Linux {
                "failed to create Linux tray icon"@
            } else {
                "failed to create tray shell icon"@
            },
        ),
        ShellTask::ShowIcon => Some("failed to show Linux tray icon"@),
        _ => None,
    }
}

/// The failure of a task by which the process begins.
pub open spec fn shell_failure(
    platform: Platform,
    task: ShellTask,
    causes: Seq<Seq<char>>,
) -> Seq<Seq<char>> {
    match shell_task_context(platform, task) {
        Some(message) => seq![message] + causes,
        None => causes,
    }
}

/// The failure of a task by which the process begins.
fn failed_task(platform: Platform, task: ShellTask, error: Failure) -> (failure: Failure)
    ensures
        failure@ == shell_failure(platform, task, error@),
{
    match task {
        ShellTask::InitToolkit => error.context(
            "failed to initialize GTK for tray shell".to_string(),
        ),
        ShellTask::BuildIcon => if matches!(platform, Platform::Linux) {
            error.context("failed to create Linux tray icon".to_string())
        } else {
            error.context("failed to create tray shell icon".to_string())
        },
        ShellTask::ShowIcon => error.context("failed to show Linux tray icon".to_string()),
        _ => error,
    }
}

/// The process as it begins. On Linux the icon is made before anything else; elsewhere it is made
/// inside the event loop.
pub open spec fn shell_begin(platform: Platform) -> ShellRunValue {
    ShellRunValue {
        platform,
        task: if platform is Linux {
            ShellTask::LogStart
        } else {
            ShellTask::StartHeartbeat
        },
        result: Ok(()),
    }
}

/// The tasks whose failure matters: the process cannot begin without them.
pub open spec fn is_needed(task: ShellTask) -> bool {
    match task {
        ShellTask::InitToolkit | ShellTask::BuildLoop | ShellTask::BuildMenu => true,
        ShellTask::BuildPicture | ShellTask::BuildIcon | ShellTask::ShowIcon => true,
        _ => false,
    }
}

/// The task that follows, where this one did what it was to do.
pub open spec fn next_task(platform: Platform, task: ShellTask) -> ShellTask {
    match task {
        ShellTask::LogStart => ShellTask::InitToolkit,
        ShellTask::InitToolkit => ShellTask::BuildMenu,
        ShellTask::BuildLoop => ShellTask::BuildMenu,
        ShellTask::BuildMenu => ShellTask::BuildPicture,
        ShellTask::BuildPicture => ShellTask::BuildIcon,
        ShellTask::BuildIcon => if platform is Linux {
            ShellTask::ShowIcon
        } else {
            ShellTask::Wait
        },
        ShellTask::ShowIcon => ShellTask::LogVisible,
        ShellTask::LogVisible => ShellTask::StartHeartbeat,
        ShellTask::StartHeartbeat => if platform is Linux {
            ShellTask::Wait
        } else {
            ShellTask::BuildLoop
        },
        ShellTask::LogCommand(command) => ShellTask::HideIcon(command),
        ShellTask::HideIcon(command) => ShellTask::StopHeartbeat(command),
        ShellTask::StopHeartbeat(TrayCommand::Restore) => ShellTask::SpawnUi,
        ShellTask::StopHeartbeat(TrayCommand::Quit) => ShellTask::Quit,
        ShellTask::SpawnUi => ShellTask::Quit,
        ShellTask::Release => if platform is Linux {
            ShellTask::LogExit
        } else {
            ShellTask::Over
        },
        _ => ShellTask::Over,
    }
}

/// The process after an event. On Linux the first failure at the beginning ends the process; elsewhere
/// a failure to make the event loop does, and an icon that cannot be made ends the event loop. Any
/// other failure is passed over. The result is that of the event loop, which on Linux is always good.
pub open spec fn shell_step(run: ShellRunValue, event: ShellEventValue) -> ShellRunValue {
    match event {
        ShellEventValue::Asked(command) => ShellRunValue {
            task: if run.platform is Linux {
                ShellTask::LogCommand(command)
            } else {
                ShellTask::StopHeartbeat(command)
            },
            ..run
        },
        ShellEventValue::Left(result) => ShellRunValue {
            task: ShellTask::Release,
            result: if run.platform is Linux {
                Ok(())
            } else {
                result
            },
            ..run
        },
        ShellEventValue::Done(Err(causes)) if is_needed(run.task) => if run.platform is Linux
            || run.task is BuildLoop {
            ShellRunValue {
                task: ShellTask::Over,
                result: Err(shell_failure(run.platform, run.task, causes)),
                ..run
            }
        } else {
            ShellRunValue { task: ShellTask::Quit, ..run }
        },
        ShellEventValue::Done(_) => ShellRunValue {
            task: next_task(run.platform, run.task),
            ..run
        },
    }
}

/// Begins the process with the icon.
pub fn run_tray_shell(platform: Platform) -> (run: ShellRun)
    ensures
        run@ == shell_begin(platform),
{
    ShellRun {
        platform,
        task: if matches!(platform, Platform::Linux) {
            ShellTask::LogStart
        } else {
            ShellTask::StartHeartbeat
        },
        result: Ok(()),
    }
}

fn is_needed_task(task: ShellTask) -> (needed: bool)
    ensures
        needed == is_needed(task),
{
    match task {
        ShellTask::InitToolkit | ShellTask::BuildLoop | ShellTask::BuildMenu => true,
        ShellTask::BuildPicture | ShellTask::BuildIcon | ShellTask::ShowIcon => true,
        _ => false,
    }
}

fn task_after(platform: Platform, task: ShellTask) -> (next: ShellTask)
    ensures
        next == next_task(platform, task),
{
    let linux = matches!(platform, Platform::Linux);
    match task {
        ShellTask::LogStart => ShellTask::InitToolkit,
        ShellTask::InitToolkit => ShellTask::BuildMenu,
        ShellTask::BuildLoop => ShellTask::BuildMenu,
        ShellTask::BuildMenu => ShellTask::BuildPicture,
        ShellTask::BuildPicture => ShellTask::BuildIcon,
        ShellTask::BuildIcon => if linux {
            ShellTask::ShowIcon
        } else {
            ShellTask::Wait
        },
        ShellTask::ShowIcon => ShellTask::LogVisible,
        ShellTask::LogVisible => ShellTask::StartHeartbeat,
        ShellTask::StartHeartbeat => if linux {
            ShellTask::Wait
        } else {
            ShellTask::BuildLoop
        },
        ShellTask::LogCommand(command) => ShellTask::HideIcon(command),
        ShellTask::HideIcon(command) => ShellTask::StopHeartbeat(command),
        ShellTask::StopHeartbeat(TrayCommand::Restore) => ShellTask::SpawnUi,
        ShellTask::StopHeartbeat(TrayCommand::Quit) => ShellTask::Quit,
        ShellTask::SpawnUi => ShellTask::Quit,
        ShellTask::Release => if linux {
            ShellTask::LogExit
        } else {
            ShellTask::Over
        },
        _ => ShellTask::Over,
    }
}

impl ShellRun {
    /// Goes on after an event.
    pub fn record(self, event: ShellEvent) -> (next: ShellRun)
        requires
            shell_fits(self@.platform, self@.task, event@),
        ensures
            next@ == shell_step(self@, event@),
    {
        let platform = self.platform;
        let task = self.task;
        let linux = matches!(platform, Platform::Linux);
        match event {
            ShellEvent::Asked(command) => ShellRun {
                platform,
                task: if linux {
                    ShellTask::LogCommand(command)
                } else {
                    ShellTask::StopHeartbeat(command)
                },
                result: self.result,
            },
            ShellEvent::Left(result) => ShellRun {
                platform,
                task: ShellTask::Release,
                result: if linux {
                    Ok(())
                } else {
                    result
                },
            },
            ShellEvent::Done(Ok(_)) => ShellRun {
                platform,
                task: task_after(platform, task),
                result: self.result,
            },
            ShellEvent::Done(Err(error)) => if !is_needed_task(task) {
                ShellRun { platform, task: task_after(platform, task), result: self.result }
            } else if linux || matches!(task, ShellTask::BuildLoop) {
                ShellRun {
                    platform,
                    task: ShellTask::Over,
                    result: Err(failed_task(platform, task, error)),
                }
            } else {
                ShellRun { platform, task: ShellTask::Quit, result: self.result }
            },
        }
    }
}

/// The line that a task adds to the log, if any.
pub open spec fn shell_line(task: ShellTask, config_path: Seq<char>) -> Option<Seq<char>> {
    match task {
        ShellTask::LogStart => Some("tray-shell start config="@ + config_path),
        ShellTask::LogVisible => Some("tray-shell icon visible"@),
        ShellTask::LogCommand(TrayCommand::Restore) => Some("tray-shell restore clicked"@),
        ShellTask::LogCommand(TrayCommand::Quit) => Some("tray-shell quit clicked"@),
        ShellTask::LogExit => Some("tray-shell exit"@),
        _ => None,
    }
}

/// The line that a task adds to the log, if any.
pub fn shell_log_line(task: ShellTask, config_path: &str) -> (line: Option<String>)
    ensures
        opt_text(line) == shell_line(task, config_path@),
{
    match task {
        ShellTask::LogStart => Some("tray-shell start config=".to_string().concat(config_path)),
        ShellTask::LogVisible => Some("tray-shell icon visible".to_string()),
        ShellTask::LogCommand(TrayCommand::Restore) => Some(
            "tray-shell restore clicked".to_string(),
        ),
        ShellTask::LogCommand(TrayCommand::Quit) => Some("tray-shell quit clicked".to_string()),
        ShellTask::LogExit => Some("tray-shell exit".to_string()),
        _ => None,
    }
}

/// The milliseconds between two looks at what the icon was asked for, on Linux.
pub const TRAY_POLL_MILLIS: u64 = 100;

/// The seconds between two renewals of the lease.
pub const HEARTBEAT_SECONDS: u64 = 2;

/// Whether there is a lease: the files of the program are known, and reading the lease came to one.
pub fn ui_lease_exists(lease: &Option<Result<Option<UiLeaseState>, Failure>>) -> (exists: bool)
    ensures
        exists == (match *lease {
            Some(Ok(lease)) => lease is Some,
            _ => false,
        }),
{
    match lease {
        Some(Ok(lease)) => lease.is_some(),
        _ => false,
    }
}

/// How the lease is renewed in the background.
#[derive(Debug, Clone, Copy, PartialEq, Eq, Structural)]
pub enum Heartbeat {
    /// It is not renewed any more.
    Over,
    /// It is renewed now, and after so many seconds the question is put again.
    Renew(u64),
}

/// The next step of renewing the lease: it is renewed at once and then every two seconds, until it
/// is told to stop.
pub fn heartbeat_step(stopped: bool) -> (step: Heartbeat)
    ensures
        step == (if stopped {
            Heartbeat::Over
        } else {
            Heartbeat::Renew(HEARTBEAT_SECONDS)
        }),
        !stopped ==> step == Heartbeat::Renew(2),
{
    if stopped {
        Heartbeat::Over
    } else {
        Heartbeat::Renew(HEARTBEAT_SECONDS)
    }
}

/// Whether the lease is renewed in the background, where looking for it came to `lease`: only where
/// there is one.
pub fn spawn_ui_lease_heartbeat(lease: &Option<Result<Option<UiLeaseState>, Failure>>) -> (beat:
    bool)
    ensures
        beat == (match *lease {
            Some(Ok(lease)) => lease is Some,
            _ => false,
        }),
{
    ui_lease_exists(lease)
}

// ---------------------------------------------------------------------------------------------
// The processes
// ---------------------------------------------------------------------------------------------

/// A program that is to be started apart, and the line that the log gets.
#[derive(Debug)]
pub struct Launch<P> {
    pub executable: FilePath<P>,
    pub args: Vec<String>,
    pub log_line: Option<String>,
}

/// A program that is to be started apart, as values.
pub struct LaunchValue<P> {
    pub executable: FilePathValue<P>,
    pub args: Seq<Seq<char>>,
    pub log_line: Option<Seq<char>>,
}

impl<P> View for Launch<P> {
    type V = LaunchValue<P>;

    open spec fn view(&self) -> LaunchValue<P> {
        LaunchValue {
            executable: self.executable@,
            args: texts(self.args@),
            log_line: opt_text(self.log_line),
        }
    }
}

/// The arguments that make the program do `subcommand` with these settings.
pub open spec fn program_args(config_path: Seq<char>, subcommand: Seq<char>) -> Seq<Seq<char>> {
    seq!["--config"@, config_path, subcommand]
}

fn args_for(config_path: &str, subcommand: &str) -> (args: Vec<String>)
    ensures
        texts(args@) == program_args(config_path@, subcommand@),
{
    let mut args: Vec<String> = Vec::new();
    args.push("--config".to_string());
    args.push(config_path.to_string());
    args.push(subcommand.to_string());
    assert(texts(args@) =~= program_args(config_path@, subcommand@));
    args
}

/// How the process with the icon is started.
pub fn spawn_tray_shell<P>(gui_binary: FilePath<P>, config_path: &str) -> (launch: Launch<P>)
    ensures
        launch@ == (LaunchValue {
            executable: gui_binary@,
            args: program_args(config_path@, "tray-shell"@),
            log_line: None,
        }),
{
    Launch {
        executable: gui_binary,
        args: args_for(config_path, "tray-shell"),
        log_line: None,
    }
}

/// The desktop starts the process with the window, by the name of its launcher.
pub open spec fn uses_desktop_launcher(platform: Platform, native_frame: bool) -> bool {
    platform is Linux && native_frame
}

/// How the process with the window is started.
pub open spec fn ui_launch<P>(
    platform: Platform,
    native_frame: bool,
    gui_binary: FilePathValue<P>,
    config_path: Seq<char>,
) -> LaunchValue<P> {
    if uses_desktop_launcher(platform, native_frame) {
        LaunchValue {
            executable: FilePathValue::Fixed("/usr/bin/gtk-launch"@),
            args: seq!["linuxdo-accelerator"@],
            log_line: Some(
                "spawn ui via launcher exe="@ + "/usr/bin/gtk-launch"@ + " config="@ + config_path,
            ),
        }
    } else {
        LaunchValue {
            executable: gui_binary,
            args: program_args(config_path, "gui"@),
            log_line: if platform is Linux {
                Some("spawn ui exe="@ + gui_binary.shown() + " config="@ + config_path)
            } else {
                None
            },
        }
    }
}

/// How the process with the window is started; `gui_binary` is the path of the program.
pub fn spawn_ui_process<P>(
    platform: Platform,
    native_frame: bool,
    gui_binary: FilePath<P>,
    config_path: &str,
) -> (launch: Launch<P>)
    ensures
        launch@ == ui_launch(platform, native_frame, gui_binary@, config_path@),
{
    if matches!(platform, Platform::Linux) && native_frame {
        let mut args: Vec<String> = Vec::new();
        args.push("linuxdo-accelerator".to_string());
        assert(texts(args@) =~= seq!["linuxdo-accelerator"@]);
        return Launch {
            executable: FilePath::Fixed("/usr/bin/gtk-launch".to_string()),
            args,
            log_line: Some(
                "spawn ui via launcher exe=".to_string().concat("/usr/bin/gtk-launch").concat(
                    " config=",
                ).concat(config_path),
            ),
        };
    }
    let log_line = if matches!(platform, Platform::Linux) {
        Some(
            "spawn ui exe=".to_string().concat(gui_binary.text().as_str()).concat(
                " config=",
            ).concat(config_path),
        )
    } else {
        None
    };
    Launch { executable: gui_binary, args: args_for(config_path, "gui"), log_line }
}

/// The name of the program's file.
pub open spec fn binary_name(platform: Platform) -> Seq<char> {
    if platform is Windows {
        "linuxdo-accelerator.exe"@
    } else {
        "linuxdo-accelerator"@
    }
}

/// What a process is started for.
#[derive(Debug, Clone, Copy, PartialEq, Eq, Structural)]
pub enum LaunchPurpose {
    /// To show the icon in the tray.
    TrayShell,
    /// To show the window again.
    Ui,
}

/// The result of starting a process, where starting it came to `spawned`.
pub fn launch_result(purpose: LaunchPurpose, spawned: Result<(), Failure>) -> (result: Result<
    (),
    Failure,
>)
    ensures
        outcome(result) == (match outcome(spawned) {
            Ok(_) => Ok(()),
            Err(causes) => match purpose {
                LaunchPurpose::TrayShell => Err(seq!["failed to start tray shell"@] + causes),
                LaunchPurpose::Ui => Err(seq!["failed to reopen UI"@] + causes),
            },
        }),
{
    match spawned {
        Ok(_) => Ok(()),
        Err(error) => Err(
            match purpose {
                LaunchPurpose::TrayShell => error.context(
                    "failed to start tray shell".to_string(),
                ),
                LaunchPurpose::Ui => error.context("failed to reopen UI".to_string()),
            },
        ),
    }
}

/// The name of the file of the program that carries actions out.
pub fn action_binary_name(platform: Platform) -> (name: &'static str)
    ensures
        name@ == binary_name(platform),
{
    match platform {
        Platform::Windows => "linuxdo-accelerator.exe",
        _ => "linuxdo-accelerator",
    }
}

/// The name of the file of the program that shows the window: it is the same program.
pub fn gui_binary_name(platform: Platform) -> (name: &'static str)
    ensures
        name@ == binary_name(platform),
{
    action_binary_name(platform)
}

/// Where the program that runs lies, and what lies beside it.
#[derive(Debug)]
pub struct CurrentExecutable<P> {
    pub path: FilePath<P>,
    /// The name of its file, where it is text.
    pub file_name: Option<String>,
    /// The path of the wanted program beside it.
    pub sibling: FilePath<P>,
    pub sibling_exists: bool,
}

/// The path of the program with the file name `binary`: that of the program that runs where it
/// has that name, and else that beside it.
pub open spec fn located<P>(current: CurrentExecutable<P>, binary: Seq<char>) -> Result<
    FilePathValue<P>,
    Seq<Seq<char>>,
> {
    if opt_text(current.file_name) == Some(binary) {
        Ok(current.path@)
    } else if current.sibling_exists {
        Ok(current.sibling@)
    } else {
        Err(seq!["failed to locate binary "@ + current.sibling@.shown()])
    }
}

/// The path of the program with the file name `binary_name`, or why it was not found.
pub fn locate_current_or_sibling_binary<P>(
    current: Result<CurrentExecutable<P>, Failure>,
    binary_name: &str,
) -> (path: Result<FilePath<P>, Failure>)
    ensures
        path_outcome(path) == (match current {
            Err(error) => Err(seq!["failed to locate current executable"@] + error@),
            Ok(current) => located(current, binary_name@),
        }),
{
    match current {
        Err(error) => Err(error.context("failed to locate current executable".to_string())),
        Ok(current) => {
            let is_current = match &current.file_name {
                Some(name) => same_text(name.as_str(), binary_name),
                None => false,
            };
            if is_current {
                return Ok(current.path);
            }
            if current.sibling_exists {
                return Ok(current.sibling);
            }
            Err(
                Failure::new(
                    "failed to locate binary ".to_string().concat(current.sibling.text().as_str()),
                ),
            )
        },
    }
}

// ---------------------------------------------------------------------------------------------
// The icons of the shortcuts
// ---------------------------------------------------------------------------------------------

/// What is noted once the shortcuts of Windows have the icon of this version of the program.
pub open spec fn shortcut_stamp(version: Seq<char>, executable: Seq<char>) -> Seq<char> {
    version + "\n"@ + executable
}

/// What is to be noted once the shortcuts have the icon of this version of the program; none
/// where it is noted already, and nothing is to be done.
pub fn schedule_windows_shortcut_icon_refresh(
    version: &str,
    executable: &str,
    noted: Option<&str>,
) -> (stamp: Option<String>)
    ensures
        opt_text(stamp) == (if opt_str(noted) == Some(shortcut_stamp(version@, executable@)) {
            None
        } else {
            Some(shortcut_stamp(version@, executable@))
        }),
{
    let stamp = version.to_string().concat("\n").concat(executable);
    let done = match noted {
        Some(text) => same_text(text, stamp.as_str()),
        None => false,
    };
    if done {
        None
    } else {
        Some(stamp)
    }
}

// ---------------------------------------------------------------------------------------------
// Laws
// ---------------------------------------------------------------------------------------------

/// The tasks by which the process begins, where none of them fails.
pub open spec fn start_tasks(platform: Platform) -> Seq<ShellTask> {
    if platform is Linux {
        seq![
            ShellTask::LogStart,
            ShellTask::InitToolkit,
            ShellTask::BuildMenu,
            ShellTask::BuildPicture,
            ShellTask::BuildIcon,
            ShellTask::ShowIcon,
            ShellTask::LogVisible,
            ShellTask::StartHeartbeat,
            ShellTask::Wait,
        ]
    } else {
        seq![
            ShellTask::StartHeartbeat,
            ShellTask::BuildLoop,
            ShellTask::BuildMenu,
            ShellTask::BuildPicture,
            ShellTask::BuildIcon,
            ShellTask::Wait,
        ]
    }
}

/// The process after at most `steps` events, where each task comes to what `reply` says.
pub open spec fn shell_after(
    run: ShellRunValue,
    reply: spec_fn(ShellTask) -> ShellEventValue,
    steps: nat,
) -> ShellRunValue
    decreases steps,
{
    if steps == 0 || run.task is Over {
        run
    } else {
        shell_after(shell_step(run, reply(run.task)), reply, (steps - 1) as nat)
    }
}

/// What the process does in at most `steps` events, in order.
pub open spec fn shell_tasks(
    run: ShellRunValue,
    reply: spec_fn(ShellTask) -> ShellEventValue,
    steps: nat,
) -> Seq<ShellTask>
    decreases steps,
{
    if steps == 0 || run.task is Over {
        Seq::empty()
    } else {
        seq![run.task] + shell_tasks(
            shell_step(run, reply(run.task)),
            reply,
            (steps - 1) as nat,
        )
    }
}

/// A process of which no task fails comes to wait, after the tasks of its beginning in their order.
pub proof fn law_shell_begins_in_order(
    platform: Platform,
    reply: spec_fn(ShellTask) -> ShellEventValue,
)
    requires
        forall|task: ShellTask| !(task is Wait) ==> #[trigger] reply(task) == ShellEventValue::Done(
            Ok(()),
        ),
    ensures
        ({
            let steps = (start_tasks(platform).len() - 1) as nat;
            &&& shell_tasks(shell_begin(platform), reply, steps).push(ShellTask::Wait)
                == start_tasks(platform)
            &&& shell_after(shell_begin(platform), reply, steps).task is Wait
        }),
{
    reveal_with_fuel(shell_tasks, 10);
    reveal_with_fuel(shell_after, 10);
    let steps = (start_tasks(platform).len() - 1) as nat;
    assert(shell_tasks(shell_begin(platform), reply, steps).push(ShellTask::Wait) =~= start_tasks(
        platform,
    ));
}

/// On Linux the first failure at the beginning is the end of the process and its result. Elsewhere an
/// event loop that cannot be made is, too.
pub proof fn law_failed_start_is_the_result(run: ShellRunValue, causes: Seq<Seq<char>>)
    requires
        is_needed(run.task),
        run.platform is Linux || run.task is BuildLoop,
    ensures
        shell_step(run, ShellEventValue::Done(Err(causes))).task is Over,
        shell_step(run, ShellEventValue::Done(Err(causes))).result == Err::<(), Seq<Seq<char>>>(
            shell_failure(run.platform, run.task, causes),
        ),
{
}

/// Off Linux an icon that cannot be made ends the process with the result of its event loop, and so
/// well where the loop ends well.
pub proof fn law_missing_icon_ends_well(
    run: ShellRunValue,
    causes: Seq<Seq<char>>,
    left: Result<(), Seq<Seq<char>>>,
    released: Result<(), Seq<Seq<char>>>,
)
    requires
        !(run.platform is Linux),
        run.task is BuildMenu || run.task is BuildPicture || run.task is BuildIcon,
    ensures
        ({
            let quit = shell_step(run, ShellEventValue::Done(Err(causes)));
            let last = shell_step(
                shell_step(quit, ShellEventValue::Left(left)),
                ShellEventValue::Done(released),
            );
            &&& quit.task is Quit
            &&& last.task is Over
            &&& last.result == left
        }),
{
}

/// What the process does when the icon was asked for something, up to leaving its event loop: in any
/// case it stops renewing the lease, and it starts the process with the window where the window is to
/// come back.
pub open spec fn shell_reaction(platform: Platform, command: TrayCommand) -> Seq<ShellTask> {
    let noted = if platform is Linux {
        seq![ShellTask::LogCommand(command), ShellTask::HideIcon(command)]
    } else {
        Seq::empty()
    };
    let stopped = noted.push(ShellTask::StopHeartbeat(command));
    match command {
        TrayCommand::Restore => stopped.push(ShellTask::SpawnUi).push(ShellTask::Quit),
        TrayCommand::Quit => stopped.push(ShellTask::Quit),
    }
}

/// What the process does once its event loop is left.
pub open spec fn shell_ending(platform: Platform) -> Seq<ShellTask> {
    if platform is Linux {
        seq![ShellTask::Release, ShellTask::LogExit]
    } else {
        seq![ShellTask::Release]
    }
}

/// Whatever the icon was asked for, and whatever the tasks come to that follow, the process does
/// what it is to do and ends. In particular a process with the window that cannot be started is
/// passed over. The result is that of the event loop, and on Linux it is good.
pub proof fn law_shell_always_ends(
    run: ShellRunValue,
    command: TrayCommand,
    reply: spec_fn(ShellTask) -> ShellEventValue,
    left: Result<(), Seq<Seq<char>>>,
)
    requires
        run.task is Wait,
        reply(ShellTask::Quit) == ShellEventValue::Left(left),
        forall|task: ShellTask|
            !(task is Quit) && !(task is Wait) ==> (#[trigger] reply(task)) is Done,
    ensures
        ({
            let asked = shell_step(run, ShellEventValue::Asked(command));
            &&& shell_tasks(asked, reply, 7) == shell_reaction(run.platform, command)
                + shell_ending(run.platform)
            &&& shell_after(asked, reply, 7).task is Over
            &&& shell_after(asked, reply, 7).result == (if run.platform is Linux {
                Ok(())
            } else {
                left
            })
        }),
{
    reveal_with_fuel(shell_tasks, 8);
    reveal_with_fuel(shell_after, 8);
    let asked = shell_step(run, ShellEventValue::Asked(command));
    assert(shell_tasks(asked, reply, 7) =~= shell_reaction(run.platform, command) + shell_ending(
        run.platform,
    ));
}

/// The program finds itself: where it runs under the wanted name, its own path is taken, whatever
/// lies beside it.
pub proof fn law_program_finds_itself<P>(current: CurrentExecutable<P>, platform: Platform)
    requires
        opt_text(current.file_name) == Some(binary_name(platform)),
    ensures
        located(current, binary_name(platform)) == Ok::<
            FilePathValue<P>,
            Seq<Seq<char>>,
        >(current.path@),
{
}

/// The menu has two entries: one brings the window back and the other ends the program.
pub proof fn law_menu_has_two_entries(id: Seq<char>)
    ensures
        menu_entry("tray-show"@) == Some(TrayCommand::Restore),
        menu_entry("tray-quit"@) == Some(TrayCommand::Quit),
        id != "tray-show"@ && id != "tray-quit"@ ==> menu_entry(id) is None,
{
    reveal_strlit("tray-show");
    reveal_strlit("tray-quit");
    assert("tray-show"@[5] != "tray-quit"@[5]);
}

/// A failure of a task that the process can do without is passed over: the process goes on as if the task
/// had succeeded. It can do without every task but those that make the icon and what it needs.
pub proof fn law_lesser_failures_are_passed_over(run: ShellRunValue, causes: Seq<Seq<char>>)
    requires
        !(run.task is InitToolkit) && !(run.task is BuildLoop) && !(run.task is BuildMenu) && !(
        run.task is BuildPicture) && !(run.task is BuildIcon) && !(run.task is ShowIcon),
    ensures
        shell_step(run, ShellEventValue::Done(Err(causes))) == shell_step(
            run,
            ShellEventValue::Done(Ok(())),
        ),
        shell_step(run, ShellEventValue::Done(Ok(()))).result == run.result,
        shell_step(run, ShellEventValue::Done(Ok(()))).platform == run.platform,
{
}

/// A task that makes the icon, or what it needs, is told with a message where it fails: some have one of
/// their own above the cause, which for the icon itself depends on the platform.
pub proof fn law_failed_start_is_explained(run: ShellRunValue, causes: Seq<Seq<char>>)
    requires
        run.task is InitToolkit || run.task is BuildLoop || run.task is BuildMenu || run.task
            is BuildPicture || run.task is BuildIcon || run.task is ShowIcon,
    ensures
        ({
            let next = shell_step(run, ShellEventValue::Done(Err(causes)));
            if run.platform is Linux || run.task is BuildLoop {
                &&& next.task is Over
                &&& next.result == Err::<(), Seq<Seq<char>>>(
                    match run.task {
                        ShellTask::InitToolkit => seq!["failed to initialize GTK for tray shell"@]
                            + causes,
                        ShellTask::BuildIcon => seq!["failed to create Linux tray icon"@] + causes,
                        ShellTask::ShowIcon => seq!["failed to show Linux tray icon"@] + causes,
                        _ => causes,
                    },
                )
            } else {
                next.task is Quit && next.result == run.result
            }
        }),
        shell_failure(Platform::Windows, ShellTask::BuildIcon, causes) == seq![
            "failed to create tray shell icon"@,
        ] + causes,
        shell_failure(Platform::Macos, ShellTask::BuildIcon, causes) == seq![
            "failed to create tray shell icon"@,
        ] + causes,
{
}

/// The icon can be asked for something while the process waits, and off Linux also until its loop is left;
/// the loop can be left once the process quits, and off Linux whenever the process is inside it; any other
/// task succeeds or fails.
pub proof fn law_events_come_when_they_can(
    platform: Platform,
    task: ShellTask,
    command: TrayCommand,
    result: Result<(), Seq<Seq<char>>>,
)
    ensures
        shell_fits(platform, task, ShellEventValue::Asked(command)) <==> task is Wait || (task is Quit
            && !(platform is Linux)),
        shell_fits(platform, task, ShellEventValue::Left(result)) <==> task is Quit || (!(platform
            is Linux) && (task is BuildMenu || task is BuildPicture || task is BuildIcon || task
            is Wait)),
        shell_fits(platform, task, ShellEventValue::Done(result)) <==> !(task is Wait) && !(task
            is Quit) && !(task is Over),
{
}

/// The log gets a line at the beginning, which names the settings, when the icon is visible, for each thing
/// that the icon is asked for, and at the end; no other task adds to it.
pub proof fn law_log_follows_the_shell(task: ShellTask, config_path: Seq<char>)
    ensures
        shell_line(ShellTask::LogStart, config_path) == Some(
            "tray-shell start config="@ + config_path,
        ),
        shell_line(ShellTask::LogVisible, config_path) == Some("tray-shell icon visible"@),
        shell_line(ShellTask::LogCommand(TrayCommand::Restore), config_path) == Some(
            "tray-shell restore clicked"@,
        ),
        shell_line(ShellTask::LogCommand(TrayCommand::Quit), config_path) == Some(
            "tray-shell quit clicked"@,
        ),
        shell_line(ShellTask::LogExit, config_path) == Some("tray-shell exit"@),
        shell_line(task, config_path) is Some <==> task is LogStart || task is LogVisible || task
            is LogCommand || task is LogExit,
{
}

/// The program is started with its settings and what it is to do, in this order; on Linux with a frame of
/// its own the desktop starts the window by the name of its launcher, and only Linux logs the start.
pub proof fn law_window_is_started_with_its_settings<P>(
    platform: Platform,
    native_frame: bool,
    gui_binary: FilePathValue<P>,
    config_path: Seq<char>,
    subcommand: Seq<char>,
)
    ensures
        program_args(config_path, subcommand) == seq!["--config"@, config_path, subcommand],
        ({
            let launch = ui_launch(platform, native_frame, gui_binary, config_path);
            if platform is Linux && native_frame {
                &&& launch.executable == FilePathValue::<P>::Fixed("/usr/bin/gtk-launch"@)
                &&& launch.args == seq!["linuxdo-accelerator"@]
                &&& launch.log_line == Some(
                    "spawn ui via launcher exe="@ + "/usr/bin/gtk-launch"@ + " config="@ + config_path,
                )
            } else {
                &&& launch.executable == gui_binary
                &&& launch.args == seq!["--config"@, config_path, "gui"@]
                &&& launch.log_line is Some <==> platform is Linux
                &&& platform is Linux ==> launch.log_line->0 == "spawn ui exe="@ + gui_binary.shown()
                    + " config="@ + config_path
            }
        }),
{
}

/// The file of the program has its own name on Windows, and the same name everywhere else.
pub proof fn law_program_has_its_name(platform: Platform)
    ensures
        platform is Windows ==> binary_name(platform) == "linuxdo-accelerator.exe"@,
        !(platform is Windows) ==> binary_name(platform) == "linuxdo-accelerator"@,
{
}

/// A program under another name is found beside the one that runs exactly where it lies there; else the
/// failure names the place that was looked at.
pub proof fn law_sibling_is_found_beside<P>(current: CurrentExecutable<P>, binary: Seq<char>)
    requires
        opt_text(current.file_name) != Some(binary),
    ensures
        current.sibling_exists ==> located(current, binary) == Ok::<
            FilePathValue<P>,
            Seq<Seq<char>>,
        >(current.sibling@),
        !current.sibling_exists ==> located(current, binary) == Err::<
            FilePathValue<P>,
            Seq<Seq<char>>,
        >(seq!["failed to locate binary "@ + current.sibling@.shown()]),
{
}

/// What is noted of the shortcuts tells the version from the program by a line, so that another version at
/// the same place, or the same version at another place, is noted otherwise.
pub proof fn law_stamp_tells_version_and_place(
    version: Seq<char>,
    other: Seq<char>,
    executable: Seq<char>,
    elsewhere: Seq<char>,
)
    ensures
        shortcut_stamp(version, executable) == version + seq!['\n'] + executable,
        shortcut_stamp(version, executable) == shortcut_stamp(other, executable) ==> version == other,
        shortcut_stamp(version, executable) == shortcut_stamp(version, elsewhere) ==> executable
            == elsewhere,
{
    reveal_strlit("\n");
    assert("\n"@ =~= seq!['\n']);
    let stamp = shortcut_stamp(version, executable);
    assert(stamp.take(version.len() as int) =~= version);
    assert(stamp.skip(version.len() as int + 1) =~= executable);
    if stamp == shortcut_stamp(other, executable) {
        assert(stamp.len() == other.len() + 1 + executable.len());
        assert(stamp.take(other.len() as int) =~= other);
    }
    if stamp == shortcut_stamp(version, elsewhere) {
        assert(stamp.skip(version.len() as int + 1) =~= elsewhere);
    }
}

/// The lease is renewed every two seconds, and on Linux the icon is looked at ten times a second.
pub proof fn law_shell_keeps_its_times()
    ensures
        HEARTBEAT_SECONDS == 2,
        TRAY_POLL_MILLIS * 10 == 1000,
{
}

} // verus!
