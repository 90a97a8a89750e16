use linuxdo_accelerator::cli::{run, Cli, CliEvent, CliRun, CliTask, Command, Line, TaskInput};
use linuxdo_accelerator::failure::Failure;
use linuxdo_accelerator::file_path::FilePath;
use linuxdo_accelerator::gui::fonts::{
    font_name, load_system_ui_font, preferred_system_font_families,
};
use linuxdo_accelerator::gui::tray::{
    action_binary_name, build_tray_state, first_icon, gui_binary_name, has_tray, heartbeat_step,
    icon_command, launch_result, locate_current_or_sibling_binary, menu_command, run_tray_shell,
    schedule_windows_shortcut_icon_refresh, shell_log_line,
    spawn_tray_shell, spawn_ui_lease_heartbeat, spawn_ui_process,
    tray_visibility, ui_lease_exists, CurrentExecutable, Heartbeat, IconEvent, IconState,
    LaunchPurpose, ShellEvent, ShellTask, TrayState, TrayVisibilityCommand,
};
use linuxdo_accelerator::gui::window::TrayCommand;
use linuxdo_accelerator::platform::Platform;
use linuxdo_accelerator::state::UiLeaseState;

fn tasks(platform: Platform, command: Option<Command>) -> Result<Vec<CliTask>, String> {
    let cli = Cli { config: None, autostart: true, command };
    let run = run(platform, cli).map_err(|error| error.message)?;
    let (made, result) = carried_out(run, |task| succeeded(task));
    assert_eq!(result, Ok(()));
    Ok(made.into_iter().map(|(task, _)| task).collect())
}

fn succeeded(task: CliTask) -> CliEvent<String> {
    match task {
        CliTask::InitConfig => CliEvent::Settings(Ok("/found.toml".to_string())),
        CliTask::RestoreExistingWindow => CliEvent::Window(false),
        _ => CliEvent::Done(Ok(())),
    }
}

fn handed(input: TaskInput<String>) -> String {
    match input {
        TaskInput::Nothing => "nothing".to_string(),
        TaskInput::Given(path) => format!("given {:?}", path),
        TaskInput::Found(path) => format!("found {}", path),
    }
}

fn carried_out(
    mut run: CliRun<String>,
    reply: impl Fn(CliTask) -> CliEvent<String>,
) -> (Vec<(CliTask, String)>, Result<(), String>) {
    let mut made = Vec::new();
    loop {
        let task = match run.current() {
            None => return (made, Ok(())),
            Some((task, input)) => {
                made.push((task, handed(input)));
                task
            }
        };
        if let Err(error) = run.record(reply(task)) {
            assert!(run.current().is_none());
            return (made, Err(error.message));
        }
    }
}

fn begun(platform: Platform, command: Option<Command>) -> CliRun<String> {
    let config = Some("/mine.toml".to_string());
    run(platform, Cli { config, autostart: false, command }).unwrap()
}

fn failure(message: &str) -> Failure {
    Failure::new(message.to_string())
}

#[test]
fn settings_are_found_before_the_window_opens() {
    let (made, result) = carried_out(begun(Platform::Linux, None), succeeded);
    assert_eq!(
        made,
        vec![
            (CliTask::InitConfig, "given Some(\"/mine.toml\")".to_string()),
            (CliTask::RunGui { autostart: false }, "found /found.toml".to_string()),
        ]
    );
    assert_eq!(result, Ok(()));
    let (made, result) = carried_out(begun(Platform::Linux, None), |task| match task {
        CliTask::InitConfig => CliEvent::Settings(Err(failure("no settings"))),
        other => succeeded(other),
    });
    assert_eq!(made.len(), 1);
    assert_eq!(result, Err("no settings".to_string()));
    let (made, result) = carried_out(begun(Platform::Windows, None), |task| match task {
        CliTask::RestoreExistingWindow => CliEvent::Window(true),
        other => succeeded(other),
    });
    assert_eq!(made[1], (CliTask::RestoreExistingWindow, "found /found.toml".to_string()));
    assert_eq!(made.len(), 2);
    assert_eq!(result, Ok(()));
}

#[test]
fn lines_are_printed_only_after_success() {
    let (made, result) = carried_out(begun(Platform::Linux, Some(Command::Setup)), |task| {
        match task {
            CliTask::Setup => CliEvent::Done(Err(failure("denied"))),
            other => succeeded(other),
        }
    });
    assert_eq!(made, vec![(CliTask::Setup, "given Some(\"/mine.toml\")".to_string())]);
    assert_eq!(result, Err("denied".to_string()));
    let enable = Some(Command::EnableAutostart);
    let (made, _) = carried_out(begun(Platform::Linux, enable), succeeded);
    assert_eq!(made[1], (CliTask::EnableAutostart, "found /found.toml".to_string()));
    assert_eq!(made[2], (CliTask::Print(Line::AutostartEnabled), "nothing".to_string()));
    let (made, result) = carried_out(begun(Platform::Linux, enable), |task| match task {
        CliTask::EnableAutostart => CliEvent::Done(Err(failure("refused"))),
        other => succeeded(other),
    });
    assert_eq!(made.len(), 2);
    assert_eq!(result, Err("refused".to_string()));
    let init = Some(Command::InitConfig);
    let (made, _) = carried_out(begun(Platform::Linux, init), succeeded);
    assert_eq!(made[1], (CliTask::Print(Line::ConfigReady), "found /found.toml".to_string()));
}

#[test]
fn the_window_is_what_the_program_shows_by_default() {
    assert_eq!(
        tasks(Platform::Linux, None).unwrap(),
        vec![CliTask::InitConfig, CliTask::RunGui { autostart: true }]
    );
    assert_eq!(
        tasks(Platform::Windows, Some(Command::Gui)).unwrap(),
        vec![
            CliTask::InitConfig,
            CliTask::RestoreExistingWindow,
            CliTask::RunGui { autostart: true }
        ]
    );
    assert_eq!(
        tasks(Platform::Android, None).unwrap_err(),
        "GUI is not supported on Android yet; use CLI subcommands"
    );
    assert!(tasks(Platform::Other, None).unwrap().is_empty());
    assert_eq!(
        tasks(Platform::Macos, Some(Command::TrayShell)).unwrap(),
        vec![CliTask::InitConfig, CliTask::RunTrayShell]
    );
    assert_eq!(
        tasks(Platform::Android, Some(Command::TrayShell)).unwrap_err(),
        "tray-shell is not supported on this platform"
    );
}

#[test]
fn subcommands_do_their_work_and_say_so() {
    let expected: Vec<(Command, Vec<CliTask>)> = vec![
        (Command::InitConfig, vec![CliTask::InitConfig, CliTask::Print(Line::ConfigReady)]),
        (Command::Setup, vec![CliTask::Setup, CliTask::Print(Line::SetupComplete)]),
        (Command::Run, vec![CliTask::RunForeground { start: false }]),
        (Command::Daemon, vec![CliTask::RunForeground { start: false }]),
        (Command::Start, vec![CliTask::RunForeground { start: true }]),
        (Command::Stop, vec![CliTask::HelperStop, CliTask::Print(Line::ServiceStopped)]),
        (Command::HelperStop, vec![CliTask::HelperStop, CliTask::Print(Line::ServiceStopped)]),
        (Command::HelperStart, vec![CliTask::HelperStart, CliTask::Print(Line::ServiceStarted)]),
        (Command::Status, vec![CliTask::PrintStatus]),
        (Command::ConfigJson, vec![CliTask::PrintConfig]),
        (Command::CleanHosts, vec![CliTask::CleanHosts, CliTask::Print(Line::HostsCleaned)]),
        (Command::ApplyHosts, vec![CliTask::ApplyHosts, CliTask::Print(Line::HostsApplied)]),
        (Command::BackupHosts, vec![CliTask::BackupHosts, CliTask::Print(Line::HostsBackupReady)]),
        (Command::RestoreHosts, vec![CliTask::RestoreHosts, CliTask::Print(Line::HostsRestored)]),
        (
            Command::UninstallCert,
            vec![CliTask::UninstallCertificate, CliTask::Print(Line::CertificateRemoved)],
        ),
        (Command::Cleanup, vec![CliTask::Cleanup, CliTask::Print(Line::CleanupComplete)]),
        (
            Command::EnableAutostart,
            vec![
                CliTask::InitConfig,
                CliTask::EnableAutostart,
                CliTask::Print(Line::AutostartEnabled),
            ],
        ),
        (
            Command::DisableAutostart,
            vec![CliTask::DisableAutostart, CliTask::Print(Line::AutostartDisabled)],
        ),
    ];
    for (command, want) in expected {
        for platform in [Platform::Linux, Platform::Android] {
            assert_eq!(tasks(platform, Some(command)).unwrap(), want);
        }
    }
    assert_eq!(Line::ConfigReady.text(), "config ready: ");
    assert_eq!(Line::HostsBackupReady.text(), "hosts backup ready");
    assert_eq!(Line::CertificateRemoved.text(), "certificate removed");
}

#[test]
fn the_icon_understands_clicks() {
    assert_eq!(menu_command("tray-show"), Some(TrayCommand::Restore));
    assert_eq!(menu_command("tray-quit"), Some(TrayCommand::Quit));
    assert_eq!(menu_command("other"), None);
    assert_eq!(
        icon_command(IconEvent::Click { left: true, released: true }),
        Some(TrayCommand::Restore)
    );
    assert_eq!(icon_command(IconEvent::Click { left: true, released: false }), None);
    assert_eq!(icon_command(IconEvent::Click { left: false, released: true }), None);
    assert_eq!(icon_command(IconEvent::DoubleClick { left: true }), Some(TrayCommand::Restore));
    assert_eq!(icon_command(IconEvent::Other), None);
    assert_eq!(
        tray_visibility(TrayVisibilityCommand::Quit),
        IconState { visible: false, over: true }
    );
    assert_eq!(
        tray_visibility(TrayVisibilityCommand::Show),
        IconState { visible: true, over: false }
    );
    let icon = IconState { visible: false, over: false };
    assert_eq!(first_icon(true, true, true, true), Some(icon));
    assert_eq!(first_icon(true, true, false, true), None);
    assert_eq!(first_icon(false, true, true, true), None);
    assert_eq!(build_tray_state(Platform::Linux, None), Some(TrayState::Thread));
    assert_eq!(build_tray_state(Platform::Linux, Some(icon)), Some(TrayState::Thread));
    assert_eq!(build_tray_state(Platform::Windows, Some(icon)), Some(TrayState::Icon(icon)));
    assert_eq!(build_tray_state(Platform::Windows, None), None);
    assert_eq!(build_tray_state(Platform::Macos, Some(icon)), None);
    assert!(has_tray(Platform::Linux, None));
    assert!(!has_tray(Platform::Windows, None));
    assert!(!has_tray(Platform::Macos, Some(icon)));
}

fn done() -> ShellEvent {
    ShellEvent::Done(Ok(()))
}

fn broken() -> ShellEvent {
    ShellEvent::Done(Err(failure("e")))
}

/// What is done until the process is over, and its result.
fn shell_course(
    platform: Platform,
    reply: impl Fn(ShellTask) -> ShellEvent,
) -> (Vec<ShellTask>, Result<(), String>) {
    let mut run = run_tray_shell(platform);
    let mut tasks = Vec::new();
    while run.task != ShellTask::Over {
        tasks.push(run.task);
        let event = reply(run.task);
        run = run.record(event);
    }
    (tasks, run.result.map_err(|error| error.message))
}

fn asked(command: TrayCommand) -> impl Fn(ShellTask) -> ShellEvent {
    move |task| match task {
        ShellTask::Wait => ShellEvent::Asked(command),
        ShellTask::Quit => ShellEvent::Left(Ok(())),
        _ => done(),
    }
}

#[test]
fn the_tray_shell_always_ends() {
    let (tasks, result) = shell_course(Platform::Linux, asked(TrayCommand::Restore));
    assert_eq!(
        tasks,
        vec![
            ShellTask::LogStart,
            ShellTask::InitToolkit,
            ShellTask::BuildMenu,
            ShellTask::BuildPicture,
            ShellTask::BuildIcon,
            ShellTask::ShowIcon,
            ShellTask::LogVisible,
            ShellTask::StartHeartbeat,
            ShellTask::Wait,
            ShellTask::LogCommand(TrayCommand::Restore),
            ShellTask::HideIcon(TrayCommand::Restore),
            ShellTask::StopHeartbeat(TrayCommand::Restore),
            ShellTask::SpawnUi,
            ShellTask::Quit,
            ShellTask::Release,
            ShellTask::LogExit,
        ]
    );
    assert_eq!(result, Ok(()));
    let (tasks, result) = shell_course(Platform::Macos, asked(TrayCommand::Quit));
    assert_eq!(
        tasks,
        vec![
            ShellTask::StartHeartbeat,
            ShellTask::BuildLoop,
            ShellTask::BuildMenu,
            ShellTask::BuildPicture,
            ShellTask::BuildIcon,
            ShellTask::Wait,
            ShellTask::StopHeartbeat(TrayCommand::Quit),
            ShellTask::Quit,
            ShellTask::Release,
        ]
    );
    assert_eq!(result, Ok(()));
    for platform in [Platform::Linux, Platform::Windows] {
        let (tasks, result) = shell_course(platform, |task| match task {
            ShellTask::SpawnUi | ShellTask::HideIcon(_) => broken(),
            other => asked(TrayCommand::Restore)(other),
        });
        assert!(tasks.contains(&ShellTask::SpawnUi));
        assert_eq!(result, Ok(()));
    }
    let (_, result) = shell_course(Platform::Windows, |task| match task {
        ShellTask::Wait => ShellEvent::Left(Err(failure("lost"))),
        other => asked(TrayCommand::Quit)(other),
    });
    assert_eq!(result, Err("lost".to_string()));
    let mut run = run_tray_shell(Platform::Windows);
    run.task = ShellTask::Quit;
    assert_eq!(
        run.record(ShellEvent::Asked(TrayCommand::Restore)).task,
        ShellTask::StopHeartbeat(TrayCommand::Restore)
    );
}

#[test]
fn a_tray_shell_that_cannot_begin_says_why() {
    let failing = |platform: Platform, failing: ShellTask| {
        shell_course(platform, |task| {
            if task == failing {
                broken()
            } else {
                asked(TrayCommand::Quit)(task)
            }
        })
    };
    for (task, message) in [
        (ShellTask::InitToolkit, "failed to initialize GTK for tray shell"),
        (ShellTask::BuildMenu, "e"),
        (ShellTask::BuildPicture, "e"),
        (ShellTask::BuildIcon, "failed to create Linux tray icon"),
        (ShellTask::ShowIcon, "failed to show Linux tray icon"),
    ] {
        let (tasks, result) = failing(Platform::Linux, task);
        assert_eq!(tasks.last(), Some(&task));
        assert_eq!(result, Err(message.to_string()));
    }
    let (tasks, result) = failing(Platform::Windows, ShellTask::BuildLoop);
    assert_eq!(tasks.last(), Some(&ShellTask::BuildLoop));
    assert_eq!(result, Err("e".to_string()));
    for task in [ShellTask::BuildMenu, ShellTask::BuildPicture, ShellTask::BuildIcon] {
        let (tasks, result) = failing(Platform::Macos, task);
        assert_eq!(tasks[tasks.len() - 3..], [task, ShellTask::Quit, ShellTask::Release]);
        assert_eq!(result, Ok(()));
    }
}

#[test]
fn the_tray_shell_keeps_a_log() {
    let line = |task: ShellTask| shell_log_line(task, "/a");
    assert_eq!(line(ShellTask::LogStart).unwrap(), "tray-shell start config=/a");
    assert_eq!(line(ShellTask::LogVisible).unwrap(), "tray-shell icon visible");
    assert_eq!(
        line(ShellTask::LogCommand(TrayCommand::Restore)).unwrap(),
        "tray-shell restore clicked"
    );
    assert_eq!(line(ShellTask::LogCommand(TrayCommand::Quit)).unwrap(), "tray-shell quit clicked");
    assert_eq!(line(ShellTask::LogExit).unwrap(), "tray-shell exit");
    assert_eq!(line(ShellTask::Wait), None);
}

#[test]
fn a_lease_is_renewed_where_there_is_one() {
    let lease = UiLeaseState { owner_pid: 1, updated_at: 2, window_handle: None };
    assert!(spawn_ui_lease_heartbeat(&Some(Ok(Some(lease)))));
    assert!(!spawn_ui_lease_heartbeat(&Some(Ok(None))));
    assert!(!spawn_ui_lease_heartbeat(&Some(Err(failure("e")))));
    assert!(!ui_lease_exists(&None));
    assert_eq!(heartbeat_step(false), Heartbeat::Renew(2));
    assert_eq!(heartbeat_step(true), Heartbeat::Over);
}

#[test]
fn processes_that_cannot_be_launched_are_named() {
    assert!(launch_result(LaunchPurpose::Ui, Ok(())).is_ok());
    let message = |purpose: LaunchPurpose| {
        launch_result(purpose, Err(Failure::new("e".to_string()))).unwrap_err().message
    };
    assert_eq!(message(LaunchPurpose::TrayShell), "failed to start tray shell");
    assert_eq!(message(LaunchPurpose::Ui), "failed to reopen UI");
}

#[test]
fn processes_are_launched_with_the_settings() {
    let shell = spawn_tray_shell(at("/bin/app"), "/a.toml");
    assert_eq!(shell.args, vec!["--config", "/a.toml", "tray-shell"]);
    assert_eq!(shell.log_line, None);
    let ui = spawn_ui_process(Platform::Linux, false, at("/bin/app"), "/a.toml");
    assert_eq!(ui.executable.text(), "/bin/app");
    assert_eq!(ui.args, vec!["--config", "/a.toml", "gui"]);
    assert_eq!(ui.log_line.unwrap(), "spawn ui exe=/bin/app config=/a.toml");
    let wayland = spawn_ui_process(Platform::Linux, true, at("/bin/app"), "/a.toml");
    assert_eq!(wayland.executable.text(), "/usr/bin/gtk-launch");
    assert_eq!(wayland.args, vec!["linuxdo-accelerator"]);
    assert_eq!(
        wayland.log_line.unwrap(),
        "spawn ui via launcher exe=/usr/bin/gtk-launch config=/a.toml"
    );
    assert_eq!(spawn_ui_process(Platform::Windows, true, at("a.exe"), "/a.toml").log_line, None);
}

fn at(path: &'static str) -> FilePath<&'static str> {
    FilePath::Given(path, path.to_string())
}

fn current(name: &str, sibling_exists: bool) -> CurrentExecutable<&'static str> {
    CurrentExecutable {
        path: at("/bin/current"),
        file_name: Some(name.to_string()),
        sibling: at("/bin/linuxdo-accelerator"),
        sibling_exists,
    }
}

#[test]
fn the_program_finds_itself() {
    assert_eq!(action_binary_name(Platform::Windows), "linuxdo-accelerator.exe");
    assert_eq!(gui_binary_name(Platform::Linux), "linuxdo-accelerator");
    let name = gui_binary_name(Platform::Linux);
    assert_eq!(
        locate_current_or_sibling_binary(Ok(current("linuxdo-accelerator", false)), name)
            .unwrap()
            .text(),
        "/bin/current"
    );
    assert_eq!(
        locate_current_or_sibling_binary(Ok(current("other", true)), name).unwrap().text(),
        "/bin/linuxdo-accelerator"
    );
    assert_eq!(
        locate_current_or_sibling_binary(Ok(current("other", false)), name).unwrap_err().message,
        "failed to locate binary /bin/linuxdo-accelerator"
    );
    assert_eq!(
        locate_current_or_sibling_binary::<&str>(Err(Failure::new("e".to_string())), name)
            .unwrap_err()
            .message,
        "failed to locate current executable"
    );
}

#[test]
fn shortcuts_are_refreshed_once_for_each_version() {
    let stamp = schedule_windows_shortcut_icon_refresh("1.2", "C:\\a.exe", None).unwrap();
    assert_eq!(stamp, "1.2\nC:\\a.exe");
    assert_eq!(schedule_windows_shortcut_icon_refresh("1.2", "C:\\a.exe", Some(&stamp)), None);
    assert!(schedule_windows_shortcut_icon_refresh("1.3", "C:\\a.exe", Some(&stamp)).is_some());
}

#[test]
fn the_first_font_that_is_small_enough_is_taken() {
    assert_eq!(preferred_system_font_families(Platform::Linux).len(), 5);
    assert_eq!(
        preferred_system_font_families(Platform::Macos),
        vec!["PingFang SC", "Hiragino Sans GB"]
    );
    assert!(preferred_system_font_families(Platform::Android).is_empty());
    assert_eq!(load_system_ui_font(&vec![None, Some(11), Some(10), Some(1)], 10), Some(2));
    assert_eq!(load_system_ui_font(&vec![None, Some(11)], 10), None);
    assert_eq!(font_name(Some("Noto".to_string()), "x"), "Noto");
    assert_eq!(font_name(None, "SimHei"), "SimHei");
}

#[test]
fn platforms_have_their_names() {
    assert_eq!(Platform::from_name("windows"), Platform::Windows);
    assert_eq!(Platform::from_name("macos"), Platform::Macos);
    assert_eq!(Platform::from_name("android"), Platform::Android);
    assert_eq!(Platform::from_name("linux"), Platform::Linux);
    assert_eq!(Platform::from_name("freebsd"), Platform::Other);
}
