use linuxdo_accelerator::failure::{format_error_chain, Failure};
use linuxdo_accelerator::file_path::FilePath;
use linuxdo_accelerator::gui::action::{
    service_state_changed, ActionRun, GuiAction, LogLevel, Phase, Reply, Request,
};
use linuxdo_accelerator::platform::Platform;
use linuxdo_accelerator::state::ServiceState;

fn status(running: bool, text: &str, error: Option<&str>) -> ServiceState {
    ServiceState {
        running,
        pid: None,
        status_text: text.to_string(),
        last_error: error.map(|message| message.to_string()),
        updated_at: 1,
    }
}

fn seen(state: ServiceState, waited: u64) -> Reply<&'static str> {
    Reply::Status { status: Ok(state), now: 0, waited }
}

fn failure(message: &str) -> Failure {
    Failure::new(message.to_string())
}

fn elevating(action: GuiAction) -> ActionRun {
    let (run, request) =
        ActionRun::execute_action::<&str>(Platform::Linux, "/etc/a.toml".to_string(), action);
    assert!(matches!(request, Request::QueryStatus));
    let (run, request) = run.resume::<&str>(seen(status(true, "加速中", None), 0));
    match request {
        Request::Log(LogLevel::Info, line) => assert_eq!(line, "GUI 已发起管理员操作请求"),
        other => panic!("{:?}", other),
    }
    let (run, request) = run.resume::<&str>(Reply::Logged);
    assert!(matches!(request, Request::LocateBinary));
    let (run, request) = run.resume::<&str>(Reply::Located(Ok(FilePath::Given("/usr/bin/app", "app".to_string()))));
    match request {
        Request::RunElevated(binary, args) => {
            assert!(matches!(binary, FilePath::Given("/usr/bin/app", _)));
            assert_eq!(args, vec!["--config", "/etc/a.toml", action.subcommand()]);
        }
        other => panic!("{:?}", other),
    }
    run
}

fn finished(request: Request<&'static str>) -> Result<String, String> {
    match request {
        Request::Finish(result) => result.map_err(|error| format_error_chain(&error)),
        other => panic!("{:?}", other),
    }
}

#[test]
fn a_start_ends_when_the_service_runs() {
    let (run, request) = elevating(GuiAction::Start).resume::<&str>(Reply::Elevated(Ok(())));
    assert!(matches!(request, Request::QueryStatus));
    let (run, request) = run.resume::<&str>(seen(status(false, "正在启动", None), 11_999));
    assert!(matches!(request, Request::Sleep(200)));
    let (run, request) = run.resume::<&str>(Reply::Slept);
    assert!(matches!(request, Request::QueryStatus));
    let (run, request) = run.resume::<&str>(seen(status(true, "加速中", None), 12_000));
    assert_eq!(finished(request).unwrap(), "加速已启动，可以直接最小化窗口");
    assert!(matches!(run.phase, Phase::Over));
}

#[test]
fn a_stop_ends_with_the_text_of_the_state() {
    let (run, _) = elevating(GuiAction::Stop).resume::<&str>(Reply::Elevated(Ok(())));
    let (_, request) = run.resume::<&str>(seen(status(false, "服务已停止", Some("old")), 0));
    assert_eq!(finished(request).unwrap(), "服务已停止");
}

#[test]
fn patience_has_an_end() {
    let (run, _) = elevating(GuiAction::Start).resume::<&str>(Reply::Elevated(Ok(())));
    let (_, request) = run.resume::<&str>(seen(status(false, "正在启动", None), 12_000));
    assert_eq!(
        finished(request).unwrap_err(),
        "service state did not update in time (status: 正在启动)"
    );
}

#[test]
fn an_error_in_the_state_ends_the_wait() {
    let (run, _) = elevating(GuiAction::Start).resume::<&str>(Reply::Elevated(Ok(())));
    let (_, request) = run.resume::<&str>(seen(status(false, "启动失败", Some("port 80")), 0));
    assert_eq!(finished(request).unwrap_err(), "port 80");
    let (run, _) = elevating(GuiAction::Start).resume::<&str>(Reply::Elevated(Ok(())));
    let (_, request) =
        run.resume::<&str>(Reply::Status { status: Err(failure("unreadable")), now: 0, waited: 0 });
    assert_eq!(finished(request).unwrap_err(), "unreadable");
}

#[test]
fn a_failed_start_is_explained_by_the_state() {
    let (run, request) =
        elevating(GuiAction::Start).resume::<&str>(Reply::Elevated(Err(failure("rejected"))));
    assert!(matches!(request, Request::QueryStatus));
    let (run, request) = run.resume::<&str>(seen(status(false, "启动失败", Some("port 443")), 0));
    match request {
        Request::Log(LogLevel::Error, line) => assert_eq!(line, "GUI 操作失败：port 443"),
        other => panic!("{:?}", other),
    }
    let (_, request) = run.resume::<&str>(Reply::Logged);
    assert_eq!(
        finished(request).unwrap_err(),
        "elevation or command execution failed\ncaused by: port 443"
    );
}

#[test]
fn a_failed_start_ignores_a_changed_state() {
    let (run, _) = elevating(GuiAction::Start).resume::<&str>(Reply::Elevated(Err(failure("rejected"))));
    let (run, request) = run.resume::<&str>(seen(status(false, "变了", None), 0));
    match request {
        Request::Log(LogLevel::Error, line) => assert_eq!(line, "GUI 提权执行失败：rejected"),
        other => panic!("{:?}", other),
    }
    let (_, request) = run.resume::<&str>(Reply::Logged);
    assert_eq!(
        finished(request).unwrap_err(),
        "elevation or command execution failed\ncaused by: rejected"
    );
}

#[test]
fn a_failed_stop_heeds_a_changed_state() {
    let (run, _) = elevating(GuiAction::Stop).resume::<&str>(Reply::Elevated(Err(failure("rejected"))));
    let (run, request) = run.resume::<&str>(seen(status(false, "变了", None), 0));
    match request {
        Request::Log(LogLevel::Warn, line) => assert_eq!(line, "GUI 检测到状态已变化：变了"),
        other => panic!("{:?}", other),
    }
    let (_, request) = run.resume::<&str>(Reply::Logged);
    assert_eq!(
        finished(request).unwrap_err(),
        "failed to stop acceleration from GUI\ncaused by: 变了"
    );
    let (run, _) = elevating(GuiAction::Stop).resume::<&str>(Reply::Elevated(Err(failure("rejected"))));
    let (_, request) = run.resume::<&str>(seen(status(true, "加速中", None), 0));
    match request {
        Request::Log(level, line) => {
            assert_eq!(level.name(), "ERROR");
            assert_eq!(line, "GUI 提权执行失败：rejected");
        }
        other => panic!("{:?}", other),
    }
}

#[test]
fn macos_prepares_its_certificate_first() {
    let (run, request) =
        ActionRun::execute_action::<&str>(Platform::Macos, "/a".to_string(), GuiAction::Start);
    assert!(matches!(request, Request::PrepareCertificate));
    let (_, request) = run.resume::<&str>(Reply::Prepared(Err(failure("keychain"))));
    assert_eq!(
        finished(request).unwrap_err(),
        "macOS certificate preparation failed\ncaused by: keychain"
    );
    let (_, request) =
        ActionRun::execute_action::<&str>(Platform::Macos, "/a".to_string(), GuiAction::Stop);
    assert!(matches!(request, Request::QueryStatus));
}

#[test]
fn an_unknown_state_counts_as_never_started() {
    let (run, _) = ActionRun::execute_action::<&str>(Platform::Linux, "/a".to_string(), GuiAction::Stop);
    let (run, _) = run.resume::<&str>(Reply::Status { status: Err(failure("e")), now: 33, waited: 0 });
    match run.phase {
        Phase::Announcing { before } => {
            assert_eq!(before.status_text, "未启动");
            assert_eq!(before.updated_at, 33);
        }
        other => panic!("{:?}", other),
    }
}

#[test]
fn a_missing_program_ends_the_action() {
    let (run, _) = ActionRun::execute_action::<&str>(Platform::Linux, "/a".to_string(), GuiAction::Stop);
    let (run, _) = run.resume::<&str>(seen(status(true, "加速中", None), 0));
    let (run, _) = run.resume::<&str>(Reply::Logged);
    let (_, request) = run.resume::<&str>(Reply::Located(Err(failure("failed to locate binary /x"))));
    assert_eq!(finished(request).unwrap_err(), "failed to locate binary /x");
}

#[test]
fn states_that_differ_anywhere_have_changed() {
    let base = status(true, "加速中", None);
    assert!(!service_state_changed(&base, &status(true, "加速中", None)));
    assert!(service_state_changed(&base, &status(false, "加速中", None)));
    assert!(service_state_changed(&base, &status(true, "x", None)));
    assert!(service_state_changed(&base, &status(true, "加速中", Some(""))));
    let mut later = base.clone();
    later.updated_at = 2;
    assert!(service_state_changed(&base, &later));
    let mut other = base.clone();
    other.pid = Some(1);
    assert!(service_state_changed(&base, &other));
}

#[test]
fn actions_have_their_words() {
    assert_eq!(GuiAction::Start.pending_message(), "正在申请权限并启动加速...");
    assert_eq!(GuiAction::Stop.pending_message(), "正在停止加速并恢复 hosts...");
    assert_eq!(GuiAction::Start.confirm_title(), "确认操作");
    assert_eq!(GuiAction::Stop.confirm_button(), "确认");
    assert_eq!(GuiAction::Stop.error_context(), "failed to stop acceleration from GUI");
}
