use linuxdo_accelerator::command::{action_result, Action, Plan, PlanRun, ProcessOutput};
use linuxdo_accelerator::failure::{format_error_chain, Failure};
use linuxdo_accelerator::file_path::FilePath;
use linuxdo_accelerator::platform::ownership::{
    chown_path, invoking_uid, original_user_home_dir, original_user_ids, owner_ids_from_parent,
    sync_target_user_ids, sync_user_ownership, Below, Chown, Stop, Visit, WalkEntry,
};
use linuxdo_accelerator::platform::windows_shell::{
    powershell_file_command, run_powershell_file, script_file_name,
    update_windows_shortcuts_for_exe, ScriptRun,
};
use linuxdo_accelerator::platform::Platform;
use linuxdo_accelerator::state::{
    clear_pid, clear_pid_if_matches, clear_ui_lease, mark_error, mark_running, mark_starting,
    mark_stopped, now_ts, pid_matches, read, read_pid, read_ui_lease, refresh, replace_file,
    state_or_default, temporary_file_name, touch_ui_lease, touch_ui_lease_with_window, write_pid,
    write_ui_lease, FilePlace, Refreshed, ServiceState, Stored, StoredText,
};

fn failure(message: &str) -> Failure {
    Failure::new(message.to_string())
}

fn recorded(content: &str) -> Option<u32> {
    read_pid("/run/pid", StoredText::Found(content.to_string())).unwrap()
}

fn state(running: bool, pid: Option<u32>, text: &str, error: Option<&str>) -> ServiceState {
    ServiceState {
        running,
        pid,
        status_text: text.to_string(),
        last_error: error.map(|message| message.to_string()),
        updated_at: 1,
    }
}

#[test]
fn a_missing_state_is_that_of_a_service_never_started() {
    let fresh = read("/run/state.json", Stored::Missing, 77).unwrap();
    assert!(!fresh.running);
    assert_eq!(fresh.pid, None);
    assert_eq!(fresh.status_text, "未启动");
    assert_eq!(fresh.last_error, None);
    assert_eq!(fresh.updated_at, 77);
    let found = Stored::Found(state(true, Some(3), "x", None));
    assert_eq!(read("/run/state.json", found, 77).unwrap().updated_at, 1);
    let unreadable = read("/run/state.json", Stored::Unreadable(failure("denied")), 77);
    assert_eq!(
        format_error_chain(&unreadable.unwrap_err()),
        "failed to read /run/state.json\ncaused by: denied"
    );
    let unparsable = read("/run/state.json", Stored::Unparsable(failure("EOF")), 77);
    assert_eq!(
        format_error_chain(&unparsable.unwrap_err()),
        "failed to parse /run/state.json\ncaused by: EOF"
    );
    assert_eq!(state_or_default(None, 8).updated_at, 8);
    assert_eq!(now_ts(Some(5)), 5);
    assert_eq!(now_ts(None), 0);
}

fn refreshed(state: ServiceState, pid: Option<u32>, alive: bool, now: u64) -> Refreshed<&'static str> {
    refresh(Ok(state), Ok(pid), alive, now).unwrap()
}

#[test]
fn refresh_finds_a_live_process() {
    let result = refreshed(state(false, None, "启动失败", Some("old")), Some(12), true, 99);
    assert_eq!(steps(&result.plan), vec!["WriteState"]);
    assert!(result.state.running);
    assert_eq!(result.state.pid, Some(12));
    assert_eq!(result.state.status_text, "加速中，PID 12");
    assert_eq!(result.state.last_error, None);
    assert_eq!(result.state.updated_at, 99);
    let again = refreshed(result.state, Some(12), true, 100);
    assert!(again.plan.steps.is_empty());
    assert_eq!(again.state.updated_at, 99);
}

#[test]
fn refresh_notices_that_the_process_is_gone() {
    let gone = refreshed(mark_running(12, 1), Some(12), false, 99);
    assert_eq!(steps(&gone.plan), vec!["ClearPid", "WriteState"]);
    assert!(!gone.state.running);
    assert_eq!(gone.state.pid, None);
    assert_eq!(gone.state.status_text, "已停止");
    let mut run = PlanRun::new(gone.plan);
    assert!(run.record(Err(failure("e"))).is_ok());
    assert!(run.record(Err(failure("e"))).is_ok());
    assert!(run.current().is_none());
    let broken = refreshed(state(true, Some(12), "启动失败", Some("port 80")), None, false, 99);
    assert_eq!(broken.state.status_text, "启动失败");
    assert_eq!(broken.state.last_error.as_deref(), Some("port 80"));
    let quiet = refreshed(mark_stopped("已停止", 5), None, false, 99);
    assert!(quiet.plan.steps.is_empty());
    assert_eq!(quiet.state.updated_at, 5);
}

#[test]
fn refresh_fails_where_it_cannot_read() {
    let unread = refresh::<&str>(Err(failure("state")), Err(failure("pid")), true, 99);
    assert_eq!(unread.unwrap_err().message, "state");
    let unknown = refresh::<&str>(Ok(mark_running(12, 1)), Err(failure("pid")), true, 99);
    assert_eq!(unknown.unwrap_err().message, "pid");
}

#[test]
fn marks_say_what_happened() {
    assert_eq!(mark_starting(1).status_text, "正在启动加速服务...");
    assert!(!mark_starting(1).running);
    assert_eq!(mark_stopped("bye", 1).status_text, "bye");
    let error = mark_error("no rights", 4);
    assert_eq!(error.status_text, "启动失败");
    assert_eq!(error.last_error.as_deref(), Some("no rights"));
    assert_eq!(error.updated_at, 4);
    assert_eq!(mark_running(7, 1).status_text, "加速中，PID 7");
}

#[test]
fn the_process_id_is_read_back() {
    for pid in [0u32, 7, 10, 4096, 4294967295] {
        assert_eq!(recorded(write_pid(&place(), pid).content.as_str()), Some(pid));
    }
    assert_eq!(recorded(" 12\n"), Some(12));
    assert_eq!(recorded("+12"), Some(12));
    assert_eq!(recorded("4294967296"), None);
    assert_eq!(recorded("-1"), None);
    assert_eq!(recorded(""), None);
    assert_eq!(read_pid("/run/pid", StoredText::Missing).unwrap(), None);
    let error = read_pid("/run/pid", StoredText::Unreadable(failure("denied"))).unwrap_err();
    assert_eq!(format_error_chain(&error), "failed to read /run/pid\ncaused by: denied");
    assert_eq!(steps(&write_pid(&place(), 7).plan).len(), 4);
}

#[test]
fn only_the_expected_process_id_is_removed() {
    assert!(pid_matches(&Ok(Some(4)), 4));
    assert!(!pid_matches(&Ok(Some(5)), 4));
    assert!(!pid_matches(&Ok(None), 4));
    assert!(!pid_matches(&Err(failure("e")), 4));
    assert_eq!(clear_pid_if_matches(Ok(Some(4)), 4, Some(Ok(()))).unwrap(), true);
    assert_eq!(clear_pid_if_matches(Ok(Some(5)), 4, None).unwrap(), false);
    assert_eq!(clear_pid_if_matches(Ok(None), 4, None).unwrap(), false);
    assert_eq!(
        clear_pid_if_matches(Err(failure("unread")), 4, None).unwrap_err().message,
        "unread"
    );
    assert_eq!(
        clear_pid_if_matches(Ok(Some(4)), 4, Some(Err(failure("kept")))).unwrap_err().message,
        "kept"
    );
}

#[test]
fn leases_name_their_owner() {
    let lease = touch_ui_lease(9, 50);
    assert_eq!((lease.owner_pid, lease.updated_at, lease.window_handle), (9, 50, None));
    assert_eq!(touch_ui_lease_with_window(9, Some(-3), 50).window_handle, Some(-3));
    let found = read_ui_lease("/run/lease.json", Stored::Found(lease)).unwrap();
    assert_eq!(found.map(|lease| lease.owner_pid), Some(9));
    assert!(read_ui_lease("/run/lease.json", Stored::Missing).unwrap().is_none());
    let error = read_ui_lease("/run/lease.json", Stored::Unparsable(failure("EOF"))).unwrap_err();
    assert_eq!(error.message, "failed to parse /run/lease.json");
}

#[test]
fn new_contents_go_to_a_file_of_their_own_first() {
    assert_eq!(temporary_file_name(Some("state.json"), 31), ".state.json.tmp-31");
    assert_eq!(temporary_file_name(None, 31), ".state.tmp-31");
    let place = place();
    assert_eq!(
        steps(&replace_file(&place)),
        vec![
            "CreateDir(\"/run\", \"/run\")",
            "WriteFile(\"/run/.state.json.tmp-31\")",
            "MoveFile(\"/run/.state.json.tmp-31\", \"/run/state.json\")",
        ]
    );
    let written = linuxdo_accelerator::state::write(&place, Ok("{}".to_string())).unwrap();
    assert_eq!(written.content, "{}");
    assert_eq!(steps(&written.plan)[3], "SyncOwnership(\"/run/state.json\")");
    let unwritten = linuxdo_accelerator::state::write(&place, Err(failure("e")));
    assert_eq!(unwritten.unwrap_err().message, "failed to serialize service state");
    assert_eq!(write_ui_lease(&place, Ok("x".to_string())).unwrap().content, "x");
    assert_eq!(
        write_ui_lease(&place, Err(failure("e"))).unwrap_err().message,
        "failed to serialize ui lease state"
    );
    let bare = FilePlace { parent: None, ..place };
    assert_eq!(replace_file(&bare).steps.len(), 2);
}

fn place() -> FilePlace<&'static str> {
    FilePlace {
        path: at("/run/state.json"),
        parent: Some(at("/run")),
        temporary: at("/run/.state.json.tmp-31"),
    }
}

fn at(path: &'static str) -> FilePath<&'static str> {
    FilePath::Given(path, path.to_string())
}

fn action_text(action: &Action<&'static str>) -> String {
    match action {
        Action::CreateDir(path, named) => format!("CreateDir({:?}, {:?})", path.text(), named.text()),
        Action::CopyFile(from, to) => format!("CopyFile({:?}, {:?})", from.text(), to.text()),
        Action::MoveFile(from, to) => format!("MoveFile({:?}, {:?})", from.text(), to.text()),
        Action::RemoveFile(path) => format!("RemoveFile({:?})", path.text()),
        Action::WriteFile(path) => format!("WriteFile({:?})", path.text()),
        Action::SyncOwnership(path) => format!("SyncOwnership({:?})", path.text()),
        other => format!("{:?}", other),
    }
}

fn steps(plan: &Plan<&'static str>) -> Vec<String> {
    plan.steps.iter().map(|step| action_text(&step.action)).collect()
}

#[test]
fn paths_that_are_no_text_are_kept() {
    let at = |path: &'static [u8]| {
        FilePath::Given(path, String::from_utf8_lossy(path).into_owned())
    };
    let place = FilePlace {
        path: at(b"/run/\xff/state.json"),
        parent: Some(at(b"/run/\xff")),
        temporary: at(b"/run/\xff/.state.json.tmp-31"),
    };
    let plan = write_pid(&place, 7).plan;
    match &plan.steps[2].action {
        Action::MoveFile(FilePath::Given(from, _), FilePath::Given(to, _)) => {
            assert_eq!(*from, &b"/run/\xff/.state.json.tmp-31"[..]);
            assert_eq!(*to, &b"/run/\xff/state.json"[..]);
        }
        other => panic!("{:?}", other),
    }
    assert_eq!(
        action_result(&plan.steps[1].action, Err(failure("e"))).unwrap_err().message,
        "failed to write /run/\u{fffd}/.state.json.tmp-31"
    );
    let home = at(b"/home/\xfe");
    match home.below("a").below("b/c") {
        FilePath::Below(base, shown, rest) => {
            assert_eq!(base, &b"/home/\xfe"[..]);
            assert_eq!(shown, "/home/\u{fffd}");
            assert_eq!(rest, "a/b/c");
        }
        other => panic!("{:?}", other),
    }
    assert_eq!(home.below("a").text(), "/home/\u{fffd}/a");
}

#[test]
fn files_that_are_gone_need_no_clearing() {
    assert_eq!(steps(&clear_pid(at("/run/pid"), true)), vec!["RemoveFile(\"/run/pid\")"]);
    assert!(clear_pid(at("/run/pid"), false).steps.is_empty());
    assert_eq!(clear_ui_lease(at("/run/lease.json"), true).steps.len(), 1);
    assert!(clear_ui_lease(at("/run/lease.json"), false).steps.is_empty());
}

#[test]
fn failed_actions_say_what_they_were() {
    let message = |action: Action<&'static str>| action_result(&action, Err(failure("e"))).unwrap_err().message;
    assert_eq!(message(Action::CreateDir(at("/a"), at("/a/b"))), "failed to create /a/b");
    assert_eq!(message(Action::CopyFile(at("/a"), at("/b"))), "failed to copy CA to /b");
    assert_eq!(message(Action::RemoveFile(at("/a"))), "failed to remove /a");
    assert_eq!(message(Action::WriteFile(at("/a"))), "failed to write /a");
    assert_eq!(message(Action::MoveFile(at("/a"), at("/b"))), "failed to move /a to /b");
    assert_eq!(message(Action::SyncOwnership(at("/a"))), "e");
    assert!(action_result(&Action::RemoveFile(at("/a")), Ok(())).is_ok());
}

#[test]
fn a_plan_ends_with_its_first_required_failure() {
    let plan = Plan::new()
        .attempt(Action::RemoveFile(at("/a")))
        .require(Action::RemoveFile(at("/b")))
        .require(Action::RemoveFile(at("/c")));
    let mut run = PlanRun::new(plan);
    assert!(run.record(Err(failure("first"))).is_ok());
    assert_eq!(run.record(Err(failure("second"))).unwrap_err().message, "second");
    assert!(run.current().is_none());
}

#[test]
fn the_invoking_user_is_told_by_the_environment() {
    assert_eq!(invoking_uid(Some("1000"), Some("1001")), Some(1000));
    assert_eq!(invoking_uid(None, Some("1001")), Some(1001));
    assert_eq!(invoking_uid(Some("x"), Some("1001")), None);
    assert_eq!(invoking_uid(Some(" 1000"), None), None);
    assert_eq!(original_user_ids(Some(1000), Some(100)), Some((1000, 100)));
    assert_eq!(original_user_ids(Some(1000), None), None);
    let home = |path: &str| Some(path.to_string());
    assert_eq!(
        original_user_home_dir(Some(1000), home("/home/me"), home("/root")),
        home("/home/me")
    );
    assert_eq!(original_user_home_dir(Some(1000), None, home("/root")), home("/root"));
    assert_eq!(original_user_home_dir(None, home("/home/me"), home("/root")), home("/root"));
}

#[test]
fn files_go_back_to_the_nearest_owner() {
    let owners = vec![Some((1, 1)), None, Some((2, 2)), Some((0, 0))];
    assert_eq!(owner_ids_from_parent(true, &owners), Some((1, 1)));
    assert_eq!(owner_ids_from_parent(false, &owners), Some((2, 2)));
    assert_eq!(owner_ids_from_parent(false, &vec![Some((1, 1))]), None);
    assert_eq!(owner_ids_from_parent(true, &vec![]), None);
    assert_eq!(
        sync_target_user_ids(Platform::Linux, Some((5, 5)), Some((6, 6))),
        Some((5, 5))
    );
    assert_eq!(sync_target_user_ids(Platform::Linux, None, Some((6, 6))), Some((6, 6)));
    assert_eq!(
        sync_target_user_ids(Platform::Macos, Some((5, 5)), Some((6, 6))),
        Some((6, 6))
    );
    let owner = |platform, elevated, exists| {
        sync_user_ownership(platform, elevated, Some((5, 5)), exists, stop("/d"))
            .map(|walk| walk.owner)
    };
    assert_eq!(owner(Platform::Linux, true, true), Some((5, 5)));
    assert_eq!(owner(Platform::Linux, false, true), None);
    assert_eq!(owner(Platform::Linux, true, false), None);
    assert_eq!(owner(Platform::Windows, true, true), None);
    assert!(sync_user_ownership(Platform::Linux, true, None, true, stop("/d")).is_none());
}

fn stop(path: &str) -> Stop<String> {
    Stop { path: path.to_string(), name: path.to_string() }
}

fn visit(below: Below<String>) -> Visit<String> {
    Visit { exists: true, chown: Chown::Done, below }
}

fn walked(visit_at: impl Fn(&str) -> Visit<String>) -> (Vec<String>, Result<(), String>) {
    let mut walk =
        sync_user_ownership(Platform::Linux, true, Some((5, 5)), true, stop("/d")).unwrap();
    let mut paths = Vec::new();
    loop {
        let path = match walk.current() {
            None => return (paths, Ok(())),
            Some(path) => path.clone(),
        };
        paths.push(path.clone());
        if let Err(error) = walk.chown_recursive(visit_at(&path)) {
            assert!(walk.current().is_none());
            return (paths, Err(format_error_chain(&error)));
        }
    }
}

fn tree(path: &str) -> Visit<String> {
    match path {
        "/d" => visit(Below::Entries(vec![
            WalkEntry::Found(stop("/d/a")),
            WalkEntry::Gone,
            WalkEntry::Found(stop("/d/b")),
        ])),
        "/d/a" => visit(Below::Entries(vec![WalkEntry::Found(stop("/d/a/x"))])),
        _ => visit(Below::Nothing),
    }
}

#[test]
fn a_tree_is_walked_to_its_last_leaf() {
    let (paths, result) = walked(tree);
    assert_eq!(paths, vec!["/d", "/d/a", "/d/a/x", "/d/b"]);
    assert_eq!(result, Ok(()));
    let (paths, result) = walked(|path| match path {
        "/d/a" => Visit { exists: false, ..tree(path) },
        other => tree(other),
    });
    assert_eq!(paths, vec!["/d", "/d/a", "/d/b"]);
    assert_eq!(result, Ok(()));
}

#[test]
fn a_walk_ends_with_its_first_failure() {
    let (paths, result) = walked(|path| match path {
        "/d/a/x" => Visit { chown: Chown::Refused(failure("e")), ..tree(path) },
        other => tree(other),
    });
    assert_eq!(paths, vec!["/d", "/d/a", "/d/a/x"]);
    assert_eq!(result, Err("failed to chown /d/a/x\ncaused by: e".to_string()));
    let (paths, result) = walked(|path| match path {
        "/d/a" => visit(Below::Unlisted(failure("e"))),
        other => tree(other),
    });
    assert_eq!(paths, vec!["/d", "/d/a"]);
    assert_eq!(result, Err("failed to read directory /d/a\ncaused by: e".to_string()));
    let (paths, result) = walked(|path| match path {
        "/d/a" => visit(Below::Entries(vec![
            WalkEntry::Found(stop("/d/a/x")),
            WalkEntry::Unreadable(failure("e")),
        ])),
        other => tree(other),
    });
    assert_eq!(paths, vec!["/d", "/d/a", "/d/a/x"]);
    assert_eq!(result, Err("failed to walk directory /d/a\ncaused by: e".to_string()));
    assert!(chown_path("/d", true, Chown::Done).is_ok());
    assert!(chown_path("/d", false, Chown::Refused(failure("e"))).is_ok());
    assert_eq!(
        chown_path("/d", true, Chown::InvalidPath(failure("e"))).unwrap_err().message,
        "invalid path /d"
    );
}

#[test]
fn shortcuts_are_refreshed_by_a_script() {
    let script = update_windows_shortcuts_for_exe("C:\\it's\\app.exe");
    assert!(script.starts_with("\n$exe = 'C:\\it''s\\app.exe'\n$roots = @(\n"));
    assert!(script.contains("        $shortcut.IconLocation = \"$exe,0\"\n"));
    assert!(script.contains("    } catch {}\n"));
    assert!(script.ends_with("-ErrorAction SilentlyContinue\n}\n"));
    assert_eq!(script_file_name(12), "linuxdo-shortcut-refresh-12.ps1");
    assert_eq!(
        powershell_file_command(at("C:\\t.ps1")).runner.unwrap().args,
        vec!["-NoProfile", "-NonInteractive", "-ExecutionPolicy", "Bypass", "-File"]
    );
    assert_eq!(powershell_file_command(at("C:\\t.ps1")).path.text(), "C:\\t.ps1");
    let output = ProcessOutput { success: false, stdout: vec![], stderr: b" bad \n".to_vec() };
    assert_eq!(
        run_powershell_file("C:\\t.ps1", ScriptRun::Ran(Ok(output))).unwrap_err().message,
        "powershell failed: bad"
    );
    assert_eq!(
        run_powershell_file("C:\\t.ps1", ScriptRun::NotWritten(Failure::new("e".to_string())))
            .unwrap_err()
            .message,
        "failed to write C:\\t.ps1"
    );
    assert_eq!(
        run_powershell_file("C:\\t.ps1", ScriptRun::Ran(Err(Failure::new("e".to_string()))))
            .unwrap_err()
            .message,
        "failed to run powershell"
    );
}
