use linuxdo_accelerator::command::{Action, CommandLine, PathCommand, Policy, ProcessOutput};
use linuxdo_accelerator::failure::{format_error_chain, Failure};
use linuxdo_accelerator::file_path::FilePath;
use linuxdo_accelerator::platform::process::{
    console_streams, find_spawned_windows_child, flush_dns_cache, is_process_listed,
    is_process_running, is_windows_process_running, judge_kill_probe, kill_probe,
    prepare_windows_cli_stdio, resolved_pid, snapshot_windows_child_pid, spawn_detached,
    spawned_pid, terminate_process, terminate_process_force, windows_process_name, ConsoleStreams,
    Liveness, ProcessEntry, ProcessListing, SearchAction, SearchEvent,
};
use linuxdo_accelerator::platform::Platform;

fn output(success: bool, stdout: &[u8], stderr: &[u8]) -> ProcessOutput {
    ProcessOutput { success, stdout: stdout.to_vec(), stderr: stderr.to_vec() }
}

fn failure(message: &str) -> Failure {
    Failure::new(message.to_string())
}

fn words(line: &CommandLine) -> Vec<String> {
    let mut all = vec![line.program.clone()];
    all.extend(line.args.iter().cloned());
    all
}

fn at(path: &'static str) -> FilePath<&'static str> {
    FilePath::Given(path, path.to_string())
}

fn path_words(line: &PathCommand<&'static str>) -> Vec<String> {
    let mut all = match &line.runner {
        Some(runner) => words(runner),
        None => vec![],
    };
    all.push(line.path.text());
    all.extend(line.args.iter().cloned());
    all
}

#[test]
fn dns_is_flushed_by_the_first_tool_that_works() {
    let plan = flush_dns_cache::<&str>(Platform::Linux);
    let lines: Vec<Vec<String>> = plan
        .steps
        .iter()
        .map(|step| match &step.action {
            Action::Run(line) => words(line),
            other => panic!("{:?}", other),
        })
        .collect();
    assert_eq!(
        lines,
        vec![
            vec!["resolvectl", "flush-caches"],
            vec!["systemd-resolve", "--flush-caches"],
            vec!["service", "nscd", "restart"],
            vec!["rc-service", "nscd", "restart"],
        ]
    );
    assert!(plan.steps.iter().all(|step| step.policy == Policy::Alternative));
    assert!(flush_dns_cache::<&str>(Platform::Macos).steps.iter().all(|step| step.policy == Policy::Ignored));
    assert_eq!(flush_dns_cache::<&str>(Platform::Macos).steps.len(), 2);
    assert_eq!(flush_dns_cache::<&str>(Platform::Windows).steps[0].policy, Policy::Required);
    assert!(flush_dns_cache::<&str>(Platform::Android).steps.is_empty());
}

#[test]
fn console_is_attached_for_arguments_on_windows() {
    let one = vec!["app".to_string()];
    let two = vec!["app".to_string(), "status".to_string()];
    assert!(prepare_windows_cli_stdio(Platform::Windows, &two));
    assert!(!prepare_windows_cli_stdio(Platform::Windows, &one));
    assert!(!prepare_windows_cli_stdio(Platform::Linux, &two));
    assert_eq!(
        console_streams(true, false, true),
        ConsoleStreams { input: false, output: true, error: true }
    );
    assert_eq!(
        console_streams(false, true, true),
        ConsoleStreams { input: false, output: false, error: false }
    );
}

#[test]
fn detached_processes_stand_apart() {
    let args = vec!["gui".to_string()];
    let linux = spawn_detached(Platform::Linux, at("/usr/bin/app"), args.clone());
    assert_eq!(path_words(&linux.line), vec!["setsid", "/usr/bin/app", "gui"]);
    assert!(!linux.own_group);
    let mac = spawn_detached(Platform::Macos, at("/Apps/app"), args.clone());
    assert_eq!(path_words(&mac.line), vec!["/Apps/app", "gui"]);
    assert!(mac.own_group);
    assert_eq!(mac.creation_flags, 0);
    let windows = spawn_detached(Platform::Windows, at("app.exe"), args);
    assert_eq!(windows.creation_flags, 0x0800_0000 | 0x0000_0200);
    assert!(!windows.own_group);
}

#[test]
fn spawned_processes_are_resolved() {
    assert_eq!(spawned_pid("/x", Ok(7)).unwrap(), 7);
    assert_eq!(
        format_error_chain(&spawned_pid("/x", Err(failure("e"))).unwrap_err()),
        "failed to spawn detached /x\ncaused by: e"
    );
    assert_eq!(resolved_pid("x.exe", 7, Some(Ok(Some(9)))).unwrap(), 9);
    assert_eq!(resolved_pid("x.exe", 7, Some(Ok(None))).unwrap(), 7);
    assert_eq!(
        resolved_pid("x.exe", 7, None).unwrap_err().message,
        "invalid executable name x.exe"
    );
    assert_eq!(resolved_pid("x.exe", 7, Some(Err(failure("e")))).unwrap_err().message, "e");
}

#[test]
fn search_for_a_child_gives_up_after_three_seconds() {
    assert!(matches!(
        find_spawned_windows_child(SearchEvent::Elapsed(2999)),
        SearchAction::Look
    ));
    assert!(matches!(
        find_spawned_windows_child(SearchEvent::Elapsed(3000)),
        SearchAction::Done(Ok(None))
    ));
    assert!(matches!(
        find_spawned_windows_child(SearchEvent::Looked(Ok(None))),
        SearchAction::Sleep(100)
    ));
    assert!(matches!(
        find_spawned_windows_child(SearchEvent::Looked(Ok(Some(4)))),
        SearchAction::Done(Ok(Some(4)))
    ));
    assert!(matches!(
        find_spawned_windows_child(SearchEvent::Looked(Err(failure("e")))),
        SearchAction::Done(Err(_))
    ));
}

fn entry(pid: u32, parent_pid: u32, name: &str) -> ProcessEntry {
    let mut exe_file: Vec<u16> = name.encode_utf16().collect();
    exe_file.push(0);
    exe_file.push(120);
    ProcessEntry { pid, parent_pid, exe_file }
}

fn listing(last_error: u32) -> ProcessListing {
    ProcessListing {
        entries: vec![
            entry(1, 5, "app.exe"),
            entry(2, 4, "other.exe"),
            entry(3, 4, "App.EXE"),
            entry(9, 4, "app.exe"),
        ],
        last_error,
        error: failure("os error 5"),
    }
}

#[test]
fn children_are_found_in_the_process_list() {
    assert_eq!(snapshot_windows_child_pid(Ok(listing(5)), 4, "app.exe").unwrap(), Some(3));
    assert_eq!(snapshot_windows_child_pid(Ok(listing(18)), 6, "app.exe").unwrap(), None);
    assert_eq!(snapshot_windows_child_pid(Ok(listing(0)), 6, "app.exe").unwrap(), None);
    assert_eq!(
        format_error_chain(&snapshot_windows_child_pid(Ok(listing(5)), 6, "app.exe").unwrap_err()),
        "failed to iterate Windows process list\ncaused by: os error 5"
    );
    assert_eq!(
        snapshot_windows_child_pid(Err(failure("e")), 6, "app.exe").unwrap_err().message,
        "failed to snapshot Windows process list"
    );
}

#[test]
fn process_names_end_at_the_first_zero() {
    assert_eq!(windows_process_name(&entry(1, 1, "加速.exe").exe_file), "加速.exe");
    assert_eq!(windows_process_name(&vec![97, 98]), "ab");
    assert_eq!(windows_process_name(&vec![0xd800, 97]), "\u{fffd}a");
    assert_eq!(windows_process_name(&vec![0xd83d, 0xde00, 97]), "\u{1f600}a");
    assert_eq!(windows_process_name(&vec![0xde00, 0xd83d]), "\u{fffd}\u{fffd}");
    assert_eq!(windows_process_name(&vec![]), "");
}

#[test]
fn termination_names_the_process() {
    assert_eq!(words(&terminate_process(Platform::Linux, 42)), vec!["kill", "-TERM", "42"]);
    assert_eq!(words(&terminate_process_force(Platform::Macos, 42)), vec!["kill", "-KILL", "42"]);
    assert_eq!(
        words(&terminate_process(Platform::Windows, 4294967295)),
        vec!["taskkill", "/PID", "4294967295", "/T", "/F"]
    );
    assert_eq!(
        words(&terminate_process(Platform::Windows, 1)),
        words(&terminate_process_force(Platform::Windows, 1))
    );
}

#[test]
fn a_process_that_may_not_be_signalled_runs() {
    assert_eq!(words(&kill_probe(42)), vec!["kill", "-0", "42"]);
    assert!(matches!(judge_kill_probe(42, true, ""), Liveness::Known(true)));
    assert!(matches!(
        is_process_running(42, Ok(output(false, b"", b"kill: (42) - Operation not permitted\n"))),
        Liveness::Known(true)
    ));
    match is_process_running(42, Ok(output(false, b"", b"No such process"))) {
        Liveness::Ask(line) => assert_eq!(words(&line), vec!["ps", "-p", "42", "-o", "pid="]),
        other => panic!("{:?}", other),
    }
    assert!(matches!(is_process_running(42, Err(failure("e"))), Liveness::Known(false)));
    assert!(is_process_listed(Ok(output(true, b"  42\n", b""))));
    assert!(!is_process_listed(Ok(output(true, b"\n", b""))));
    assert!(!is_process_listed(Ok(output(false, b"42", b""))));
    assert!(!is_process_listed(Err(failure("e"))));
    assert!(is_windows_process_running(true, Some(259)));
    assert!(!is_windows_process_running(true, Some(0)));
    assert!(!is_windows_process_running(true, None));
    assert!(!is_windows_process_running(false, None));
}
