use linuxdo_accelerator::command::{CommandLine, PathCommand, ProcessOutput};
use linuxdo_accelerator::config::AppConfig;
use linuxdo_accelerator::failure::{format_error_chain, Failure};
use linuxdo_accelerator::file_path::FilePath;
use linuxdo_accelerator::platform::elevation::{
    elevation_probe, ensure_elevated, is_elevated, is_superuser_id, judge_password_prompt,
    judge_pkexec, judge_su, judge_sudo, macos_sudo_result, password_prompt, pkexec_available,
    prompt_macos_administrator_password, run_android_elevated, run_elevated, run_linux_elevated,
    run_macos_elevated, run_macos_sudo_prompt, run_windows_elevated, should_fallback_to_macos_sudo,
    sudo_command, Elevation, MacosElevation, SudoRun, WindowsLaunch,
};
use linuxdo_accelerator::platform::Platform;

fn config(http_port: u16, https_port: u16) -> AppConfig {
    AppConfig {
        listen_host: "127.0.0.1".to_string(),
        hosts_ip: "127.0.0.1".to_string(),
        http_port,
        https_port,
        managed_prefer_ipv6: false,
        autostart: false,
        edge_node: None,
        edge_node_override: None,
        upstream: String::new(),
        hosts_domains: vec![],
        doh_endpoints: vec![],
        certificate_domains: vec![],
    }
}

fn output(success: bool, stdout: &[u8], stderr: &[u8]) -> ProcessOutput {
    ProcessOutput { success, stdout: stdout.to_vec(), stderr: stderr.to_vec() }
}

fn failure(message: &str) -> Failure {
    Failure::new(message.to_string())
}

fn words(line: &CommandLine) -> Vec<String> {
    let mut all = vec![line.program.clone()];
    all.extend(line.args.iter().cloned());
    all
}

fn args() -> Vec<String> {
    vec!["--config".to_string(), "/tmp/it's.toml".to_string()]
}

fn at(path: &'static str) -> FilePath<&'static str> {
    FilePath::Given(path, path.to_string())
}

fn path_words(line: &PathCommand<&'static str>) -> Vec<String> {
    let mut all = match &line.runner {
        Some(runner) => words(runner),
        None => vec![],
    };
    all.push(line.path.text());
    all.extend(line.args.iter().cloned());
    all
}

#[test]
fn low_ports_and_setup_need_rights() {
    assert!(ensure_elevated(&config(8080, 8443), false, false).is_ok());
    assert!(ensure_elevated(&config(1024, 1024), false, false).is_ok());
    assert!(ensure_elevated(&config(80, 443), false, true).is_ok());
    for (http, https, setup) in [(1023, 8443, false), (8080, 443, false), (8080, 8443, true)] {
        assert_eq!(
            ensure_elevated(&config(http, https), setup, false).unwrap_err().message,
            "this command requires administrator/root privileges"
        );
    }
}

#[test]
fn rights_are_told_from_the_probe() {
    assert_eq!(words(&elevation_probe(Platform::Windows)), vec!["fltmc"]);
    assert_eq!(words(&elevation_probe(Platform::Linux)), vec!["id", "-u"]);
    assert!(is_elevated(Platform::Linux, Ok(output(true, b"0\n", b""))));
    assert!(is_elevated(Platform::Macos, Ok(output(false, b" 0 ", b""))));
    assert!(!is_elevated(Platform::Linux, Ok(output(true, b"1000\n", b""))));
    assert!(is_elevated(Platform::Windows, Ok(output(true, b"", b""))));
    assert!(!is_elevated(Platform::Windows, Ok(output(false, b"0", b""))));
    assert!(!is_elevated(Platform::Windows, Err(failure("missing"))));
    assert!(is_superuser_id("0\r\n"));
    assert!(!is_superuser_id("00"));
}

#[test]
fn each_platform_has_its_own_request() {
    match run_elevated(Platform::Windows, at("C:\\app.exe"), vec!["a b".to_string()]) {
        Elevation::Runas { file, parameters } => {
            assert_eq!(file.text(), "C:\\app.exe");
            assert_eq!(parameters, "\"a b\"");
        }
        other => panic!("{:?}", other),
    }
    match run_elevated(Platform::Android, at("/data/app"), args()) {
        Elevation::Su(line) => assert_eq!(
            words(&line),
            vec!["su", "-c", "'/data/app' '--config' '/tmp/it'\"'\"'s.toml'"]
        ),
        other => panic!("{:?}", other),
    }
    match run_elevated(Platform::Linux, at("/usr/bin/app"), args()) {
        Elevation::Pkexec { probe, command } => {
            assert_eq!(words(&probe), vec!["pkexec", "--version"]);
            assert_eq!(path_words(&command), vec!["pkexec", "/usr/bin/app", "--config", "/tmp/it's.toml"]);
        }
        other => panic!("{:?}", other),
    }
}

#[test]
fn apple_script_quotes_twice() {
    match run_elevated(Platform::Macos, at("/Apps/x\"y"), vec![]) {
        Elevation::AppleScript(line) => {
            assert_eq!(line.program, "osascript");
            assert_eq!(line.args[0], "-e");
            assert_eq!(
                line.args[1],
                "do shell script \"'/Apps/x\\\"y'\" with prompt \"Linux.do Accelerator 需要管理员权限来安装证书、更新 hosts 并监听本地 80/443 端口。\" with administrator privileges"
            );
        }
        other => panic!("{:?}", other),
    }
}

#[test]
fn windows_launches_are_judged() {
    assert!(run_windows_elevated("a.exe", WindowsLaunch::Exited(0)).is_ok());
    assert_eq!(
        run_windows_elevated("a.exe", WindowsLaunch::Exited(3)).unwrap_err().message,
        "elevated command exited with code 3"
    );
    assert_eq!(
        format_error_chain(
            &run_windows_elevated("a.exe", WindowsLaunch::Refused(failure("cancelled"))).unwrap_err()
        ),
        "failed to elevate a.exe with ShellExecuteExW\ncaused by: cancelled"
    );
    assert_eq!(
        run_windows_elevated("a.exe", WindowsLaunch::NoHandle).unwrap_err().message,
        "ShellExecuteExW did not return a process handle"
    );
    assert_eq!(
        run_windows_elevated("a.exe", WindowsLaunch::WaitFailed(failure("x"))).unwrap_err().message,
        "failed while waiting for elevated process"
    );
    assert_eq!(
        run_windows_elevated("a.exe", WindowsLaunch::NoExitCode(failure("x"))).unwrap_err().message,
        "failed to fetch elevated process exit code"
    );
}

#[test]
fn sudo_is_tried_where_apple_script_was_refused() {
    assert!(should_fallback_to_macos_sudo("execution error: (-60007)"));
    assert!(should_fallback_to_macos_sudo("授权失败"));
    assert!(should_fallback_to_macos_sudo("x authorization failed y"));
    assert!(should_fallback_to_macos_sudo("管理员用户名或密码不正确"));
    assert!(should_fallback_to_macos_sudo("error -50"));
    assert!(!should_fallback_to_macos_sudo("User canceled. (-128)"));
    let line = CommandLine::new("osascript");
    assert!(matches!(
        run_macos_elevated(&line, Ok(output(true, b"", b""))),
        MacosElevation::Done
    ));
    match run_macos_elevated(&line, Ok(output(false, b"", b"(-60007)\n"))) {
        MacosElevation::UseSudo(error) => {
            assert_eq!(error.message, "osascript failed: (-60007)");
            let wrapped = macos_sudo_result(&error, Err(failure("nope"))).unwrap_err();
            assert_eq!(
                format_error_chain(&wrapped),
                "AppleScript elevation failed: osascript failed: (-60007)\ncaused by: nope"
            );
            assert!(macos_sudo_result(&error, Ok(())).is_ok());
        }
        other => panic!("{:?}", other),
    }
    assert!(matches!(
        run_macos_elevated(&line, Ok(output(false, b"", b"(-128)"))),
        MacosElevation::Failed(_)
    ));
}

#[test]
fn sudo_gets_the_program_after_two_dashes() {
    assert_eq!(
        path_words(&sudo_command(at("/Apps/x"), vec!["helper-start".to_string()])),
        vec!["sudo", "-k", "-S", "-p", "", "--", "/Apps/x", "helper-start"]
    );
}

#[test]
fn sudo_runs_are_judged() {
    assert!(judge_sudo(true, "warning").is_ok());
    assert_eq!(
        judge_sudo(false, " \n").unwrap_err().message,
        "sudo rejected the administrator password"
    );
    assert_eq!(judge_sudo(false, "Sorry, try again.\n").unwrap_err().message, "Sorry, try again.");
    assert_eq!(
        run_macos_sudo_prompt("/x", SudoRun::Finished(output(false, b"", b"no\n")))
            .unwrap_err()
            .message,
        "no"
    );
    let cases: Vec<(SudoRun, &str)> = vec![
        (SudoRun::NoPassword(failure("cancelled")), "cancelled"),
        (SudoRun::NotStarted(failure("e")), "failed to execute sudo for /x"),
        (SudoRun::NoInput, "failed to open sudo stdin"),
        (SudoRun::PasswordNotWritten(failure("e")), "failed to write password to sudo stdin"),
        (SudoRun::NewlineNotWritten(failure("e")), "failed to terminate sudo password input"),
        (SudoRun::NotFlushed(failure("e")), "failed to flush sudo password input"),
        (SudoRun::NotAwaited(failure("e")), "failed while waiting for sudo"),
    ];
    for (run, message) in cases {
        assert_eq!(run_macos_sudo_prompt("/x", run).unwrap_err().message, message);
    }
}

#[test]
fn password_prompts_are_judged() {
    assert_eq!(password_prompt().args[0], "-e");
    assert!(password_prompt().args[1].ends_with("default button \"继续\")"));
    assert_eq!(judge_password_prompt(true, "secret\n", "").unwrap(), "secret");
    assert_eq!(
        judge_password_prompt(true, " \n", "").unwrap_err().message,
        "empty administrator password"
    );
    for stderr in ["(-128)", "User canceled.", "用户已取消"] {
        assert_eq!(
            judge_password_prompt(false, "", stderr).unwrap_err().message,
            "user canceled administrator password prompt"
        );
    }
    assert_eq!(
        judge_password_prompt(false, "", " broken ").unwrap_err().message,
        "password prompt failed: broken"
    );
    assert_eq!(
        format_error_chain(&prompt_macos_administrator_password(Err(failure("e"))).unwrap_err()),
        "failed to prompt for administrator password\ncaused by: e"
    );
    assert_eq!(
        prompt_macos_administrator_password(Ok(output(true, b" pw ", b""))).unwrap(),
        "pw"
    );
}

#[test]
fn pkexec_and_su_are_judged() {
    assert!(pkexec_available(&Ok(output(true, b"pkexec version 124", b""))));
    assert!(!pkexec_available(&Err(failure("missing"))));
    assert_eq!(
        run_linux_elevated(None).unwrap_err().message,
        "pkexec is required on Linux for GUI elevation prompts"
    );
    assert_eq!(
        judge_pkexec(false, "", "").unwrap_err().message,
        "pkexec rejected the elevation request"
    );
    assert_eq!(
        run_linux_elevated(Some(Ok(output(false, b"out", b"")))).unwrap_err().message,
        "out"
    );
    assert_eq!(
        run_linux_elevated(Some(Err(failure("e")))).unwrap_err().message,
        "failed to execute pkexec"
    );
    assert!(run_android_elevated(Ok(output(true, b"", b"noise"))).is_ok());
    assert_eq!(
        run_android_elevated(Ok(output(false, b"", b"denied\n"))).unwrap_err().message,
        "su failed: denied"
    );
    assert_eq!(judge_su(false, "").unwrap_err().message, "su rejected the elevation request");
}
