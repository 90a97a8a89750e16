use linuxdo_accelerator::command::{
    failure_detail, run_command, Action, CommandLine, Plan, PlanRun, ProcessOutput,
};
use linuxdo_accelerator::failure::{format_error_chain, Failure};
use linuxdo_accelerator::file_path::FilePath;

fn output(success: bool, stdout: &[u8], stderr: &[u8]) -> ProcessOutput {
    ProcessOutput { success, stdout: stdout.to_vec(), stderr: stderr.to_vec() }
}

fn at(path: &'static str) -> FilePath<&'static str> {
    FilePath::Given(path, path.to_string())
}

#[test]
fn error_chain_drops_repeated_messages() {
    let failure = Failure::new("disk full".to_string())
        .context("disk full".to_string())
        .context("failed to write /tmp/x".to_string());
    assert_eq!(format_error_chain(&failure), "failed to write /tmp/x\ncaused by: disk full");
}

#[test]
fn error_chain_keeps_messages_that_come_back_later() {
    let failure = Failure::new("a".to_string()).context("b".to_string()).context("a".to_string());
    assert_eq!(format_error_chain(&failure), "a\ncaused by: b\ncaused by: a");
}

#[test]
fn run_command_reports_what_the_program_complained_of() {
    let line = CommandLine::new("ipconfig").arg("/flushdns");
    assert!(run_command(&line, Ok(output(true, b"", b"ignored"))).is_ok());
    let failed = run_command(&line, Ok(output(false, b"", b"  access denied \r\n"))).unwrap_err();
    assert_eq!(failed.message, "ipconfig failed: access denied");
    assert!(failed.causes.is_empty());
    let missing =
        run_command(&line, Err(Failure::new("No such file or directory".to_string()))).unwrap_err();
    assert_eq!(
        format_error_chain(&missing),
        "failed to execute ipconfig\ncaused by: No such file or directory"
    );
}

#[test]
fn run_command_replaces_bytes_that_are_not_text() {
    let line = CommandLine::new("x");
    let failed = run_command(&line, Ok(output(false, b"", b"a\xffb"))).unwrap_err();
    assert_eq!(failed.message, "x failed: a\u{fffd}b");
}

#[test]
fn failure_detail_prefers_the_error_output() {
    assert_eq!(failure_detail(" bad ", "out", "none"), "bad");
    assert_eq!(failure_detail(" \n", " out\n", "none"), "out");
    assert_eq!(failure_detail("", "\t", "none"), "none");
}

#[test]
fn a_required_step_that_fails_ends_the_plan() {
    let plan = Plan::new()
        .attempt(Action::UninstallCa)
        .require(Action::RemoveFile(at("/a")))
        .require(Action::RemoveFile(at("/b")));
    let mut run = PlanRun::new(plan);
    assert!(matches!(run.current().unwrap().action, Action::UninstallCa));
    assert!(run.record(Err(Failure::new("ignored".to_string()))).is_ok());
    assert!(matches!(&run.current().unwrap().action, Action::RemoveFile(FilePath::Given("/a", _))));
    let verdict = run.record(Err(Failure::new("busy".to_string())));
    assert_eq!(verdict.unwrap_err().message, "busy");
    assert!(run.current().is_none());
}

#[test]
fn an_alternative_that_succeeds_ends_the_plan() {
    let plan: Plan<&str> = Plan::new()
        .alternative(Action::Run(CommandLine::new("resolvectl")))
        .alternative(Action::Run(CommandLine::new("service")))
        .alternative(Action::Run(CommandLine::new("rc-service")));
    let mut run = PlanRun::new(plan);
    assert!(run.record(Err(Failure::new("missing".to_string()))).is_ok());
    assert!(matches!(&run.current().unwrap().action, Action::Run(line) if line.program == "service"));
    assert!(run.record(Ok(())).is_ok());
    assert!(run.current().is_none());
}
