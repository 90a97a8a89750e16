//! Administrator rights: whether they are needed, whether the process has them, and how another
//! process is started with them on each platform.

use vstd::prelude::*;
use vstd::string::*;

use crate::command::{
    command, command_result, detail_text, failure_detail, message_text, path_command, run_command,
    run_value, succeeded, CommandLine, CommandText, PathCommand, PathCommandValue, ProcessOutput,
};
use crate::config::AppConfig;
use crate::decode::{decode_utf8, utf8_text};
use crate::failure::{outcome, text_outcome, Failure};
use crate::file_path::{FilePath, FilePathValue};
use crate::platform::Platform;
use crate::quoting::{
    applescript_escape, applescript_escaped, applescript_text, law_applescript_is_read_back,
    law_shell_line_is_read_back, law_windows_line_is_read_back, shell_join, shell_line, shell_words,
    windows_args, windows_command_line, windows_line,
};
use crate::text::{contains, decimal, decimal_text, has_text, same_text, texts, trim, trimmed};

verus! {

// ---------------------------------------------------------------------------------------------
// Whether administrator rights are there
// ---------------------------------------------------------------------------------------------

/// Setup needs administrator rights, and so does listening on a port below 1024.
pub open spec fn needs_privilege(for_setup: bool, http_port: u16, https_port: u16) -> bool {
    for_setup || http_port < 1024 || https_port < 1024
}

/// Fails if and only if the command needs administrator rights and the process lacks them.
pub fn ensure_elevated(config: &AppConfig, for_setup: bool, elevated: bool) -> (result: Result<
    (),
    Failure,
>)
    ensures
        outcome(result) == (if needs_privilege(for_setup, config.http_port, config.https_port)
            && !elevated {
            Err(seq!["this command requires administrator/root privileges"@])
        } else {
            Ok(())
        }),
        result is Err <==> !elevated && (for_setup || config.http_port <= 1023 || config.https_port
            <= 1023),
{
    let needs = for_setup || config.http_port < 1024 || config.https_port < 1024;
    if needs && !elevated {
        return Err(
            Failure::new("this command requires administrator/root privileges".to_string()),
        );
    }
    Ok(())
}

/// The command whose outcome tells whether the process has administrator rights.
pub open spec fn elevation_probe_text(platform: Platform) -> CommandText {
    if platform is Windows {
        command("fltmc"@)
    } else {
        command("id"@).with("-u"@)
    }
}

/// The command whose outcome tells whether the process has administrator rights.
pub fn elevation_probe(platform: Platform) -> (line: CommandLine)
    ensures
        line@ == elevation_probe_text(platform),
{
    match platform {
        Platform::Windows => CommandLine::new("fltmc"),
        _ => CommandLine::new("id").arg("-u"),
    }
}

/// Whether the user id that was written is that of the superuser.
pub fn is_superuser_id(stdout: &str) -> (superuser: bool)
    ensures
        superuser == (trimmed(stdout@) == "0"@),
{
    same_text(trim(stdout).as_str(), "0")
}

/// Whether the process has administrator rights, where the probe came to `run`: on Windows the
/// probe succeeds for administrators alone, elsewhere it writes the user id.
pub fn is_elevated(platform: Platform, run: Result<ProcessOutput, Failure>) -> (elevated: bool)
    ensures
        elevated == (match run_value(run) {
            Ok(output) => if platform is Windows {
                output.success
            } else {
                message_text(output.stdout) == "0"@
            },
            Err(_) => false,
        }),
{
    match run {
        Ok(output) => match platform {
            Platform::Windows => output.success,
            _ => is_superuser_id(decode_utf8(output.stdout.as_slice()).as_str()),
        },
        Err(_) => false,
    }
}

// ---------------------------------------------------------------------------------------------
// Starting a process with administrator rights
// ---------------------------------------------------------------------------------------------

/// A request to the operating system to run a program with administrator rights.
#[derive(Debug)]
pub enum Elevation<P> {
    /// `ShellExecuteExW` with the verb `runas`.
    Runas { file: FilePath<P>, parameters: String },
    /// A script for `osascript`.
    AppleScript(CommandLine),
    /// A command line for `su`.
    Su(CommandLine),
    /// `pkexec`, where the first command shows that it is there.
    Pkexec { probe: CommandLine, command: PathCommand<P> },
}

/// A request to run a program with administrator rights, as values.
pub enum ElevationValue<P> {
    Runas { file: FilePathValue<P>, parameters: Seq<char> },
    AppleScript(CommandText),
    Su(CommandText),
    Pkexec { probe: CommandText, command: PathCommandValue<P> },
}

impl<P> View for Elevation<P> {
    type V = ElevationValue<P>;

    open spec fn view(&self) -> ElevationValue<P> {
        match self {
            Elevation::Runas { file, parameters } => ElevationValue::Runas {
                file: file@,
                parameters: parameters@,
            },
            Elevation::AppleScript(line) => ElevationValue::AppleScript(line@),
            Elevation::Su(line) => ElevationValue::Su(line@),
            Elevation::Pkexec { probe, command } => ElevationValue::Pkexec {
                probe: probe@,
                command: command@,
            },
        }
    }
}

/// The AppleScript that runs `line` in a shell with administrator rights.
pub open spec fn elevation_script(line: Seq<char>) -> Seq<char> {
    "do shell script \""@ + applescript_escaped(line) + "\" with prompt \""@ + applescript_escaped(
        "Linux.do Accelerator 需要管理员权限来安装证书、更新 hosts 并监听本地 80/443 端口。"@,
    ) + "\" with administrator privileges"@
}

/// The request that runs `executable` with `args` and administrator rights.
pub open spec fn elevation_request<P>(
    platform: Platform,
    executable: FilePathValue<P>,
    args: Seq<Seq<char>>,
) -> ElevationValue<P> {
    match platform {
        Platform::Windows => ElevationValue::Runas {
            file: executable,
            parameters: windows_line(args),
        },
        Platform::Macos => ElevationValue::AppleScript(
            command("osascript"@).with("-e"@).with(
                elevation_script(shell_line(seq![executable.shown()] + args)),
            ),
        ),
        Platform::Android => ElevationValue::Su(
            command("su"@).with("-c"@).with(shell_line(seq![executable.shown()] + args)),
        ),
        _ => ElevationValue::Pkexec {
            probe: command("pkexec"@).with("--version"@),
            command: path_command(Some(command("pkexec"@)), executable, args),
        },
    }
}

/// The request that runs `executable` with `args` and administrator rights.
pub fn run_elevated<P>(platform: Platform, executable: FilePath<P>, args: Vec<String>) -> (request:
    Elevation<P>)
    ensures
        request@ == elevation_request(platform, executable@, texts(args@)),
{
    match platform {
        Platform::Windows => Elevation::Runas {
            file: executable,
            parameters: windows_command_line(&args),
        },
        Platform::Macos => {
            let line = shell_join(executable.text().as_str(), &args);
            let prompt = "Linux.do Accelerator 需要管理员权限来安装证书、更新 hosts 并监听本地 80/443 端口。";
            let script = "do shell script \"".to_string().concat(
                applescript_escape(line.as_str()).as_str(),
            ).concat("\" with prompt \"").concat(applescript_escape(prompt).as_str()).concat(
                "\" with administrator privileges",
            );
            Elevation::AppleScript(CommandLine::new("osascript").arg("-e").arg(script.as_str()))
        },
        Platform::Android => {
            let line = shell_join(executable.text().as_str(), &args);
            Elevation::Su(CommandLine::new("su").arg("-c").arg(line.as_str()))
        },
        _ => Elevation::Pkexec {
            probe: CommandLine::new("pkexec").arg("--version"),
            command: PathCommand {
                runner: Some(CommandLine::new("pkexec")),
                path: executable,
                args,
            },
        },
    }
}

/// What `ShellExecuteExW` and the process that it started came to.
#[derive(Debug)]
pub enum WindowsLaunch {
    /// The request was refused, with the reason that the system gave.
    Refused(Failure),
    /// The request was granted without a handle on the process.
    NoHandle,
    /// Waiting for the process failed.
    WaitFailed(Failure),
    /// The exit code of the process could not be read.
    NoExitCode(Failure),
    /// The process ended with this exit code.
    Exited(u32),
}

/// The result of running `executable` with administrator rights on Windows.
pub open spec fn windows_launch_result(executable: Seq<char>, launch: WindowsLaunch) -> Result<
    (),
    Seq<Seq<char>>,
> {
    match launch {
        WindowsLaunch::Refused(error) => Err(
            seq!["failed to elevate "@ + executable + " with ShellExecuteExW"@] + error@,
        ),
        WindowsLaunch::NoHandle => Err(seq!["ShellExecuteExW did not return a process handle"@]),
        WindowsLaunch::WaitFailed(error) => Err(
            seq!["failed while waiting for elevated process"@] + error@,
        ),
        WindowsLaunch::NoExitCode(error) => Err(
            seq!["failed to fetch elevated process exit code"@] + error@,
        ),
        WindowsLaunch::Exited(code) => if code == 0 {
            Ok(())
        } else {
            Err(seq!["elevated command exited with code "@ + decimal(code as nat)])
        },
    }
}

/// The result of running `executable` with administrator rights on Windows.
pub fn run_windows_elevated(executable: &str, launch: WindowsLaunch) -> (result: Result<
    (),
    Failure,
>)
    ensures
        outcome(result) == windows_launch_result(executable@, launch),
{
    match launch {
        WindowsLaunch::Refused(error) => Err(
            error.context(
                "failed to elevate ".to_string().concat(executable).concat(" with ShellExecuteExW"),
            ),
        ),
        WindowsLaunch::NoHandle => Err(
            Failure::new("ShellExecuteExW did not return a process handle".to_string()),
        ),
        WindowsLaunch::WaitFailed(error) => Err(
            error.context("failed while waiting for elevated process".to_string()),
        ),
        WindowsLaunch::NoExitCode(error) => Err(
            error.context("failed to fetch elevated process exit code".to_string()),
        ),
        WindowsLaunch::Exited(code) => if code == 0 {
            Ok(())
        } else {
            Err(
                Failure::new(
                    "elevated command exited with code ".to_string().concat(
                        decimal_text(code as u64).as_str(),
                    ),
                ),
            )
        },
    }
}

/// AppleScript could not get the rights that it asked for, so that asking for the password and
/// running `sudo` is worth a try.
pub open spec fn asks_for_sudo(detail: Seq<char>) -> bool {
    ||| has_text(detail, "-60007"@)
    ||| has_text(detail, "-50"@)
    ||| has_text(detail, "管理员用户名或密码不正确"@)
    ||| has_text(detail, "authorization failed"@)
    ||| has_text(detail, "授权失败"@)
}

/// Whether a failure of AppleScript is one that `sudo` may overcome.
pub fn should_fallback_to_macos_sudo(detail: &str) -> (fallback: bool)
    ensures
        fallback == asks_for_sudo(detail@),
{
    contains(detail, "-60007") || contains(detail, "-50") || contains(
        detail,
        "管理员用户名或密码不正确",
    ) || contains(detail, "authorization failed") || contains(detail, "授权失败")
}

/// How to go on after AppleScript was asked to run a program with administrator rights.
#[derive(Debug)]
pub enum MacosElevation {
    /// The program ran.
    Done,
    /// Ask for the password and run the program with `sudo`, because of this failure.
    UseSudo(Failure),
    /// The request failed for good.
    Failed(Failure),
}

/// How to go on after the script `line` came to `run`.
pub fn run_macos_elevated(line: &CommandLine, run: Result<ProcessOutput, Failure>) -> (next:
    MacosElevation)
    ensures
        match next {
            MacosElevation::Done => command_result(line@.program, run_value(run)) is Ok,
            MacosElevation::UseSudo(error) => command_result(line@.program, run_value(run)) == Err::<
                (),
                Seq<Seq<char>>,
            >(error@) && asks_for_sudo(error@[0]),
            MacosElevation::Failed(error) => command_result(line@.program, run_value(run)) == Err::<
                (),
                Seq<Seq<char>>,
            >(error@) && !asks_for_sudo(error@[0]),
        },
{
    match run_command(line, run) {
        Ok(_) => MacosElevation::Done,
        Err(error) => {
            assert(error@[0] == error.message@);
            if should_fallback_to_macos_sudo(error.message.as_str()) {
                MacosElevation::UseSudo(error)
            } else {
                MacosElevation::Failed(error)
            }
        },
    }
}

/// The result of running the program with `sudo` after AppleScript failed with `error`.
pub fn macos_sudo_result(error: &Failure, sudo: Result<(), Failure>) -> (result: Result<
    (),
    Failure,
>)
    ensures
        outcome(result) == (match outcome(sudo) {
            Ok(_) => Ok(()),
            Err(causes) => Err(seq!["AppleScript elevation failed: "@ + error@[0]] + causes),
        }),
{
    assert(error@[0] == error.message@);
    match sudo {
        Ok(_) => Ok(()),
        Err(failure) => Err(
            failure.context(
                "AppleScript elevation failed: ".to_string().concat(error.message.as_str()),
            ),
        ),
    }
}

/// The command that runs `executable` with `args`, and reads the password from its input.
pub fn sudo_command<P>(executable: FilePath<P>, args: Vec<String>) -> (line: PathCommand<P>)
    ensures
        line@ == path_command(
            Some(command("sudo"@).with("-k"@).with("-S"@).with("-p"@).with(""@).with("--"@)),
            executable@,
            texts(args@),
        ),
{
    PathCommand {
        runner: Some(CommandLine::new("sudo").arg("-k").arg("-S").arg("-p").arg("").arg("--")),
        path: executable,
        args,
    }
}

/// What running `sudo` with the password on its input came to.
#[derive(Debug)]
pub enum SudoRun {
    /// There was no password to run it with.
    NoPassword(Failure),
    NotStarted(Failure),
    NoInput,
    PasswordNotWritten(Failure),
    NewlineNotWritten(Failure),
    NotFlushed(Failure),
    NotAwaited(Failure),
    Finished(ProcessOutput),
}

/// The verdict on `sudo` where it ended with `success` and wrote `stderr`.
pub open spec fn sudo_verdict(success: bool, stderr: Seq<char>) -> Result<(), Seq<Seq<char>>> {
    if success {
        Ok(())
    } else if trimmed(stderr).len() == 0 {
        Err(seq!["sudo rejected the administrator password"@])
    } else {
        Err(seq![trimmed(stderr)])
    }
}

/// The result of running `executable` with `sudo`.
pub open spec fn sudo_result(executable: Seq<char>, run: SudoRun) -> Result<(), Seq<Seq<char>>> {
    match run {
        SudoRun::NoPassword(error) => Err(error@),
        SudoRun::NotStarted(error) => Err(
            seq!["failed to execute sudo for "@ + executable] + error@,
        ),
        SudoRun::NoInput => Err(seq!["failed to open sudo stdin"@]),
        SudoRun::PasswordNotWritten(error) => Err(
            seq!["failed to write password to sudo stdin"@] + error@,
        ),
        SudoRun::NewlineNotWritten(error) => Err(
            seq!["failed to terminate sudo password input"@] + error@,
        ),
        SudoRun::NotFlushed(error) => Err(seq!["failed to flush sudo password input"@] + error@),
        SudoRun::NotAwaited(error) => Err(seq!["failed while waiting for sudo"@] + error@),
        SudoRun::Finished(output) => sudo_verdict(output.success, utf8_text(output.stderr@)),
    }
}

/// Judges `sudo` by what it wrote.
pub fn judge_sudo(success: bool, stderr: &str) -> (result: Result<(), Failure>)
    ensures
        outcome(result) == sudo_verdict(success, stderr@),
{
    if success {
        return Ok(());
    }
    let complaint = trim(stderr);
    if complaint.as_str().is_empty() {
        return Err(Failure::new("sudo rejected the administrator password".to_string()));
    }
    Err(Failure::new(complaint))
}

/// The result of running `executable` with `sudo`.
pub fn run_macos_sudo_prompt(executable: &str, run: SudoRun) -> (result: Result<(), Failure>)
    ensures
        outcome(result) == sudo_result(executable@, run),
{
    match run {
        SudoRun::NoPassword(error) => Err(error),
        SudoRun::NotStarted(error) => Err(
            error.context("failed to execute sudo for ".to_string().concat(executable)),
        ),
        SudoRun::NoInput => Err(Failure::new("failed to open sudo stdin".to_string())),
        SudoRun::PasswordNotWritten(error) => Err(
            error.context("failed to write password to sudo stdin".to_string()),
        ),
        SudoRun::NewlineNotWritten(error) => Err(
            error.context("failed to terminate sudo password input".to_string()),
        ),
        SudoRun::NotFlushed(error) => Err(
            error.context("failed to flush sudo password input".to_string()),
        ),
        SudoRun::NotAwaited(error) => Err(
            error.context("failed while waiting for sudo".to_string()),
        ),
        SudoRun::Finished(output) => judge_sudo(
            output.success,
            decode_utf8(output.stderr.as_slice()).as_str(),
        ),
    }
}

/// The command that asks for the password of the administrator.
pub fn password_prompt() -> (line: CommandLine)
    ensures
        line@ == command("osascript"@).with("-e"@).with(
            "text returned of (display dialog \""@ + applescript_escaped(
                "请输入 macOS 管理员密码，用于安装证书、更新 hosts 并监听本地 80/443 端口。"@,
            )
                + "\" with title \"Linux.do Accelerator\" default answer \"\" with hidden answer buttons {\"取消\", \"继续\"} default button \"继续\")"@,
        ),
{
    let script = "text returned of (display dialog \"".to_string().concat(
        applescript_escape(
            "请输入 macOS 管理员密码，用于安装证书、更新 hosts 并监听本地 80/443 端口。",
        ).as_str(),
    ).concat(
        "\" with title \"Linux.do Accelerator\" default answer \"\" with hidden answer buttons {\"取消\", \"继续\"} default button \"继续\")",
    );
    CommandLine::new("osascript").arg("-e").arg(script.as_str())
}

/// The password, or why there is none, where the prompt ended with `success` and wrote these
/// texts.
pub open spec fn password_answer(success: bool, stdout: Seq<char>, stderr: Seq<char>) -> Result<
    Seq<char>,
    Seq<Seq<char>>,
> {
    if !success {
        if has_text(stderr, "-128"@) || has_text(stderr, "User canceled"@) || has_text(
            stderr,
            "取消"@,
        ) {
            Err(seq!["user canceled administrator password prompt"@])
        } else {
            Err(seq!["password prompt failed: "@ + trimmed(stderr)])
        }
    } else if trimmed(stdout).len() == 0 {
        Err(seq!["empty administrator password"@])
    } else {
        Ok(trimmed(stdout))
    }
}

/// The password, or why there is none, by what the prompt wrote.
pub fn judge_password_prompt(success: bool, stdout: &str, stderr: &str) -> (password: Result<
    String,
    Failure,
>)
    ensures
        text_outcome(password) == password_answer(success, stdout@, stderr@),
{
    if !success {
        if contains(stderr, "-128") || contains(stderr, "User canceled") || contains(
            stderr,
            "取消",
        ) {
            return Err(
                Failure::new("user canceled administrator password prompt".to_string()),
            );
        }
        return Err(
            Failure::new(
                "password prompt failed: ".to_string().concat(trim(stderr).as_str()),
            ),
        );
    }
    let password = trim(stdout);
    if password.as_str().is_empty() {
        return Err(Failure::new("empty administrator password".to_string()));
    }
    Ok(password)
}

/// The password that the prompt came to.
pub fn prompt_macos_administrator_password(run: Result<ProcessOutput, Failure>) -> (password:
    Result<String, Failure>)
    ensures
        text_outcome(password) == (match run_value(run) {
            Err(causes) => Err(seq!["failed to prompt for administrator password"@] + causes),
            Ok(output) => password_answer(
                output.success,
                utf8_text(output.stdout),
                utf8_text(output.stderr),
            ),
        }),
{
    match run {
        Err(error) => Err(
            error.context("failed to prompt for administrator password".to_string()),
        ),
        Ok(output) => judge_password_prompt(
            output.success,
            decode_utf8(output.stdout.as_slice()).as_str(),
            decode_utf8(output.stderr.as_slice()).as_str(),
        ),
    }
}

/// The verdict on `pkexec` where it ended with `success` and wrote these texts.
pub open spec fn pkexec_verdict(success: bool, stderr: Seq<char>, stdout: Seq<char>) -> Result<
    (),
    Seq<Seq<char>>,
> {
    if success {
        Ok(())
    } else {
        Err(seq![detail_text(stderr, stdout, "pkexec rejected the elevation request"@)])
    }
}

/// Whether `pkexec` is there, where asking for its version came to `run`.
pub fn pkexec_available(run: &Result<ProcessOutput, Failure>) -> (available: bool)
    ensures
        available == succeeded(run_value(*run)),
{
    match run {
        Ok(output) => output.success,
        Err(_) => false,
    }
}

/// Judges `pkexec` by what it wrote.
pub fn judge_pkexec(success: bool, stderr: &str, stdout: &str) -> (result: Result<(), Failure>)
    ensures
        outcome(result) == pkexec_verdict(success, stderr@, stdout@),
{
    if success {
        return Ok(());
    }
    Err(Failure::new(failure_detail(stderr, stdout, "pkexec rejected the elevation request")))
}

/// The result of running a program with `pkexec`; there is no run where `pkexec` is missing.
pub fn run_linux_elevated(run: Option<Result<ProcessOutput, Failure>>) -> (result: Result<
    (),
    Failure,
>)
    ensures
        outcome(result) == (match run {
            None => Err(seq!["pkexec is required on Linux for GUI elevation prompts"@]),
            Some(run) => match run_value(run) {
                Err(causes) => Err(seq!["failed to execute pkexec"@] + causes),
                Ok(output) => pkexec_verdict(
                    output.success,
                    utf8_text(output.stderr),
                    utf8_text(output.stdout),
                ),
            },
        }),
{
    match run {
        None => Err(
            Failure::new("pkexec is required on Linux for GUI elevation prompts".to_string()),
        ),
        Some(Err(error)) => Err(error.context("failed to execute pkexec".to_string())),
        Some(Ok(output)) => judge_pkexec(
            output.success,
            decode_utf8(output.stderr.as_slice()).as_str(),
            decode_utf8(output.stdout.as_slice()).as_str(),
        ),
    }
}

/// The verdict on `su` where it ended with `success` and wrote `stderr`.
pub open spec fn su_verdict(success: bool, stderr: Seq<char>) -> Result<(), Seq<Seq<char>>> {
    if success {
        Ok(())
    } else if trimmed(stderr).len() == 0 {
        Err(seq!["su rejected the elevation request"@])
    } else {
        Err(seq!["su failed: "@ + trimmed(stderr)])
    }
}

/// Judges `su` by what it wrote.
pub fn judge_su(success: bool, stderr: &str) -> (result: Result<(), Failure>)
    ensures
        outcome(result) == su_verdict(success, stderr@),
{
    if success {
        return Ok(());
    }
    let complaint = trim(stderr);
    if complaint.as_str().is_empty() {
        return Err(Failure::new("su rejected the elevation request".to_string()));
    }
    Err(Failure::new("su failed: ".to_string().concat(complaint.as_str())))
}

/// The result of running a program with `su`.
pub fn run_android_elevated(run: Result<ProcessOutput, Failure>) -> (result: Result<(), Failure>)
    ensures
        outcome(result) == (match run_value(run) {
            Err(causes) => Err(seq!["failed to execute su"@] + causes),
            Ok(output) => su_verdict(output.success, utf8_text(output.stderr)),
        }),
{
    match run {
        Err(error) => Err(error.context("failed to execute su".to_string())),
        Ok(output) => judge_su(output.success, decode_utf8(output.stderr.as_slice()).as_str()),
    }
}

// ---------------------------------------------------------------------------------------------
// Laws
// ---------------------------------------------------------------------------------------------

/// What runs with administrator rights is exactly the program and the arguments that were asked
/// for: on Android and macOS the shell splits its command line into them, whatever characters
/// they hold, on Windows the program reads its arguments back, and `pkexec` gets them one by one.
pub proof fn law_elevation_runs_what_was_asked<P>(
    platform: Platform,
    executable: FilePathValue<P>,
    args: Seq<Seq<char>>,
)
    ensures
        match elevation_request(platform, executable, args) {
            ElevationValue::Runas { file, parameters } => file == executable && windows_args(
                parameters,
            ) == Some(args),
            ElevationValue::AppleScript(line) => line.args.len() == 2 && runs_in_shell(
                line.args[1],
                seq![executable.shown()] + args,
            ),
            ElevationValue::Su(line) => line.args.len() == 2 && shell_words(line.args[1]) == Some(
                seq![executable.shown()] + args,
            ),
            ElevationValue::Pkexec { command, .. } => command.path == executable && command.args
                == args,
        },
{
    let words = seq![executable.shown()] + args;
    law_windows_line_is_read_back(args);
    law_shell_line_is_read_back(words);
    law_applescript_is_read_back(shell_line(words));
    if platform is Macos {
        let inside = applescript_escaped(shell_line(words));
        let script = elevation_script(shell_line(words));
        let prefix = "do shell script \""@ + inside + "\" with prompt \""@;
        assert(script.take(prefix.len() as int) =~= prefix);
        assert(starts_script(script, inside));
        assert(runs_in_shell(script, words));
    }
}

/// `script` starts with the command to run the text of the literal `inside` in a shell.
pub open spec fn starts_script(script: Seq<char>, inside: Seq<char>) -> bool {
    let prefix = "do shell script \""@ + inside + "\" with prompt \""@;
    prefix.len() <= script.len() && script.take(prefix.len() as int) == prefix
}

/// `script` runs in a shell a command line that consists of `words`.
pub open spec fn runs_in_shell(script: Seq<char>, words: Seq<Seq<char>>) -> bool {
    exists|inside: Seq<char>| #[trigger]
        starts_script(script, inside) && (match applescript_text(inside) {
            Some(line) => shell_words(line) == Some(words),
            None => false,
        })
}

/// Administrator rights are asked for in the way of each system: by the verb of the shell on Windows, by a
/// script on macOS, and by `su` or `pkexec` elsewhere, of which the latter is tried first for its version.
pub proof fn law_each_system_has_its_way_to_elevate<P>(
    platform: Platform,
    executable: FilePathValue<P>,
    args: Seq<Seq<char>>,
)
    ensures
        match elevation_request(platform, executable, args) {
            ElevationValue::Runas { file, parameters } => {
                &&& platform is Windows
                &&& file == executable
                &&& parameters == windows_line(args)
            },
            ElevationValue::AppleScript(line) => {
                &&& platform is Macos
                &&& line.program == "osascript"@
                &&& line.args == seq![
                    "-e"@,
                    elevation_script(shell_line(seq![executable.shown()] + args)),
                ]
            },
            ElevationValue::Su(line) => {
                &&& platform is Android
                &&& line.program == "su"@
                &&& line.args == seq!["-c"@, shell_line(seq![executable.shown()] + args)]
            },
            ElevationValue::Pkexec { probe, command } => {
                &&& !(platform is Windows) && !(platform is Macos) && !(platform is Android)
                &&& probe.program == "pkexec"@
                &&& probe.args == seq!["--version"@]
                &&& command.runner is Some
                &&& command.runner->0.program == "pkexec"@
                &&& command.runner->0.args.len() == 0
                &&& command.path == executable
                &&& command.args == args
            },
        },
{
    let words = seq![executable.shown()] + args;
    assert(command("osascript"@).with("-e"@).with(elevation_script(shell_line(words))).args =~= seq![
        "-e"@,
        elevation_script(shell_line(words)),
    ]);
    assert(command("su"@).with("-c"@).with(shell_line(words)).args =~= seq![
        "-c"@,
        shell_line(words),
    ]);
    assert(command("pkexec"@).with("--version"@).args =~= seq!["--version"@]);
}

/// The script runs the line, says what the rights are for, and asks for administrator rights.
pub proof fn law_script_asks_for_rights(line: Seq<char>)
    ensures
        ({
            let script = elevation_script(line);
            let inside = applescript_escaped(line);
            let start = "do shell script \""@ + inside + "\" with prompt \""@;
            let prompt = applescript_escaped(
                "Linux.do Accelerator 需要管理员权限来安装证书、更新 hosts 并监听本地 80/443 端口。"@,
            );
            &&& script.len() > start.len()
            &&& script.take(start.len() as int) == start
            &&& script.skip(start.len() as int) == prompt + "\" with administrator privileges"@
        }),
{
    let script = elevation_script(line);
    let inside = applescript_escaped(line);
    let start = "do shell script \""@ + inside + "\" with prompt \""@;
    let prompt = applescript_escaped(
        "Linux.do Accelerator 需要管理员权限来安装证书、更新 hosts 并监听本地 80/443 端口。"@,
    );
    reveal_strlit("\" with administrator privileges");
    assert(script =~= start + (prompt + "\" with administrator privileges"@));
    assert(script.take(start.len() as int) =~= start);
    assert(script.skip(start.len() as int) =~= prompt + "\" with administrator privileges"@);
}

/// The rights are probed by a command that only administrators may run on Windows, and by the user id
/// elsewhere.
pub proof fn law_rights_are_probed(platform: Platform)
    ensures
        platform is Windows ==> elevation_probe_text(platform).program == "fltmc"@
            && elevation_probe_text(platform).args.len() == 0,
        !(platform is Windows) ==> elevation_probe_text(platform).program == "id"@
            && elevation_probe_text(platform).args == seq!["-u"@],
{
    assert(command("id"@).with("-u"@).args =~= seq!["-u"@]);
}

/// On Windows a run with administrator rights succeeds exactly where the process ended with code zero;
/// every other end has a message of its own above its cause.
pub proof fn law_windows_run_ends_with_zero(executable: Seq<char>, launch: WindowsLaunch)
    ensures
        windows_launch_result(executable, launch) is Ok <==> launch == WindowsLaunch::Exited(0),
        match launch {
            WindowsLaunch::Refused(error) => windows_launch_result(executable, launch)->Err_0 == seq![
                "failed to elevate "@ + executable + " with ShellExecuteExW"@,
            ] + error@,
            WindowsLaunch::NoHandle => windows_launch_result(executable, launch)->Err_0 == seq![
                "ShellExecuteExW did not return a process handle"@,
            ],
            WindowsLaunch::WaitFailed(error) => windows_launch_result(executable, launch)->Err_0
                == seq!["failed while waiting for elevated process"@] + error@,
            WindowsLaunch::NoExitCode(error) => windows_launch_result(executable, launch)->Err_0
                == seq!["failed to fetch elevated process exit code"@] + error@,
            WindowsLaunch::Exited(code) => code != 0 ==> windows_launch_result(
                executable,
                launch,
            )->Err_0 == seq!["elevated command exited with code "@ + decimal(code as nat)],
        },
{
}

/// Five complaints of AppleScript, wherever they stand, lead to another try with `sudo`, and no other does.
pub proof fn law_refused_rights_lead_to_sudo(detail: Seq<char>)
    ensures
        asks_for_sudo(detail) <==> exists|complaint: Seq<char>| #[trigger]
            has_text(detail, complaint) && (complaint == "-60007"@ || complaint == "-50"@ || complaint
                == "管理员用户名或密码不正确"@ || complaint == "authorization failed"@ || complaint
                == "授权失败"@),
{
}

/// The tools for administrator rights are judged alike: success is success, and otherwise what the tool
/// complained of is told, or that it refused where it did not say why.
pub proof fn law_tools_are_judged_alike(success: bool, stderr: Seq<char>, stdout: Seq<char>)
    ensures
        success <==> sudo_verdict(success, stderr) is Ok,
        success <==> pkexec_verdict(success, stderr, stdout) is Ok,
        success <==> su_verdict(success, stderr) is Ok,
        !success && trimmed(stderr).len() > 0 ==> {
            &&& sudo_verdict(success, stderr)->Err_0 == seq![trimmed(stderr)]
            &&& pkexec_verdict(success, stderr, stdout)->Err_0 == seq![trimmed(stderr)]
            &&& su_verdict(success, stderr)->Err_0 == seq!["su failed: "@ + trimmed(stderr)]
        },
        !success && trimmed(stderr).len() == 0 ==> {
            &&& sudo_verdict(success, stderr)->Err_0 == seq![
                "sudo rejected the administrator password"@,
            ]
            &&& pkexec_verdict(success, stderr, stdout)->Err_0 == seq![
                if trimmed(stdout).len() > 0 {
                    trimmed(stdout)
                } else {
                    "pkexec rejected the elevation request"@
                },
            ]
            &&& su_verdict(success, stderr)->Err_0 == seq!["su rejected the elevation request"@]
        },
{
}

/// A run of `sudo` succeeds exactly where it was finished with success; each step that fails before has a
/// message of its own above its cause, but for the want of a password, which is told as it is.
pub proof fn law_sudo_tells_where_it_failed(executable: Seq<char>, run: SudoRun)
    ensures
        sudo_result(executable, run) is Ok <==> (run is Finished && run->Finished_0.success),
        match run {
            SudoRun::NoPassword(error) => sudo_result(executable, run)->Err_0 == error@,
            SudoRun::NotStarted(error) => sudo_result(executable, run)->Err_0 == seq![
                "failed to execute sudo for "@ + executable,
            ] + error@,
            SudoRun::NoInput => sudo_result(executable, run)->Err_0 == seq![
                "failed to open sudo stdin"@,
            ],
            SudoRun::PasswordNotWritten(error) => sudo_result(executable, run)->Err_0 == seq![
                "failed to write password to sudo stdin"@,
            ] + error@,
            SudoRun::NewlineNotWritten(error) => sudo_result(executable, run)->Err_0 == seq![
                "failed to terminate sudo password input"@,
            ] + error@,
            SudoRun::NotFlushed(error) => sudo_result(executable, run)->Err_0 == seq![
                "failed to flush sudo password input"@,
            ] + error@,
            SudoRun::NotAwaited(error) => sudo_result(executable, run)->Err_0 == seq![
                "failed while waiting for sudo"@,
            ] + error@,
            SudoRun::Finished(output) => sudo_result(executable, run) == sudo_verdict(
                output.success,
                utf8_text(output.stderr@),
            ),
        },
{
}

/// There is a password exactly where the prompt succeeded and gave more than white space; a prompt that was
/// called off is told as such, and any other failure with what it complained of.
pub proof fn law_password_is_what_was_typed(success: bool, stdout: Seq<char>, stderr: Seq<char>)
    ensures
        password_answer(success, stdout, stderr) is Ok <==> success && trimmed(stdout).len() > 0,
        success && trimmed(stdout).len() > 0 ==> password_answer(success, stdout, stderr)->Ok_0
            == trimmed(stdout),
        success && trimmed(stdout).len() == 0 ==> password_answer(success, stdout, stderr)->Err_0
            == seq!["empty administrator password"@],
        !success ==> password_answer(success, stdout, stderr)->Err_0 == seq![
            if has_text(stderr, "-128"@) || has_text(stderr, "User canceled"@) || has_text(
                stderr,
                "取消"@,
            ) {
                "user canceled administrator password prompt"@
            } else {
                "password prompt failed: "@ + trimmed(stderr)
            },
        ],
{
}

} // verus!
