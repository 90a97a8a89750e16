//! The shortcuts of Windows that lead to the program, which a PowerShell script gives its icon.

use vstd::prelude::*;
use vstd::string::*;

use crate::command::{
    command, message_text, path_command, run_value, written_text, CommandLine, PathCommand,
    ProcessOutput,
};
use crate::failure::{outcome, Failure};
use crate::file_path::FilePath;
use crate::quoting::{powershell_escaped, powershell_literal};
use crate::text::{decimal, decimal_text, lemma_decimal_injective, texts};

verus! {

/// The script that gives every shortcut to `executable` the icon of the program.
pub open spec fn shortcut_script(executable: Seq<char>) -> Seq<char> {
    "\n$exe = '"@ + powershell_escaped(executable)
        + "'\n$roots = @(\n  [Environment]::GetFolderPath('Desktop'),\n  [Environment]::GetFolderPath('CommonDesktopDirectory'),\n  [Environment]::GetFolderPath('Programs'),\n  [Environment]::GetFolderPath('CommonPrograms')\n) | Where-Object { $_ -and (Test-Path $_) } | Select-Object -Unique\n$shell = New-Object -ComObject WScript.Shell\nforeach ($root in $roots) {\n  Get-ChildItem -Path $root -Filter '*.lnk' -Recurse -ErrorAction SilentlyContinue | ForEach-Object {\n    try {\n      $shortcut = $shell.CreateShortcut($_.FullName)\n      if ($shortcut.TargetPath -and $shortcut.TargetPath.ToLowerInvariant() -eq $exe.ToLowerInvariant()) {\n        $shortcut.IconLocation = \"$exe,0\"\n        $shortcut.Save()\n      }\n    } catch {}\n  }\n}\nif (Get-Command ie4uinit.exe -ErrorAction SilentlyContinue) {\n  Start-Process ie4uinit.exe -ArgumentList '-show' -WindowStyle Hidden -Wait -ErrorAction SilentlyContinue\n}\n"@
}

/// The script that gives every shortcut to `executable` the icon of the program.
pub fn update_windows_shortcuts_for_exe(executable: &str) -> (script: String)
    ensures
        script@ == shortcut_script(executable@),
{
    "\n$exe = '".to_string().concat(powershell_literal(executable).as_str()).concat(
        "'\n$roots = @(\n  [Environment]::GetFolderPath('Desktop'),\n  [Environment]::GetFolderPath('CommonDesktopDirectory'),\n  [Environment]::GetFolderPath('Programs'),\n  [Environment]::GetFolderPath('CommonPrograms')\n) | Where-Object { $_ -and (Test-Path $_) } | Select-Object -Unique\n$shell = New-Object -ComObject WScript.Shell\nforeach ($root in $roots) {\n  Get-ChildItem -Path $root -Filter '*.lnk' -Recurse -ErrorAction SilentlyContinue | ForEach-Object {\n    try {\n      $shortcut = $shell.CreateShortcut($_.FullName)\n      if ($shortcut.TargetPath -and $shortcut.TargetPath.ToLowerInvariant() -eq $exe.ToLowerInvariant()) {\n        $shortcut.IconLocation = \"$exe,0\"\n        $shortcut.Save()\n      }\n    } catch {}\n  }\n}\nif (Get-Command ie4uinit.exe -ErrorAction SilentlyContinue) {\n  Start-Process ie4uinit.exe -ArgumentList '-show' -WindowStyle Hidden -Wait -ErrorAction SilentlyContinue\n}\n",
    )
}

/// The name of the temporary file with the script of process `process_id`.
pub open spec fn script_name(process_id: u32) -> Seq<char> {
    "linuxdo-shortcut-refresh-"@ + decimal(process_id as nat) + ".ps1"@
}

/// The name of the temporary file with the script of process `process_id`.
pub fn script_file_name(process_id: u32) -> (name: String)
    ensures
        name@ == script_name(process_id),
{
    "linuxdo-shortcut-refresh-".to_string().concat(decimal_text(process_id as u64).as_str()).concat(
        ".ps1",
    )
}

/// The command that runs the script in the file `script_path`.
pub fn powershell_file_command<P>(script_path: FilePath<P>) -> (line: PathCommand<P>)
    ensures
        line@ == path_command(
            Some(
                command("powershell"@).with("-NoProfile"@).with("-NonInteractive"@).with(
                    "-ExecutionPolicy"@,
                ).with("Bypass"@).with("-File"@),
            ),
            script_path@,
            Seq::empty(),
        ),
{
    let args: Vec<String> = Vec::new();
    assert(texts(args@) =~= Seq::<Seq<char>>::empty());
    PathCommand {
        runner: Some(
            CommandLine::new("powershell").arg("-NoProfile").arg("-NonInteractive").arg(
                "-ExecutionPolicy",
            ).arg("Bypass").arg("-File"),
        ),
        path: script_path,
        args,
    }
}

/// What happened to a script.
#[derive(Debug)]
pub enum ScriptRun {
    /// It could not be written to its file.
    NotWritten(Failure),
    /// Running it came to this.
    Ran(Result<ProcessOutput, Failure>),
}

/// The result of running a script from the file `script_path`.
pub fn run_powershell_file(script_path: &str, run: ScriptRun) -> (result: Result<(), Failure>)
    ensures
        outcome(result) == (match run {
            ScriptRun::NotWritten(error) => Err(seq!["failed to write "@ + script_path@] + error@),
            ScriptRun::Ran(run) => match run_value(run) {
                Err(causes) => Err(seq!["failed to run powershell"@] + causes),
                Ok(output) => if output.success {
                    Ok(())
                } else {
                    Err(seq!["powershell failed: "@ + message_text(output.stderr)])
                },
            },
        }),
{
    match run {
        ScriptRun::NotWritten(error) => Err(
            error.context("failed to write ".to_string().concat(script_path)),
        ),
        ScriptRun::Ran(Err(error)) => Err(error.context("failed to run powershell".to_string())),
        ScriptRun::Ran(Ok(output)) => if output.success {
            Ok(())
        } else {
            Err(
                Failure::new(
                    "powershell failed: ".to_string().concat(
                        written_text(&output.stderr).as_str(),
                    ),
                ),
            )
        },
    }
}

/// Two processes never share a script file.
pub proof fn law_script_files_are_apart(a: u32, b: u32)
    requires
        a != b,
    ensures
        script_name(a) != script_name(b),
{
    if script_name(a) == script_name(b) {
        reveal_strlit("linuxdo-shortcut-refresh-");
        reveal_strlit(".ps1");
        let prefix = "linuxdo-shortcut-refresh-"@;
        let long = script_name(a).len();
        assert(script_name(a).subrange(prefix.len() as int, long - 4) =~= decimal(a as nat));
        assert(script_name(b).subrange(prefix.len() as int, long - 4) =~= decimal(b as nat));
        lemma_decimal_injective(a as nat, b as nat);
    }
}

/// The script names the program once, in a literal that PowerShell reads as its path, and is otherwise the
/// same for every program: it goes through the shortcuts on the desktops and in the menus, and gives those
/// that lead to the program its icon.
pub proof fn law_script_is_about_one_program(executable: Seq<char>)
    ensures
        shortcut_script(executable).len() == 9 + powershell_escaped(executable).len()
            + shortcut_steps().len(),
        shortcut_script(executable).take(9) == "\n$exe = '"@,
        shortcut_script(executable).subrange(9, 9int + powershell_escaped(executable).len())
            == powershell_escaped(executable),
        shortcut_script(executable).skip((9 + powershell_escaped(executable).len()) as int)
            == shortcut_steps(),
{
    reveal_strlit("\n$exe = '");
    let script = shortcut_script(executable);
    let n = powershell_escaped(executable).len();
    assert(script.take(9) =~= "\n$exe = '"@);
    assert(script.subrange(9, 9int + n) =~= powershell_escaped(executable));
    assert(script.skip((9 + n) as int) =~= shortcut_steps());
}

/// What the script does once it has the program.
pub open spec fn shortcut_steps() -> Seq<char> {
    "'\n$roots = @(\n  [Environment]::GetFolderPath('Desktop'),\n  [Environment]::GetFolderPath('CommonDesktopDirectory'),\n  [Environment]::GetFolderPath('Programs'),\n  [Environment]::GetFolderPath('CommonPrograms')\n) | Where-Object { $_ -and (Test-Path $_) } | Select-Object -Unique\n$shell = New-Object -ComObject WScript.Shell\nforeach ($root in $roots) {\n  Get-ChildItem -Path $root -Filter '*.lnk' -Recurse -ErrorAction SilentlyContinue | ForEach-Object {\n    try {\n      $shortcut = $shell.CreateShortcut($_.FullName)\n      if ($shortcut.TargetPath -and $shortcut.TargetPath.ToLowerInvariant() -eq $exe.ToLowerInvariant()) {\n        $shortcut.IconLocation = \"$exe,0\"\n        $shortcut.Save()\n      }\n    } catch {}\n  }\n}\nif (Get-Command ie4uinit.exe -ErrorAction SilentlyContinue) {\n  Start-Process ie4uinit.exe -ArgumentList '-show' -WindowStyle Hidden -Wait -ErrorAction SilentlyContinue\n}\n"@
}

/// The file with the script is told by the number of the process, and is one that PowerShell runs.
pub proof fn law_script_file_is_for_powershell(process_id: u32)
    ensures
        script_name(process_id) == "linuxdo-shortcut-refresh-"@ + decimal(process_id as nat)
            + ".ps1"@,
{
}

} // verus!
