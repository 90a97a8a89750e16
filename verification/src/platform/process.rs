//! Processes: starting them apart from the caller, ending them, and telling whether they run; and
//! the small errands that go with it.

use vstd::prelude::*;
use vstd::string::*;

use crate::command::{
    alternative, command, ignored, law_optional_plans_never_fail, message_text, no_steps,
    path_command, plan_result, required, run_value, runs, written_text, Action, ActionValue,
    CommandLine, CommandText, PathCommand, PathCommandValue, Plan, Policy, ProcessOutput, StepValue,
};
use crate::decode::{decode_utf16, decode_utf8, utf16_text, utf8_text};
use crate::failure::Failure;
use crate::file_path::FilePath;
use crate::platform::Platform;
use crate::text::{
    ascii_lower, contains, decimal, decimal_text, has_text, lemma_decimal_injective,
    same_ignoring_case, texts,
};

verus! {

// ---------------------------------------------------------------------------------------------
// Name resolution
// ---------------------------------------------------------------------------------------------

/// What is to be done to make the system forget the names that it has resolved.
pub open spec fn flush_plan<P>(platform: Platform) -> Seq<StepValue<P>> {
    match platform {
        Platform::Windows => no_steps().push(
            required(ActionValue::Run(command("ipconfig"@).with("/flushdns"@))),
        ),
        Platform::Macos => no_steps().push(
            ignored(ActionValue::Run(command("dscacheutil"@).with("-flushcache"@))),
        ).push(ignored(ActionValue::Run(command("killall"@).with("-HUP"@).with("mDNSResponder"@)))),
        Platform::Linux => no_steps().push(
            alternative(ActionValue::Run(command("resolvectl"@).with("flush-caches"@))),
        ).push(
            alternative(ActionValue::Run(command("systemd-resolve"@).with("--flush-caches"@))),
        ).push(
            alternative(ActionValue::Run(command("service"@).with("nscd"@).with("restart"@))),
        ).push(alternative(ActionValue::Run(command("rc-service"@).with("nscd"@).with("restart"@)))),
        _ => no_steps(),
    }
}

/// What is to be done to make the system forget the names that it has resolved.
pub fn flush_dns_cache<P>(platform: Platform) -> (plan: Plan<P>)
    ensures
        plan@ == flush_plan::<P>(platform),
        platform is Windows ==> plan@.len() == 1 && runs(
            plan@[0],
            Policy::Required,
            "ipconfig"@,
            seq!["/flushdns"@],
        ),
        platform is Macos ==> plan@.len() == 2 && runs(
            plan@[0],
            Policy::Ignored,
            "dscacheutil"@,
            seq!["-flushcache"@],
        ) && runs(plan@[1], Policy::Ignored, "killall"@, seq!["-HUP"@, "mDNSResponder"@]),
{
    proof {
        law_each_system_forgets_in_its_way::<P>(platform);
    }
    match platform {
        Platform::Windows => Plan::new().require(
            Action::Run(CommandLine::new("ipconfig").arg("/flushdns")),
        ),
        Platform::Macos => Plan::new().attempt(
            Action::Run(CommandLine::new("dscacheutil").arg("-flushcache")),
        ).attempt(Action::Run(CommandLine::new("killall").arg("-HUP").arg("mDNSResponder"))),
        Platform::Linux => Plan::new().alternative(
            Action::Run(CommandLine::new("resolvectl").arg("flush-caches")),
        ).alternative(
            Action::Run(CommandLine::new("systemd-resolve").arg("--flush-caches")),
        ).alternative(
            Action::Run(CommandLine::new("service").arg("nscd").arg("restart")),
        ).alternative(Action::Run(CommandLine::new("rc-service").arg("nscd").arg("restart"))),
        _ => Plan::new(),
    }
}

// ---------------------------------------------------------------------------------------------
// The console of a Windows program
// ---------------------------------------------------------------------------------------------

/// The standard streams that are to be pointed at the console.
#[derive(Debug, Clone, Copy, PartialEq, Eq, Structural)]
pub struct ConsoleStreams {
    pub input: bool,
    pub output: bool,
    pub error: bool,
}

/// Whether the program is to attach itself to the console that it was started from: only on
/// Windows, and only where it was given arguments beside its own name.
pub fn prepare_windows_cli_stdio<T>(platform: Platform, args: &Vec<T>) -> (attach: bool)
    ensures
        attach == (platform is Windows && args@.len() > 1),
{
    matches!(platform, Platform::Windows) && args.len() > 1
}

/// The streams to be pointed at the console, where it was `attached` and its devices could be
/// opened or not.
pub fn console_streams(attached: bool, input_opened: bool, output_opened: bool) -> (streams:
    ConsoleStreams)
    ensures
        streams == (ConsoleStreams {
            input: attached && input_opened,
            output: attached && output_opened,
            error: attached && output_opened,
        }),
{
    ConsoleStreams {
        input: attached && input_opened,
        output: attached && output_opened,
        error: attached && output_opened,
    }
}

// ---------------------------------------------------------------------------------------------
// Starting a process apart from the caller
// ---------------------------------------------------------------------------------------------

/// How a process is started apart from the caller.
#[derive(Debug)]
pub struct DetachedSpawn<P> {
    pub line: PathCommand<P>,
    /// The process leads a process group of its own.
    pub own_group: bool,
    /// The creation flags of Windows.
    pub creation_flags: u32,
}

/// How a process is started apart from the caller, as values.
pub struct DetachedSpawnValue<P> {
    pub line: PathCommandValue<P>,
    pub own_group: bool,
    pub creation_flags: u32,
}

impl<P> View for DetachedSpawn<P> {
    type V = DetachedSpawnValue<P>;

    open spec fn view(&self) -> DetachedSpawnValue<P> {
        DetachedSpawnValue {
            line: self.line@,
            own_group: self.own_group,
            creation_flags: self.creation_flags,
        }
    }
}

/// `CREATE_NO_WINDOW` and `CREATE_NEW_PROCESS_GROUP`.
pub const DETACHED_CREATION_FLAGS: u32 = 0x0800_0200;

/// How `executable` is started with `args`, apart from the caller: in a session of its own on
/// Linux, in a process group of its own elsewhere, and without a window on Windows.
pub fn spawn_detached<P>(platform: Platform, executable: FilePath<P>, args: Vec<String>) -> (spawn:
    DetachedSpawn<P>)
    ensures
        spawn@ == (DetachedSpawnValue {
            line: path_command(
                if platform is Linux {
                    Some(command("setsid"@))
                } else {
                    None
                },
                executable@,
                texts(args@),
            ),
            own_group: !(platform is Linux) && !(platform is Windows),
            creation_flags: if platform is Windows {
                DETACHED_CREATION_FLAGS
            } else {
                0
            },
        }),
        platform is Windows ==> spawn@.creation_flags == 0x0800_0000u32 + 0x0000_0200u32,
{
    match platform {
        Platform::Linux => DetachedSpawn {
            line: PathCommand { runner: Some(CommandLine::new("setsid")), path: executable, args },
            own_group: false,
            creation_flags: 0,
        },
        Platform::Windows => DetachedSpawn {
            line: PathCommand { runner: None, path: executable, args },
            own_group: false,
            creation_flags: DETACHED_CREATION_FLAGS,
        },
        _ => DetachedSpawn {
            line: PathCommand { runner: None, path: executable, args },
            own_group: true,
            creation_flags: 0,
        },
    }
}

/// A process id, or why there is none.
pub open spec fn pid_outcome(result: Result<u32, Failure>) -> Result<u32, Seq<Seq<char>>> {
    match result {
        Ok(pid) => Ok(pid),
        Err(failure) => Err(failure@),
    }
}

/// The result of a search for a process.
pub open spec fn search_outcome(result: Result<Option<u32>, Failure>) -> Result<
    Option<u32>,
    Seq<Seq<char>>,
> {
    match result {
        Ok(pid) => Ok(pid),
        Err(failure) => Err(failure@),
    }
}

/// The process id that starting `executable` came to.
pub fn spawned_pid(executable: &str, spawned: Result<u32, Failure>) -> (pid: Result<u32, Failure>)
    ensures
        pid_outcome(pid) == (match pid_outcome(spawned) {
            Ok(pid) => Ok(pid),
            Err(causes) => Err(seq!["failed to spawn detached "@ + executable@] + causes),
        }),
{
    match spawned {
        Ok(pid) => Ok(pid),
        Err(error) => Err(
            error.context("failed to spawn detached ".to_string().concat(executable)),
        ),
    }
}

/// The process that does the work on Windows, where `initial_pid` was started: the child that the
/// search found, and else the process itself. There is no search where the path of the
/// executable does not end in a name that is text.
pub fn resolved_pid(
    executable: &str,
    initial_pid: u32,
    search: Option<Result<Option<u32>, Failure>>,
) -> (pid: Result<u32, Failure>)
    ensures
        pid_outcome(pid) == (match search {
            None => Err(seq!["invalid executable name "@ + executable@]),
            Some(found) => match search_outcome(found) {
                Ok(Some(child)) => Ok(child),
                Ok(None) => Ok(initial_pid),
                Err(causes) => Err(causes),
            },
        }),
{
    match search {
        None => Err(Failure::new("invalid executable name ".to_string().concat(executable))),
        Some(Ok(Some(child))) => Ok(child),
        Some(Ok(None)) => Ok(initial_pid),
        Some(Err(error)) => Err(error),
    }
}

/// What happened in the search for the child of a process.
#[derive(Debug)]
pub enum SearchEvent {
    /// So many milliseconds have passed since the search began.
    Elapsed(u64),
    /// A look at the process list came to this.
    Looked(Result<Option<u32>, Failure>),
}

/// What the search for the child of a process does next.
#[derive(Debug)]
pub enum SearchAction {
    /// Look at the process list.
    Look,
    /// Wait for so many milliseconds, and then see how much time has passed.
    Sleep(u64),
    /// The search is over.
    Done(Result<Option<u32>, Failure>),
}

/// What the search for the child of a process does next, as values.
pub enum SearchActionValue {
    Look,
    Sleep(u64),
    Done(Result<Option<u32>, Seq<Seq<char>>>),
}

impl View for SearchAction {
    type V = SearchActionValue;

    open spec fn view(&self) -> SearchActionValue {
        match self {
            SearchAction::Look => SearchActionValue::Look,
            SearchAction::Sleep(millis) => SearchActionValue::Sleep(*millis),
            SearchAction::Done(result) => SearchActionValue::Done(search_outcome(*result)),
        }
    }
}

/// The search looks at the process list ten times a second, for three seconds at most, and ends
/// with the first child that it sees or the first failure.
pub open spec fn search_step(event: SearchEvent) -> SearchActionValue {
    match event {
        SearchEvent::Elapsed(millis) => if millis < 3000 {
            SearchActionValue::Look
        } else {
            SearchActionValue::Done(Ok(None))
        },
        SearchEvent::Looked(result) => match search_outcome(result) {
            Ok(None) => SearchActionValue::Sleep(100),
            found => SearchActionValue::Done(found),
        },
    }
}

/// The next thing to do in the search for the child of a process.
pub fn find_spawned_windows_child(event: SearchEvent) -> (action: SearchAction)
    ensures
        action@ == search_step(event),
{
    match event {
        SearchEvent::Elapsed(millis) => if millis < 3000 {
            SearchAction::Look
        } else {
            SearchAction::Done(Ok(None))
        },
        SearchEvent::Looked(Ok(None)) => SearchAction::Sleep(100),
        SearchEvent::Looked(result) => SearchAction::Done(result),
    }
}

/// An entry of the process list of Windows.
#[derive(Debug)]
pub struct ProcessEntry {
    pub pid: u32,
    pub parent_pid: u32,
    /// The file name of the program, in UTF-16 and ended by a zero.
    pub exe_file: Vec<u16>,
}

/// The process list of Windows, and the error that ended it.
#[derive(Debug)]
pub struct ProcessListing {
    pub entries: Vec<ProcessEntry>,
    pub last_error: u32,
    /// What the system says of the error.
    pub error: Failure,
}

/// The units before the first zero.
pub open spec fn units_before_zero(units: Seq<u16>) -> Seq<u16>
    decreases units.len(),
{
    if units.len() == 0 || units[0] == 0 {
        Seq::empty()
    } else {
        seq![units[0]] + units_before_zero(units.drop_first())
    }
}

/// The file name of the program that an entry of the process list names.
pub fn windows_process_name(units: &Vec<u16>) -> (name: String)
    ensures
        name@ == utf16_text(units_before_zero(units@)),
{
    let mut name: Vec<u16> = Vec::new();
    let mut i: usize = 0;
    assert(units@.skip(0) =~= units@);
    assert(name@ + units_before_zero(units@) =~= units_before_zero(units@));
    while i < units.len() && units[i] != 0
        invariant
            i <= units@.len(),
            name@ + units_before_zero(units@.skip(i as int)) == units_before_zero(units@),
        decreases units@.len() - i,
    {
        proof {
            let rest = units@.skip(i as int);
            assert(rest.drop_first() =~= units@.skip(i + 1));
            assert(name@.push(rest[0]) + units_before_zero(rest.drop_first()) =~= name@ + (
            seq![rest[0]] + units_before_zero(rest.drop_first())));
        }
        name.push(units[i]);
        i = i + 1;
    }
    assert(units_before_zero(units@.skip(i as int)) =~= Seq::<u16>::empty());
    assert(name@ =~= units_before_zero(units@));
    decode_utf16(name.as_slice())
}

/// The entry is that of a child of `parent_pid` that runs `executable_name`; the case of letters
/// in the name does not matter.
pub open spec fn is_child_entry(
    entry: ProcessEntry,
    parent_pid: u32,
    executable_name: Seq<char>,
) -> bool {
    &&& entry.parent_pid == parent_pid
    &&& ascii_lower(utf16_text(units_before_zero(entry.exe_file@))) == ascii_lower(executable_name)
}

/// The process id of the first child in the list.
pub open spec fn first_child(
    entries: Seq<ProcessEntry>,
    parent_pid: u32,
    executable_name: Seq<char>,
) -> Option<u32>
    decreases entries.len(),
{
    if entries.len() == 0 {
        None
    } else if is_child_entry(entries[0], parent_pid, executable_name) {
        Some(entries[0].pid)
    } else {
        first_child(entries.drop_first(), parent_pid, executable_name)
    }
}

/// The process id of the first child in the list.
fn find_child(entries: &Vec<ProcessEntry>, parent_pid: u32, executable_name: &str) -> (child:
    Option<u32>)
    ensures
        child == first_child(entries@, parent_pid, executable_name@),
{
    assert(entries@.skip(0) =~= entries@);
    for i in 0..entries.len()
        invariant
            first_child(entries@, parent_pid, executable_name@) == first_child(
                entries@.skip(i as int),
                parent_pid,
                executable_name@,
            ),
    {
        assert(entries@.skip(i as int).drop_first() =~= entries@.skip(i + 1));
        let entry = &entries[i];
        if entry.parent_pid == parent_pid && same_ignoring_case(
            windows_process_name(&entry.exe_file).as_str(),
            executable_name,
        ) {
            return Some(entry.pid);
        }
    }
    None
}

/// The list ended otherwise than with its last entry; 18 is `ERROR_NO_MORE_FILES`.
pub open spec fn listing_broke_off(last_error: u32) -> bool {
    last_error != 0 && last_error != 18
}

/// The child of `parent_pid` that runs `executable_name`, by the process list. Where the list
/// broke off before the child was seen, that is a failure.
pub fn snapshot_windows_child_pid(
    listing: Result<ProcessListing, Failure>,
    parent_pid: u32,
    executable_name: &str,
) -> (child: Result<Option<u32>, Failure>)
    ensures
        search_outcome(child) == (match listing {
            Err(error) => Err(seq!["failed to snapshot Windows process list"@] + error@),
            Ok(listing) => match first_child(listing.entries@, parent_pid, executable_name@) {
                Some(pid) => Ok(Some(pid)),
                None => if listing_broke_off(listing.last_error) {
                    Err(seq!["failed to iterate Windows process list"@] + listing.error@)
                } else {
                    Ok(None)
                },
            },
        }),
        match listing {
            Ok(listing) => search_outcome(child) == Ok::<Option<u32>, Seq<Seq<char>>>(None) ==> (
            listing.last_error == 0 || listing.last_error == 18),
            Err(_) => true,
        },
        child is Err && listing is Ok ==> listing->Ok_0.last_error != 0
            && listing->Ok_0.last_error != 18,
{
    match listing {
        Err(error) => Err(error.context("failed to snapshot Windows process list".to_string())),
        Ok(listing) => match find_child(&listing.entries, parent_pid, executable_name) {
            Some(pid) => Ok(Some(pid)),
            None => if listing.last_error != 0 && listing.last_error != 18 {
                Err(listing.error.context("failed to iterate Windows process list".to_string()))
            } else {
                Ok(None)
            },
        },
    }
}

// ---------------------------------------------------------------------------------------------
// Ending a process
// ---------------------------------------------------------------------------------------------

/// The command that ends process `pid`, on Unix with the given signal.
pub open spec fn terminate_text(platform: Platform, pid: u32, signal: Seq<char>) -> CommandText {
    if platform is Windows {
        command("taskkill"@).with("/PID"@).with(decimal(pid as nat)).with("/T"@).with("/F"@)
    } else {
        command("kill"@).with(signal).with(decimal(pid as nat))
    }
}

/// The command that asks process `pid` to end; Windows ends it at once, with all its children.
pub fn terminate_process(platform: Platform, pid: u32) -> (line: CommandLine)
    ensures
        line@ == terminate_text(platform, pid, "-TERM"@),
{
    let number = decimal_text(pid as u64);
    if matches!(platform, Platform::Windows) {
        CommandLine::new("taskkill").arg("/PID").arg(number.as_str()).arg("/T").arg("/F")
    } else {
        CommandLine::new("kill").arg("-TERM").arg(number.as_str())
    }
}

/// The command that ends process `pid` without asking it.
pub fn terminate_process_force(platform: Platform, pid: u32) -> (line: CommandLine)
    ensures
        line@ == terminate_text(platform, pid, "-KILL"@),
{
    let number = decimal_text(pid as u64);
    if matches!(platform, Platform::Windows) {
        CommandLine::new("taskkill").arg("/PID").arg(number.as_str()).arg("/T").arg("/F")
    } else {
        CommandLine::new("kill").arg("-KILL").arg(number.as_str())
    }
}

// ---------------------------------------------------------------------------------------------
// Telling whether a process runs
// ---------------------------------------------------------------------------------------------

/// The command that finds out whether a signal could be sent to process `pid`.
pub fn kill_probe(pid: u32) -> (line: CommandLine)
    ensures
        line@ == command("kill"@).with("-0"@).with(decimal(pid as nat)),
{
    CommandLine::new("kill").arg("-0").arg(decimal_text(pid as u64).as_str())
}

/// The command that lists process `pid`.
pub open spec fn ps_probe_text(pid: u32) -> CommandText {
    command("ps"@).with("-p"@).with(decimal(pid as nat)).with("-o"@).with("pid="@)
}

/// What is known of a process, or how to learn it.
#[derive(Debug)]
pub enum Liveness {
    Known(bool),
    /// The process runs if and only if this command lists it.
    Ask(CommandLine),
}

/// What is known of a process, or how to learn it, as values.
pub enum LivenessValue {
    Known(bool),
    Ask(CommandText),
}

impl View for Liveness {
    type V = LivenessValue;

    open spec fn view(&self) -> LivenessValue {
        match self {
            Liveness::Known(running) => LivenessValue::Known(*running),
            Liveness::Ask(line) => LivenessValue::Ask(line@),
        }
    }
}

/// What the probe of process `pid` says where it ended with `success` and wrote `stderr`: a
/// process that may not be signalled runs all the same.
pub open spec fn kill_verdict(pid: u32, success: bool, stderr: Seq<char>) -> LivenessValue {
    if success || has_text(stderr, "Operation not permitted"@) {
        LivenessValue::Known(true)
    } else {
        LivenessValue::Ask(ps_probe_text(pid))
    }
}

/// Judges the probe of process `pid` by what it wrote.
pub fn judge_kill_probe(pid: u32, success: bool, stderr: &str) -> (liveness: Liveness)
    ensures
        liveness@ == kill_verdict(pid, success, stderr@),
{
    if success || contains(stderr, "Operation not permitted") {
        return Liveness::Known(true);
    }
    Liveness::Ask(
        CommandLine::new("ps").arg("-p").arg(decimal_text(pid as u64).as_str()).arg("-o").arg(
            "pid=",
        ),
    )
}

/// What is known of process `pid` where its probe came to `run`.
pub fn is_process_running(pid: u32, run: Result<ProcessOutput, Failure>) -> (liveness: Liveness)
    ensures
        liveness@ == (match run_value(run) {
            Ok(output) => kill_verdict(pid, output.success, utf8_text(output.stderr)),
            Err(_) => LivenessValue::Known(false),
        }),
{
    match run {
        Ok(output) => judge_kill_probe(
            pid,
            output.success,
            decode_utf8(output.stderr.as_slice()).as_str(),
        ),
        Err(_) => Liveness::Known(false),
    }
}

/// Whether the listing of a process shows it, where the listing came to `run`.
pub fn is_process_listed(run: Result<ProcessOutput, Failure>) -> (listed: bool)
    ensures
        listed == (match run_value(run) {
            Ok(output) => output.success && message_text(output.stdout).len() > 0,
            Err(_) => false,
        }),
{
    match run {
        Ok(output) => output.success && !written_text(&output.stdout).as_str().is_empty(),
        Err(_) => false,
    }
}

/// Whether a process of Windows runs: it could be opened, and its exit code could be read and is
/// `STILL_ACTIVE`.
pub fn is_windows_process_running(opened: bool, exit_code: Option<u32>) -> (running: bool)
    ensures
        running == (opened && exit_code == Some(259u32)),
{
    opened && exit_code == Some(259u32)
}

// ---------------------------------------------------------------------------------------------
// Laws
// ---------------------------------------------------------------------------------------------

/// Forgetting the resolved names is a courtesy: it can fail on Windows alone, whatever the
/// commands come to elsewhere.
pub proof fn law_flush_fails_on_windows_alone<P>(
    platform: Platform,
    results: spec_fn(ActionValue<P>) -> Result<(), Seq<Seq<char>>>,
)
    requires
        !(platform is Windows),
    ensures
        plan_result(flush_plan(platform), results) is Ok,
{
    law_optional_plans_never_fail(flush_plan(platform), results);
}

/// A command to end a process ends that process and no other, whatever the signal, and on Windows
/// asking and forcing come to the same.
pub proof fn law_termination_is_aimed(platform: Platform, a: u32, b: u32, signal: Seq<char>)
    ensures
        a != b ==> terminate_text(platform, a, signal) != terminate_text(platform, b, signal),
        platform is Windows ==> terminate_text(platform, a, "-TERM"@) == terminate_text(
            platform,
            a,
            "-KILL"@,
        ),
{
    if a != b && terminate_text(platform, a, signal) == terminate_text(platform, b, signal) {
        assert(terminate_text(platform, a, signal).args[1] == decimal(a as nat));
        assert(terminate_text(platform, b, signal).args[1] == decimal(b as nat));
        lemma_decimal_injective(a as nat, b as nat);
    }
}

/// A process that the search settles on is one of the listed children with the wanted name.
pub proof fn law_found_child_is_listed(
    entries: Seq<ProcessEntry>,
    parent_pid: u32,
    executable_name: Seq<char>,
)
    ensures
        match first_child(entries, parent_pid, executable_name) {
            Some(pid) => exists|i: int|
                0 <= i < entries.len() && #[trigger] entries[i].pid == pid && is_child_entry(
                    entries[i],
                    parent_pid,
                    executable_name,
                ),
            None => forall|i: int|
                0 <= i < entries.len() ==> !is_child_entry(
                    #[trigger] entries[i],
                    parent_pid,
                    executable_name,
                ),
        },
    decreases entries.len(),
{
    if entries.len() > 0 {
        let rest = entries.drop_first();
        law_found_child_is_listed(rest, parent_pid, executable_name);
        if is_child_entry(entries[0], parent_pid, executable_name) {
            assert(entries[0].pid == first_child(entries, parent_pid, executable_name)->0);
        } else if first_child(rest, parent_pid, executable_name) is Some {
            let pid = first_child(rest, parent_pid, executable_name)->0;
            let i = choose|i: int|
                0 <= i < rest.len() && #[trigger] rest[i].pid == pid && is_child_entry(
                    rest[i],
                    parent_pid,
                    executable_name,
                );
            assert(entries[i + 1].pid == pid);
        } else {
            assert forall|i: int| 0 <= i < entries.len() implies !is_child_entry(
                #[trigger] entries[i],
                parent_pid,
                executable_name,
            ) by {
                if i > 0 {
                    assert(rest[i - 1] == entries[i]);
                }
            }
        }
    }
}

/// Each system is made to forget the names that it has resolved in its own way: Windows by one command
/// that has to succeed, macOS by two that need not, and Linux by the first of four that succeeds. Other
/// systems are left alone.
pub proof fn law_each_system_forgets_in_its_way<P>(platform: Platform)
    ensures
        ({
            let steps = flush_plan::<P>(platform);
            match platform {
                Platform::Windows => {
                    &&& steps.len() == 1
                    &&& runs(steps[0], Policy::Required, "ipconfig"@, seq!["/flushdns"@])
                },
                Platform::Macos => {
                    &&& steps.len() == 2
                    &&& runs(steps[0], Policy::Ignored, "dscacheutil"@, seq!["-flushcache"@])
                    &&& runs(steps[1], Policy::Ignored, "killall"@, seq!["-HUP"@, "mDNSResponder"@])
                },
                Platform::Linux => {
                    &&& steps.len() == 4
                    &&& runs(steps[0], Policy::Alternative, "resolvectl"@, seq!["flush-caches"@])
                    &&& runs(
                        steps[1],
                        Policy::Alternative,
                        "systemd-resolve"@,
                        seq!["--flush-caches"@],
                    )
                    &&& runs(steps[2], Policy::Alternative, "service"@, seq!["nscd"@, "restart"@])
                    &&& runs(steps[3], Policy::Alternative, "rc-service"@, seq!["nscd"@, "restart"@])
                },
                _ => steps.len() == 0,
            }
        }),
{
    assert(command("ipconfig"@).with("/flushdns"@).args =~= seq!["/flushdns"@]);
    assert(command("dscacheutil"@).with("-flushcache"@).args =~= seq!["-flushcache"@]);
    assert(command("killall"@).with("-HUP"@).with("mDNSResponder"@).args =~= seq![
        "-HUP"@,
        "mDNSResponder"@,
    ]);
    assert(command("resolvectl"@).with("flush-caches"@).args =~= seq!["flush-caches"@]);
    assert(command("systemd-resolve"@).with("--flush-caches"@).args =~= seq!["--flush-caches"@]);
    assert(command("service"@).with("nscd"@).with("restart"@).args =~= seq!["nscd"@, "restart"@]);
    assert(command("rc-service"@).with("nscd"@).with("restart"@).args =~= seq!["nscd"@, "restart"@]);
}

/// The search for a child goes on for three seconds, with a tenth of a second between two looks, and ends
/// at once with a child or a failure.
pub proof fn law_search_keeps_its_times(millis: u64, result: Result<Option<u32>, Failure>)
    ensures
        millis < 3000 ==> search_step(SearchEvent::Elapsed(millis)) is Look,
        millis >= 3000 ==> search_step(SearchEvent::Elapsed(millis)) == SearchActionValue::Done(
            Ok(None),
        ),
        match result {
            Ok(Some(pid)) => search_step(SearchEvent::Looked(result)) == SearchActionValue::Done(
                Ok(Some(pid)),
            ),
            Ok(None) => search_step(SearchEvent::Looked(result)) == SearchActionValue::Sleep(100),
            Err(failure) => search_step(SearchEvent::Looked(result)) == SearchActionValue::Done(
                Err(failure@),
            ),
        },
{
}

/// The name in an entry of the process list is all that stands before the first zero.
pub proof fn law_name_ends_at_the_first_zero(units: Seq<u16>)
    ensures
        ({
            let n = units_before_zero(units).len() as int;
            &&& n <= units.len()
            &&& units_before_zero(units) == units.take(n)
            &&& forall|i: int| 0 <= i < n ==> #[trigger] units[i] != 0
            &&& n < units.len() ==> units[n] == 0
        }),
    decreases units.len(),
{
    if units.len() > 0 && units[0] != 0 {
        let rest = units.drop_first();
        law_name_ends_at_the_first_zero(rest);
        let n = units_before_zero(units).len() as int;
        assert(n == units_before_zero(rest).len() + 1);
        assert(units_before_zero(units) =~= units.take(n));
        assert forall|i: int| 0 <= i < n implies #[trigger] units[i] != 0 by {
            if i > 0 {
                assert(rest[i - 1] == units[i]);
            }
        }
        if n < units.len() {
            assert(units[n] == rest[n - 1]);
        }
    } else {
        assert(units_before_zero(units) =~= units.take(0));
    }
}

/// The search settles on the first entry of the list that has the parent and, whatever the case of its
/// letters, the name.
pub proof fn law_first_child_is_taken(
    entries: Seq<ProcessEntry>,
    parent_pid: u32,
    executable_name: Seq<char>,
    i: int,
)
    requires
        0 <= i < entries.len(),
        entries[i].parent_pid == parent_pid,
        ascii_lower(utf16_text(units_before_zero(entries[i].exe_file@))) == ascii_lower(
            executable_name,
        ),
        forall|j: int|
            0 <= j < i ==> (#[trigger] entries[j]).parent_pid != parent_pid || ascii_lower(
                utf16_text(units_before_zero(entries[j].exe_file@)),
            ) != ascii_lower(executable_name),
    ensures
        first_child(entries, parent_pid, executable_name) == Some(entries[i].pid),
    decreases entries.len(),
{
    if i > 0 {
        assert(entries[0].parent_pid != parent_pid || ascii_lower(
            utf16_text(units_before_zero(entries[0].exe_file@)),
        ) != ascii_lower(executable_name));
        let rest = entries.drop_first();
        assert forall|j: int| 0 <= j < i - 1 implies (#[trigger] rest[j]).parent_pid != parent_pid
            || ascii_lower(utf16_text(units_before_zero(rest[j].exe_file@))) != ascii_lower(
            executable_name,
        ) by {
            assert(rest[j] == entries[j + 1]);
        }
        law_first_child_is_taken(rest, parent_pid, executable_name, i - 1);
    }
}

/// An entry with another parent, or with a name that differs in more than the case of its letters, is
/// passed over.
pub proof fn law_others_are_passed_over(
    entry: ProcessEntry,
    rest: Seq<ProcessEntry>,
    parent_pid: u32,
    executable_name: Seq<char>,
)
    requires
        entry.parent_pid != parent_pid || ascii_lower(
            utf16_text(units_before_zero(entry.exe_file@)),
        ) != ascii_lower(executable_name),
    ensures
        first_child(Seq::empty(), parent_pid, executable_name) is None,
        first_child(seq![entry] + rest, parent_pid, executable_name) == first_child(
            rest,
            parent_pid,
            executable_name,
        ),
{
    assert((seq![entry] + rest).drop_first() =~= rest);
}

/// A process is ended by the command of the system, with its number, and on Windows with all its children.
pub proof fn law_processes_are_ended_by_number(platform: Platform, pid: u32, signal: Seq<char>)
    ensures
        ({
            let line = terminate_text(platform, pid, signal);
            if platform is Windows {
                &&& line.program == "taskkill"@
                &&& line.args == seq!["/PID"@, decimal(pid as nat), "/T"@, "/F"@]
            } else {
                &&& line.program == "kill"@
                &&& line.args == seq![signal, decimal(pid as nat)]
            }
        }),
{
    let line = terminate_text(platform, pid, signal);
    if platform is Windows {
        assert(line.args =~= seq!["/PID"@, decimal(pid as nat), "/T"@, "/F"@]);
    } else {
        assert(line.args =~= seq![signal, decimal(pid as nat)]);
    }
}

/// A process that could be signalled, or that may not be, runs; of any other the process list is asked,
/// and never is it taken to be gone on the word of the probe.
pub proof fn law_probe_never_denies(pid: u32, success: bool, stderr: Seq<char>)
    ensures
        success ==> kill_verdict(pid, success, stderr) == LivenessValue::Known(true),
        has_text(stderr, "Operation not permitted"@) ==> kill_verdict(pid, success, stderr)
            == LivenessValue::Known(true),
        !success && !has_text(stderr, "Operation not permitted"@) ==> {
            &&& kill_verdict(pid, success, stderr) is Ask
            &&& kill_verdict(pid, success, stderr)->Ask_0.program == "ps"@
            &&& kill_verdict(pid, success, stderr)->Ask_0.args == seq![
                "-p"@,
                decimal(pid as nat),
                "-o"@,
                "pid="@,
            ]
        },
{
    assert(ps_probe_text(pid).args =~= seq!["-p"@, decimal(pid as nat), "-o"@, "pid="@]);
}

} // verus!
