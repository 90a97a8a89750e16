//! The state that the service leaves on disk for the other processes of the program to read: the
//! service state, the process id, and the lease of the user interface.

use vstd::prelude::*;
use vstd::string::*;

use crate::command::{
    does, ignored, law_optional_plans_never_fail, no_steps, plan_result, required, Action,
    ActionValue, Plan, StepValue,
};
use crate::failure::{outcome, text_outcome, Failure};
use crate::file_path::{FilePath, FilePathValue};
use crate::text::{
    decimal, decimal_text, lemma_decimal, lemma_decimal_injective, lemma_decimal_round_trip,
    opt_str, opt_text, parse_u32, parsed_u32, same_text, trim, trimmed,
};

verus! {

/// What the service says of itself.
#[derive(Debug, Clone)]
pub struct ServiceState {
    pub running: bool,
    pub pid: Option<u32>,
    pub status_text: String,
    pub last_error: Option<String>,
    pub updated_at: u64,
}

/// What the service says of itself, as values.
pub struct ServiceStateValue {
    pub running: bool,
    pub pid: Option<u32>,
    pub status_text: Seq<char>,
    pub last_error: Option<Seq<char>>,
    pub updated_at: u64,
}

impl View for ServiceState {
    type V = ServiceStateValue;

    open spec fn view(&self) -> ServiceStateValue {
        ServiceStateValue {
            running: self.running,
            pid: self.pid,
            status_text: self.status_text@,
            last_error: opt_text(self.last_error),
            updated_at: self.updated_at,
        }
    }
}

impl ServiceStateValue {
    /// A service is running if and only if its process is known, and then there is no error.
    pub open spec fn consistent(self) -> bool {
        &&& self.running <==> self.pid is Some
        &&& self.running ==> self.last_error is None
    }
}

/// The user interface that keeps the service alive.
#[derive(Debug, Clone, Copy, PartialEq, Eq)]
pub struct UiLeaseState {
    pub owner_pid: u32,
    pub updated_at: u64,
    pub window_handle: Option<isize>,
}

/// The text for a service that runs as process `pid`.
pub open spec fn running_text(pid: u32) -> Seq<char> {
    "加速中，PID "@ + decimal(pid as nat)
}

/// The state of a service that was never started.
pub open spec fn idle_state(now: u64) -> ServiceStateValue {
    ServiceStateValue {
        running: false,
        pid: None,
        status_text: "未启动"@,
        last_error: None,
        updated_at: now,
    }
}

/// The state of a service that runs as process `pid`.
pub open spec fn running_state(pid: u32, now: u64) -> ServiceStateValue {
    ServiceStateValue {
        running: true,
        pid: Some(pid),
        status_text: running_text(pid),
        last_error: None,
        updated_at: now,
    }
}

/// The state of a service that stopped with `message`.
pub open spec fn stopped_state(message: Seq<char>, now: u64) -> ServiceStateValue {
    ServiceStateValue {
        running: false,
        pid: None,
        status_text: message,
        last_error: None,
        updated_at: now,
    }
}

/// The state of a service that could not be started because of `message`.
pub open spec fn failed_state(message: Seq<char>, now: u64) -> ServiceStateValue {
    ServiceStateValue {
        running: false,
        pid: None,
        status_text: "启动失败"@,
        last_error: Some(message),
        updated_at: now,
    }
}

/// The process on record, where it is alive.
pub open spec fn live_process(recorded: Option<u32>, alive: bool) -> Option<u32> {
    if alive {
        recorded
    } else {
        None
    }
}

/// The state says something else than that the service runs as process `pid`.
pub open spec fn contradicts_live(state: ServiceStateValue, pid: u32) -> bool {
    ||| !state.running
    ||| state.pid != Some(pid)
    ||| state.last_error is Some
    ||| state.status_text != running_text(pid)
}

/// The state says that a process runs.
pub open spec fn claims_process(state: ServiceStateValue) -> bool {
    state.running || state.pid is Some
}

/// The state as it should be where the live process is `live`. A state that is right is kept; one
/// that claims a process where there is none becomes that of a stopped service, which keeps its
/// error and, with it, its text.
pub open spec fn refreshed(state: ServiceStateValue, live: Option<u32>, now: u64) -> ServiceStateValue {
    match live {
        Some(pid) => if contradicts_live(state, pid) {
            running_state(pid, now)
        } else {
            state
        },
        None => if claims_process(state) {
            ServiceStateValue {
                running: false,
                pid: None,
                status_text: if state.last_error is Some {
                    state.status_text
                } else {
                    "已停止"@
                },
                last_error: state.last_error,
                updated_at: now,
            }
        } else {
            state
        },
    }
}

/// The state differs from what the live process says.
pub open spec fn is_stale(state: ServiceStateValue, live: Option<u32>) -> bool {
    match live {
        Some(pid) => contradicts_live(state, pid),
        None => claims_process(state),
    }
}

/// The number of seconds since the epoch; 0 where the clock stands before it.
pub fn now_ts(since_epoch: Option<u64>) -> (seconds: u64)
    ensures
        seconds == (match since_epoch {
            Some(elapsed) => elapsed,
            None => 0,
        }),
{
    match since_epoch {
        Some(elapsed) => elapsed,
        None => 0,
    }
}

impl ServiceState {
    /// The state of a service that was never started.
    pub fn default_at(now: u64) -> (state: ServiceState)
        ensures
            state@ == idle_state(now),
    {
        ServiceState {
            running: false,
            pid: None,
            status_text: "未启动".to_string(),
            last_error: None,
            updated_at: now,
        }
    }
}

/// What was found in a file that holds a value.
#[derive(Debug)]
pub enum Stored<T> {
    /// There is no such file.
    Missing,
    /// The file could not be read.
    Unreadable(Failure),
    /// The file does not hold such a value.
    Unparsable(Failure),
    /// The value in the file.
    Found(T),
}

/// The failure to get a value out of the file `path`; none where there is a value or no file.
pub open spec fn storage_error<T>(path: Seq<char>, stored: Stored<T>) -> Option<Seq<Seq<char>>> {
    match stored {
        Stored::Unreadable(error) => Some(seq!["failed to read "@ + path] + error@),
        Stored::Unparsable(error) => Some(seq!["failed to parse "@ + path] + error@),
        _ => None,
    }
}

/// The value in the file `path`; none where there is no file.
fn stored_value<T>(path: &str, stored: Stored<T>) -> (value: Result<Option<T>, Failure>)
    ensures
        match value {
            Ok(Some(value)) => stored == Stored::Found(value),
            Ok(None) => stored is Missing,
            Err(failure) => storage_error(path@, stored) == Some(failure@),
        },
{
    match stored {
        Stored::Missing => Ok(None),
        Stored::Unreadable(error) => Err(
            error.context("failed to read ".to_string().concat(path)),
        ),
        Stored::Unparsable(error) => Err(
            error.context("failed to parse ".to_string().concat(path)),
        ),
        Stored::Found(value) => Ok(Some(value)),
    }
}

/// The state of the service, or why it is not known.
pub open spec fn state_outcome(result: Result<ServiceState, Failure>) -> Result<
    ServiceStateValue,
    Seq<Seq<char>>,
> {
    match result {
        Ok(state) => Ok(state@),
        Err(failure) => Err(failure@),
    }
}

/// The state in the file `path`, and that of a service that was never started where there is no
/// file.
pub fn read(path: &str, stored: Stored<ServiceState>, now: u64) -> (state: Result<
    ServiceState,
    Failure,
>)
    ensures
        state_outcome(state) == (match stored {
            Stored::Found(state) => Ok(state@),
            Stored::Missing => Ok(idle_state(now)),
            _ => Err(storage_error(path@, stored)->0),
        }),
{
    match stored_value(path, stored) {
        Err(failure) => Err(failure),
        Ok(found) => Ok(state_or_default(found, now)),
    }
}

/// The state, and that of a service that was never started where there is none.
pub fn state_or_default(state: Option<ServiceState>, now: u64) -> (known: ServiceState)
    ensures
        known@ == (match state {
            Some(state) => state@,
            None => idle_state(now),
        }),
{
    match state {
        Some(state) => state,
        None => ServiceState::default_at(now),
    }
}

/// The text for a service that runs as process `pid`.
fn running_status(pid: u32) -> (text: String)
    ensures
        text@ == running_text(pid),
{
    "加速中，PID ".to_string().concat(decimal_text(pid as u64).as_str())
}

/// A state after a look at the processes, and what is to be done on disk on its account.
#[derive(Debug)]
pub struct Refreshed<P> {
    pub state: ServiceState,
    pub plan: Plan<P>,
}

/// What a refresh came to, as values.
pub open spec fn refresh_value<P>(result: Result<Refreshed<P>, Failure>) -> Result<
    (ServiceStateValue, Seq<StepValue<P>>),
    Seq<Seq<char>>,
> {
    match result {
        Ok(refreshed) => Ok((refreshed.state@, refreshed.plan@)),
        Err(failure) => Err(failure@),
    }
}

/// What is to be done on disk where the state on record is `state` and the live process is `live`:
/// a state that has changed is written, and before that the record of a process that is gone is
/// removed. Neither has to succeed.
pub open spec fn refresh_plan<P>(state: ServiceStateValue, live: Option<u32>) -> Seq<StepValue<P>> {
    if !is_stale(state, live) {
        no_steps()
    } else if live is Some {
        no_steps().push(ignored(ActionValue::WriteState))
    } else {
        no_steps().push(ignored(ActionValue::ClearPid)).push(ignored(ActionValue::WriteState))
    }
}

/// What a refresh comes to: it fails where the state or the process id on record cannot be read,
/// and then nothing is to be done; otherwise the state is brought in line with the processes.
pub open spec fn refresh_result<P>(
    stored: Result<ServiceStateValue, Seq<Seq<char>>>,
    recorded: Result<Option<u32>, Seq<Seq<char>>>,
    alive: bool,
    now: u64,
) -> Result<(ServiceStateValue, Seq<StepValue<P>>), Seq<Seq<char>>> {
    match (stored, recorded) {
        (Err(causes), _) => Err(causes),
        (_, Err(causes)) => Err(causes),
        (Ok(state), Ok(pid)) => Ok(
            (
                refreshed(state, live_process(pid, alive), now),
                refresh_plan(state, live_process(pid, alive)),
            ),
        ),
    }
}

/// Brings the state in line with the processes: `stored` is what reading the state came to,
/// `recorded` what reading the process id on record came to, and `alive` says whether that process
/// runs. The plan is to be carried out, and the state returned whatever the plan comes to.
pub fn refresh<P>(
    stored: Result<ServiceState, Failure>,
    recorded: Result<Option<u32>, Failure>,
    alive: bool,
    now: u64,
) -> (result: Result<Refreshed<P>, Failure>)
    ensures
        refresh_value(result) == refresh_result::<P>(
            state_outcome(stored),
            pid_outcome(recorded),
            alive,
            now,
        ),
{
    let mut state = match stored {
        Ok(state) => state,
        Err(failure) => {
            return Err(failure);
        },
    };
    let recorded = match recorded {
        Ok(recorded) => recorded,
        Err(failure) => {
            return Err(failure);
        },
    };
    let live: Option<u32> = if alive {
        recorded
    } else {
        None
    };
    if let Some(pid) = live {
        let mut changed = false;
        if !state.running {
            state.running = true;
            changed = true;
        }
        if state.pid != Some(pid) {
            state.pid = Some(pid);
            changed = true;
        }
        if state.last_error.is_some() {
            state.last_error = None;
            changed = true;
        }
        let expected = running_status(pid);
        if !same_text(state.status_text.as_str(), expected.as_str()) {
            state.status_text = expected;
            changed = true;
        }
        if changed {
            state.updated_at = now;
            return Ok(Refreshed { state, plan: Plan::new().attempt(Action::WriteState) });
        }
        return Ok(Refreshed { state, plan: Plan::new() });
    }
    if state.running || state.pid.is_some() {
        state.running = false;
        state.pid = None;
        if state.last_error.is_none() {
            state.status_text = "已停止".to_string();
        }
        state.updated_at = now;
        let plan = Plan::new().attempt(Action::ClearPid).attempt(Action::WriteState);
        return Ok(Refreshed { state, plan });
    }
    Ok(Refreshed { state, plan: Plan::new() })
}

/// The state to be written once the service runs as process `pid`.
pub fn mark_running(pid: u32, now: u64) -> (state: ServiceState)
    ensures
        state@ == running_state(pid, now),
{
    ServiceState {
        running: true,
        pid: Some(pid),
        status_text: running_status(pid),
        last_error: None,
        updated_at: now,
    }
}

/// The state to be written while the service is being started.
pub fn mark_starting(now: u64) -> (state: ServiceState)
    ensures
        state@ == stopped_state("正在启动加速服务..."@, now),
{
    ServiceState {
        running: false,
        pid: None,
        status_text: "正在启动加速服务...".to_string(),
        last_error: None,
        updated_at: now,
    }
}

/// The state to be written once the service has stopped.
pub fn mark_stopped(message: &str, now: u64) -> (state: ServiceState)
    ensures
        state@ == stopped_state(message@, now),
{
    ServiceState {
        running: false,
        pid: None,
        status_text: message.to_string(),
        last_error: None,
        updated_at: now,
    }
}

/// The state to be written where the service could not be started.
pub fn mark_error(message: &str, now: u64) -> (state: ServiceState)
    ensures
        state@ == failed_state(message@, now),
{
    ServiceState {
        running: false,
        pid: None,
        status_text: "启动失败".to_string(),
        last_error: Some(message.to_string()),
        updated_at: now,
    }
}

/// The contents of the file with the process id `pid`.
pub open spec fn pid_record(pid: u32) -> Seq<char> {
    decimal(pid as nat)
}

/// The process id that the contents of its file stand for.
pub open spec fn recorded_pid(content: Option<Seq<char>>) -> Option<u32> {
    match content {
        Some(content) => parsed_u32(trimmed(content)),
        None => None,
    }
}

/// What was found in a file that holds a text.
#[derive(Debug)]
pub enum StoredText {
    /// There is no such file.
    Missing,
    /// The file could not be read.
    Unreadable(Failure),
    /// The text in the file.
    Found(String),
}

/// The process id on record, or why it is not known.
pub open spec fn pid_outcome(result: Result<Option<u32>, Failure>) -> Result<
    Option<u32>,
    Seq<Seq<char>>,
> {
    match result {
        Ok(pid) => Ok(pid),
        Err(failure) => Err(failure@),
    }
}

/// The process id on record in the file `path`: none where there is no file, or where it holds no
/// number.
pub fn read_pid(path: &str, stored: StoredText) -> (pid: Result<Option<u32>, Failure>)
    ensures
        pid_outcome(pid) == (match stored {
            StoredText::Missing => Ok(recorded_pid(None)),
            StoredText::Unreadable(error) => Err(seq!["failed to read "@ + path@] + error@),
            StoredText::Found(content) => Ok(recorded_pid(Some(content@))),
        }),
{
    match stored {
        StoredText::Missing => Ok(None),
        StoredText::Unreadable(error) => Err(
            error.context("failed to read ".to_string().concat(path)),
        ),
        StoredText::Found(content) => Ok(parse_u32(trim(content.as_str()).as_str())),
    }
}

/// The process id on record is the expected one.
pub open spec fn is_recorded(
    recorded: Result<Option<u32>, Seq<Seq<char>>>,
    expected_pid: u32,
) -> bool {
    match recorded {
        Ok(pid) => pid == Some(expected_pid),
        Err(_) => false,
    }
}

/// Whether the process id on record, where reading it came to `recorded`, is to be removed: only
/// where it is the expected one.
pub fn pid_matches(recorded: &Result<Option<u32>, Failure>, expected_pid: u32) -> (clear: bool)
    ensures
        clear == is_recorded(pid_outcome(*recorded), expected_pid),
{
    match recorded {
        Ok(pid) => *pid == Some(expected_pid),
        Err(_) => false,
    }
}

/// Whether the process id on record was removed, or why that is not so.
pub open spec fn clearing_outcome(result: Result<bool, Failure>) -> Result<bool, Seq<Seq<char>>> {
    match result {
        Ok(cleared) => Ok(cleared),
        Err(failure) => Err(failure@),
    }
}

/// What removing the process id on record, where it is the expected one, comes to: a failure to
/// read it and a failure to remove it are passed on, and any other process id is left alone.
pub open spec fn clearing_result(
    recorded: Result<Option<u32>, Seq<Seq<char>>>,
    expected_pid: u32,
    removal: Result<(), Seq<Seq<char>>>,
) -> Result<bool, Seq<Seq<char>>> {
    match recorded {
        Err(causes) => Err(causes),
        Ok(pid) => if pid != Some(expected_pid) {
            Ok(false)
        } else {
            match removal {
                Ok(_) => Ok(true),
                Err(causes) => Err(causes),
            }
        },
    }
}

/// Whether the process id on record was removed: `recorded` is what reading it came to, and
/// `removal` what removing it came to, where it was the expected one.
pub fn clear_pid_if_matches(
    recorded: Result<Option<u32>, Failure>,
    expected_pid: u32,
    removal: Option<Result<(), Failure>>,
) -> (cleared: Result<bool, Failure>)
    requires
        removal is Some == is_recorded(pid_outcome(recorded), expected_pid),
    ensures
        clearing_outcome(cleared) == clearing_result(
            pid_outcome(recorded),
            expected_pid,
            match removal {
                Some(removal) => outcome(removal),
                None => Ok(()),
            },
        ),
{
    match (recorded, removal) {
        (Err(failure), _) => Err(failure),
        (Ok(_), Some(Err(failure))) => Err(failure),
        (Ok(_), Some(Ok(_))) => Ok(true),
        (Ok(_), None) => Ok(false),
    }
}

/// The lease on record, or why it is not known.
pub open spec fn lease_outcome(result: Result<Option<UiLeaseState>, Failure>) -> Result<
    Option<UiLeaseState>,
    Seq<Seq<char>>,
> {
    match result {
        Ok(lease) => Ok(lease),
        Err(failure) => Err(failure@),
    }
}

/// The lease in the file `path`; none where there is no file.
pub fn read_ui_lease(path: &str, stored: Stored<UiLeaseState>) -> (lease: Result<
    Option<UiLeaseState>,
    Failure,
>)
    ensures
        lease_outcome(lease) == (match stored {
            Stored::Found(lease) => Ok(Some(lease)),
            Stored::Missing => Ok(None),
            _ => Err(storage_error(path@, stored)->0),
        }),
{
    stored_value(path, stored)
}

/// The lease to be written for the user interface with process id `owner_pid`.
pub fn touch_ui_lease(owner_pid: u32, now: u64) -> (lease: UiLeaseState)
    ensures
        lease == (UiLeaseState { owner_pid, updated_at: now, window_handle: None }),
{
    touch_ui_lease_with_window(owner_pid, None, now)
}

/// The lease to be written for the user interface with process id `owner_pid` and a window.
pub fn touch_ui_lease_with_window(owner_pid: u32, window_handle: Option<isize>, now: u64) -> (lease:
    UiLeaseState)
    ensures
        lease == (UiLeaseState { owner_pid, updated_at: now, window_handle }),
{
    UiLeaseState { owner_pid, updated_at: now, window_handle }
}

/// The name of the file that `file_name` is first written to by process `process_id`.
pub open spec fn temporary_name(file_name: Option<Seq<char>>, process_id: u32) -> Seq<char> {
    "."@ + (match file_name {
        Some(name) => name,
        None => "state"@,
    }) + ".tmp-"@ + decimal(process_id as nat)
}

/// The name of the file, beside the one to be replaced, that the new contents are written to
/// before it takes the place of the old one.
pub fn temporary_file_name(file_name: Option<&str>, process_id: u32) -> (temporary: String)
    ensures
        temporary@ == temporary_name(opt_str(file_name), process_id),
{
    let name: &str = match file_name {
        Some(name) => name,
        None => "state",
    };
    ".".to_string().concat(name).concat(".tmp-").concat(decimal_text(process_id as u64).as_str())
}

/// Where a file lies that is to be replaced.
#[derive(Debug)]
pub struct FilePlace<P> {
    pub path: FilePath<P>,
    /// The directory that it lies in.
    pub parent: Option<FilePath<P>>,
    /// The file beside it that the new contents are first written to.
    pub temporary: FilePath<P>,
}

/// Where a file lies that is to be replaced, as values.
pub struct FilePlaceValue<P> {
    pub path: FilePathValue<P>,
    pub parent: Option<FilePathValue<P>>,
    pub temporary: FilePathValue<P>,
}

impl<P> View for FilePlace<P> {
    type V = FilePlaceValue<P>;

    open spec fn view(&self) -> FilePlaceValue<P> {
        FilePlaceValue {
            path: self.path@,
            parent: match self.parent {
                Some(parent) => Some(parent@),
                None => None,
            },
            temporary: self.temporary@,
        }
    }
}

/// What is to be done to replace a file: its directory is made, the new contents are written to a
/// file of their own, and that file takes the place of the old one.
pub open spec fn replace_plan<P>(place: FilePlaceValue<P>) -> Seq<StepValue<P>> {
    let made = match place.parent {
        Some(parent) => no_steps().push(required(ActionValue::CreateDir(parent, parent))),
        None => no_steps(),
    };
    made.push(required(ActionValue::WriteFile(place.temporary))).push(
        required(ActionValue::MoveFile(place.temporary, place.path)),
    )
}

/// What is to be done to write a file of the program: it is replaced, and then handed to the user.
pub open spec fn write_plan<P>(place: FilePlaceValue<P>) -> Seq<StepValue<P>> {
    replace_plan(place).push(required(ActionValue::SyncOwnership(place.path)))
}

/// What is to be done to replace a file.
pub fn replace_file<P: Copy>(place: &FilePlace<P>) -> (plan: Plan<P>)
    ensures
        plan@ == replace_plan(place@),
{
    let made = match &place.parent {
        Some(parent) => Plan::new().require(Action::CreateDir(parent.again(), parent.again())),
        None => Plan::new(),
    };
    made.require(Action::WriteFile(place.temporary.again())).require(
        Action::MoveFile(place.temporary.again(), place.path.again()),
    )
}

/// The new contents of a file, and what is to be done to write them.
#[derive(Debug)]
pub struct FileWrite<P> {
    pub content: String,
    pub plan: Plan<P>,
}

/// The new contents of a file and the plan, or why there are none.
pub open spec fn write_outcome<P>(result: Result<FileWrite<P>, Failure>) -> Result<
    (Seq<char>, Seq<StepValue<P>>),
    Seq<Seq<char>>,
> {
    match result {
        Ok(write) => Ok((write.content@, write.plan@)),
        Err(failure) => Err(failure@),
    }
}

/// What is to be done to write a file of the program.
fn write_file<P: Copy>(place: &FilePlace<P>) -> (plan: Plan<P>)
    ensures
        plan@ == write_plan(place@),
{
    replace_file(place).require(Action::SyncOwnership(place.path.again()))
}

/// What is to be done to write the state, where putting it into writing came to `serialized`.
pub fn write<P: Copy>(place: &FilePlace<P>, serialized: Result<String, Failure>) -> (write: Result<
    FileWrite<P>,
    Failure,
>)
    ensures
        write_outcome(write) == (match text_outcome(serialized) {
            Ok(content) => Ok((content, write_plan(place@))),
            Err(causes) => Err(seq!["failed to serialize service state"@] + causes),
        }),
{
    match serialized {
        Ok(content) => Ok(FileWrite { content, plan: write_file(place) }),
        Err(error) => Err(error.context("failed to serialize service state".to_string())),
    }
}

/// What is to be done to write the process id.
pub fn write_pid<P: Copy>(place: &FilePlace<P>, pid: u32) -> (write: FileWrite<P>)
    ensures
        write.content@ == pid_record(pid),
        write.plan@ == write_plan(place@),
{
    FileWrite { content: decimal_text(pid as u64), plan: write_file(place) }
}

/// What is to be done to write the lease, where putting it into writing came to `serialized`.
pub fn write_ui_lease<P: Copy>(
    place: &FilePlace<P>,
    serialized: Result<String, Failure>,
) -> (write: Result<FileWrite<P>, Failure>)
    ensures
        write_outcome(write) == (match text_outcome(serialized) {
            Ok(content) => Ok((content, write_plan(place@))),
            Err(causes) => Err(seq!["failed to serialize ui lease state"@] + causes),
        }),
{
    match serialized {
        Ok(content) => Ok(FileWrite { content, plan: write_file(place) }),
        Err(error) => Err(error.context("failed to serialize ui lease state".to_string())),
    }
}

/// What is to be done to remove a file, where it exists.
pub open spec fn clear_plan<P>(path: FilePathValue<P>, exists: bool) -> Seq<StepValue<P>> {
    if exists {
        no_steps().push(required(ActionValue::RemoveFile(path)))
    } else {
        no_steps()
    }
}

/// What is to be done to remove the process id on record.
pub fn clear_pid<P>(path: FilePath<P>, exists: bool) -> (plan: Plan<P>)
    ensures
        plan@ == clear_plan(path@, exists),
{
    if exists {
        Plan::new().require(Action::RemoveFile(path))
    } else {
        Plan::new()
    }
}

/// What is to be done to give the lease up.
pub fn clear_ui_lease<P>(path: FilePath<P>, exists: bool) -> (plan: Plan<P>)
    ensures
        plan@ == clear_plan(path@, exists),
{
    clear_pid(path, exists)
}

// ---------------------------------------------------------------------------------------------
// Laws
// ---------------------------------------------------------------------------------------------

/// Reading back what was written: the process id on record is the one that was recorded.
pub proof fn law_pid_is_read_back(pid: u32)
    ensures
        recorded_pid(Some(pid_record(pid))) == Some(pid),
{
    lemma_decimal_round_trip(pid);
}

/// After a refresh the state claims to run if and only if there is a live process, and names
/// that process and no other.
pub proof fn law_refresh_tells_the_truth(state: ServiceStateValue, live: Option<u32>, now: u64)
    ensures
        refreshed(state, live, now).running == (live is Some),
        refreshed(state, live, now).pid == live,
        refreshed(state, live, now).consistent(),
{
}

/// A refresh fails if and only if the state or the process id on record cannot be read; what it
/// writes and removes may fail without consequence, and a record is removed before the state is
/// written.
pub proof fn law_refresh_fails_with_its_reads<P>(
    stored: Result<ServiceStateValue, Seq<Seq<char>>>,
    recorded: Result<Option<u32>, Seq<Seq<char>>>,
    alive: bool,
    now: u64,
    results: spec_fn(ActionValue<P>) -> Result<(), Seq<Seq<char>>>,
)
    ensures
        refresh_result::<P>(stored, recorded, alive, now) is Err <==> stored is Err || recorded is Err,
        match refresh_result(stored, recorded, alive, now) {
            Ok((_, plan)) => {
                &&& plan_result(plan, results) is Ok
                &&& does(plan, ActionValue::ClearPid) ==> plan[0].action is ClearPid
                    && plan.last().action is WriteState
            },
            Err(_) => true,
        },
{
    if let Ok((_, plan)) = refresh_result(stored, recorded, alive, now) {
        law_optional_plans_never_fail(plan, results);
    }
}

/// A second refresh finds nothing to do, and a refresh that finds nothing to do changes nothing.
pub proof fn law_refresh_is_idempotent(
    state: ServiceStateValue,
    live: Option<u32>,
    now: u64,
    later: u64,
)
    ensures
        !is_stale(refreshed(state, live, now), live),
        refreshed(refreshed(state, live, now), live, later) == refreshed(state, live, now),
        !is_stale(state, live) ==> refreshed(state, live, now) == state,
{
}

/// A refresh of the state of a service that is gone keeps its error, and the text that goes with
/// the error.
pub proof fn law_refresh_keeps_the_error(state: ServiceStateValue, now: u64)
    ensures
        refreshed(state, None, now).last_error == state.last_error,
        state.last_error is Some ==> refreshed(state, None, now).status_text == state.status_text,
{
}

/// Each state that the service writes is consistent, and a look at the processes that agrees
/// with it leaves it alone.
pub proof fn law_marks_are_consistent(pid: u32, message: Seq<char>, now: u64)
    ensures
        idle_state(now).consistent(),
        running_state(pid, now).consistent(),
        stopped_state(message, now).consistent(),
        failed_state(message, now).consistent(),
        !is_stale(running_state(pid, now), Some(pid)),
        !is_stale(idle_state(now), None),
        !is_stale(stopped_state(message, now), None),
        !is_stale(failed_state(message, now), None),
{
}

/// New contents are never written to the file that they are to replace, and two processes never
/// write to the same temporary file.
pub proof fn law_temporary_name_is_apart(name: Seq<char>, a: u32, b: u32)
    ensures
        temporary_name(Some(name), a) != name,
        a != b ==> temporary_name(Some(name), a) != temporary_name(Some(name), b),
{
    reveal_strlit(".");
    reveal_strlit(".tmp-");
    lemma_decimal(a as nat);
    assert(temporary_name(Some(name), a).len() > name.len());
    if a != b && temporary_name(Some(name), a) == temporary_name(Some(name), b) {
        let prefix = "."@ + name + ".tmp-"@;
        assert(temporary_name(Some(name), a).skip(prefix.len() as int) =~= decimal(a as nat));
        assert(temporary_name(Some(name), b).skip(prefix.len() as int) =~= decimal(b as nat));
        lemma_decimal_injective(a as nat, b as nat);
    }
}

/// A file is replaced as a whole or not at all: the contents are never written to its own path, and
/// it is touched only once the new contents stand beside it, by a single move.
pub proof fn law_files_are_replaced_at_once<P>(
    place: FilePlaceValue<P>,
    results: spec_fn(ActionValue<P>) -> Result<(), Seq<Seq<char>>>,
)
    requires
        place.temporary != place.path,
    ensures
        !does(replace_plan(place), ActionValue::WriteFile(place.path)),
        replace_plan(place).last().action == ActionValue::MoveFile(place.temporary, place.path),
        plan_result(replace_plan(place), results) is Ok ==> results(
            ActionValue::WriteFile(place.temporary),
        ) is Ok && results(ActionValue::MoveFile(place.temporary, place.path)) is Ok,
{
    reveal_with_fuel(plan_result, 4);
    let plan = replace_plan(place);
    let write = ActionValue::WriteFile(place.temporary);
    let moves = ActionValue::MoveFile(place.temporary, place.path);
    if place.parent is Some {
        assert(plan.drop_first() =~= no_steps().push(required(write)).push(required(moves)));
        assert(plan.drop_first().drop_first() =~= no_steps().push(required(moves)));
    } else {
        assert(plan.drop_first() =~= no_steps().push(required(moves)));
    }
}

/// Each mark says what happened, with the time at which it did: a service that runs is named by its process
/// and by the text for it, one that stopped has the message as its text, and one that failed has the
/// message as its error.
pub proof fn law_marks_say_what_happened(pid: u32, message: Seq<char>, now: u64)
    ensures
        running_text(pid) == "加速中，PID "@ + decimal(pid as nat),
        ({
            let state = running_state(pid, now);
            &&& state.running && state.pid == Some(pid) && state.last_error is None
            &&& state.status_text == "加速中，PID "@ + decimal(pid as nat)
            &&& state.updated_at == now
        }),
        ({
            let state = stopped_state(message, now);
            &&& !state.running && state.pid is None && state.last_error is None
            &&& state.status_text == message
            &&& state.updated_at == now
        }),
        ({
            let state = failed_state(message, now);
            &&& !state.running && state.pid is None && state.last_error == Some(message)
            &&& state.status_text == "启动失败"@
            &&& state.updated_at == now
        }),
        ({
            let state = idle_state(now);
            &&& !state.running && state.pid is None && state.last_error is None
            &&& state.status_text == "未启动"@
            &&& state.updated_at == now
        }),
{
}

/// A refresh with a live process leaves a state that names it without an error, and the time of the
/// state is that of the refresh exactly where something had to change.
pub proof fn law_live_process_is_shown(state: ServiceStateValue, pid: u32, now: u64)
    ensures
        ({
            let after = refreshed(state, Some(pid), now);
            let right = state.running && state.pid == Some(pid) && state.last_error is None
                && state.status_text == "加速中，PID "@ + decimal(pid as nat);
            &&& after.running && after.pid == Some(pid) && after.last_error is None
            &&& after.status_text == "加速中，PID "@ + decimal(pid as nat)
            &&& after.updated_at == (if right {
                state.updated_at
            } else {
                now
            })
            &&& is_stale(state, Some(pid)) <==> !right
        }),
{
}

/// A refresh without a live process leaves a state that claims none; the text is that of a stopped service
/// exactly where a process was claimed and no error is told, and the time is that of the refresh exactly
/// where a process was claimed.
pub proof fn law_gone_process_is_shown(state: ServiceStateValue, now: u64)
    ensures
        ({
            let after = refreshed(state, None, now);
            let claimed = state.running || state.pid is Some;
            &&& !after.running && after.pid is None && after.last_error == state.last_error
            &&& after.status_text == (if claimed && state.last_error is None {
                "已停止"@
            } else {
                state.status_text
            })
            &&& after.updated_at == (if claimed {
                now
            } else {
                state.updated_at
            })
            &&& is_stale(state, None) <==> claimed
        }),
{
}

/// A refresh writes the state exactly where it changed something, and removes the record of a process
/// before that exactly where a claimed process is gone; neither has to succeed.
pub proof fn law_refresh_writes_what_changed<P>(state: ServiceStateValue, live: Option<u32>, now: u64)
    ensures
        ({
            let plan = refresh_plan::<P>(state, live);
            let after = refreshed(state, live, now);
            let gone = live is None && (state.running || state.pid is Some);
            &&& after != state ==> plan.len() > 0
            &&& plan.len() == (if gone {
                2int
            } else if is_stale(state, live) {
                1
            } else {
                0
            })
            &&& plan.len() > 0 ==> plan.last().action is WriteState
            &&& gone ==> plan[0].action is ClearPid
            &&& forall|i: int| 0 <= i < plan.len() ==> (#[trigger] plan[i]).policy is Ignored
        }),
{
}

/// The process that counts in a refresh is the one on record, where it is alive; a state that cannot be
/// read is told before a record that cannot be.
pub proof fn law_refresh_goes_by_the_record<P>(
    state: ServiceStateValue,
    recorded: Option<u32>,
    alive: bool,
    now: u64,
    causes: Seq<Seq<char>>,
    others: Result<Option<u32>, Seq<Seq<char>>>,
)
    ensures
        match refresh_result::<P>(Ok(state), Ok(recorded), alive, now) {
            Ok((after, plan)) => {
                &&& alive ==> after == refreshed(state, recorded, now) && plan == refresh_plan::<P>(
                    state,
                    recorded,
                )
                &&& !alive ==> after == refreshed(state, None, now) && plan == refresh_plan::<P>(
                    state,
                    None,
                )
            },
            Err(_) => false,
        },
        refresh_result::<P>(Err(causes), others, alive, now) == Err::<
            (ServiceStateValue, Seq<StepValue<P>>),
            Seq<Seq<char>>,
        >(causes),
        refresh_result::<P>(Ok(state), Err(causes), alive, now) == Err::<
            (ServiceStateValue, Seq<StepValue<P>>),
            Seq<Seq<char>>,
        >(causes),
{
}

/// A value that cannot be read or parsed is reported with its file, above the cause; a value that is
/// there, or a file that is not, is no failure.
pub proof fn law_storage_errors_name_the_file<T>(path: Seq<char>, stored: Stored<T>)
    ensures
        match stored {
            Stored::Unreadable(error) => storage_error(path, stored) == Some(
                seq!["failed to read "@ + path] + error@,
            ),
            Stored::Unparsable(error) => storage_error(path, stored) == Some(
                seq!["failed to parse "@ + path] + error@,
            ),
            Stored::Missing => storage_error(path, stored) is None,
            Stored::Found(_) => storage_error(path, stored) is None,
        },
{
}

/// The process on record is the number in the file, whatever white space stands around it; a file without a
/// number, or no file, is no record.
pub proof fn law_record_is_a_number(content: Seq<char>, pid: u32)
    ensures
        recorded_pid(None) is None,
        recorded_pid(Some(content)) == parsed_u32(trimmed(content)),
        trimmed(content) == decimal(pid as nat) ==> recorded_pid(Some(content)) == Some(pid),
        pid_record(pid) == decimal(pid as nat),
{
    lemma_decimal_round_trip(pid);
}

/// Only the record of the expected process is removed: any other is left alone, and failures are passed on.
pub proof fn law_only_the_expected_record_is_removed(
    recorded: Result<Option<u32>, Seq<Seq<char>>>,
    expected_pid: u32,
    removal: Result<(), Seq<Seq<char>>>,
)
    ensures
        is_recorded(recorded, expected_pid) <==> recorded == Ok::<Option<u32>, Seq<Seq<char>>>(
            Some(expected_pid),
        ),
        clearing_result(recorded, expected_pid, removal) == Ok::<bool, Seq<Seq<char>>>(true) <==> (
        is_recorded(recorded, expected_pid) && removal is Ok),
        clearing_result(recorded, expected_pid, removal) == Ok::<bool, Seq<Seq<char>>>(false) <==> (
        recorded is Ok && !is_recorded(recorded, expected_pid)),
        recorded is Err ==> clearing_result(recorded, expected_pid, removal) == Err::<
            bool,
            Seq<Seq<char>>,
        >(recorded->Err_0),
        is_recorded(recorded, expected_pid) && removal is Err ==> clearing_result(
            recorded,
            expected_pid,
            removal,
        ) == Err::<bool, Seq<Seq<char>>>(removal->Err_0),
{
}

/// The temporary file is hidden and has the name of the file and the number of the process.
pub proof fn law_temporary_name_tells_its_origin(name: Seq<char>, process_id: u32)
    ensures
        temporary_name(Some(name), process_id) == "."@ + name + ".tmp-"@ + decimal(process_id as nat),
        temporary_name(None, process_id) == temporary_name(Some("state"@), process_id),
{
}

/// To write a file its directory is made where it has one, the contents go to the temporary file, that is
/// moved in place, and the file is handed to the user; each step has to succeed.
pub proof fn law_files_are_written_in_order<P>(place: FilePlaceValue<P>)
    ensures
        ({
            let steps = write_plan(place);
            let n = steps.len() as int;
            &&& n == (if place.parent is Some {
                4int
            } else {
                3
            })
            &&& replace_plan(place) == steps.drop_last()
            &&& match place.parent {
                Some(parent) => steps[0].action == ActionValue::CreateDir(parent, parent),
                None => true,
            }
            &&& steps[n - 3].action == ActionValue::WriteFile(place.temporary)
            &&& steps[n - 2].action == ActionValue::MoveFile(place.temporary, place.path)
            &&& steps[n - 1].action == ActionValue::SyncOwnership(place.path)
            &&& forall|i: int| 0 <= i < n ==> (#[trigger] steps[i]).policy is Required
        }),
{
    assert(replace_plan(place) =~= write_plan(place).drop_last());
}

/// A file is removed exactly where it exists, and then the removal has to succeed.
pub proof fn law_existing_files_are_removed<P>(path: FilePathValue<P>)
    ensures
        clear_plan(path, false).len() == 0,
        clear_plan(path, true).len() == 1,
        clear_plan(path, true)[0].policy is Required,
        clear_plan(path, true)[0].action == ActionValue::RemoveFile(path),
{
}

} // verus!
