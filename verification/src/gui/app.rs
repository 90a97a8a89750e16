//! The state of the user interface and what happens to it: the user presses buttons, actions end,
//! files change, the window is closed or hidden. What the interface needs from outside is handed
//! to it, and what it wants done outside it hands back.

use vstd::prelude::*;
use vstd::string::*;

use crate::config::{AppConfig, AppConfigValue};
use crate::failure::Failure;
use crate::gui::action::GuiAction;
use crate::platform::Platform;
use crate::state::{idle_state, state_or_default, ServiceState, ServiceStateValue};
use crate::text::{opt_text, texts};

verus! {

// ---------------------------------------------------------------------------------------------
// The state
// ---------------------------------------------------------------------------------------------

/// The pages of the window.
#[derive(Debug, Clone, Copy, PartialEq, Eq, Structural)]
pub enum UiPage {
    Launcher,
    Details,
}

/// The time at which a file was last changed.
#[derive(Debug, Clone, Copy, PartialEq, Eq, Structural)]
pub struct FileStamp {
    pub seconds: i64,
    pub nanos: u32,
}

/// The lease by which the interface keeps the service alive.
#[derive(Debug, Clone, Copy, PartialEq, Eq, Structural)]
pub struct Lease {
    pub owned: bool,
    /// The lease is being renewed in the background.
    pub heartbeat: bool,
}

/// The action that is under way, and the one that waits to be confirmed.
#[derive(Debug, Clone, Copy, PartialEq, Eq, Structural)]
pub struct Task {
    pub busy: bool,
    /// The result of an action is awaited.
    pub waiting: bool,
    pub pending: Option<GuiAction>,
    pub confirm: Option<GuiAction>,
}

/// The window.
#[derive(Debug, Clone, Copy, PartialEq, Eq, Structural)]
pub struct Window {
    pub page: UiPage,
    /// The window is still to be moved to the middle of the screen.
    pub center_pending: bool,
    /// There is an icon in the tray to hide behind.
    pub has_tray: bool,
    pub hidden_to_tray: bool,
    pub last_minimized: bool,
    pub allow_close: bool,
}

/// The start of the program when the user logs in.
#[derive(Debug, Clone, Copy, PartialEq, Eq, Structural)]
pub struct Autostart {
    pub enabled: bool,
    /// The service is still to be started on this account.
    pub pending: bool,
}

/// The state of the user interface. Times are milliseconds of a clock that only moves forward.
#[derive(Debug)]
pub struct AcceleratorApp {
    pub platform: Platform,
    pub config: AppConfig,
    pub config_modified_at: Option<FileStamp>,
    pub edge_node_input: String,
    pub lease: Lease,
    pub status: ServiceState,
    /// The service is taken to run, or not to run, until the given time.
    pub optimistic_running: Option<(bool, u64)>,
    pub last_refresh: u64,
    pub recent_logs: Vec<String>,
    pub runtime_log_modified_at: Option<FileStamp>,
    pub feedback: String,
    pub task: Task,
    pub window: Window,
    pub autostart: Autostart,
}

/// The state of the user interface, as values.
pub struct AppValue {
    pub platform: Platform,
    pub config: AppConfigValue,
    pub config_modified_at: Option<FileStamp>,
    pub edge_node_input: Seq<char>,
    pub lease: Lease,
    pub status: ServiceStateValue,
    pub optimistic_running: Option<(bool, u64)>,
    pub last_refresh: u64,
    pub recent_logs: Seq<Seq<char>>,
    pub runtime_log_modified_at: Option<FileStamp>,
    pub feedback: Seq<char>,
    pub task: Task,
    pub window: Window,
    pub autostart: Autostart,
}

impl View for AcceleratorApp {
    type V = AppValue;

    open spec fn view(&self) -> AppValue {
        AppValue {
            platform: self.platform,
            config: self.config@,
            config_modified_at: self.config_modified_at,
            edge_node_input: self.edge_node_input@,
            lease: self.lease,
            status: self.status@,
            optimistic_running: self.optimistic_running,
            last_refresh: self.last_refresh,
            recent_logs: texts(self.recent_logs@),
            runtime_log_modified_at: self.runtime_log_modified_at,
            feedback: self.feedback@,
            task: self.task,
            window: self.window,
            autostart: self.autostart,
        }
    }
}

impl AppValue {
    /// The interface is busy if and only if an action is under way and its result is awaited.
    pub open spec fn valid(self) -> bool {
        &&& self.task.busy == self.task.waiting
        &&& self.task.busy == (self.task.pending is Some)
    }
}

/// The number of lines that the interface shows of the log.
pub const RECENT_LOG_LINES: usize = 12;

/// The lines that the interface shows of the log, where the files of the program are known and
/// reading the log came to this: none where the log could not be read.
pub fn load_recent_runtime_logs(read: Option<Result<Vec<String>, Failure>>) -> (lines: Vec<String>)
    ensures
        texts(lines@) == (match read {
            Some(Ok(lines)) => texts(lines@),
            _ => Seq::empty(),
        }),
{
    match read {
        Some(Ok(lines)) => lines,
        _ => {
            let none: Vec<String> = Vec::new();
            assert(texts(none@) =~= Seq::<Seq<char>>::empty());
            none
        },
    }
}

/// The times from which the interface can reckon two seconds back and four seconds ahead.
pub open spec fn in_clock_range(now: u64) -> bool {
    2_000 <= now <= u64::MAX - 4_000
}

/// What the interface wants done outside it.
#[derive(Debug, Clone, Copy, PartialEq, Eq, Structural)]
pub struct Effects {
    /// Stop renewing the lease in the background.
    pub stop_heartbeat: bool,
    /// Begin to renew the lease in the background.
    pub start_heartbeat: bool,
    /// Give the lease up.
    pub clear_lease: bool,
    /// Carry the action out, apart from the interface.
    pub execute: Option<GuiAction>,
}

/// Nothing is to be done.
pub open spec fn no_effects() -> Effects {
    Effects { stop_heartbeat: false, start_heartbeat: false, clear_lease: false, execute: None }
}

/// Nothing is to be done.
fn nothing() -> (effects: Effects)
    ensures
        effects == no_effects(),
{
    Effects { stop_heartbeat: false, start_heartbeat: false, clear_lease: false, execute: None }
}

/// The text, or none where there is no text.
pub open spec fn or_empty(text: Option<Seq<char>>) -> Seq<char> {
    match text {
        Some(text) => text,
        None => Seq::empty(),
    }
}

/// The text, or an empty one where there is none.
pub fn text_or_empty(text: &Option<String>) -> (copy: String)
    ensures
        copy@ == or_empty(opt_text(*text)),
{
    match text {
        Some(text) => text.clone(),
        None => {
            let empty = String::new();
            assert(empty@ =~= Seq::<char>::empty());
            empty
        },
    }
}

/// What the interface finds when it is opened.
#[derive(Debug)]
pub struct Surroundings {
    pub config: AppConfig,
    pub autostart_enabled: bool,
    pub config_modified_at: Option<FileStamp>,
    /// The state of the service, where it could be had.
    pub status: Option<ServiceState>,
    /// There is a lease already.
    pub lease_exists: bool,
    pub recent_logs: Vec<String>,
    pub runtime_log_modified_at: Option<FileStamp>,
    pub has_tray: bool,
    /// The seconds since the epoch.
    pub epoch_seconds: u64,
}

/// What the interface sees when it looks at the service and the files.
#[derive(Debug)]
pub struct Observation {
    /// The state of the service, where it could be had.
    pub status: Option<ServiceState>,
    pub log_stamp: Option<FileStamp>,
    /// The last lines of the log; they are looked at only where the log has changed.
    pub recent_logs: Vec<String>,
    pub config_stamp: Option<FileStamp>,
    /// The settings, where they could be read; they are looked at only where they have changed.
    pub config: Option<AppConfig>,
}

/// What the interface sees, as values.
pub struct ObservationValue {
    pub status: Option<ServiceStateValue>,
    pub log_stamp: Option<FileStamp>,
    pub recent_logs: Seq<Seq<char>>,
    pub config_stamp: Option<FileStamp>,
    pub config: Option<AppConfigValue>,
}

impl View for Observation {
    type V = ObservationValue;

    open spec fn view(&self) -> ObservationValue {
        ObservationValue {
            status: match self.status {
                Some(status) => Some(status@),
                None => None,
            },
            log_stamp: self.log_stamp,
            recent_logs: texts(self.recent_logs@),
            config_stamp: self.config_stamp,
            config: match self.config {
                Some(config) => Some(config@),
                None => None,
            },
        }
    }
}

/// What came of the wait for the result of an action.
#[derive(Debug)]
pub enum ActionEvent {
    /// There is no result yet.
    Empty,
    /// There will be no result.
    Disconnected,
    Succeeded(String),
    Failed(String),
}

/// What came of the wait for the result of an action, as values.
pub enum ActionEventValue {
    Empty,
    Disconnected,
    Succeeded(Seq<char>),
    Failed(Seq<char>),
}

impl View for ActionEvent {
    type V = ActionEventValue;

    open spec fn view(&self) -> ActionEventValue {
        match self {
            ActionEvent::Empty => ActionEventValue::Empty,
            ActionEvent::Disconnected => ActionEventValue::Disconnected,
            ActionEvent::Succeeded(message) => ActionEventValue::Succeeded(message@),
            ActionEvent::Failed(message) => ActionEventValue::Failed(message@),
        }
    }
}

// ---------------------------------------------------------------------------------------------
// Following the service
// ---------------------------------------------------------------------------------------------

/// The state of the service as it is shown: for a while after an action the interface takes its
/// success for granted, unless the service reports an error.
pub open spec fn optimistic(
    status: ServiceStateValue,
    expectation: Option<(bool, u64)>,
    now: u64,
) -> ServiceStateValue {
    match expectation {
        Some((running, deadline)) => if now >= deadline || status.running == running
            || status.last_error is Some {
            status
        } else if running {
            ServiceStateValue { running: true, status_text: "加速中"@, ..status }
        } else {
            ServiceStateValue { running: false, pid: None, status_text: "已停止"@, ..status }
        },
        None => status,
    }
}

/// The expectation, as long as it lasts.
pub open spec fn lasting(expectation: Option<(bool, u64)>, now: u64) -> Option<(bool, u64)> {
    match expectation {
        Some((_, deadline)) => if now >= deadline {
            None
        } else {
            expectation
        },
        None => None,
    }
}

/// The interface after a look at the state of the service.
pub open spec fn with_status(app: AppValue, status: Option<ServiceStateValue>, now: u64) -> AppValue {
    match status {
        Some(status) => AppValue {
            status: optimistic(status, app.optimistic_running, now),
            optimistic_running: lasting(app.optimistic_running, now),
            ..app
        },
        None => app,
    }
}

/// The interface after a look at the log.
pub open spec fn with_logs(
    app: AppValue,
    stamp: Option<FileStamp>,
    logs: Seq<Seq<char>>,
) -> AppValue {
    if stamp == app.runtime_log_modified_at {
        app
    } else {
        AppValue { recent_logs: logs, runtime_log_modified_at: stamp, ..app }
    }
}

/// The interface after a look at the settings: those that cannot be read are kept as they are
/// known, until the file changes again.
pub open spec fn with_config(
    app: AppValue,
    stamp: Option<FileStamp>,
    config: Option<AppConfigValue>,
) -> AppValue {
    if stamp == app.config_modified_at {
        app
    } else {
        match config {
            Some(config) => AppValue {
                config,
                edge_node_input: or_empty(config.edge_node_override),
                config_modified_at: stamp,
                ..app
            },
            None => AppValue { config_modified_at: stamp, ..app },
        }
    }
}

/// The interface after a look at everything.
pub open spec fn refreshed_app(app: AppValue, seen: ObservationValue, now: u64) -> AppValue {
    with_config(
        with_logs(with_status(app, seen.status, now), seen.log_stamp, seen.recent_logs),
        seen.config_stamp,
        seen.config,
    )
}

// ---------------------------------------------------------------------------------------------
// Actions
// ---------------------------------------------------------------------------------------------

/// The interface once an action is asked for, where the lease could be renewed or not.
pub open spec fn triggered(app: AppValue, action: GuiAction, lease_touched: bool) -> AppValue {
    if app.task.busy {
        app
    } else {
        AppValue {
            lease: if action is Start {
                Lease { owned: lease_touched, heartbeat: app.lease.heartbeat || lease_touched }
            } else {
                app.lease
            },
            feedback: action.pending_text(),
            task: Task { busy: true, waiting: true, pending: Some(action), ..app.task },
            ..app
        }
    }
}

/// What is to be done once an action is asked for.
pub open spec fn trigger_effects(app: AppValue, action: GuiAction, lease_touched: bool) -> Effects {
    if app.task.busy {
        no_effects()
    } else {
        Effects {
            stop_heartbeat: action is Start && lease_touched && app.lease.heartbeat,
            start_heartbeat: action is Start && lease_touched,
            clear_lease: false,
            execute: Some(action),
        }
    }
}

/// The interface that awaits nothing any more.
pub open spec fn settled(app: AppValue) -> AppValue {
    AppValue { task: Task { busy: false, waiting: false, pending: None, ..app.task }, ..app }
}

/// The interface that has given up the lease.
pub open spec fn without_lease(app: AppValue) -> AppValue {
    AppValue { lease: Lease { owned: false, heartbeat: false }, ..app }
}

/// The interface after the action that it awaits ended well.
pub open spec fn succeeded_app(app: AppValue, message: Seq<char>, now: u64) -> AppValue {
    let deadline = (now + 4_000) as u64;
    let told = AppValue { feedback: message, last_refresh: (now - 2_000) as u64, ..settled(app) };
    match app.task.pending {
        Some(GuiAction::Start) => AppValue {
            status: ServiceStateValue {
                running: true,
                status_text: "加速中"@,
                last_error: None,
                ..app.status
            },
            optimistic_running: Some((true, deadline)),
            ..told
        },
        Some(GuiAction::Stop) => AppValue {
            status: ServiceStateValue {
                running: false,
                status_text: "已停止"@,
                last_error: None,
                ..app.status
            },
            optimistic_running: Some((false, deadline)),
            ..without_lease(told)
        },
        None => told,
    }
}

/// The interface after the action that it awaits failed. A failed start leaves a service that is
/// stopped, and no lease; after any other failure the interface looks at the service again.
pub open spec fn failed_app(
    app: AppValue,
    message: Seq<char>,
    seen: Option<ObservationValue>,
    now: u64,
) -> AppValue {
    let calm = AppValue { optimistic_running: None, ..settled(app) };
    let looked = match app.task.pending {
        Some(GuiAction::Start) => AppValue {
            status: ServiceStateValue {
                running: false,
                pid: None,
                status_text: "启动失败"@,
                ..app.status
            },
            ..without_lease(calm)
        },
        _ => match seen {
            Some(seen) => refreshed_app(calm, seen, now),
            None => calm,
        },
    };
    AppValue {
        status: ServiceStateValue { last_error: Some(message), ..looked.status },
        feedback: "操作失败: "@ + message,
        last_refresh: (now - 2_000) as u64,
        ..looked
    }
}

/// The interface after it asked for the result of the action that it awaits.
pub open spec fn polled(
    app: AppValue,
    event: ActionEventValue,
    seen: Option<ObservationValue>,
    now: u64,
) -> AppValue {
    if !app.task.waiting {
        app
    } else {
        match event {
            ActionEventValue::Empty => app,
            ActionEventValue::Disconnected => AppValue {
                optimistic_running: None,
                feedback: "后台任务意外中断"@,
                ..settled(app)
            },
            ActionEventValue::Succeeded(message) => succeeded_app(app, message, now),
            ActionEventValue::Failed(message) => failed_app(app, message, seen, now),
        }
    }
}

/// The lease is given up after a stop that succeeded and after a start that failed.
pub open spec fn gives_up_lease(app: AppValue, event: ActionEventValue) -> bool {
    app.task.waiting && match event {
        ActionEventValue::Succeeded(_) => app.task.pending == Some(GuiAction::Stop),
        ActionEventValue::Failed(_) => app.task.pending == Some(GuiAction::Start),
        _ => false,
    }
}

/// What is to be done after the interface asked for the result of the action.
pub open spec fn poll_effects(app: AppValue, event: ActionEventValue) -> Effects {
    Effects {
        stop_heartbeat: gives_up_lease(app, event) && app.lease.heartbeat,
        start_heartbeat: false,
        clear_lease: gives_up_lease(app, event),
        execute: None,
    }
}

/// The interface has to look at the service before it can take note of the event: a stop failed.
pub open spec fn needs_observation(app: AppValue, event: ActionEventValue) -> bool {
    app.task.waiting && event is Failed && app.task.pending != Some(GuiAction::Start)
}

impl AcceleratorApp {
    /// The interface as it is opened.
    pub fn new(platform: Platform, found: Surroundings, auto_start: bool, now: u64) -> (app:
        AcceleratorApp)
        requires
            2_000 <= now,
        ensures
            app@ == (AppValue {
                platform,
                config: found.config@,
                config_modified_at: found.config_modified_at,
                edge_node_input: or_empty(opt_text(found.config.edge_node_override)),
                lease: Lease { owned: found.lease_exists, heartbeat: found.lease_exists },
                status: match found.status {
                    Some(status) => status@,
                    None => idle_state(found.epoch_seconds),
                },
                optimistic_running: None,
                last_refresh: (now - 2_000) as u64,
                recent_logs: texts(found.recent_logs@),
                runtime_log_modified_at: found.runtime_log_modified_at,
                feedback: Seq::empty(),
                task: Task { busy: false, waiting: false, pending: None, confirm: None },
                window: Window {
                    page: UiPage::Launcher,
                    center_pending: true,
                    has_tray: found.has_tray,
                    hidden_to_tray: false,
                    last_minimized: false,
                    allow_close: false,
                },
                autostart: Autostart { enabled: found.autostart_enabled, pending: auto_start },
            }),
            app@.valid(),
    {
        let edge_node_input = text_or_empty(&found.config.edge_node_override);
        let feedback = String::new();
        assert(feedback@ =~= Seq::<char>::empty());
        AcceleratorApp {
            platform,
            config: found.config,
            config_modified_at: found.config_modified_at,
            edge_node_input,
            lease: Lease { owned: found.lease_exists, heartbeat: found.lease_exists },
            status: state_or_default(found.status, found.epoch_seconds),
            optimistic_running: None,
            last_refresh: now - 2_000,
            recent_logs: found.recent_logs,
            runtime_log_modified_at: found.runtime_log_modified_at,
            feedback,
            task: Task { busy: false, waiting: false, pending: None, confirm: None },
            window: Window {
                page: UiPage::Launcher,
                center_pending: true,
                has_tray: found.has_tray,
                hidden_to_tray: false,
                last_minimized: false,
                allow_close: false,
            },
            autostart: Autostart { enabled: found.autostart_enabled, pending: auto_start },
        }
    }

    /// The state of the service as it is shown; an expectation that has run out is dropped.
    pub fn apply_optimistic_state(&mut self, status: ServiceState, now: u64) -> (shown:
        ServiceState)
        ensures
            shown@ == optimistic(status@, old(self)@.optimistic_running, now),
            final(self)@ == (AppValue {
                optimistic_running: lasting(old(self)@.optimistic_running, now),
                ..old(self)@
            }),
    {
        let mut status = status;
        if let Some((running, deadline)) = self.optimistic_running {
            if now >= deadline {
                self.optimistic_running = None;
                return status;
            }
            if running && !status.running && status.last_error.is_none() {
                status.running = true;
                status.status_text = "加速中".to_string();
            }
            if !running && status.running && status.last_error.is_none() {
                status.running = false;
                status.pid = None;
                status.status_text = "已停止".to_string();
            }
        }
        status
    }

    /// Whether the log has to be read again, where it was last changed at `stamp`.
    pub fn wants_logs(&self, stamp: Option<FileStamp>) -> (wanted: bool)
        ensures
            wanted == (stamp != self@.runtime_log_modified_at),
    {
        stamp != self.runtime_log_modified_at
    }

    /// Whether the settings have to be read again, where they were last changed at `stamp`.
    pub fn wants_config(&self, stamp: Option<FileStamp>) -> (wanted: bool)
        ensures
            wanted == (stamp != self@.config_modified_at),
    {
        stamp != self.config_modified_at
    }

    /// Takes note of the state of the service and of files that have changed.
    pub fn refresh_status(&mut self, seen: Observation, now: u64)
        ensures
            final(self)@ == refreshed_app(old(self)@, seen@, now),
    {
        if let Some(status) = seen.status {
            self.take_status(status, now);
        }
        self.take_logs(seen.log_stamp, seen.recent_logs);
        self.take_config(seen.config_stamp, seen.config);
    }

    fn take_status(&mut self, status: ServiceState, now: u64)
        ensures
            final(self)@ == with_status(old(self)@, Some(status@), now),
    {
        let shown = self.apply_optimistic_state(status, now);
        self.status = shown;
    }

    fn take_logs(&mut self, stamp: Option<FileStamp>, logs: Vec<String>)
        ensures
            final(self)@ == with_logs(old(self)@, stamp, texts(logs@)),
    {
        if stamp != self.runtime_log_modified_at {
            self.recent_logs = logs;
            self.runtime_log_modified_at = stamp;
        }
    }

    fn take_config(&mut self, stamp: Option<FileStamp>, config: Option<AppConfig>)
        ensures
            final(self)@ == with_config(
                old(self)@,
                stamp,
                match config {
                    Some(config) => Some(config@),
                    None => None,
                },
            ),
    {
        if stamp != self.config_modified_at {
            if let Some(config) = config {
                self.edge_node_input = text_or_empty(&config.edge_node_override);
                self.config = config;
            }
            self.config_modified_at = stamp;
        }
    }

    /// Whether the lease is to be renewed before the action is begun.
    pub fn wants_lease(&self, action: GuiAction) -> (wanted: bool)
        ensures
            wanted == (!self@.task.busy && action is Start),
    {
        !self.task.busy && matches!(action, GuiAction::Start)
    }

    /// Begins an action, unless one is under way; `lease_touched` says whether the lease could be
    /// renewed, where that was wanted.
    pub fn trigger_action(&mut self, action: GuiAction, lease_touched: bool) -> (effects: Effects)
        requires
            old(self)@.valid(),
        ensures
            final(self)@ == triggered(old(self)@, action, lease_touched),
            effects == trigger_effects(old(self)@, action, lease_touched),
            final(self)@.valid(),
    {
        if self.task.busy {
            return nothing();
        }
        let renews = matches!(action, GuiAction::Start) && lease_touched;
        let effects = Effects {
            stop_heartbeat: renews && self.lease.heartbeat,
            start_heartbeat: renews,
            clear_lease: false,
            execute: Some(action),
        };
        if matches!(action, GuiAction::Start) {
            self.lease = Lease {
                owned: lease_touched,
                heartbeat: self.lease.heartbeat || lease_touched,
            };
        }
        self.feedback = action.pending_message().to_string();
        self.task = Task {
            busy: true,
            waiting: true,
            pending: Some(action),
            confirm: self.task.confirm,
        };
        effects
    }

    /// Whether the interface has to look at the service before it can take note of the event.
    pub fn wants_observation(&self, event: &ActionEvent) -> (wanted: bool)
        ensures
            wanted == needs_observation(self@, event@),
    {
        self.task.waiting && matches!(event, ActionEvent::Failed(_)) && match self.task.pending {
            Some(GuiAction::Start) => false,
            _ => true,
        }
    }

    /// Awaits nothing any more.
    fn settle(&mut self)
        ensures
            final(self)@ == settled(old(self)@),
    {
        self.task = Task {
            busy: false,
            waiting: false,
            pending: None,
            confirm: self.task.confirm,
        };
    }

    /// Gives the lease up.
    fn drop_lease(&mut self) -> (effects: Effects)
        ensures
            final(self)@ == without_lease(old(self)@),
            effects == (Effects {
                stop_heartbeat: old(self)@.lease.heartbeat,
                clear_lease: true,
                ..no_effects()
            }),
    {
        let mut effects = nothing();
        effects.stop_heartbeat = self.lease.heartbeat;
        effects.clear_lease = true;
        self.lease = Lease { owned: false, heartbeat: false };
        effects
    }

    /// Takes note of an action that ended well.
    fn take_success(&mut self, message: String, now: u64) -> (effects: Effects)
        requires
            in_clock_range(now),
            old(self)@.task.waiting,
        ensures
            final(self)@ == succeeded_app(old(self)@, message@, now),
            effects == poll_effects(old(self)@, ActionEventValue::Succeeded(message@)),
    {
        let mut effects = nothing();
        let deadline: u64 = now + 4_000;
        self.feedback = message;
        match self.task.pending {
            Some(GuiAction::Start) => {
                self.status.running = true;
                self.status.status_text = "加速中".to_string();
                self.status.last_error = None;
                self.optimistic_running = Some((true, deadline));
            },
            Some(GuiAction::Stop) => {
                self.status.running = false;
                self.status.status_text = "已停止".to_string();
                self.status.last_error = None;
                effects = self.drop_lease();
                self.optimistic_running = Some((false, deadline));
            },
            None => {},
        }
        self.last_refresh = now - 2_000;
        self.settle();
        effects
    }

    /// Takes note of an action that failed.
    fn take_failure(&mut self, message: String, seen: Option<Observation>, now: u64) -> (effects:
        Effects)
        requires
            in_clock_range(now),
            old(self)@.task.waiting,
        ensures
            final(self)@ == failed_app(
                old(self)@,
                message@,
                match seen {
                    Some(seen) => Some(seen@),
                    None => None,
                },
                now,
            ),
            effects == poll_effects(old(self)@, ActionEventValue::Failed(message@)),
    {
        let mut effects = nothing();
        let action = self.task.pending;
        self.optimistic_running = None;
        self.settle();
        match action {
            Some(GuiAction::Start) => {
                effects = self.drop_lease();
                self.status.running = false;
                self.status.pid = None;
                self.status.status_text = "启动失败".to_string();
            },
            _ => {
                if let Some(seen) = seen {
                    self.refresh_status(seen, now);
                }
            },
        }
        self.feedback = "操作失败: ".to_string().concat(message.as_str());
        self.status.last_error = Some(message);
        self.last_refresh = now - 2_000;
        effects
    }

    /// Takes note of what came of the wait for the result of an action; `seen` is what the
    /// interface saw when it looked at the service, where that was wanted.
    pub fn poll_action(&mut self, event: ActionEvent, seen: Option<Observation>, now: u64) -> (effects:
        Effects)
        requires
            old(self)@.valid(),
            in_clock_range(now),
            needs_observation(old(self)@, event@) ==> seen is Some,
        ensures
            final(self)@ == polled(
                old(self)@,
                event@,
                match seen {
                    Some(seen) => Some(seen@),
                    None => None,
                },
                now,
            ),
            effects == poll_effects(old(self)@, event@),
            final(self)@.valid(),
    {
        if !self.task.waiting {
            return nothing();
        }
        match event {
            ActionEvent::Empty => nothing(),
            ActionEvent::Disconnected => {
                self.optimistic_running = None;
                self.feedback = "后台任务意外中断".to_string();
                self.settle();
                nothing()
            },
            ActionEvent::Succeeded(message) => self.take_success(message, now),
            ActionEvent::Failed(message) => self.take_failure(message, seen, now),
        }
    }
}

// ---------------------------------------------------------------------------------------------
// Laws
// ---------------------------------------------------------------------------------------------

/// An expectation never hides an error, ends when it has run out, and until then shows the
/// service as expected; showing a state twice comes to showing it once.
pub proof fn law_optimism_respects_errors(
    status: ServiceStateValue,
    running: bool,
    deadline: u64,
    now: u64,
)
    ensures
        status.last_error is Some ==> optimistic(status, Some((running, deadline)), now) == status,
        now >= deadline ==> optimistic(status, Some((running, deadline)), now) == status,
        now < deadline && status.last_error is None ==> optimistic(
            status,
            Some((running, deadline)),
            now,
        ).running == running,
        optimistic(status, Some((running, deadline)), now).last_error == status.last_error,
        optimistic(
            optimistic(status, Some((running, deadline)), now),
            Some((running, deadline)),
            now,
        ) == optimistic(status, Some((running, deadline)), now),
{
}

/// One action at a time: while one is under way, another is neither begun nor noted.
pub proof fn law_one_action_at_a_time(
    app: AppValue,
    first: GuiAction,
    second: GuiAction,
    lease_touched: bool,
    touched_again: bool,
)
    ensures
        triggered(triggered(app, first, lease_touched), second, touched_again) == triggered(
            app,
            first,
            lease_touched,
        ),
        trigger_effects(triggered(app, first, lease_touched), second, touched_again)
            == no_effects(),
{
}

/// Every action comes to rest: whatever its result, and even without one, the interface is free
/// for the next action afterwards.
pub proof fn law_action_comes_to_rest(
    app: AppValue,
    action: GuiAction,
    lease_touched: bool,
    event: ActionEventValue,
    seen: Option<ObservationValue>,
    now: u64,
)
    requires
        app.valid(),
        !(event is Empty),
    ensures
        !polled(triggered(app, action, lease_touched), event, seen, now).task.busy,
        polled(triggered(app, action, lease_touched), event, seen, now).valid(),
{
}

/// The interface is busy exactly while it awaits the result of an action that is under way, at any
/// time: asking for the result ends all three where there is one or will be none, and leaves all three
/// as they are otherwise.
pub proof fn law_busy_while_awaiting(
    app: AppValue,
    action: GuiAction,
    lease_touched: bool,
    event: ActionEventValue,
    seen: Option<ObservationValue>,
    now: u64,
)
    requires
        app.valid(),
    ensures
        triggered(app, action, lease_touched).valid(),
        polled(app, event, seen, now).valid(),
        app.task.waiting && !(event is Empty) ==> {
            let task = polled(app, event, seen, now).task;
            !task.busy && !task.waiting && task.pending is None
        },
        !app.task.waiting || event is Empty ==> polled(app, event, seen, now).task == app.task,
{
}

/// A look at the service and the files leaves the actions, the lease, the window and the message
/// alone.
pub proof fn law_refresh_only_looks(app: AppValue, seen: ObservationValue, now: u64)
    ensures
        refreshed_app(app, seen, now).task == app.task,
        refreshed_app(app, seen, now).lease == app.lease,
        refreshed_app(app, seen, now).window == app.window,
        refreshed_app(app, seen, now).autostart == app.autostart,
        refreshed_app(app, seen, now).feedback == app.feedback,
        app.valid() ==> refreshed_app(app, seen, now).valid(),
{
}

/// After an action that ended well the service is shown as asked for, and stays so for four
/// seconds, whatever the service says, unless it reports an error.
pub proof fn law_success_is_shown(
    app: AppValue,
    action: GuiAction,
    lease_touched: bool,
    message: Seq<char>,
    now: u64,
    later: u64,
    status: ServiceStateValue,
)
    requires
        app.valid(),
        !app.task.busy,
        in_clock_range(now),
        now <= later < now + 4_000,
        status.last_error is None,
    ensures
        ({
            let after = polled(
                triggered(app, action, lease_touched),
                ActionEventValue::Succeeded(message),
                None,
                now,
            );
            &&& after.status.running == (action is Start)
            &&& after.status.last_error is None
            &&& after.feedback == message
            &&& with_status(after, Some(status), later).status.running == (action is Start)
        }),
{
}

/// A failure is shown, as the error of the service and as a message; and a start that failed
/// leaves neither a running service nor a lease.
pub proof fn law_failure_is_shown(
    app: AppValue,
    action: GuiAction,
    lease_touched: bool,
    message: Seq<char>,
    seen: Option<ObservationValue>,
    now: u64,
)
    requires
        app.valid(),
        !app.task.busy,
        in_clock_range(now),
    ensures
        ({
            let after = polled(
                triggered(app, action, lease_touched),
                ActionEventValue::Failed(message),
                seen,
                now,
            );
            &&& after.status.last_error == Some(message)
            &&& after.feedback == "操作失败: "@ + message
            &&& after.optimistic_running is None
            &&& action is Start ==> !after.status.running && after.status.pid is None
                && !after.lease.owned && !after.lease.heartbeat
        }),
{
}

/// A look takes over what it saw, and nothing else changes. The settings become those that were read
/// where their file has changed and could be read, and with them the edge node that can be edited;
/// the log becomes what was read where it has changed; and files that have not changed leave alone
/// what is known of them. Without an expectation the state of the service is the one that was seen.
pub proof fn law_refresh_takes_what_was_seen(app: AppValue, seen: ObservationValue, now: u64)
    ensures
        ({
            let after = refreshed_app(app, seen, now);
            &&& after.config_modified_at == seen.config_stamp
            &&& after.runtime_log_modified_at == seen.log_stamp
            &&& seen.config_stamp != app.config_modified_at && seen.config is Some ==> {
                &&& after.config == seen.config->0
                &&& seen.config->0.edge_node_override is Some ==> after.edge_node_input
                    == seen.config->0.edge_node_override->0
                &&& seen.config->0.edge_node_override is None ==> after.edge_node_input.len() == 0
            }
            &&& seen.config_stamp == app.config_modified_at || seen.config is None ==> {
                &&& after.config == app.config
                &&& after.edge_node_input == app.edge_node_input
            }
            &&& seen.log_stamp != app.runtime_log_modified_at ==> after.recent_logs
                == seen.recent_logs
            &&& seen.log_stamp == app.runtime_log_modified_at ==> after.recent_logs
                == app.recent_logs
            &&& seen.status is None ==> {
                &&& after.status == app.status
                &&& after.optimistic_running == app.optimistic_running
            }
            &&& seen.status is Some && app.optimistic_running is None ==> {
                &&& after.status == seen.status->0
                &&& after.optimistic_running is None
            }
            &&& after.platform == app.platform
            &&& after.last_refresh == app.last_refresh
        }),
{
    assert(forall|text: Seq<char>| text.len() == 0 ==> text =~= Seq::<char>::empty());
}

/// While an expectation lasts, a service that is seen otherwise and reports no error is shown as
/// expected, in everything but that as it is; a service that is seen as expected, that reports an
/// error, or that is seen too late is shown as it is. The expectation goes with its time.
pub proof fn law_expectation_is_shown_for_a_while(
    app: AppValue,
    seen: ObservationValue,
    status: ServiceStateValue,
    running: bool,
    deadline: u64,
    now: u64,
)
    requires
        app.optimistic_running == Some((running, deadline)),
        seen.status == Some(status),
    ensures
        ({
            let after = refreshed_app(app, seen, now);
            &&& now >= deadline ==> after.status == status && after.optimistic_running is None
            &&& now < deadline ==> after.optimistic_running == app.optimistic_running
            &&& status.last_error is Some || status.running == running ==> after.status == status
            &&& now < deadline && status.last_error is None && status.running != running ==> {
                &&& after.status.running == running
                &&& after.status.pid == (if running {
                    status.pid
                } else {
                    None
                })
                &&& after.status.status_text == (if running {
                    "加速中"@
                } else {
                    "已停止"@
                })
                &&& after.status.last_error is None
                &&& after.status.updated_at == status.updated_at
            }
        }),
{
}

/// An action that is asked for is begun, unless one is under way: the interface says so and asks for
/// the action to be carried out. A start takes the lease, as far as it could be renewed, and renews it in
/// the background; a stop leaves it alone. Nothing else changes.
pub proof fn law_action_is_begun(app: AppValue, action: GuiAction, lease_touched: bool)
    requires
        !app.task.busy,
    ensures
        ({
            let after = triggered(app, action, lease_touched);
            let effects = trigger_effects(app, action, lease_touched);
            &&& after.task.busy && after.task.waiting && after.task.pending == Some(action)
            &&& after.task.confirm == app.task.confirm
            &&& after.feedback == (if action is Start {
                "正在申请权限并启动加速..."@
            } else {
                "正在停止加速并恢复 hosts..."@
            })
            &&& effects.execute == Some(action)
            &&& !effects.clear_lease
            &&& action is Start ==> {
                &&& after.lease.owned == lease_touched
                &&& after.lease.heartbeat == (app.lease.heartbeat || lease_touched)
                &&& effects.start_heartbeat == lease_touched
                &&& effects.stop_heartbeat == (lease_touched && app.lease.heartbeat)
            }
            &&& action is Stop ==> {
                &&& after.lease == app.lease
                &&& !effects.start_heartbeat && !effects.stop_heartbeat
            }
            &&& same_surroundings(app, after)
            &&& after.status == app.status
            &&& after.optimistic_running == app.optimistic_running
            &&& after.last_refresh == app.last_refresh
        }),
{
}

/// Everything that an action does not concern is the same.
pub open spec fn same_surroundings(app: AppValue, after: AppValue) -> bool {
    &&& after.platform == app.platform
    &&& after.config == app.config
    &&& after.config_modified_at == app.config_modified_at
    &&& after.edge_node_input == app.edge_node_input
    &&& after.recent_logs == app.recent_logs
    &&& after.runtime_log_modified_at == app.runtime_log_modified_at
    &&& after.window == app.window
    &&& after.autostart == app.autostart
}

/// An action that ended well is told as it tells itself, the service counts as running after a start
/// and as stopped after a stop for the next four seconds, and is to be looked at at once. A stop gives
/// the lease up; a start keeps it. Nothing else changes.
pub proof fn law_success_changes_the_service_alone(
    app: AppValue,
    action: GuiAction,
    message: Seq<char>,
    seen: Option<ObservationValue>,
    now: u64,
)
    requires
        app.valid(),
        app.task.pending == Some(action),
        in_clock_range(now),
    ensures
        ({
            let event = ActionEventValue::Succeeded(message);
            let after = polled(app, event, seen, now);
            let effects = poll_effects(app, event);
            &&& after.feedback == message
            &&& after.status.running == (action is Start)
            &&& after.status.status_text == (if action is Start {
                "加速中"@
            } else {
                "已停止"@
            })
            &&& after.status.last_error is None
            &&& after.status.pid == app.status.pid
            &&& after.status.updated_at == app.status.updated_at
            &&& after.optimistic_running == Some((action is Start, (now + 4_000) as u64))
            &&& after.last_refresh == now - 2_000
            &&& action is Start ==> after.lease == app.lease && effects == no_effects()
            &&& action is Stop ==> {
                &&& !after.lease.owned && !after.lease.heartbeat
                &&& effects.clear_lease
                &&& effects.stop_heartbeat == app.lease.heartbeat
            }
            &&& !effects.start_heartbeat && effects.execute is None
            &&& !no_effects().start_heartbeat && !no_effects().stop_heartbeat
                && !no_effects().clear_lease && no_effects().execute is None
            &&& after.task.confirm == app.task.confirm
            &&& same_surroundings(app, after)
        }),
{
}

/// After an action that failed the service is to be looked at at once, and nothing is taken for granted.
/// A start that failed gives the lease up and leaves a stopped service that says so; after a stop that
/// failed the interface has looked at the service and the files, and keeps the lease. Nothing else changes.
pub proof fn law_failure_changes_the_service_alone(
    app: AppValue,
    action: GuiAction,
    message: Seq<char>,
    seen: ObservationValue,
    now: u64,
)
    requires
        app.valid(),
        app.task.pending == Some(action),
        in_clock_range(now),
    ensures
        ({
            let event = ActionEventValue::Failed(message);
            let after = polled(app, event, Some(seen), now);
            let effects = poll_effects(app, event);
            let looked = refreshed_app(
                (AppValue { optimistic_running: None, ..app }),
                seen,
                now,
            );
            &&& needs_observation(app, event) <==> action is Stop
            &&& after.last_refresh == now - 2_000
            &&& after.optimistic_running is None
            &&& after.feedback == "操作失败: "@ + message
            &&& after.status.last_error == Some(message)
            &&& after.task.confirm == app.task.confirm
            &&& action is Start ==> {
                &&& after.status.status_text == "启动失败"@
                &&& !after.status.running && after.status.pid is None
                &&& after.status.updated_at == app.status.updated_at
                &&& !after.lease.owned && !after.lease.heartbeat
                &&& effects.clear_lease
                &&& effects.stop_heartbeat == app.lease.heartbeat
                &&& same_surroundings(app, after)
            }
            &&& action is Stop ==> {
                &&& after.status.running == looked.status.running
                &&& after.status.pid == looked.status.pid
                &&& after.status.status_text == looked.status.status_text
                &&& after.status.updated_at == looked.status.updated_at
                &&& after.lease == app.lease
                &&& !effects.clear_lease && !effects.stop_heartbeat
                &&& same_surroundings(looked, after)
            }
            &&& !effects.start_heartbeat && effects.execute is None
        }),
{
}

/// An action of which no result will come is told as broken off, and nothing is taken for granted; the
/// service and the lease are left as they are known. Without a result nothing changes at all.
pub proof fn law_broken_off_action_is_told(
    app: AppValue,
    seen: Option<ObservationValue>,
    now: u64,
)
    requires
        app.valid(),
        app.task.busy,
    ensures
        ({
            let after = polled(app, ActionEventValue::Disconnected, seen, now);
            &&& after.feedback == "后台任务意外中断"@
            &&& after.optimistic_running is None
            &&& after.status == app.status
            &&& after.lease == app.lease
            &&& after.last_refresh == app.last_refresh
            &&& after.task.confirm == app.task.confirm
            &&& same_surroundings(app, after)
        }),
        polled(app, ActionEventValue::Empty, seen, now) == app,
        !needs_observation(app, ActionEventValue::Disconnected),
        !needs_observation(app, ActionEventValue::Empty),
        poll_effects(app, ActionEventValue::Disconnected) == no_effects(),
        poll_effects(app, ActionEventValue::Empty) == no_effects(),
{
}

/// While no action is under way there is no result to take note of.
pub proof fn law_nothing_is_polled_at_rest(
    app: AppValue,
    event: ActionEventValue,
    seen: Option<ObservationValue>,
    now: u64,
)
    requires
        app.valid(),
        !app.task.busy,
    ensures
        polled(app, event, seen, now) == app,
        poll_effects(app, event) == no_effects(),
        !needs_observation(app, event),
{
}

/// The interface takes any time from which it can reckon two seconds back and four seconds ahead.
pub proof fn law_every_reckonable_time_is_taken(now: u64)
    ensures
        in_clock_range(now) <==> now >= 2_000 && now + 4_000 <= u64::MAX,
{
}

} // verus!
