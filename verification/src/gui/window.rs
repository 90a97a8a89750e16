//! The window of the interface: its pages and sizes, hiding it in the tray and bringing it back,
//! closing it, and how often it is drawn anew.

use vstd::prelude::*;
use vstd::string::*;

use crate::failure::{outcome, Failure};
use crate::gui::action::GuiAction;
use crate::gui::app::{no_effects, AcceleratorApp, AppValue, Effects, Lease, Task, UiPage, Window};
use crate::platform::Platform;
use crate::text::{ascii_lower, opt_str, same_ignoring_case};

verus! {

// ---------------------------------------------------------------------------------------------
// Sizes
// ---------------------------------------------------------------------------------------------

/// A width and a height in points.
#[derive(Debug, Clone, Copy, PartialEq, Eq, Structural)]
pub struct Size {
    pub width: u32,
    pub height: u32,
}

/// The height of the title bar that the interface draws itself.
pub const TITLE_BAR_HEIGHT: u32 = 52;

/// The desktop draws the frame of the window: the session is one of Wayland.
pub open spec fn has_native_frame(
    platform: Platform,
    wayland_display: bool,
    session_type: Option<Seq<char>>,
) -> bool {
    platform is Linux && (wayland_display || match session_type {
        Some(value) => ascii_lower(value) == ascii_lower("wayland"@),
        None => false,
    })
}

/// Whether the desktop draws the frame of the window, by the variables `WAYLAND_DISPLAY`, which
/// is set or not, and `XDG_SESSION_TYPE`.
pub fn use_native_wayland_frame(
    platform: Platform,
    wayland_display: bool,
    session_type: Option<&str>,
) -> (native: bool)
    ensures
        native == has_native_frame(platform, wayland_display, opt_str(session_type)),
{
    if !matches!(platform, Platform::Linux) {
        return false;
    }
    wayland_display || match session_type {
        Some(value) => same_ignoring_case(value, "wayland"),
        None => false,
    }
}

/// The size of the window with the launcher: there is room for a title bar where the desktop
/// draws none.
pub open spec fn launcher_size(native_frame: bool) -> Size {
    Size {
        width: 620,
        height: if native_frame {
            186
        } else {
            240
        },
    }
}

/// The size of the window with the launcher.
pub fn launcher_window_size(native_frame: bool) -> (size: Size)
    ensures
        size == launcher_size(native_frame),
{
    let content = Size { width: 620, height: 186 };
    if native_frame {
        content
    } else {
        Size { width: content.width, height: content.height + TITLE_BAR_HEIGHT + 2 }
    }
}

/// What the window may measure.
#[derive(Debug, Clone, Copy, PartialEq, Eq, Structural)]
pub struct Layout {
    pub size: Size,
    pub min: Size,
    pub max: Size,
    pub resizable: bool,
}

/// What the window may measure on each page.
pub open spec fn page_layout(page: UiPage, native_frame: bool) -> Layout {
    match page {
        UiPage::Launcher => Layout {
            size: launcher_size(native_frame),
            min: launcher_size(native_frame),
            max: launcher_size(native_frame),
            resizable: false,
        },
        UiPage::Details => Layout {
            size: Size { width: 760, height: 520 },
            min: Size { width: 720, height: 520 },
            max: Size { width: 1200, height: 900 },
            resizable: true,
        },
    }
}

/// What the window may measure on a page.
pub fn layout_of(page: UiPage, native_frame: bool) -> (layout: Layout)
    ensures
        layout == page_layout(page, native_frame),
{
    match page {
        UiPage::Launcher => {
            let size = launcher_window_size(native_frame);
            Layout { size, min: size, max: size, resizable: false }
        },
        UiPage::Details => Layout {
            size: Size { width: 760, height: 520 },
            min: Size { width: 720, height: 520 },
            max: Size { width: 1200, height: 900 },
            resizable: true,
        },
    }
}

/// How the window is opened.
#[derive(Debug, Clone, Copy)]
pub struct WindowOptions {
    pub title: &'static str,
    pub app_id: &'static str,
    /// The width and the height of the icon, in pixels.
    pub icon_size: u32,
    /// The desktop draws the frame.
    pub decorations: bool,
    pub layout: Layout,
    pub minimize_button: bool,
    pub maximize_button: bool,
    /// The window opens where it was when it was last closed.
    pub persist: bool,
}

/// How the window is opened: with the launcher in it.
pub fn run(native_frame: bool) -> (options: WindowOptions)
    ensures
        options.title@ == "Linux.do Accelerator"@,
        options.app_id@ == "linuxdo-accelerator"@,
        options.icon_size == 256,
        options.decorations == native_frame,
        options.layout == page_layout(UiPage::Launcher, native_frame),
        options.minimize_button,
        !options.maximize_button,
        !options.persist,
{
    WindowOptions {
        title: "Linux.do Accelerator",
        app_id: "linuxdo-accelerator",
        icon_size: 256,
        decorations: native_frame,
        layout: layout_of(UiPage::Launcher, native_frame),
        minimize_button: true,
        maximize_button: false,
        persist: false,
    }
}

/// Whether a press of the mouse begins to drag the window: it fell into the area that drags it,
/// and not on a button; a frame of the desktop drags the window itself.
pub fn drag_area(native_frame: bool, pressed: bool, inside: bool, blocked: bool) -> (drag: bool)
    ensures
        drag == (!native_frame && pressed && inside && !blocked),
{
    !native_frame && pressed && inside && !blocked
}

// ---------------------------------------------------------------------------------------------
// Commands to the window
// ---------------------------------------------------------------------------------------------

/// What is to be done to the window and to the icon in the tray.
#[derive(Debug, Clone, Copy, PartialEq, Eq, Structural)]
pub enum WindowCommand {
    ShowTray,
    HideTray,
    /// Take the icon out of the tray for good.
    QuitTray,
    Minimize,
    Unminimize,
    Focus,
    Close,
    Repaint,
}

/// What the user asks of the icon in the tray.
#[derive(Debug, Clone, Copy, PartialEq, Eq, Structural)]
pub enum TrayCommand {
    Restore,
    Quit,
}

/// The platforms with a desktop that the interface can hide on.
pub open spec fn is_desktop(platform: Platform) -> bool {
    platform is Windows || platform is Linux || platform is Macos
}

fn on_desktop(platform: Platform) -> (desktop: bool)
    ensures
        desktop == is_desktop(platform),
{
    matches!(platform, Platform::Windows | Platform::Linux | Platform::Macos)
}

/// The interface once it is to hide. On Windows and Linux it hides behind its icon in the tray,
/// where there is one. On macOS a process of its own shows the icon, and `shell` is what starting
/// it came to: the window is then closed. Where it cannot hide it is minimized.
pub open spec fn hidden(app: AppValue, shell: Result<(), Seq<Seq<char>>>) -> AppValue {
    match app.platform {
        Platform::Windows | Platform::Linux => if app.window.has_tray {
            AppValue {
                window: Window { hidden_to_tray: true, last_minimized: true, ..app.window },
                ..app
            }
        } else {
            AppValue {
                feedback: "托盘不可用，已退回系统最小化"@,
                window: Window { hidden_to_tray: false, last_minimized: true, ..app.window },
                ..app
            }
        },
        Platform::Macos => match shell {
            Ok(_) => AppValue {
                window: Window {
                    hidden_to_tray: true,
                    last_minimized: true,
                    allow_close: true,
                    ..app.window
                },
                ..app
            },
            Err(messages) => AppValue {
                feedback: "托盘最小化失败，已退回系统最小化: "@ + messages[0],
                window: Window { hidden_to_tray: false, last_minimized: true, ..app.window },
                ..app
            },
        },
        _ => app,
    }
}

/// What is to be done to hide.
pub open spec fn hiding_commands(app: AppValue, shell: Result<(), Seq<Seq<char>>>) -> Seq<
    WindowCommand,
> {
    match app.platform {
        Platform::Windows | Platform::Linux => if app.window.has_tray {
            seq![WindowCommand::ShowTray, WindowCommand::Minimize, WindowCommand::Repaint]
        } else {
            seq![WindowCommand::Minimize, WindowCommand::Repaint]
        },
        Platform::Macos => if shell is Ok {
            seq![WindowCommand::Close]
        } else {
            seq![WindowCommand::Minimize, WindowCommand::Repaint]
        },
        _ => seq![WindowCommand::Minimize],
    }
}

/// The interface stays alive without a window: the service runs, or an action is under way, or
/// the interface holds the lease that the service lives by.
pub open spec fn keeps_alive(app: AppValue) -> bool {
    app.status.running || app.task.busy || app.task.waiting || app.lease.owned
}

/// What a wish to close the window comes to.
#[derive(Debug, Clone, Copy, PartialEq, Eq, Structural)]
pub enum CloseDecision {
    /// There is nothing to decide.
    Ignore,
    /// The window is hidden and not closed.
    Hide,
    /// The window is closed.
    Close,
}

/// What the button that closes the window comes to.
pub open spec fn button_decision(app: AppValue) -> CloseDecision {
    if is_desktop(app.platform) && keeps_alive(app) {
        CloseDecision::Hide
    } else {
        CloseDecision::Close
    }
}

/// What a request of the desktop to close the window comes to, where there is one.
pub open spec fn request_decision(app: AppValue, requested: bool) -> CloseDecision {
    if !is_desktop(app.platform) || !requested || app.window.allow_close {
        CloseDecision::Ignore
    } else if keeps_alive(app) {
        CloseDecision::Hide
    } else {
        CloseDecision::Close
    }
}

/// The interface that has allowed its window to be closed.
pub open spec fn closing(app: AppValue) -> AppValue {
    AppValue { window: Window { allow_close: true, ..app.window }, ..app }
}

/// The interface after the icon in the tray was asked for something.
pub open spec fn tray_commanded(app: AppValue, command: TrayCommand) -> AppValue {
    match command {
        TrayCommand::Restore => AppValue {
            window: Window { hidden_to_tray: false, last_minimized: true, ..app.window },
            ..app
        },
        TrayCommand::Quit => closing(app),
    }
}

/// What is to be done after the icon in the tray was asked for something.
pub open spec fn tray_reaction(app: AppValue, command: TrayCommand) -> Seq<WindowCommand> {
    let none = Seq::<WindowCommand>::empty();
    match command {
        TrayCommand::Restore => (if app.window.has_tray {
            none.push(WindowCommand::HideTray)
        } else {
            none
        }).push(WindowCommand::Unminimize).push(WindowCommand::Focus).push(WindowCommand::Repaint),
        TrayCommand::Quit => (if !app.window.has_tray {
            none
        } else if app.platform is Linux {
            none.push(WindowCommand::QuitTray)
        } else {
            none.push(WindowCommand::HideTray)
        }).push(WindowCommand::Close),
    }
}

/// The window was minimized by other means than the interface's own, and is to be hidden.
pub open spec fn is_newly_minimized(app: AppValue, minimized: bool) -> bool {
    is_desktop(app.platform) && minimized && !app.window.last_minimized
        && !app.window.hidden_to_tray
}

// ---------------------------------------------------------------------------------------------
// Drawing
// ---------------------------------------------------------------------------------------------

/// The milliseconds between two drawings while something is under way.
pub const ACTIVE_REPAINT_MILLIS: u64 = 100;

/// The milliseconds between two drawings otherwise.
pub const IDLE_REPAINT_MILLIS: u64 = 5_000;

/// The milliseconds between two drawings while the window is hidden.
pub const TRAY_REPAINT_MILLIS: u64 = 15_000;

/// The milliseconds until the window is drawn again.
pub open spec fn repaint_millis(app: AppValue) -> u64 {
    if app.task.busy || app.task.waiting || app.task.confirm is Some {
        ACTIVE_REPAINT_MILLIS
    } else if app.window.hidden_to_tray {
        TRAY_REPAINT_MILLIS
    } else {
        IDLE_REPAINT_MILLIS
    }
}

/// What the drawing of the window begins with.
#[derive(Debug, Clone, Copy, PartialEq, Eq, Structural)]
pub struct Frame {
    /// The milliseconds until the window is drawn again.
    pub repaint_after: u64,
    /// The interface is to look at the service and the files.
    pub refresh: bool,
}

/// What is to be done to the window before the launcher is drawn.
#[derive(Debug, Clone, Copy, PartialEq, Eq, Structural)]
pub struct Fitting {
    /// The window gets the size of the launcher.
    pub fit: bool,
    /// The window is moved to the middle of the screen.
    pub center: bool,
}

impl AcceleratorApp {
    /// Goes to another page; the window is to be laid out for it.
    pub fn navigate_to(&mut self, page: UiPage, native_frame: bool) -> (layout: Layout)
        ensures
            final(self)@ == (AppValue { window: Window { page, ..old(self)@.window }, ..old(self)@ }),
            layout == page_layout(page, native_frame),
    {
        self.window.page = page;
        layout_of(page, native_frame)
    }

    /// Hides the window. On macOS `shell` is what starting the process with the icon came to.
    pub fn minimize_to_tray(&mut self, shell: &Result<(), Failure>) -> (commands: Vec<
        WindowCommand,
    >)
        ensures
            final(self)@ == hidden(old(self)@, outcome(*shell)),
            commands@ == hiding_commands(old(self)@, outcome(*shell)),
    {
        let mut commands: Vec<WindowCommand> = Vec::new();
        match self.platform {
            Platform::Windows | Platform::Linux => {
                if self.window.has_tray {
                    self.window.hidden_to_tray = true;
                    commands.push(WindowCommand::ShowTray);
                } else {
                    self.feedback = "托盘不可用，已退回系统最小化".to_string();
                    self.window.hidden_to_tray = false;
                }
                self.window.last_minimized = true;
                commands.push(WindowCommand::Minimize);
                commands.push(WindowCommand::Repaint);
            },
            Platform::Macos => match shell {
                Ok(_) => {
                    self.window.hidden_to_tray = true;
                    self.window.last_minimized = true;
                    self.window.allow_close = true;
                    commands.push(WindowCommand::Close);
                },
                Err(error) => {
                    assert(error@[0] == error.message@);
                    self.window.hidden_to_tray = false;
                    self.window.last_minimized = true;
                    self.feedback = "托盘最小化失败，已退回系统最小化: ".to_string().concat(
                        error.message.as_str(),
                    );
                    commands.push(WindowCommand::Minimize);
                    commands.push(WindowCommand::Repaint);
                },
            },
            _ => {
                commands.push(WindowCommand::Minimize);
            },
        }
        assert(commands@ =~= hiding_commands(old(self)@, outcome(*shell)));
        commands
    }

    /// Whether the interface stays alive without a window.
    pub fn should_keep_alive_after_window_close(&self) -> (keep: bool)
        ensures
            keep == keeps_alive(self@),
    {
        self.status.running || self.task.busy || self.task.waiting || self.lease.owned
    }

    /// Decides what the button that closes the window does.
    pub fn close_window_or_hide_to_tray(&mut self) -> (decision: CloseDecision)
        ensures
            decision == button_decision(old(self)@),
            final(self)@ == (if is_desktop(old(self)@.platform) && decision is Close {
                closing(old(self)@)
            } else {
                old(self)@
            }),
    {
        if !on_desktop(self.platform) {
            return CloseDecision::Close;
        }
        if self.should_keep_alive_after_window_close() {
            CloseDecision::Hide
        } else {
            self.window.allow_close = true;
            CloseDecision::Close
        }
    }

    /// Decides what becomes of a request of the desktop to close the window, where there is one:
    /// a window that may not be closed is hidden, and the request is declined.
    pub fn handle_close_requested(&mut self, requested: bool) -> (decision: CloseDecision)
        ensures
            decision == request_decision(old(self)@, requested),
            final(self)@ == (if decision is Close {
                closing(old(self)@)
            } else {
                old(self)@
            }),
    {
        if !on_desktop(self.platform) || !requested || self.window.allow_close {
            return CloseDecision::Ignore;
        }
        if self.should_keep_alive_after_window_close() {
            CloseDecision::Hide
        } else {
            self.window.allow_close = true;
            CloseDecision::Close
        }
    }

    /// Brings the window back.
    pub fn restore_from_tray(&mut self) -> (commands: Vec<WindowCommand>)
        ensures
            final(self)@ == tray_commanded(old(self)@, TrayCommand::Restore),
            commands@ == tray_reaction(old(self)@, TrayCommand::Restore),
    {
        self.window.hidden_to_tray = false;
        self.window.last_minimized = true;
        let mut commands: Vec<WindowCommand> = Vec::new();
        if self.window.has_tray {
            commands.push(WindowCommand::HideTray);
        }
        commands.push(WindowCommand::Unminimize);
        commands.push(WindowCommand::Focus);
        commands.push(WindowCommand::Repaint);
        commands
    }

    /// Does what the icon in the tray was asked for.
    pub fn poll_tray_events(&mut self, command: TrayCommand) -> (commands: Vec<WindowCommand>)
        ensures
            final(self)@ == tray_commanded(old(self)@, command),
            commands@ == tray_reaction(old(self)@, command),
    {
        match command {
            TrayCommand::Restore => self.restore_from_tray(),
            TrayCommand::Quit => {
                let mut commands: Vec<WindowCommand> = Vec::new();
                if self.window.has_tray {
                    if matches!(self.platform, Platform::Linux) {
                        commands.push(WindowCommand::QuitTray);
                    } else {
                        commands.push(WindowCommand::HideTray);
                    }
                }
                self.window.allow_close = true;
                commands.push(WindowCommand::Close);
                commands
            },
        }
    }

    /// Whether the window, which is minimized or not, is to be hidden.
    pub fn wants_hiding(&self, minimized: bool) -> (wanted: bool)
        ensures
            wanted == is_newly_minimized(self@, minimized),
    {
        on_desktop(self.platform) && minimized && !self.window.last_minimized
            && !self.window.hidden_to_tray
    }

    /// Takes note of whether the window is minimized, after it was hidden where that was wanted.
    pub fn sync_minimize_to_tray(&mut self, minimized: bool)
        ensures
            final(self)@ == (AppValue {
                window: Window {
                    last_minimized: minimized && !old(self)@.window.hidden_to_tray,
                    ..old(self)@.window
                },
                ..old(self)@
            }),
    {
        self.window.last_minimized = minimized && !self.window.hidden_to_tray;
    }

    /// The milliseconds until the window is drawn again.
    pub fn repaint_interval(&self) -> (millis: u64)
        ensures
            millis == repaint_millis(self@),
    {
        if self.task.busy || self.task.waiting || self.task.confirm.is_some() {
            ACTIVE_REPAINT_MILLIS
        } else if self.window.hidden_to_tray {
            TRAY_REPAINT_MILLIS
        } else {
            IDLE_REPAINT_MILLIS
        }
    }

    /// What the drawing of the window begins with: the interface looks at the service as often as
    /// the window is drawn.
    pub fn update(&self, now: u64) -> (frame: Frame)
        ensures
            frame.repaint_after == repaint_millis(self@),
            frame.refresh == (now - self@.last_refresh >= repaint_millis(self@)),
    {
        let repaint_after = self.repaint_interval();
        let elapsed: u64 = if now >= self.last_refresh {
            now - self.last_refresh
        } else {
            0
        };
        Frame { repaint_after, refresh: elapsed >= repaint_after }
    }

    /// Takes note of the time at which the interface looked at the service.
    pub fn note_refresh(&mut self, now: u64)
        ensures
            final(self)@ == (AppValue { last_refresh: now, ..old(self)@ }),
    {
        self.last_refresh = now;
    }

    /// What is to be done to the window before the page is drawn: the launcher keeps it at its
    /// size, and moves it to the middle of the screen once.
    pub fn ensure_launcher_viewport(&mut self) -> (fitting: Fitting)
        ensures
            fitting == (Fitting {
                fit: old(self)@.window.page is Launcher,
                center: old(self)@.window.page is Launcher && old(self)@.window.center_pending,
            }),
            final(self)@ == (AppValue {
                window: Window {
                    center_pending: old(self)@.window.center_pending && !(
                    old(self)@.window.page is Launcher),
                    ..old(self)@.window
                },
                ..old(self)@
            }),
    {
        match self.window.page {
            UiPage::Launcher => {
                let center = self.window.center_pending;
                self.window.center_pending = false;
                Fitting { fit: true, center }
            },
            UiPage::Details => Fitting { fit: false, center: false },
        }
    }

    /// Settles the question whether an action is confirmed: it is begun where it is, and
    /// forgotten where the window that asks was cancelled or closed. The result is the action to
    /// be begun.
    pub fn show_confirm_action_dialog(&mut self, confirmed: bool, cancelled: bool, open: bool) -> (action:
        Option<GuiAction>)
        ensures
            action == (if confirmed {
                old(self)@.task.confirm
            } else {
                None
            }),
            final(self)@ == (AppValue {
                task: Task {
                    confirm: if confirmed || cancelled || !open {
                        None
                    } else {
                        old(self)@.task.confirm
                    },
                    ..old(self)@.task
                },
                ..old(self)@
            }),
    {
        let action = self.task.confirm;
        if confirmed {
            self.task.confirm = None;
            action
        } else {
            if cancelled || !open {
                self.task.confirm = None;
            }
            None
        }
    }

    /// What is to be done when the window is gone: the lease is renewed no more, and given up
    /// where the service does not run.
    pub fn on_exit(&mut self) -> (effects: Effects)
        ensures
            effects == (Effects {
                stop_heartbeat: old(self)@.lease.heartbeat,
                clear_lease: !old(self)@.status.running,
                ..no_effects()
            }),
            final(self)@ == (AppValue {
                lease: Lease {
                    owned: old(self)@.lease.owned && old(self)@.status.running,
                    heartbeat: false,
                },
                ..old(self)@
            }),
    {
        let effects = Effects {
            stop_heartbeat: self.lease.heartbeat,
            start_heartbeat: false,
            clear_lease: !self.status.running,
            execute: None,
        };
        self.lease = Lease {
            owned: self.lease.owned && self.status.running,
            heartbeat: false,
        };
        effects
    }
}

// ---------------------------------------------------------------------------------------------
// Laws
// ---------------------------------------------------------------------------------------------

/// While there is something to stay alive for, neither the button nor the desktop closes the window
/// of a desktop: the interface hides, and the window is still there to be brought back, except on
/// macOS where a process of its own has come to show the icon.
pub proof fn law_window_outlives_the_close_button(app: AppValue, shell: Result<(), Seq<Seq<char>>>)
    requires
        is_desktop(app.platform),
        keeps_alive(app),
        !app.window.allow_close,
    ensures
        button_decision(app) is Hide,
        request_decision(app, true) is Hide,
        !(app.platform is Macos && shell is Ok) ==> !hiding_commands(app, shell).contains(
            WindowCommand::Close,
        ) && !hidden(app, shell).window.allow_close,
{
}

/// What was hidden in the tray is brought back: the window is hidden no more, and everything but
/// the window and the message is as it was.
pub proof fn law_hiding_is_undone(app: AppValue, shell: Result<(), Seq<Seq<char>>>)
    ensures
        !tray_commanded(hidden(app, shell), TrayCommand::Restore).window.hidden_to_tray,
        tray_commanded(hidden(app, shell), TrayCommand::Restore).task == app.task,
        tray_commanded(hidden(app, shell), TrayCommand::Restore).status == app.status,
        tray_commanded(hidden(app, shell), TrayCommand::Restore).config == app.config,
        tray_commanded(hidden(app, shell), TrayCommand::Restore).lease == app.lease,
        tray_commanded(hidden(app, shell), TrayCommand::Restore).window.page == app.window.page,
{
}

/// A window that has been hidden is not taken for one that was minimized anew, nor is one that
/// has just been brought back.
pub proof fn law_hiding_happens_once(
    app: AppValue,
    shell: Result<(), Seq<Seq<char>>>,
    minimized: bool,
)
    requires
        is_desktop(app.platform),
    ensures
        !is_newly_minimized(hidden(app, shell), minimized),
        !is_newly_minimized(tray_commanded(app, TrayCommand::Restore), minimized),
{
}

/// The window is drawn most often while something is under way, and least often while it is
/// hidden.
pub proof fn law_repaint_follows_activity(app: AppValue)
    ensures
        ACTIVE_REPAINT_MILLIS <= repaint_millis(app) <= TRAY_REPAINT_MILLIS,
        app.task.busy ==> repaint_millis(app) == ACTIVE_REPAINT_MILLIS,
{
}

/// The desktop draws the frame on Linux alone, and there exactly where the session is one of Wayland,
/// by either variable.
pub proof fn law_wayland_brings_its_frame(
    platform: Platform,
    wayland_display: bool,
    session_type: Option<Seq<char>>,
)
    ensures
        !(platform is Linux) ==> !has_native_frame(platform, wayland_display, session_type),
        has_native_frame(Platform::Linux, true, session_type),
        !has_native_frame(Platform::Linux, false, None),
        session_type is Some ==> (has_native_frame(Platform::Linux, false, session_type)
            <==> ascii_lower(session_type->0) == ascii_lower("wayland"@)),
{
}

/// The launcher has one size, with 54 points more in height for the title bar where the desktop draws
/// none; the details can be sized between their limits, and begin within them.
pub proof fn law_pages_have_their_sizes(native_frame: bool)
    ensures
        ({
            let launcher = page_layout(UiPage::Launcher, native_frame);
            let details = page_layout(UiPage::Details, native_frame);
            &&& launcher.size.width == 620
            &&& launcher.size.height == (if native_frame {
                186
            } else {
                186 + TITLE_BAR_HEIGHT + 2
            })
            &&& launcher.min == launcher.size && launcher.max == launcher.size
            &&& !launcher.resizable
            &&& details.resizable
            &&& details.size.width == 760 && details.size.height == 520
            &&& details.min.width == 720 && details.min.height == 520
            &&& details.max.width == 1200 && details.max.height == 900
            &&& TITLE_BAR_HEIGHT == 52
        }),
{
}

/// Everything but the window and the message is the same.
pub open spec fn same_but_window(app: AppValue, after: AppValue) -> bool {
    after == (AppValue { window: after.window, feedback: after.feedback, ..app })
}

/// Nothing of the window is different but that it is hidden, was seen minimized, or may be closed.
pub open spec fn same_window_otherwise(app: AppValue, after: AppValue) -> bool {
    &&& after.window.page == app.window.page
    &&& after.window.center_pending == app.window.center_pending
    &&& after.window.has_tray == app.window.has_tray
}

/// A window with an icon in the tray to hide behind is hidden there: the icon is shown and the window
/// minimized, in this order. One without is minimized, and the user is told. Neither may be closed on
/// this account, and nothing else changes.
pub proof fn law_window_hides_behind_its_icon(app: AppValue, shell: Result<(), Seq<Seq<char>>>)
    requires
        app.platform is Windows || app.platform is Linux,
    ensures
        ({
            let after = hidden(app, shell);
            &&& after.window.hidden_to_tray == app.window.has_tray
            &&& after.window.last_minimized
            &&& after.window.allow_close == app.window.allow_close
            &&& same_but_window(app, after) && same_window_otherwise(app, after)
            &&& app.window.has_tray ==> {
                &&& after.feedback == app.feedback
                &&& hiding_commands(app, shell) == seq![
                    WindowCommand::ShowTray,
                    WindowCommand::Minimize,
                    WindowCommand::Repaint,
                ]
            }
            &&& !app.window.has_tray ==> {
                &&& after.feedback == "托盘不可用，已退回系统最小化"@
                &&& hiding_commands(app, shell) == seq![
                    WindowCommand::Minimize,
                    WindowCommand::Repaint,
                ]
            }
        }),
{
}

/// On macOS the window is closed for good where a process of its own has come to show the icon, and
/// minimized where that failed, with the reason told. On other platforms it is minimized and nothing
/// changes.
pub proof fn law_macos_hides_in_another_process(app: AppValue, shell: Result<(), Seq<Seq<char>>>)
    requires
        !(app.platform is Windows) && !(app.platform is Linux),
    ensures
        ({
            let after = hidden(app, shell);
            &&& app.platform is Macos && shell is Ok ==> {
                &&& after.window.hidden_to_tray && after.window.last_minimized
                &&& after.window.allow_close
                &&& after.feedback == app.feedback
                &&& hiding_commands(app, shell) == seq![WindowCommand::Close]
            }
            &&& app.platform is Macos && shell is Err ==> {
                &&& !after.window.hidden_to_tray && after.window.last_minimized
                &&& after.window.allow_close == app.window.allow_close
                &&& after.feedback == "托盘最小化失败，已退回系统最小化: "@ + (shell->Err_0)[0]
                &&& hiding_commands(app, shell) == seq![
                    WindowCommand::Minimize,
                    WindowCommand::Repaint,
                ]
            }
            &&& !(app.platform is Macos) ==> {
                &&& after == app
                &&& hiding_commands(app, shell) == seq![WindowCommand::Minimize]
            }
            &&& same_but_window(app, after) && same_window_otherwise(app, after)
        }),
{
}

/// A window is closed only where nothing is left to stay alive for: the service does not run, no action
/// is under way, and the lease is not held. Off the desktops the button always closes it, and a request of
/// the desktop counts only where there is one that was not granted before.
pub proof fn law_window_closes_at_rest(app: AppValue, requested: bool)
    ensures
        is_desktop(app.platform) <==> app.platform is Windows || app.platform is Linux
            || app.platform is Macos,
        !is_desktop(app.platform) ==> button_decision(app) is Close && request_decision(
            app,
            requested,
        ) is Ignore,
        is_desktop(app.platform) ==> (button_decision(app) is Close <==> !app.status.running
            && !app.task.busy && !app.task.waiting && !app.lease.owned),
        is_desktop(app.platform) ==> button_decision(app) is Close || button_decision(app) is Hide,
        request_decision(app, false) is Ignore,
        app.window.allow_close ==> request_decision(app, requested) is Ignore,
        is_desktop(app.platform) && !app.window.allow_close ==> request_decision(app, true)
            == button_decision(app),
        closing(app).window.allow_close,
        same_but_window(app, closing(app)) && same_window_otherwise(app, closing(app)),
        closing(app).feedback == app.feedback,
        closing(app).window.hidden_to_tray == app.window.hidden_to_tray,
        closing(app).window.last_minimized == app.window.last_minimized,
{
}

/// The icon brings the window back, or ends the interface: the icon goes first, where there is one, and
/// then the window is shown and gets the focus, or is closed.
pub proof fn law_icon_is_obeyed(app: AppValue)
    ensures
        ({
            let back = tray_commanded(app, TrayCommand::Restore);
            &&& !back.window.hidden_to_tray && back.window.last_minimized
            &&& back.window.allow_close == app.window.allow_close
            &&& same_but_window(app, back) && same_window_otherwise(app, back)
            &&& back.feedback == app.feedback
        }),
        tray_commanded(app, TrayCommand::Quit) == closing(app),
        ({
            let restore = tray_reaction(app, TrayCommand::Restore);
            let quit = tray_reaction(app, TrayCommand::Quit);
            &&& app.window.has_tray ==> restore == seq![
                WindowCommand::HideTray,
                WindowCommand::Unminimize,
                WindowCommand::Focus,
                WindowCommand::Repaint,
            ]
            &&& !app.window.has_tray ==> restore == seq![
                WindowCommand::Unminimize,
                WindowCommand::Focus,
                WindowCommand::Repaint,
            ]
            &&& !app.window.has_tray ==> quit == seq![WindowCommand::Close]
            &&& app.window.has_tray && app.platform is Linux ==> quit == seq![
                WindowCommand::QuitTray,
                WindowCommand::Close,
            ]
            &&& app.window.has_tray && !(app.platform is Linux) ==> quit == seq![
                WindowCommand::HideTray,
                WindowCommand::Close,
            ]
        }),
{
    let none = Seq::<WindowCommand>::empty();
    assert(tray_reaction(app, TrayCommand::Restore) =~= (if app.window.has_tray {
        seq![
            WindowCommand::HideTray,
            WindowCommand::Unminimize,
            WindowCommand::Focus,
            WindowCommand::Repaint,
        ]
    } else {
        seq![WindowCommand::Unminimize, WindowCommand::Focus, WindowCommand::Repaint]
    }));
    assert(tray_reaction(app, TrayCommand::Quit) =~= (if !app.window.has_tray {
        seq![WindowCommand::Close]
    } else if app.platform is Linux {
        seq![WindowCommand::QuitTray, WindowCommand::Close]
    } else {
        seq![WindowCommand::HideTray, WindowCommand::Close]
    }));
}

/// A window of a desktop that the user minimizes is hidden, once; any other is left alone.
pub proof fn law_minimized_window_is_hidden(app: AppValue, minimized: bool)
    ensures
        is_newly_minimized(app, minimized) ==> minimized && !app.window.hidden_to_tray
            && !app.window.last_minimized,
        minimized && !app.window.hidden_to_tray && !app.window.last_minimized ==> (
        is_newly_minimized(app, minimized) <==> app.platform is Windows || app.platform is Linux
            || app.platform is Macos),
{
}

/// The window is drawn ten times a second while an action is under way or waits to be confirmed, every
/// fifteen seconds while it is hidden otherwise, and every five seconds else.
pub proof fn law_repaint_keeps_its_times(app: AppValue)
    ensures
        app.task.busy || app.task.waiting || app.task.confirm is Some ==> repaint_millis(app)
            == 100,
        !app.task.busy && !app.task.waiting && app.task.confirm is None ==> repaint_millis(app) == (
        if app.window.hidden_to_tray {
            15_000u64
        } else {
            5_000u64
        }),
{
}

} // verus!
