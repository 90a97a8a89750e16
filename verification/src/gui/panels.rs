//! What the panels of the window show, in words and colours.

use vstd::prelude::*;
use vstd::string::*;

use crate::decode::lowercase;
use crate::gui::action::GuiAction;
use crate::gui::app::{AcceleratorApp, AppValue};
use crate::gui::palette::{launcher_primary_button, opaque, rgb, Palette, Rgba};
use crate::gui::settings::{edge_node_text, ip_preference_text};
use crate::gui::summary::{error_summary, one_line, summarize_launcher_error, Headline};
use crate::platform::Platform;
use crate::text::{
    clone_texts, decimal, decimal_text, opt_text, replaced, starts_with, strip_prefix, texts, trim,
    trimmed,
};

verus! {

// ---------------------------------------------------------------------------------------------
// The launcher
// ---------------------------------------------------------------------------------------------

/// The state in a word: what is under way comes first, a running service before an error.
pub open spec fn headline(app: AppValue) -> Headline {
    if app.task.busy {
        Headline::Busy
    } else if app.status.running {
        Headline::Running
    } else if app.status.last_error is Some {
        Headline::Broken
    } else {
        Headline::Idle
    }
}

/// The error that is shown: that of the service, and else that of the last action.
pub open spec fn shown_error(app: AppValue) -> Option<Seq<char>> {
    match app.status.last_error {
        Some(error) => Some(error),
        None => if starts_with(app.feedback, "操作失败: "@) {
            Some(app.feedback.skip("操作失败: "@.len() as int))
        } else {
            None
        },
    }
}

/// The state in a line, given what is made of an error.
pub open spec fn status_line(app: AppValue, of_error: spec_fn(Seq<char>) -> Seq<char>) -> Seq<char> {
    if app.task.busy {
        "正在申请权限并准备环境"@
    } else {
        match shown_error(app) {
            Some(error) => of_error(error),
            None => if app.status.running {
                "本地加速已启用"@
            } else {
                "点击左侧按钮即可开始"@
            },
        }
    }
}

/// The one line for an error.
pub open spec fn error_line(error: Seq<char>) -> Seq<char> {
    error_summary(one_line(error), lowercase(one_line(error)))
}

/// The button that starts or stops the service.
#[derive(Debug, Clone, Copy)]
pub struct PrimaryButton {
    pub label: &'static str,
    pub palette: Palette,
    pub enabled: bool,
    /// What pressing it asks for.
    pub action: GuiAction,
}

/// The buttons that choose the version of IP.
#[derive(Debug, Clone, Copy, PartialEq, Eq, Structural)]
pub struct IpToggle {
    pub ipv4_selected: bool,
    pub ipv6_selected: bool,
    pub enabled: bool,
}

// ---------------------------------------------------------------------------------------------
// The details
// ---------------------------------------------------------------------------------------------

/// The panel with the state of the service and the log.
#[derive(Debug)]
pub struct StatusPanel {
    pub status: String,
    pub error: String,
    pub error_color: Rgba,
    pub logs: Vec<String>,
}

/// The last lines of the log, or a line that says that there are none.
pub open spec fn shown_logs(logs: Seq<Seq<char>>) -> Seq<Seq<char>> {
    if logs.len() == 0 {
        seq!["暂无运行日志。执行开始、停止、恢复等操作后会在这里显示。"@]
    } else {
        logs
    }
}

/// A label and what stands below it.
#[derive(Debug)]
pub struct Row {
    pub label: String,
    pub value: String,
}

/// Rows, as texts.
pub open spec fn row_texts(rows: Seq<Row>) -> Seq<(Seq<char>, Seq<char>)> {
    Seq::new(rows.len(), |i: int| (rows[i].label@, rows[i].value@))
}

/// The address of a listener.
pub open spec fn listen_address(scheme: Seq<char>, host: Seq<char>, port: u16) -> Seq<char> {
    scheme + host + ":"@ + decimal(port as nat)
}

/// The panel with what the program takes over: three numbers and some rows.
#[derive(Debug)]
pub struct ScopePanel {
    pub hosts: String,
    pub doh: String,
    pub certificates: String,
    pub rows: Vec<Row>,
}

/// The rows of the panel with what the program takes over.
pub open spec fn scope_rows(app: AppValue) -> Seq<(Seq<char>, Seq<char>)> {
    let config = app.config;
    Seq::empty().push(
        (
            "监听状态"@,
            if app.status.running {
                "已监听"@
            } else {
                "未监听"@
            },
        ),
    ).push(
        ("HTTP 监听"@, listen_address("http://"@, config.listen_host, config.http_port)),
    ).push(
        ("HTTPS 监听"@, listen_address("https://"@, config.listen_host, config.https_port)),
    ).push(("解析优先"@, ip_preference_text(config.managed_prefer_ipv6))).push(
        ("边缘节点"@, edge_node_text(config.edge_node_override)),
    ).push(("上游"@, config.upstream)).push(
        (
            "DoH 端点"@,
            if config.doh_endpoints.len() > 0 {
                config.doh_endpoints[0]
            } else {
                "未配置"@
            },
        ),
    )
}

/// What can be done in the panel with the settings.
#[derive(Debug, Clone, Copy, PartialEq, Eq, Structural)]
pub struct ConfigPanel {
    pub input_enabled: bool,
    pub save_enabled: bool,
    pub clear_enabled: bool,
}

/// The settings can be changed: nothing is under way and the service does not run.
pub open spec fn settings_open(app: AppValue) -> bool {
    !app.task.busy && !app.status.running
}

/// The panel with the start at the login.
#[derive(Debug, Clone, Copy)]
pub struct AutostartPanel {
    pub checked: bool,
    pub enabled: bool,
    pub note: &'static str,
}

fn add_row(rows: &mut Vec<Row>, label: &str, value: String)
    ensures
        row_texts(final(rows)@) == row_texts(old(rows)@).push((label@, value@)),
{
    rows.push(Row { label: label.to_string(), value });
    assert(row_texts(rows@) =~= row_texts(old(rows)@).push((label@, value@)));
}

impl AcceleratorApp {
    /// The state in a word.
    pub fn headline_status(&self) -> (word: Headline)
        ensures
            word == headline(self@),
    {
        if self.task.busy {
            return Headline::Busy;
        }
        if self.status.running {
            return Headline::Running;
        }
        if self.status.last_error.is_some() {
            return Headline::Broken;
        }
        Headline::Idle
    }

    /// The error that is shown, if any.
    pub fn visible_error(&self) -> (error: Option<String>)
        ensures
            opt_text(error) == shown_error(self@),
    {
        match &self.status.last_error {
            Some(error) => Some(error.clone()),
            None => strip_prefix(self.feedback.as_str(), "操作失败: "),
        }
    }

    /// The state in a line.
    pub fn launcher_status_summary(&self) -> (line: String)
        ensures
            line@ == status_line(self@, |error: Seq<char>| error_line(error)),
    {
        if self.task.busy {
            return "正在申请权限并准备环境".to_string();
        }
        if let Some(error) = self.visible_error() {
            return summarize_launcher_error(error.as_str());
        }
        if self.status.running {
            return "本地加速已启用".to_string();
        }
        "点击左侧按钮即可开始".to_string()
    }

    /// The button that starts or stops the service.
    pub fn render_action_panel(&self) -> (button: PrimaryButton)
        ensures
            button.label@ == (if self@.status.running {
                "停止加速"@
            } else {
                "开始加速"@
            }),
            button.action == (if self@.status.running {
                GuiAction::Stop
            } else {
                GuiAction::Start
            }),
            button.enabled == !self@.task.busy,
            button.palette == (if self@.status.running {
                Palette {
                    fill: opaque(186, 63, 21),
                    text: opaque(248, 245, 243),
                    stroke: opaque(223, 109, 51),
                }
            } else {
                Palette {
                    fill: opaque(229, 171, 66),
                    text: opaque(29, 24, 16),
                    stroke: opaque(214, 158, 59),
                }
            }),
    {
        let running = self.status.running;
        PrimaryButton {
            label: if running {
                "停止加速"
            } else {
                "开始加速"
            },
            palette: launcher_primary_button(running),
            enabled: !self.task.busy,
            action: if running {
                GuiAction::Stop
            } else {
                GuiAction::Start
            },
        }
    }

    /// The buttons that choose the version of IP.
    pub fn render_ip_preference_toggle(&self) -> (toggle: IpToggle)
        ensures
            toggle == (IpToggle {
                ipv4_selected: !self@.config.managed_prefer_ipv6,
                ipv6_selected: self@.config.managed_prefer_ipv6,
                enabled: settings_open(self@),
            }),
    {
        IpToggle {
            ipv4_selected: !self.config.managed_prefer_ipv6,
            ipv6_selected: self.config.managed_prefer_ipv6,
            enabled: !self.task.busy && !self.status.running,
        }
    }

    /// The last lines of the log, or a line that says that there are none.
    pub fn recent_logs_or_placeholder(&self) -> (lines: Vec<String>)
        ensures
            texts(lines@) == shown_logs(self@.recent_logs),
    {
        if self.recent_logs.len() == 0 {
            let mut lines: Vec<String> = Vec::new();
            lines.push(
                "暂无运行日志。执行开始、停止、恢复等操作后会在这里显示。".to_string(),
            );
            assert(texts(lines@) =~= shown_logs(self@.recent_logs));
            lines
        } else {
            clone_texts(&self.recent_logs)
        }
    }

    /// The panel with the state of the service and the log.
    pub fn render_status_panel(&self) -> (panel: StatusPanel)
        ensures
            panel.status@ == self@.status.status_text,
            panel.error@ == (match self@.status.last_error {
                Some(error) => error,
                None => "暂无错误；异常会直接显示原因。"@,
            }),
            panel.error_color == (if self@.status.last_error is Some {
                opaque(235, 110, 90)
            } else {
                opaque(202, 208, 214)
            }),
            texts(panel.logs@) == shown_logs(self@.recent_logs),
    {
        let logs = self.recent_logs_or_placeholder();
        match &self.status.last_error {
            Some(error) => StatusPanel {
                status: self.status.status_text.clone(),
                error: error.clone(),
                error_color: rgb(235, 110, 90),
                logs,
            },
            None => StatusPanel {
                status: self.status.status_text.clone(),
                error: "暂无错误；异常会直接显示原因。".to_string(),
                error_color: rgb(202, 208, 214),
                logs,
            },
        }
    }

    /// The address of the listener for HTTP.
    pub fn http_listen_address(&self) -> (address: String)
        ensures
            address@ == listen_address(
                "http://"@,
                self@.config.listen_host,
                self@.config.http_port,
            ),
    {
        "http://".to_string().concat(self.config.listen_host.as_str()).concat(":").concat(
            decimal_text(self.config.http_port as u64).as_str(),
        )
    }

    /// The address of the listener for HTTPS.
    pub fn https_listen_address(&self) -> (address: String)
        ensures
            address@ == listen_address(
                "https://"@,
                self@.config.listen_host,
                self@.config.https_port,
            ),
    {
        "https://".to_string().concat(self.config.listen_host.as_str()).concat(":").concat(
            decimal_text(self.config.https_port as u64).as_str(),
        )
    }

    /// Whether the program listens, in a word.
    pub fn listen_state_label(&self) -> (label: &'static str)
        ensures
            label@ == (if self@.status.running {
                "已监听"@
            } else {
                "未监听"@
            }),
    {
        if self.status.running {
            "已监听"
        } else {
            "未监听"
        }
    }

    /// The panel with what the program takes over.
    pub fn render_scope_panel(&self) -> (panel: ScopePanel)
        ensures
            panel.hosts@ == decimal(self@.config.hosts_domains.len()),
            panel.doh@ == decimal(self@.config.doh_endpoints.len()),
            panel.certificates@ == decimal(self@.config.certificate_domains.len()),
            row_texts(panel.rows@) == scope_rows(self@),
    {
        let mut rows: Vec<Row> = Vec::new();
        assert(row_texts(rows@) =~= Seq::<(Seq<char>, Seq<char>)>::empty());
        add_row(&mut rows, "监听状态", self.listen_state_label().to_string());
        add_row(&mut rows, "HTTP 监听", self.http_listen_address());
        add_row(&mut rows, "HTTPS 监听", self.https_listen_address());
        add_row(&mut rows, "解析优先", self.ip_preference_label().to_string());
        add_row(&mut rows, "边缘节点", self.edge_node_label());
        add_row(&mut rows, "上游", self.config.upstream.clone());
        let endpoint = if self.config.doh_endpoints.len() > 0 {
            self.config.doh_endpoints[0].clone()
        } else {
            "未配置".to_string()
        };
        add_row(&mut rows, "DoH 端点", endpoint);
        ScopePanel {
            hosts: decimal_text(self.config.hosts_domains.len() as u64),
            doh: decimal_text(self.config.doh_endpoints.len() as u64),
            certificates: decimal_text(self.config.certificate_domains.len() as u64),
            rows,
        }
    }

    /// What can be done in the panel with the settings.
    pub fn render_config_panel(&self) -> (panel: ConfigPanel)
        ensures
            panel == (ConfigPanel {
                input_enabled: settings_open(self@),
                save_enabled: settings_open(self@),
                clear_enabled: settings_open(self@) && trimmed(self@.edge_node_input).len() > 0,
            }),
    {
        let input_enabled = !self.task.busy && !self.status.running;
        ConfigPanel {
            input_enabled,
            save_enabled: input_enabled,
            clear_enabled: input_enabled && !trim(
                self.edge_node_input.as_str(),
            ).as_str().is_empty(),
        }
    }

    /// The panel with the start at the login.
    pub fn render_autostart_panel(&self) -> (panel: AutostartPanel)
        ensures
            panel.checked == self@.autostart.enabled,
            panel.enabled == !self@.task.busy,
            panel.note@ == (if self@.platform is Windows {
                "勾选后系统登录时会通过计划任务启动本程序窗口并自动请求加速；首次开启或关闭时需要确认一次管理员/UAC 授权，后续开机无需再次确认。"@
            } else {
                "勾选后系统登录时会自动拉起本程序并申请权限启动加速；首次启动仍需要在系统弹窗中确认管理员/UAC 授权。"@
            }),
    {
        AutostartPanel {
            checked: self.autostart.enabled,
            enabled: !self.task.busy,
            note: match self.platform {
                Platform::Windows =>
                    "勾选后系统登录时会通过计划任务启动本程序窗口并自动请求加速；首次开启或关闭时需要确认一次管理员/UAC 授权，后续开机无需再次确认。",
                _ =>
                    "勾选后系统登录时会自动拉起本程序并申请权限启动加速；首次启动仍需要在系统弹窗中确认管理员/UAC 授权。",
            },
        }
    }
}

// ---------------------------------------------------------------------------------------------
// Laws
// ---------------------------------------------------------------------------------------------

/// An error of the service is never passed over: unless something is under way, the state in a
/// line speaks of it, and unless the service runs, so does the state in a word.
pub proof fn law_errors_are_shown(
    app: AppValue,
    error: Seq<char>,
    of_error: spec_fn(Seq<char>) -> Seq<char>,
)
    requires
        app.status.last_error == Some(error),
        !app.task.busy,
    ensures
        status_line(app, of_error) == of_error(error),
        !app.status.running ==> headline(app) == Headline::Broken,
{
}

/// What is shown in a word follows the state: an action that is under way comes first, a service that
/// runs before an error, and a service at rest last.
pub proof fn law_headline_follows_the_state(app: AppValue)
    ensures
        headline(app) is Busy <==> app.task.busy,
        headline(app) is Running <==> !app.task.busy && app.status.running,
        headline(app) is Broken <==> !app.task.busy && !app.status.running
            && app.status.last_error is Some,
        headline(app) is Idle <==> !app.task.busy && !app.status.running
            && app.status.last_error is None,
{
}

/// The error that is shown is that of the service, and otherwise what stands in the message of the last
/// action behind the words that tell of a failure.
pub proof fn law_shown_error_is_the_last(app: AppValue, message: Seq<char>)
    ensures
        app.status.last_error is Some ==> shown_error(app) == app.status.last_error,
        app.status.last_error is None && app.feedback == "操作失败: "@ + message ==> shown_error(app)
            == Some(message),
        app.status.last_error is None && !starts_with(app.feedback, "操作失败: "@) ==> shown_error(
            app,
        ) is None,
{
    let mark = "操作失败: "@;
    assert((mark + message).take(mark.len() as int) =~= mark);
    assert((mark + message).skip(mark.len() as int) =~= message);
}

/// What is shown in a line follows the state.
pub proof fn law_line_follows_the_state(app: AppValue, of_error: spec_fn(Seq<char>) -> Seq<char>)
    ensures
        app.task.busy ==> status_line(app, of_error) == "正在申请权限并准备环境"@,
        !app.task.busy && shown_error(app) is Some ==> status_line(app, of_error) == of_error(
            shown_error(app)->0,
        ),
        !app.task.busy && shown_error(app) is None && app.status.running ==> status_line(
            app,
            of_error,
        ) == "本地加速已启用"@,
        !app.task.busy && shown_error(app) is None && !app.status.running ==> status_line(
            app,
            of_error,
        ) == "点击左侧按钮即可开始"@,
{
}

/// The log is shown as it is, line by line, and an empty one by a line that says so.
pub proof fn law_log_is_shown_in_full(logs: Seq<Seq<char>>)
    ensures
        logs.len() > 0 ==> shown_logs(logs) == logs,
        logs.len() == 0 ==> shown_logs(logs) == seq![
            "暂无运行日志。执行开始、停止、恢复等操作后会在这里显示。"@,
        ],
{
}

/// The rows of the panel with what the program takes over show the settings that they speak of.
pub proof fn law_scope_shows_the_settings(app: AppValue)
    ensures
        ({
            let rows = scope_rows(app);
            let config = app.config;
            &&& rows.len() == 7
            &&& rows[0].0 == "监听状态"@
            &&& app.status.running ==> rows[0].1 == "已监听"@
            &&& !app.status.running ==> rows[0].1 == "未监听"@
            &&& rows[1] == (
                "HTTP 监听"@,
                "http://"@ + config.listen_host + ":"@ + decimal(config.http_port as nat),
            )
            &&& rows[2] == (
                "HTTPS 监听"@,
                "https://"@ + config.listen_host + ":"@ + decimal(config.https_port as nat),
            )
            &&& rows[3].0 == "解析优先"@
            &&& config.managed_prefer_ipv6 ==> rows[3].1 == "IPv6 优先"@
            &&& !config.managed_prefer_ipv6 ==> rows[3].1 == "IPv4 优先"@
            &&& rows[4].0 == "边缘节点"@
            &&& config.edge_node_override is Some ==> rows[4].1 == config.edge_node_override->0
            &&& config.edge_node_override is None ==> rows[4].1 == "自动"@
            &&& rows[5] == ("上游"@, config.upstream)
            &&& rows[6].0 == "DoH 端点"@
            &&& config.doh_endpoints.len() > 0 ==> rows[6].1 == config.doh_endpoints[0]
            &&& config.doh_endpoints.len() == 0 ==> rows[6].1 == "未配置"@
        }),
        settings_open(app) <==> !app.task.busy && !app.status.running,
{
}

/// The address of a listener names its scheme, its host and its port.
pub proof fn law_address_names_the_port(scheme: Seq<char>, host: Seq<char>, port: u16)
    ensures
        listen_address(scheme, host, port) == scheme + host + ":"@ + decimal(port as nat),
{
}

/// The one line for an error is made from its text in one line, and from the same in small letters.
pub proof fn law_error_line_is_a_summary(error: Seq<char>)
    ensures
        error_line(error) == error_summary(
            replaced(error, '\n', " "@),
            lowercase(replaced(error, '\n', " "@)),
        ),
{
}

} // verus!
