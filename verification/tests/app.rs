use linuxdo_accelerator::config::AppConfig;
use linuxdo_accelerator::failure::Failure;
use linuxdo_accelerator::gui::action::GuiAction;
use linuxdo_accelerator::gui::app::{
    load_recent_runtime_logs, AcceleratorApp, ActionEvent, Effects, FileStamp, Observation,
    Surroundings, UiPage, RECENT_LOG_LINES,
};
use linuxdo_accelerator::gui::palette::{
    ip_priority_button, launcher_secondary_button, rgb, subtle_button, title_bar_button, Rgba,
};
use linuxdo_accelerator::gui::settings::{save_current_config, SaveRun};
use linuxdo_accelerator::gui::summary::{
    summarize_compact_error, summarize_launcher_error, Headline,
};
use linuxdo_accelerator::gui::window::{
    drag_area, launcher_window_size, run, use_native_wayland_frame, CloseDecision, Size,
    TrayCommand, WindowCommand,
};
use linuxdo_accelerator::platform::Platform;
use linuxdo_accelerator::state::ServiceState;

const NOW: u64 = 100_000;

fn status(running: bool, error: Option<&str>) -> ServiceState {
    ServiceState {
        running,
        pid: if running { Some(5) } else { None },
        status_text: "text".to_string(),
        last_error: error.map(|message| message.to_string()),
        updated_at: 1,
    }
}

fn config() -> AppConfig {
    AppConfig {
        listen_host: "127.0.0.1".to_string(),
        hosts_ip: "127.0.0.1".to_string(),
        http_port: 80,
        https_port: 443,
        managed_prefer_ipv6: false,
        autostart: false,
        edge_node: None,
        edge_node_override: None,
        upstream: "https://linux.do".to_string(),
        hosts_domains: vec!["linux.do".to_string(), "www.linux.do".to_string()],
        doh_endpoints: vec![],
        certificate_domains: vec!["linux.do".to_string()],
    }
}

fn surroundings(running: bool) -> Surroundings {
    Surroundings {
        config: config(),
        autostart_enabled: false,
        config_modified_at: Some(stamp(1)),
        status: Some(status(running, None)),
        lease_exists: false,
        recent_logs: vec![],
        runtime_log_modified_at: None,
        has_tray: true,
        epoch_seconds: 9,
    }
}

fn opened(platform: Platform, running: bool) -> AcceleratorApp {
    AcceleratorApp::new(platform, surroundings(running), false, NOW)
}

fn stamp(seconds: i64) -> FileStamp {
    FileStamp { seconds, nanos: 0 }
}

fn observation(state: Option<ServiceState>) -> Observation {
    Observation {
        status: state,
        log_stamp: None,
        recent_logs: vec![],
        config_stamp: Some(stamp(1)),
        config: None,
    }
}

fn failure(message: &str) -> Failure {
    Failure::new(message.to_string())
}

#[test]
fn the_interface_opens_idle() {
    let mut found = surroundings(false);
    found.status = None;
    found.lease_exists = true;
    found.config.edge_node_override = Some("1.2.3.4".to_string());
    let app = AcceleratorApp::new(Platform::Linux, found, true, NOW);
    assert_eq!(app.status.status_text, "未启动");
    assert_eq!(app.status.updated_at, 9);
    assert!(app.lease.owned && app.lease.heartbeat);
    assert_eq!(app.edge_node_input, "1.2.3.4");
    assert_eq!(app.last_refresh, NOW - 2_000);
    assert!(app.autostart.pending && app.window.center_pending);
    assert!(!app.task.busy && !app.task.waiting);
}

#[test]
fn a_start_takes_the_lease_and_keeps_it() {
    let mut app = opened(Platform::Linux, false);
    assert!(app.wants_lease(GuiAction::Start));
    assert!(!app.wants_lease(GuiAction::Stop));
    let effects = app.trigger_action(GuiAction::Start, true);
    assert_eq!(
        effects,
        Effects {
            stop_heartbeat: false,
            start_heartbeat: true,
            clear_lease: false,
            execute: Some(GuiAction::Start)
        }
    );
    assert!(app.task.busy && app.lease.owned && app.lease.heartbeat);
    assert_eq!(app.feedback, "正在申请权限并启动加速...");
    let again = app.trigger_action(GuiAction::Stop, true);
    assert_eq!(again.execute, None);
    assert_eq!(app.task.pending, Some(GuiAction::Start));
    let effects = app.poll_action(ActionEvent::Succeeded("好".to_string()), None, NOW);
    assert!(!effects.clear_lease && !effects.stop_heartbeat);
    assert!(!app.task.busy && !app.task.waiting && app.task.pending.is_none());
    assert!(app.status.running);
    assert_eq!(app.status.status_text, "加速中");
    assert_eq!(app.feedback, "好");
    assert_eq!(app.optimistic_running, Some((true, NOW + 4_000)));
}

#[test]
fn a_start_without_a_lease_is_begun_all_the_same() {
    let mut app = opened(Platform::Linux, false);
    let effects = app.trigger_action(GuiAction::Start, false);
    assert!(!effects.start_heartbeat);
    assert_eq!(effects.execute, Some(GuiAction::Start));
    assert!(!app.lease.owned);
}

#[test]
fn a_failed_start_gives_the_lease_up() {
    let mut app = opened(Platform::Linux, false);
    app.trigger_action(GuiAction::Start, true);
    let event = ActionEvent::Failed("no rights".to_string());
    assert!(!app.wants_observation(&event));
    let effects = app.poll_action(event, None, NOW);
    assert!(effects.clear_lease && effects.stop_heartbeat);
    assert!(!app.lease.owned && !app.lease.heartbeat && !app.status.running);
    assert_eq!(app.status.status_text, "启动失败");
    assert_eq!(app.status.last_error.as_deref(), Some("no rights"));
    assert_eq!(app.feedback, "操作失败: no rights");
    assert_eq!(app.last_refresh, NOW - 2_000);
}

#[test]
fn a_stop_gives_the_lease_up() {
    let mut app = opened(Platform::Linux, true);
    app.lease.owned = true;
    app.lease.heartbeat = true;
    app.trigger_action(GuiAction::Stop, false);
    let effects = app.poll_action(ActionEvent::Succeeded("已停".to_string()), None, NOW);
    assert!(effects.clear_lease && effects.stop_heartbeat);
    assert!(!app.status.running && !app.lease.owned);
    assert_eq!(app.status.status_text, "已停止");
    assert_eq!(app.status.pid, Some(5));
    assert_eq!(app.optimistic_running, Some((false, NOW + 4_000)));
}

#[test]
fn a_failed_stop_looks_at_the_service_again() {
    let mut app = opened(Platform::Linux, true);
    app.trigger_action(GuiAction::Stop, false);
    let event = ActionEvent::Failed("denied".to_string());
    assert!(app.wants_observation(&event));
    let mut fresh = status(true, None);
    fresh.status_text = "fresh".to_string();
    app.poll_action(event, Some(observation(Some(fresh))), NOW);
    assert!(app.status.running);
    assert_eq!(app.status.status_text, "fresh");
    assert_eq!(app.status.last_error.as_deref(), Some("denied"));
    assert_eq!(app.feedback, "操作失败: denied");
}

#[test]
fn an_action_without_a_result_is_given_up() {
    let mut app = opened(Platform::Linux, false);
    app.trigger_action(GuiAction::Start, true);
    app.poll_action(ActionEvent::Empty, None, NOW);
    assert!(app.task.busy);
    app.poll_action(ActionEvent::Disconnected, None, NOW);
    assert!(!app.task.busy && !app.task.waiting);
    assert_eq!(app.feedback, "后台任务意外中断");
    assert!(app.lease.owned);
    let before = app.feedback.clone();
    app.poll_action(ActionEvent::Failed("late".to_string()), None, NOW);
    assert_eq!(app.feedback, before);
}

#[test]
fn expectations_end_and_yield_to_errors() {
    let mut app = opened(Platform::Linux, false);
    app.optimistic_running = Some((true, NOW + 4_000));
    let shown = app.apply_optimistic_state(status(false, None), NOW + 3_999);
    assert!(shown.running);
    assert_eq!(shown.status_text, "加速中");
    assert!(!app.apply_optimistic_state(status(false, Some("e")), NOW).running);
    assert!(!app.apply_optimistic_state(status(false, None), NOW + 4_000).running);
    assert_eq!(app.optimistic_running, None);
    app.optimistic_running = Some((false, NOW + 4_000));
    let shown = app.apply_optimistic_state(status(true, None), NOW);
    assert!(!shown.running);
    assert_eq!(shown.pid, None);
    assert_eq!(shown.status_text, "已停止");
}

#[test]
fn files_are_read_again_when_they_change() {
    let mut app = opened(Platform::Linux, false);
    assert!(!app.wants_logs(None));
    assert!(app.wants_logs(Some(stamp(2))));
    assert!(!app.wants_config(Some(stamp(1))));
    assert!(app.wants_config(None));
    let mut changed = config();
    changed.edge_node_override = Some("edge".to_string());
    app.refresh_status(
        Observation {
            status: None,
            log_stamp: Some(stamp(2)),
            recent_logs: vec!["line".to_string()],
            config_stamp: Some(stamp(3)),
            config: Some(changed),
        },
        NOW,
    );
    assert_eq!(app.recent_logs, vec!["line"]);
    assert_eq!(app.edge_node_input, "edge");
    assert_eq!(app.config_modified_at, Some(stamp(3)));
    app.edge_node_input = "typing".to_string();
    app.refresh_status(
        Observation {
            status: None,
            log_stamp: Some(stamp(2)),
            recent_logs: vec![],
            config_stamp: Some(stamp(4)),
            config: None,
        },
        NOW,
    );
    assert_eq!(app.recent_logs, vec!["line"]);
    assert_eq!(app.edge_node_input, "typing");
    assert_eq!(app.config_modified_at, Some(stamp(4)));
}

#[test]
fn the_edge_node_is_changed_while_the_service_rests() {
    let mut app = opened(Platform::Linux, true);
    assert!(!app.set_edge_node_override());
    assert_eq!(app.feedback, "请先停止加速，再修改边缘节点");
    let mut app = opened(Platform::Linux, false);
    app.edge_node_input = "   ".to_string();
    assert!(!app.set_edge_node_override());
    assert_eq!(app.feedback, "边缘节点未变化");
    app.edge_node_input = " 1.2.3.4 ".to_string();
    assert!(app.set_edge_node_override());
    assert_eq!(app.config.edge_node.as_deref(), Some("1.2.3.4"));
    app.edge_node_saved(Ok(Some(stamp(8))), Some("1.2.3.4".to_string()));
    assert_eq!(app.feedback, "已设置边缘节点：1.2.3.4");
    assert_eq!(app.edge_node_input, "1.2.3.4");
    assert_eq!(app.config_modified_at, Some(stamp(8)));
    assert_eq!(app.edge_node_label(), "1.2.3.4");
    assert!(!app.set_edge_node_override());
    app.edge_node_input = String::new();
    assert!(app.set_edge_node_override());
    app.edge_node_saved(Err(failure("full").context("write".to_string())), None);
    assert_eq!(app.feedback, "保存配置失败: write\ncaused by: full");
    assert_eq!(app.edge_node_label(), "自动");
    app.edge_node_saved(Ok(None), None);
    assert_eq!(app.feedback, "已恢复自动选择边缘节点");
}

#[test]
fn the_version_of_ip_is_changed_while_the_service_rests() {
    let mut app = opened(Platform::Linux, true);
    assert!(!app.set_ip_preference(true));
    assert_eq!(app.feedback, "请先停止加速，再切换 IPv4 / IPv6 优先级");
    assert!(!app.config.managed_prefer_ipv6);
    let mut app = opened(Platform::Linux, false);
    assert!(!app.set_ip_preference(false));
    assert_eq!(app.feedback, "");
    assert!(app.set_ip_preference(true));
    app.ip_preference_saved(Ok(Some(stamp(2))));
    assert_eq!(app.feedback, "已切换为IPv6 优先");
    app.ip_preference_saved(Err(failure("e")));
    assert_eq!(app.feedback, "保存配置失败: e");
}

#[test]
fn the_start_at_the_login_is_switched() {
    let mut app = opened(Platform::Linux, false);
    assert!(!app.set_autostart(false));
    assert!(app.set_autostart(true));
    assert!(app.autostart_told(true, Ok(()), false));
    assert!(app.autostart.enabled && app.config.autostart);
    app.autostart_saved(true, Ok(None));
    assert_eq!(app.feedback, "已开启开机自动启动加速");
    app.autostart_saved(false, Ok(None));
    assert_eq!(app.feedback, "已关闭开机自动启动加速");
    app.autostart_saved(true, Err(failure("e")));
    assert_eq!(app.feedback, "已切换开机自启，但保存配置失败: e");
    assert!(!app.autostart_told(false, Err(failure("denied")), true));
    assert!(app.autostart.enabled && app.config.autostart);
    assert_eq!(app.feedback, "修改开机自启失败: denied");
}

#[test]
fn settings_are_saved_or_the_reason_is_told() {
    let stamp = FileStamp { seconds: 7, nanos: 0 };
    assert_eq!(save_current_config("/a.toml", SaveRun::Written(Some(stamp))).unwrap(), Some(stamp));
    let message = |run: SaveRun| save_current_config("/a.toml", run).unwrap_err().message;
    assert_eq!(message(SaveRun::NotSerialized(failure("e"))), "failed to serialize config");
    assert_eq!(message(SaveRun::NotWritten(failure("e"))), "failed to write config /a.toml");
}

#[test]
fn the_login_starts_the_service_once() {
    let mut app = AcceleratorApp::new(Platform::Linux, surroundings(false), true, NOW);
    app.trigger_action(GuiAction::Stop, false);
    assert_eq!(app.maybe_autostart(), None);
    assert!(app.autostart.pending);
    app.poll_action(ActionEvent::Disconnected, None, NOW);
    assert_eq!(app.maybe_autostart(), Some(GuiAction::Start));
    assert_eq!(app.feedback, "自动启动已请求加速...");
    assert_eq!(app.maybe_autostart(), None);
    let mut app = AcceleratorApp::new(Platform::Linux, surroundings(true), true, NOW);
    assert_eq!(app.maybe_autostart(), None);
    assert!(!app.autostart.pending);
}

#[test]
fn the_window_hides_behind_its_icon() {
    let mut app = opened(Platform::Linux, true);
    assert!(app.wants_hiding(true));
    assert!(!app.wants_hiding(false));
    assert_eq!(
        app.minimize_to_tray(&Ok(())),
        vec![WindowCommand::ShowTray, WindowCommand::Minimize, WindowCommand::Repaint]
    );
    assert!(app.window.hidden_to_tray && app.window.last_minimized);
    app.sync_minimize_to_tray(true);
    assert!(!app.window.last_minimized);
    assert!(!app.wants_hiding(true));
    assert_eq!(app.repaint_interval(), 15_000);
    assert_eq!(
        app.poll_tray_events(TrayCommand::Restore),
        vec![
            WindowCommand::HideTray,
            WindowCommand::Unminimize,
            WindowCommand::Focus,
            WindowCommand::Repaint
        ]
    );
    assert!(!app.window.hidden_to_tray);
    assert!(!app.wants_hiding(true));
    assert_eq!(
        app.poll_tray_events(TrayCommand::Quit),
        vec![WindowCommand::QuitTray, WindowCommand::Close]
    );
    assert!(app.window.allow_close);
}

#[test]
fn the_window_is_minimized_where_it_cannot_hide() {
    let mut app = opened(Platform::Windows, true);
    app.window.has_tray = false;
    assert_eq!(
        app.minimize_to_tray(&Ok(())),
        vec![WindowCommand::Minimize, WindowCommand::Repaint]
    );
    assert_eq!(app.feedback, "托盘不可用，已退回系统最小化");
    assert_eq!(app.poll_tray_events(TrayCommand::Quit), vec![WindowCommand::Close]);
    let mut app = opened(Platform::Macos, true);
    assert_eq!(app.minimize_to_tray(&Ok(())), vec![WindowCommand::Close]);
    assert!(app.window.allow_close);
    let mut app = opened(Platform::Macos, true);
    app.minimize_to_tray(&Err(failure("no shell")));
    assert_eq!(app.feedback, "托盘最小化失败，已退回系统最小化: no shell");
    assert!(!app.window.allow_close);
    let mut app = opened(Platform::Other, true);
    assert_eq!(app.minimize_to_tray(&Ok(())), vec![WindowCommand::Minimize]);
}

#[test]
fn a_running_service_keeps_the_window() {
    let mut app = opened(Platform::Linux, true);
    assert_eq!(app.close_window_or_hide_to_tray(), CloseDecision::Hide);
    assert_eq!(app.handle_close_requested(true), CloseDecision::Hide);
    assert_eq!(app.handle_close_requested(false), CloseDecision::Ignore);
    assert!(!app.window.allow_close);
    let mut app = opened(Platform::Linux, false);
    assert!(!app.should_keep_alive_after_window_close());
    assert_eq!(app.handle_close_requested(true), CloseDecision::Close);
    assert_eq!(app.handle_close_requested(true), CloseDecision::Ignore);
    let mut app = opened(Platform::Linux, false);
    app.lease.owned = true;
    assert_eq!(app.close_window_or_hide_to_tray(), CloseDecision::Hide);
    let mut app = opened(Platform::Other, true);
    assert_eq!(app.close_window_or_hide_to_tray(), CloseDecision::Close);
    assert_eq!(app.handle_close_requested(true), CloseDecision::Ignore);
}

#[test]
fn drawing_follows_what_happens() {
    let mut app = opened(Platform::Linux, false);
    assert_eq!(app.repaint_interval(), 5_000);
    assert!(!app.update(NOW + 2_999).refresh);
    assert!(app.update(NOW + 3_000).refresh);
    assert!(!app.update(0).refresh);
    app.note_refresh(NOW);
    app.task.confirm = Some(GuiAction::Stop);
    assert_eq!(app.update(NOW + 99).repaint_after, 100);
    assert!(!app.update(NOW + 99).refresh);
    assert!(app.update(NOW + 100).refresh);
    let fitting = app.ensure_launcher_viewport();
    assert!(fitting.fit && fitting.center);
    assert!(!app.ensure_launcher_viewport().center);
    app.navigate_to(UiPage::Details, false);
    assert!(!app.ensure_launcher_viewport().fit);
}

#[test]
fn confirmations_are_settled() {
    let mut app = opened(Platform::Linux, false);
    app.task.confirm = Some(GuiAction::Stop);
    assert_eq!(app.show_confirm_action_dialog(false, false, true), None);
    assert_eq!(app.task.confirm, Some(GuiAction::Stop));
    assert_eq!(app.show_confirm_action_dialog(true, false, true), Some(GuiAction::Stop));
    assert_eq!(app.task.confirm, None);
    app.task.confirm = Some(GuiAction::Start);
    assert_eq!(app.show_confirm_action_dialog(false, false, false), None);
    assert_eq!(app.task.confirm, None);
}

#[test]
fn the_lease_outlives_the_window_of_a_running_service() {
    let mut app = opened(Platform::Linux, true);
    app.lease.owned = true;
    app.lease.heartbeat = true;
    let effects = app.on_exit();
    assert!(effects.stop_heartbeat && !effects.clear_lease);
    assert!(app.lease.owned && !app.lease.heartbeat);
    let mut app = opened(Platform::Linux, false);
    assert!(app.on_exit().clear_lease);
}

#[test]
fn pages_have_their_sizes() {
    assert!(use_native_wayland_frame(Platform::Linux, true, None));
    assert!(use_native_wayland_frame(Platform::Linux, false, Some("Wayland")));
    assert!(!use_native_wayland_frame(Platform::Linux, false, Some("x11")));
    assert!(!use_native_wayland_frame(Platform::Windows, true, Some("wayland")));
    assert_eq!(launcher_window_size(true), Size { width: 620, height: 186 });
    assert_eq!(launcher_window_size(false), Size { width: 620, height: 240 });
    let mut app = opened(Platform::Linux, false);
    let layout = app.navigate_to(UiPage::Details, true);
    assert!(layout.resizable);
    assert_eq!(layout.max, Size { width: 1200, height: 900 });
    assert_eq!(run(false).layout.min, Size { width: 620, height: 240 });
    assert!(run(true).decorations);
    assert!(drag_area(false, true, true, false));
    assert!(!drag_area(true, true, true, false));
    assert!(!drag_area(false, true, true, true));
}

#[test]
fn the_state_is_told_in_a_word_and_a_line() {
    let mut app = opened(Platform::Linux, false);
    assert_eq!(app.headline_status(), Headline::Idle);
    assert_eq!(app.launcher_status_summary(), "点击左侧按钮即可开始");
    app.feedback = "操作失败: bad DoH reply".to_string();
    assert_eq!(app.launcher_status_summary(), "DoH 配置或连接失败，请查看详情");
    app.status.last_error = Some("plain".to_string());
    assert_eq!(app.headline_status(), Headline::Broken);
    assert_eq!(app.launcher_status_summary(), "plain");
    app.status = status(true, None);
    app.feedback = String::new();
    assert_eq!(app.headline_status(), Headline::Running);
    assert_eq!(app.launcher_status_summary(), "本地加速已启用");
    app.trigger_action(GuiAction::Stop, false);
    assert_eq!(app.headline_status(), Headline::Busy);
    assert_eq!(app.launcher_status_summary(), "正在申请权限并准备环境");
    assert_eq!(Headline::Busy.label(), "处理中");
    assert_eq!(Headline::Running.card_title(), "加速已生效");
    assert_eq!(Headline::Broken.accent(), rgb(255, 120, 100));
    assert_eq!(Headline::Idle.card_title(), "等待启动");
}

#[test]
fn errors_are_summed_up() {
    assert_eq!(
        summarize_launcher_error("Failed to Bind HTTP Listener"),
        "80 端口监听失败，请查看详情"
    );
    assert_eq!(summarize_launcher_error("bind 127.0.0.1:443"), "443 端口监听失败，请查看详情");
    assert_eq!(summarize_launcher_error("Permission\ndenied"), "权限申请失败，请查看详情");
    assert_eq!(summarize_launcher_error("ELEVATION refused"), "权限申请失败，请查看详情");
    assert_eq!(summarize_launcher_error("a\nb"), "a b");
    assert_eq!(
        summarize_launcher_error("0123456789012345678901234567890123"),
        "0123456789012345678901234567890123"
    );
    assert_eq!(
        summarize_launcher_error("01234567890123456789012345678901234"),
        "0123456789012345678901234567890123..."
    );
    assert_eq!(summarize_compact_error("X", "doh"), "DoH 配置或连接失败，请查看详情");
    assert_eq!(summarize_compact_error("DoH", "x"), "DoH");
}

#[test]
fn panels_show_the_state() {
    let mut app = opened(Platform::Linux, false);
    let button = app.render_action_panel();
    assert_eq!((button.label, button.action, button.enabled), ("开始加速", GuiAction::Start, true));
    assert_eq!(button.palette.fill, rgb(229, 171, 66));
    let panel = app.render_status_panel();
    assert_eq!(panel.error, "暂无错误；异常会直接显示原因。");
    assert_eq!(panel.logs.len(), 1);
    assert!(app.render_config_panel().input_enabled);
    assert!(!app.render_config_panel().clear_enabled);
    app.edge_node_input = "x".to_string();
    assert!(app.render_config_panel().clear_enabled);
    assert!(app.render_ip_preference_toggle().ipv4_selected);
    app.status = status(true, Some("e"));
    app.recent_logs = vec!["a".to_string(), "b".to_string()];
    assert_eq!(app.recent_logs_or_placeholder(), vec!["a", "b"]);
    assert_eq!(app.render_status_panel().error_color, rgb(235, 110, 90));
    assert_eq!(app.render_action_panel().label, "停止加速");
    assert!(!app.render_ip_preference_toggle().enabled);
    assert!(app.render_autostart_panel().note.starts_with("勾选后系统登录时会自动拉起"));
    assert!(opened(Platform::Windows, true)
        .render_autostart_panel()
        .note
        .starts_with("勾选后系统登录时会通过计划任务"));
}

#[test]
fn the_scope_is_listed() {
    let mut app = opened(Platform::Linux, true);
    let panel = app.render_scope_panel();
    assert_eq!((panel.hosts.as_str(), panel.doh.as_str(), panel.certificates.as_str()), ("2", "0", "1"));
    let rows: Vec<(String, String)> =
        panel.rows.into_iter().map(|row| (row.label, row.value)).collect();
    let expected = [
        ("监听状态", "已监听"),
        ("HTTP 监听", "http://127.0.0.1:80"),
        ("HTTPS 监听", "https://127.0.0.1:443"),
        ("解析优先", "IPv4 优先"),
        ("边缘节点", "自动"),
        ("上游", "https://linux.do"),
        ("DoH 端点", "未配置"),
    ];
    for (row, want) in rows.iter().zip(expected.iter()) {
        assert_eq!((row.0.as_str(), row.1.as_str()), *want);
    }
    assert_eq!(rows.len(), expected.len());
    app.config.doh_endpoints = vec!["https://doh".to_string()];
    assert_eq!(app.render_scope_panel().rows[6].value, "https://doh");
}

#[test]
fn buttons_have_their_colours() {
    assert_eq!(
        title_bar_button(true, true).fill,
        Rgba { red: 200, green: 60, blue: 50, alpha: 35 }
    );
    assert_eq!(title_bar_button(false, true).text, rgb(220, 225, 230));
    assert_eq!(title_bar_button(true, false).stroke, rgb(42, 48, 56));
    assert_eq!(subtle_button(true).fill, rgb(28, 33, 40));
    assert_eq!(subtle_button(false).text, rgb(126, 133, 141));
    assert_eq!(launcher_secondary_button(true).stroke, rgb(70, 76, 84));
    assert_eq!(ip_priority_button(true).text, rgb(29, 24, 16));
    assert_eq!(ip_priority_button(false).text, rgb(216, 221, 226));
}

#[test]
fn a_log_that_cannot_be_read_is_empty() {
    let lines = vec!["a".to_string(), "b".to_string()];
    assert_eq!(load_recent_runtime_logs(Some(Ok(lines.clone()))), lines);
    assert!(load_recent_runtime_logs(Some(Err(Failure::new("e".to_string())))).is_empty());
    assert!(load_recent_runtime_logs(None).is_empty());
    assert_eq!(RECENT_LOG_LINES, 12);
}
