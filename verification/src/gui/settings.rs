//! The settings that can be changed from the interface. A change is made in the settings that the
//! interface holds, and then they are to be written to their file; what came of that is handed
//! back.

use vstd::prelude::*;
use vstd::string::*;

use crate::config::AppConfigValue;
use crate::failure::{error_chain, format_error_chain, outcome, Failure};
use crate::gui::action::GuiAction;
use crate::gui::app::{or_empty, text_or_empty, AcceleratorApp, AppValue, Autostart, FileStamp};
use crate::text::{lemma_trimmed, lemma_trimmed_of_tight, opt_text, same_opt_text, trim, trimmed};

verus! {

/// What came of writing the settings: the time at which the file was changed, or a failure.
pub open spec fn save_outcome(saved: Result<Option<FileStamp>, Failure>) -> Result<
    Option<FileStamp>,
    Seq<Seq<char>>,
> {
    match saved {
        Ok(stamp) => Ok(stamp),
        Err(failure) => Err(failure@),
    }
}

/// What happened when the settings were written.
#[derive(Debug)]
pub enum SaveRun {
    /// They could not be put into writing.
    NotSerialized(Failure),
    /// Their file could not be written.
    NotWritten(Failure),
    /// Their file was written, and was then last changed at this time.
    Written(Option<FileStamp>),
}

/// What came of writing the settings to the file `config_path`.
pub fn save_current_config(config_path: &str, run: SaveRun) -> (saved: Result<
    Option<FileStamp>,
    Failure,
>)
    ensures
        save_outcome(saved) == (match run {
            SaveRun::NotSerialized(error) => Err(seq!["failed to serialize config"@] + error@),
            SaveRun::NotWritten(error) => Err(
                seq!["failed to write config "@ + config_path@] + error@,
            ),
            SaveRun::Written(stamp) => Ok(stamp),
        }),
{
    match run {
        SaveRun::NotSerialized(error) => Err(
            error.context("failed to serialize config".to_string()),
        ),
        SaveRun::NotWritten(error) => Err(
            error.context("failed to write config ".to_string().concat(config_path)),
        ),
        SaveRun::Written(stamp) => Ok(stamp),
    }
}

// ---------------------------------------------------------------------------------------------
// The edge node
// ---------------------------------------------------------------------------------------------

/// The edge node that the user has typed in; none where the input is blank.
pub open spec fn typed_edge_node(app: AppValue) -> Option<Seq<char>> {
    if trimmed(app.edge_node_input).len() == 0 {
        None
    } else {
        Some(trimmed(app.edge_node_input))
    }
}

/// The edge node is to be changed and the settings are to be written.
pub open spec fn edge_node_changes(app: AppValue) -> bool {
    !app.status.running && app.config.edge_node_override != typed_edge_node(app)
}

/// The interface once the edge node is asked to be what the user has typed in.
pub open spec fn with_typed_edge_node(app: AppValue) -> AppValue {
    if app.status.running {
        AppValue { feedback: "请先停止加速，再修改边缘节点"@, ..app }
    } else if app.config.edge_node_override == typed_edge_node(app) {
        AppValue { feedback: "边缘节点未变化"@, ..app }
    } else {
        AppValue {
            config: AppConfigValue { edge_node: typed_edge_node(app), ..app.config },
            ..app
        }
    }
}

/// The edge node as it is shown.
pub open spec fn edge_node_text(edge_node_override: Option<Seq<char>>) -> Seq<char> {
    match edge_node_override {
        Some(node) => node,
        None => "自动"@,
    }
}

/// The interface after the settings with a new edge node were written or not, where `chosen` is
/// the edge node that now takes the place of an automatic choice.
pub open spec fn with_saved_edge_node(
    app: AppValue,
    saved: Result<Option<FileStamp>, Seq<Seq<char>>>,
    chosen: Option<Seq<char>>,
) -> AppValue {
    let changed = AppValue {
        config: AppConfigValue { edge_node_override: chosen, ..app.config },
        ..app
    };
    match saved {
        Ok(stamp) => AppValue {
            config_modified_at: stamp,
            edge_node_input: or_empty(chosen),
            feedback: if chosen is Some {
                "已设置边缘节点："@ + edge_node_text(chosen)
            } else {
                "已恢复自动选择边缘节点"@
            },
            ..changed
        },
        Err(messages) => AppValue {
            feedback: "保存配置失败: "@ + error_chain(messages),
            ..changed
        },
    }
}

// ---------------------------------------------------------------------------------------------
// The version of IP
// ---------------------------------------------------------------------------------------------

/// The version of IP that is preferred, as it is shown.
pub open spec fn ip_preference_text(prefer_ipv6: bool) -> Seq<char> {
    if prefer_ipv6 {
        "IPv6 优先"@
    } else {
        "IPv4 优先"@
    }
}

/// The preference is to be changed and the settings are to be written.
pub open spec fn ip_preference_changes(app: AppValue, prefer_ipv6: bool) -> bool {
    !app.status.running && app.config.managed_prefer_ipv6 != prefer_ipv6
}

/// The interface once a version of IP is asked for.
pub open spec fn with_ip_preference(app: AppValue, prefer_ipv6: bool) -> AppValue {
    if app.status.running {
        AppValue { feedback: "请先停止加速，再切换 IPv4 / IPv6 优先级"@, ..app }
    } else {
        AppValue {
            config: AppConfigValue { managed_prefer_ipv6: prefer_ipv6, ..app.config },
            ..app
        }
    }
}

/// The interface after the settings with a new preference were written or not.
pub open spec fn with_saved_ip_preference(
    app: AppValue,
    saved: Result<Option<FileStamp>, Seq<Seq<char>>>,
) -> AppValue {
    match saved {
        Ok(stamp) => {
            let switched = "已切换为"@ + ip_preference_text(app.config.managed_prefer_ipv6);
            AppValue {
                config_modified_at: stamp,
                feedback: if app.status.running {
                    switched + "，重启加速后生效"@
                } else {
                    switched
                },
                ..app
            }
        },
        Err(messages) => AppValue {
            feedback: "保存配置失败: "@ + error_chain(messages),
            ..app
        },
    }
}

// ---------------------------------------------------------------------------------------------
// The start when the user logs in
// ---------------------------------------------------------------------------------------------

/// The system is to be told whether to start the program when the user logs in.
pub open spec fn autostart_changes(app: AppValue, enabled: bool) -> bool {
    enabled != app.autostart.enabled || enabled != app.config.autostart
}

/// The interface after the system was told whether to start the program, where `actual` is what
/// the system says now.
pub open spec fn with_autostart(
    app: AppValue,
    enabled: bool,
    told: Result<(), Seq<Seq<char>>>,
    actual: bool,
) -> AppValue {
    match told {
        Ok(_) => AppValue {
            autostart: Autostart { enabled, ..app.autostart },
            config: AppConfigValue { autostart: enabled, ..app.config },
            ..app
        },
        Err(messages) => AppValue {
            autostart: Autostart { enabled: actual, ..app.autostart },
            feedback: "修改开机自启失败: "@ + error_chain(messages),
            ..app
        },
    }
}

/// The interface after the settings with the new start were written or not.
pub open spec fn with_saved_autostart(
    app: AppValue,
    enabled: bool,
    saved: Result<Option<FileStamp>, Seq<Seq<char>>>,
) -> AppValue {
    match saved {
        Ok(stamp) => AppValue {
            config_modified_at: stamp,
            feedback: if enabled {
                "已开启开机自动启动加速"@
            } else {
                "已关闭开机自动启动加速"@
            },
            ..app
        },
        Err(messages) => AppValue {
            feedback: "已切换开机自启，但保存配置失败: "@ + error_chain(messages),
            ..app
        },
    }
}

/// The service is to be started on account of the start of the program at the login.
pub open spec fn autostart_due(app: AppValue) -> bool {
    app.autostart.pending && !app.task.busy && !app.task.waiting && !app.status.running
}

/// The interface after it has seen whether the service is to be started at the login. The wish is
/// kept while the interface is busy, and dropped where the service runs already.
pub open spec fn autostarted(app: AppValue) -> AppValue {
    if !app.autostart.pending || app.task.busy || app.task.waiting {
        app
    } else if app.status.running {
        AppValue { autostart: Autostart { pending: false, ..app.autostart }, ..app }
    } else {
        AppValue {
            autostart: Autostart { pending: false, ..app.autostart },
            feedback: "自动启动已请求加速..."@,
            ..app
        }
    }
}

impl AcceleratorApp {
    /// Asks for the edge node that the user has typed in, unless the service runs or the edge node
    /// is that one already. The result says whether the settings are to be written.
    pub fn set_edge_node_override(&mut self) -> (save: bool)
        ensures
            final(self)@ == with_typed_edge_node(old(self)@),
            save == edge_node_changes(old(self)@),
    {
        if self.status.running {
            self.feedback = "请先停止加速，再修改边缘节点".to_string();
            return false;
        }
        let next = self.typed_edge_node();
        if same_opt_text(&self.config.edge_node_override, &next) {
            self.feedback = "边缘节点未变化".to_string();
            return false;
        }
        self.config.set_edge_node(next);
        true
    }

    /// The edge node that the user has typed in.
    fn typed_edge_node(&self) -> (node: Option<String>)
        ensures
            opt_text(node) == typed_edge_node(self@),
    {
        let typed = trim(self.edge_node_input.as_str());
        if typed.as_str().is_empty() {
            None
        } else {
            Some(typed)
        }
    }

    /// Takes note of what came of writing the settings with a new edge node.
    pub fn edge_node_saved(
        &mut self,
        saved: Result<Option<FileStamp>, Failure>,
        chosen: Option<String>,
    )
        ensures
            final(self)@ == with_saved_edge_node(old(self)@, save_outcome(saved), opt_text(chosen)),
    {
        match saved {
            Ok(stamp) => {
                self.config_modified_at = stamp;
                self.edge_node_input = text_or_empty(&chosen);
                self.feedback = match &chosen {
                    Some(node) => "已设置边缘节点：".to_string().concat(node.as_str()),
                    None => "已恢复自动选择边缘节点".to_string(),
                };
            },
            Err(error) => {
                self.feedback = "保存配置失败: ".to_string().concat(
                    format_error_chain(&error).as_str(),
                );
            },
        }
        self.config.set_edge_node_override(chosen);
    }

    /// The edge node as it is shown.
    pub fn edge_node_label(&self) -> (label: String)
        ensures
            label@ == edge_node_text(self@.config.edge_node_override),
    {
        match &self.config.edge_node_override {
            Some(node) => node.clone(),
            None => "自动".to_string(),
        }
    }

    /// Asks for a version of IP, unless the service runs or it is preferred already. The result
    /// says whether the settings are to be written.
    pub fn set_ip_preference(&mut self, prefer_ipv6: bool) -> (save: bool)
        ensures
            final(self)@ == with_ip_preference(old(self)@, prefer_ipv6),
            save == ip_preference_changes(old(self)@, prefer_ipv6),
    {
        if self.status.running {
            self.feedback = "请先停止加速，再切换 IPv4 / IPv6 优先级".to_string();
            return false;
        }
        if self.config.managed_prefer_ipv6 == prefer_ipv6 {
            return false;
        }
        self.config.managed_prefer_ipv6 = prefer_ipv6;
        true
    }

    /// Takes note of what came of writing the settings with a new preference.
    pub fn ip_preference_saved(&mut self, saved: Result<Option<FileStamp>, Failure>)
        ensures
            final(self)@ == with_saved_ip_preference(old(self)@, save_outcome(saved)),
    {
        match saved {
            Ok(stamp) => {
                self.config_modified_at = stamp;
                let switched = "已切换为".to_string().concat(self.ip_preference_label());
                self.feedback = if self.status.running {
                    switched.concat("，重启加速后生效")
                } else {
                    switched
                };
            },
            Err(error) => {
                self.feedback = "保存配置失败: ".to_string().concat(
                    format_error_chain(&error).as_str(),
                );
            },
        }
    }

    /// The version of IP that is preferred, as it is shown.
    pub fn ip_preference_label(&self) -> (label: &'static str)
        ensures
            label@ == ip_preference_text(self@.config.managed_prefer_ipv6),
    {
        if self.config.managed_prefer_ipv6 {
            "IPv6 优先"
        } else {
            "IPv4 优先"
        }
    }

    /// Whether the system is to be told to start the program when the user logs in, or not to.
    pub fn set_autostart(&self, enabled: bool) -> (change: bool)
        ensures
            change == autostart_changes(self@, enabled),
    {
        !(enabled == self.autostart.enabled && enabled == self.config.autostart)
    }

    /// Takes note of what came of telling the system; `actual` is what the system says now. The
    /// result says whether the settings are to be written.
    pub fn autostart_told(&mut self, enabled: bool, told: Result<(), Failure>, actual: bool) -> (save:
        bool)
        ensures
            final(self)@ == with_autostart(
                old(self)@,
                enabled,
                outcome(told),
                actual,
            ),
            save == (told is Ok),
    {
        match told {
            Ok(_) => {
                self.autostart.enabled = enabled;
                self.config.autostart = enabled;
                true
            },
            Err(error) => {
                self.autostart.enabled = actual;
                self.feedback = "修改开机自启失败: ".to_string().concat(
                    format_error_chain(&error).as_str(),
                );
                false
            },
        }
    }

    /// Takes note of what came of writing the settings with the new start.
    pub fn autostart_saved(&mut self, enabled: bool, saved: Result<Option<FileStamp>, Failure>)
        ensures
            final(self)@ == with_saved_autostart(old(self)@, enabled, save_outcome(saved)),
    {
        match saved {
            Ok(stamp) => {
                self.config_modified_at = stamp;
                self.feedback = if enabled {
                    "已开启开机自动启动加速".to_string()
                } else {
                    "已关闭开机自动启动加速".to_string()
                };
            },
            Err(error) => {
                self.feedback = "已切换开机自启，但保存配置失败: ".to_string().concat(
                    format_error_chain(&error).as_str(),
                );
            },
        }
    }

    /// Sees whether the service is to be started on account of the start at the login. The result
    /// is the action to be begun.
    pub fn maybe_autostart(&mut self) -> (action: Option<GuiAction>)
        ensures
            final(self)@ == autostarted(old(self)@),
            action == (if autostart_due(old(self)@) {
                Some(GuiAction::Start)
            } else {
                None
            }),
    {
        if !self.autostart.pending {
            return None;
        }
        if self.task.busy || self.task.waiting {
            return None;
        }
        self.autostart.pending = false;
        if self.status.running {
            return None;
        }
        self.feedback = "自动启动已请求加速...".to_string();
        Some(GuiAction::Start)
    }
}

// ---------------------------------------------------------------------------------------------
// Laws
// ---------------------------------------------------------------------------------------------

/// While the service runs, neither the edge node nor the version of IP can be changed, and
/// nothing is written.
pub proof fn law_settings_rest_while_running(app: AppValue, prefer_ipv6: bool)
    requires
        app.status.running,
    ensures
        with_typed_edge_node(app).config == app.config,
        with_ip_preference(app, prefer_ipv6).config == app.config,
        !edge_node_changes(app),
        !ip_preference_changes(app, prefer_ipv6),
{
}

/// Asking for what is set already writes nothing, and asking twice comes to asking once.
pub proof fn law_settings_are_written_once(app: AppValue, prefer_ipv6: bool, enabled: bool)
    ensures
        !ip_preference_changes(with_ip_preference(app, prefer_ipv6), prefer_ipv6),
        with_ip_preference(with_ip_preference(app, prefer_ipv6), prefer_ipv6) == with_ip_preference(
            app,
            prefer_ipv6,
        ),
        !autostart_changes(with_autostart(app, enabled, Ok(()), enabled), enabled),
{
}

/// An edge node that was chosen as typed needs no further change: once it is written, asking for
/// it again finds nothing to do.
pub proof fn law_typed_edge_node_is_kept(app: AppValue, stamp: Option<FileStamp>)
    requires
        !app.status.running,
    ensures
        !edge_node_changes(
            with_saved_edge_node(with_typed_edge_node(app), Ok(stamp), typed_edge_node(app)),
        ),
{
    let chosen = typed_edge_node(app);
    lemma_trimmed(app.edge_node_input);
    if chosen is Some {
        lemma_trimmed_of_tight(trimmed(app.edge_node_input));
    } else {
        assert(trimmed(Seq::<char>::empty()).len() == 0);
    }
}

/// The start at the login is acted on once at most, and never while something else is under way
/// or the service runs.
pub proof fn law_autostart_happens_once(app: AppValue)
    ensures
        !autostart_due(autostarted(app)) || !autostart_due(app),
        autostart_due(app) ==> !autostarted(app).autostart.pending,
        app.task.busy ==> autostarted(app) == app,
{
}

/// Everything but the settings, the message and the time of the settings' file is the same.
pub open spec fn same_but_settings(app: AppValue, after: AppValue) -> bool {
    after == (AppValue {
        config: after.config,
        config_modified_at: after.config_modified_at,
        feedback: after.feedback,
        ..app
    })
}

/// Of the settings, everything but the edge node is the same.
pub open spec fn same_but_edge_node(config: AppConfigValue, after: AppConfigValue) -> bool {
    after == (AppConfigValue {
        edge_node: after.edge_node,
        edge_node_override: after.edge_node_override,
        ..config
    })
}

/// What the user has typed in becomes the edge node of the settings, without the blanks around it, and
/// a blank input becomes none; the settings are then to be written. Where the edge node is that one
/// already, or the service runs, the user is told so, and nothing else changes.
pub proof fn law_typed_edge_node_is_set(app: AppValue)
    ensures
        ({
            let after = with_typed_edge_node(app);
            let typed = trimmed(app.edge_node_input);
            &&& after.config_modified_at == app.config_modified_at
            &&& same_but_settings(app, after)
            &&& edge_node_changes(app) ==> {
                &&& !app.status.running
                &&& typed.len() > 0 ==> after.config.edge_node == Some(typed)
                &&& typed.len() == 0 ==> after.config.edge_node is None
                &&& after.config.edge_node_override == app.config.edge_node_override
                &&& same_but_edge_node(app.config, after.config)
                &&& after.feedback == app.feedback
            }
            &&& !edge_node_changes(app) ==> {
                &&& after.config == app.config
                &&& after.feedback == (if app.status.running {
                    "请先停止加速，再修改边缘节点"@
                } else {
                    "边缘节点未变化"@
                })
            }
            &&& !app.status.running ==> (edge_node_changes(app) <==> {
                ||| typed.len() > 0 && app.config.edge_node_override != Some(typed)
                ||| typed.len() == 0 && app.config.edge_node_override is Some
            })
        }),
{
}

/// Once the settings were written, the interface holds the edge node that was chosen, shows it in its input,
/// says so, and knows the time of the file. Where they could not be written, it says why. Either way the
/// choice takes effect, and nothing else changes.
pub proof fn law_written_edge_node_is_told(
    app: AppValue,
    saved: Result<Option<FileStamp>, Seq<Seq<char>>>,
    chosen: Option<Seq<char>>,
)
    ensures
        ({
            let after = with_saved_edge_node(app, saved, chosen);
            &&& after.config == (AppConfigValue { edge_node_override: chosen, ..app.config })
            &&& saved is Ok ==> {
                &&& after.config_modified_at == saved->Ok_0
                &&& chosen is Some ==> after.edge_node_input == chosen->0 && after.feedback
                    == "已设置边缘节点："@ + chosen->0
                &&& chosen is None ==> after.edge_node_input.len() == 0 && after.feedback
                    == "已恢复自动选择边缘节点"@
                &&& same_but_settings(
                    (AppValue { edge_node_input: after.edge_node_input, ..app }),
                    after,
                )
            }
            &&& saved is Err ==> {
                &&& after.config_modified_at == app.config_modified_at
                &&& after.feedback == "保存配置失败: "@ + error_chain(saved->Err_0)
                &&& same_but_settings(app, after)
            }
        }),
        edge_node_text(chosen) == (match chosen {
            Some(node) => node,
            None => "自动"@,
        }),
{
}

/// The version of IP that is asked for is the one that the settings hold afterwards, unless the service
/// runs; they are to be written where that is another one than before. Once they were written, the interface
/// says which one it is, and that it takes effect later where the service runs.
pub proof fn law_ip_preference_is_set(
    app: AppValue,
    prefer_ipv6: bool,
    saved: Result<Option<FileStamp>, Seq<Seq<char>>>,
)
    ensures
        ({
            let after = with_ip_preference(app, prefer_ipv6);
            &&& !app.status.running ==> {
                &&& after.config.managed_prefer_ipv6 == prefer_ipv6
                &&& after.config == (AppConfigValue {
                    managed_prefer_ipv6: prefer_ipv6,
                    ..app.config
                })
                &&& after.feedback == app.feedback
                &&& ip_preference_changes(app, prefer_ipv6) <==> app.config.managed_prefer_ipv6
                    != prefer_ipv6
            }
            &&& app.status.running ==> {
                &&& after.config == app.config
                &&& after.feedback == "请先停止加速，再切换 IPv4 / IPv6 优先级"@
            }
            &&& after.config_modified_at == app.config_modified_at
            &&& same_but_settings(app, after)
        }),
        ({
            let after = with_saved_ip_preference(app, saved);
            let shown = if app.config.managed_prefer_ipv6 {
                "IPv6 优先"@
            } else {
                "IPv4 优先"@
            };
            &&& after.config == app.config
            &&& saved is Ok ==> {
                &&& after.config_modified_at == saved->Ok_0
                &&& !app.status.running ==> after.feedback == "已切换为"@ + shown
                &&& app.status.running ==> after.feedback == "已切换为"@ + shown
                    + "，重启加速后生效"@
            }
            &&& saved is Err ==> {
                &&& after.config_modified_at == app.config_modified_at
                &&& after.feedback == "保存配置失败: "@ + error_chain(saved->Err_0)
            }
            &&& same_but_settings(app, after)
            &&& ip_preference_text(app.config.managed_prefer_ipv6) == shown
        }),
{
}

/// The system is told of the start at the login exactly where either the system or the settings say
/// otherwise. Where it took note, both say what was asked for; where it did not, the interface shows what the
/// system says, keeps the settings, and tells why. Once the settings were written the user is told.
pub proof fn law_autostart_is_set(
    app: AppValue,
    enabled: bool,
    told: Result<(), Seq<Seq<char>>>,
    actual: bool,
    saved: Result<Option<FileStamp>, Seq<Seq<char>>>,
)
    ensures
        autostart_changes(app, enabled) <==> !(app.autostart.enabled == enabled
            && app.config.autostart == enabled),
        ({
            let after = with_autostart(app, enabled, told, actual);
            &&& after.autostart.pending == app.autostart.pending
            &&& told is Ok ==> {
                &&& after.autostart.enabled == enabled
                &&& after.config == (AppConfigValue { autostart: enabled, ..app.config })
                &&& after.feedback == app.feedback
            }
            &&& told is Err ==> {
                &&& after.autostart.enabled == actual
                &&& after.config == app.config
                &&& after.feedback == "修改开机自启失败: "@ + error_chain(told->Err_0)
            }
            &&& after.config_modified_at == app.config_modified_at
            &&& same_but_settings((AppValue { autostart: after.autostart, ..app }), after)
        }),
        ({
            let after = with_saved_autostart(app, enabled, saved);
            &&& after.config == app.config
            &&& saved is Ok ==> {
                &&& after.config_modified_at == saved->Ok_0
                &&& after.feedback == (if enabled {
                    "已开启开机自动启动加速"@
                } else {
                    "已关闭开机自动启动加速"@
                })
            }
            &&& saved is Err ==> {
                &&& after.config_modified_at == app.config_modified_at
                &&& after.feedback == "已切换开机自启，但保存配置失败: "@ + error_chain(
                    saved->Err_0,
                )
            }
            &&& same_but_settings(app, after)
        }),
{
}

/// A program that was started at the login starts the service as soon as it is at rest, unless the service
/// runs already, and says so; after that the wish is gone. While something is under way the wish waits.
pub proof fn law_login_starts_the_service(app: AppValue)
    ensures
        autostart_due(app) <==> app.autostart.pending && !app.task.busy && !app.task.waiting
            && !app.status.running,
        ({
            let after = autostarted(app);
            &&& after.autostart.enabled == app.autostart.enabled
            &&& app.task.busy || app.task.waiting || !app.autostart.pending ==> after == app
            &&& !app.task.busy && !app.task.waiting ==> !after.autostart.pending
            &&& after.feedback == (if autostart_due(app) {
                "自动启动已请求加速..."@
            } else {
                app.feedback
            })
            &&& after == (AppValue {
                autostart: after.autostart,
                feedback: after.feedback,
                ..app
            })
        }),
{
}

} // verus!
