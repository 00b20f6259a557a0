//! The decisions of the launcher window: what a command does, what the
//! window shows when it opens, and how the results of the location lookup
//! and of a launch are reported.
use vstd::prelude::*;
use crate::config::Settings;
use crate::order::string_views;
use crate::text::push_str;
use crate::timezone::DEFAULT_TIMEZONE;
use crate::ui_controls::StatusTone;
use crate::ui_layout::{IDC_LOCATE, IDC_SAVE, IDC_SAVE_LAUNCH, IDC_TIMEZONE};
use crate::workflow::SaveLaunchOutcome;

verus! {

/// The id of the timer that delays the zone search while typing.
pub const TIMEZONE_SEARCH_TIMER: usize = 1;

/// The delay of the zone search, in milliseconds.
pub const TIMEZONE_SEARCH_DELAY_MS: u32 = 250;

/// The kind of notification a `WM_COMMAND` carries.
#[derive(Clone, Copy, Debug, PartialEq, Eq)]
pub enum Notification {
    /// `CBN_EDITCHANGE`: the text of a combo box's edit field changed.
    EditChange,
    /// `BN_CLICKED`: a button was clicked.
    Clicked,
    /// Any other notification.
    Other,
}

/// What the window does for a command.
#[derive(Clone, Copy, Debug, PartialEq, Eq)]
pub enum CommandAction {
    /// (Re)start the search timer, so that the list is filtered once typing pauses.
    RestartSearchTimer,
    /// Look the zone up from the public address.
    Locate,
    /// Save the selected zone.
    Save,
    /// Save the selected zone and launch the client.
    SaveAndLaunch,
    /// Nothing.
    Ignore,
}

/// Typing in the zone field restarts the search timer unless the list is
/// being refilled by the window itself; a click on one of the three
/// buttons runs its action; everything else is ignored.
pub open spec fn command_action_spec(control_id: i32, notification: Notification, filtering: bool) -> CommandAction {
    if control_id == IDC_TIMEZONE && notification == Notification::EditChange {
        if filtering {
            CommandAction::Ignore
        } else {
            CommandAction::RestartSearchTimer
        }
    } else if notification != Notification::Clicked {
        CommandAction::Ignore
    } else if control_id == IDC_LOCATE {
        CommandAction::Locate
    } else if control_id == IDC_SAVE {
        CommandAction::Save
    } else if control_id == IDC_SAVE_LAUNCH {
        CommandAction::SaveAndLaunch
    } else {
        CommandAction::Ignore
    }
}

pub fn command_action(control_id: i32, notification: Notification, filtering: bool) -> (r:
    CommandAction)
    ensures
        r == command_action_spec(control_id, notification, filtering),
{
    let edit_change = match notification {
        Notification::EditChange => true,
        _ => false,
    };
    let clicked = match notification {
        Notification::Clicked => true,
        _ => false,
    };
    if control_id == IDC_TIMEZONE && edit_change {
        if filtering {
            return CommandAction::Ignore;
        }
        return CommandAction::RestartSearchTimer;
    }
    if !clicked {
        return CommandAction::Ignore;
    }
    if control_id == IDC_LOCATE {
        CommandAction::Locate
    } else if control_id == IDC_SAVE {
        CommandAction::Save
    } else if control_id == IDC_SAVE_LAUNCH {
        CommandAction::SaveAndLaunch
    } else {
        CommandAction::Ignore
    }
}

/// The zone selected when the window opens and the first status line:
/// the saved zone when there is one, and otherwise the default zone with a
/// first-run hint or the reason the settings could not be read.
pub open spec fn initial_selection_spec(loaded: Result<Option<Seq<char>>, Seq<char>>) -> (
    Seq<char>,
    Seq<char>,
) {
    match loaded {
        Ok(Some(zone)) => (zone, "已载入上次保存的时区。"@),
        Ok(None) => (DEFAULT_TIMEZONE@, "首次使用：请选择时区，或根据公网 IP 自动定位。"@),
        Err(message) => (DEFAULT_TIMEZONE@, message + " 已使用安全默认值 Etc/UTC。"@),
    }
}

pub fn initial_selection(loaded: Result<Option<Settings>, String>) -> (r: (String, String))
    ensures
        (r.0@, r.1@) == initial_selection_spec(
            match loaded {
                Ok(Some(settings)) => Ok(Some(settings.timezone@)),
                Ok(None) => Ok(None),
                Err(message) => Err(message@),
            },
        ),
{
    match loaded {
        Ok(Some(settings)) => (settings.timezone, "已载入上次保存的时区。".to_owned()),
        Ok(None) => (
            DEFAULT_TIMEZONE.to_owned(),
            "首次使用：请选择时区，或根据公网 IP 自动定位。".to_owned(),
        ),
        Err(message) => {
            let mut status = message;
            push_str(&mut status, " 已使用安全默认值 Etc/UTC。");
            (DEFAULT_TIMEZONE.to_owned(), status)
        },
    }
}

/// The line that shows which client was found (its path as text), or why
/// none was.
pub fn client_status_text(discovered: Result<String, String>) -> (r: String)
    ensures
        r@ == match discovered {
            Ok(path) => "已检测："@ + path@,
            Err(message) => message@,
        },
{
    match discovered {
        Ok(path) => {
            let mut text = "已检测：".to_owned();
            push_str(&mut text, path.as_str());
            text
        },
        Err(message) => message,
    }
}

/// How the result of a location lookup is shown.
pub enum GeoFeedback {
    /// Select the zone at this position of the list and show this status.
    Select { index: usize, status: String },
    /// Report this error.
    Failure(String),
}

pub open spec fn msg_zone_not_listed() -> Seq<char> {
    "定位结果不在内置 IANA 时区表中。"@
}

pub open spec fn msg_no_geo_result() -> Seq<char> {
    "未能取得定位结果，请重试。"@
}

pub open spec fn located_status(zone: Seq<char>) -> Seq<char> {
    "已定位为 "@ + zone + "。IP 未保存；请保存或直接启动。"@
}

/// A found zone is selected when the list holds it (the first place it
/// does) and reported as an error otherwise; a failed or missing lookup is
/// reported with its message.
pub fn geo_feedback(zones: &[String], result: Option<Result<String, String>>) -> (r: GeoFeedback)
    ensures
        ({
            let views = string_views(zones@);
            match result {
                Some(Ok(zone)) => if exists|i: int| 0 <= i < views.len() && views[i] == zone@ {
                    r matches GeoFeedback::Select { index, status } && index < views.len()
                        && views[index as int] == zone@ && (forall|j: int|
                        0 <= j < index ==> views[j] != zone@) && status@ == located_status(zone@)
                } else {
                    r matches GeoFeedback::Failure(message) && message@ == msg_zone_not_listed()
                },
                Some(Err(message)) => r matches GeoFeedback::Failure(m) && m@ == message@,
                None => r matches GeoFeedback::Failure(m) && m@ == msg_no_geo_result(),
            }
        }),
{
    let ghost views = string_views(zones@);
    let zone: &String = match &result {
        Some(Ok(zone)) => zone,
        Some(Err(message)) => return GeoFeedback::Failure(message.clone()),
        None => return GeoFeedback::Failure("未能取得定位结果，请重试。".to_owned()),
    };
    let mut i: usize = 0;
    while i < zones.len()
        invariant
            0 <= i <= zones.len(),
            views == string_views(zones@),
            result == Some(Ok::<String, String>(*zone)),
            forall|j: int| 0 <= j < i ==> views[j] != zone@,
        decreases zones.len() - i,
    {
        if zones[i] == *zone {
            assert(views[i as int] == zone@);
            let mut status = "已定位为 ".to_owned();
            push_str(&mut status, zone.as_str());
            push_str(&mut status, "。IP 未保存；请保存或直接启动。");
            return GeoFeedback::Select { index: i, status };
        }
        i += 1;
    }
    GeoFeedback::Failure("定位结果不在内置 IANA 时区表中。".to_owned())
}

/// The icon of a message box.
#[derive(Clone, Copy, Debug, PartialEq, Eq)]
pub enum DialogIcon {
    Information,
    Warning,
    Error,
}

/// How a finished launch is reported: a status line in a tone, and a
/// message box with an icon.
pub struct LaunchFeedback {
    pub status: String,
    pub tone: StatusTone,
    pub dialog: String,
    pub icon: DialogIcon,
}

pub open spec fn already_running_dialog() -> Seq<char> {
    "检测到 Codex/ChatGPT 客户端正在运行。\r\n\r\n时区只会在进程启动时读取。请先在客户端中保存未完成内容，然后自行退出客户端，再回到这里点击“保存并启动 Codex”。\r\n\r\n为避免数据丢失，本启动器绝不会强制结束任何进程。"@
}

pub open spec fn already_running_status() -> Seq<char> {
    "设置已保存；请保存客户端内容并自行退出后再启动。"@
}

pub open spec fn launched_status() -> Seq<char> {
    "Codex 已使用所选时区启动。"@
}

pub open spec fn launched_dialog() -> Seq<char> {
    "Codex 已启动；Windows 系统时区没有改变。"@
}

pub open spec fn msg_no_launch_result() -> Seq<char> {
    "未能取得启动结果，请重试。"@
}

/// A running client is a warning that asks the user to close it (the
/// launcher never closes it); a launch is a success; a failure, or a
/// missing result, is an error shown in both places.
pub open spec fn launch_feedback_spec(result: Option<Result<bool, Seq<char>>>) -> (
    Seq<char>,
    StatusTone,
    Seq<char>,
    DialogIcon,
) {
    match result {
        Some(Ok(true)) => (
            already_running_status(),
            StatusTone::Warning,
            already_running_dialog(),
            DialogIcon::Warning,
        ),
        Some(Ok(false)) => (
            launched_status(),
            StatusTone::Success,
            launched_dialog(),
            DialogIcon::Information,
        ),
        Some(Err(message)) => (message, StatusTone::Error, message, DialogIcon::Error),
        None => (msg_no_launch_result(), StatusTone::Error, msg_no_launch_result(), DialogIcon::Error),
    }
}

pub fn launch_feedback(result: Option<Result<SaveLaunchOutcome, String>>) -> (r: LaunchFeedback)
    ensures
        (r.status@, r.tone, r.dialog@, r.icon) == launch_feedback_spec(
            match result {
                Some(Ok(SaveLaunchOutcome::AlreadyRunning(_))) => Some(Ok(true)),
                Some(Ok(SaveLaunchOutcome::Launched(_))) => Some(Ok(false)),
                Some(Err(message)) => Some(Err(message@)),
                None => None,
            },
        ),
{
    match result {
        Some(Ok(SaveLaunchOutcome::AlreadyRunning(_))) => LaunchFeedback {
            status: "设置已保存；请保存客户端内容并自行退出后再启动。".to_owned(),
            tone: StatusTone::Warning,
            dialog: "检测到 Codex/ChatGPT 客户端正在运行。\r\n\r\n时区只会在进程启动时读取。请先在客户端中保存未完成内容，然后自行退出客户端，再回到这里点击“保存并启动 Codex”。\r\n\r\n为避免数据丢失，本启动器绝不会强制结束任何进程。".to_owned(),
            icon: DialogIcon::Warning,
        },
        Some(Ok(SaveLaunchOutcome::Launched(_))) => LaunchFeedback {
            status: "Codex 已使用所选时区启动。".to_owned(),
            tone: StatusTone::Success,
            dialog: "Codex 已启动；Windows 系统时区没有改变。".to_owned(),
            icon: DialogIcon::Information,
        },
        Some(Err(message)) => LaunchFeedback {
            status: message.clone(),
            tone: StatusTone::Error,
            dialog: message,
            icon: DialogIcon::Error,
        },
        None => LaunchFeedback {
            status: "未能取得启动结果，请重试。".to_owned(),
            tone: StatusTone::Error,
            dialog: "未能取得启动结果，请重试。".to_owned(),
            icon: DialogIcon::Error,
        },
    }
}

/// The status line after the zone was saved.
pub fn saved_status_text(zone: &str) -> (r: String)
    ensures
        r@ == "已保存 "@ + zone@ + "，下次打开会自动选中。"@,
{
    let mut text = "已保存 ".to_owned();
    push_str(&mut text, zone);
    push_str(&mut text, "，下次打开会自动选中。");
    text
}

pub open spec fn msg_launch_in_progress() -> Seq<char> {
    "正在完成 Store 应用启动与临时设置清理，请稍候。"@
}

/// The window may close unless a launch is still running (so that the
/// temporary package settings get cleaned up); when it may not, the
/// message to show.
pub fn close_refusal(launch_in_progress: bool) -> (r: Option<String>)
    ensures
        r is Some <==> launch_in_progress,
        r matches Some(message) ==> message@ == msg_launch_in_progress(),
{
    if launch_in_progress {
        Some("正在完成 Store 应用启动与临时设置清理，请稍候。".to_owned())
    } else {
        None
    }
}

} // verus!

verus! {

/// A click on one of the three buttons runs that button's action, whether
/// or not the zone list is being refilled; a click anywhere else, and any
/// notification other than a click or an edit of the zone field, does
/// nothing.
pub proof fn lemma_clicks_run_their_button(control_id: i32, filtering: bool)
    ensures
        command_action_spec(IDC_LOCATE, Notification::Clicked, filtering) == CommandAction::Locate,
        command_action_spec(IDC_SAVE, Notification::Clicked, filtering) == CommandAction::Save,
        command_action_spec(IDC_SAVE_LAUNCH, Notification::Clicked, filtering)
            == CommandAction::SaveAndLaunch,
        control_id != IDC_LOCATE && control_id != IDC_SAVE && control_id != IDC_SAVE_LAUNCH
            ==> command_action_spec(control_id, Notification::Clicked, filtering)
            == CommandAction::Ignore,
        command_action_spec(control_id, Notification::Other, filtering) == CommandAction::Ignore,
{
}

/// The refilling flag matters only for edits of the zone field: typing
/// there restarts the search timer unless the window itself is refilling
/// the list, and every other command is decided without the flag.
pub proof fn lemma_filtering_only_gates_typing(control_id: i32, notification: Notification)
    ensures
        command_action_spec(IDC_TIMEZONE, Notification::EditChange, false)
            == CommandAction::RestartSearchTimer,
        command_action_spec(IDC_TIMEZONE, Notification::EditChange, true) == CommandAction::Ignore,
        !(control_id == IDC_TIMEZONE && notification == Notification::EditChange)
            ==> command_action_spec(control_id, notification, true) == command_action_spec(
            control_id,
            notification,
            false,
        ),
{
}

} // verus!

verus! {

/// The window opens on the saved zone when there is one, and on the
/// default zone otherwise; a failure to read the settings is shown with
/// its own message first.
pub proof fn lemma_window_opens_on_the_saved_zone(zone: Seq<char>, message: Seq<char>)
    ensures
        initial_selection_spec(Ok(Some(zone))).0 == zone,
        initial_selection_spec(Ok(None)).0 == DEFAULT_TIMEZONE@,
        initial_selection_spec(Err(message)).0 == DEFAULT_TIMEZONE@,
        initial_selection_spec(Err(message)).1.take(message.len() as int) == message,
{
    assert((message + " 已使用安全默认值 Etc/UTC。"@).take(message.len() as int) =~= message);
}

/// A running client is reported as a warning, a launch as a success, and a
/// failure as an error that shows its own message in both places.
pub proof fn lemma_launch_results_are_told_apart(message: Seq<char>)
    ensures
        launch_feedback_spec(Some(Ok(true))).1 == StatusTone::Warning,
        launch_feedback_spec(Some(Ok(true))).3 == DialogIcon::Warning,
        launch_feedback_spec(Some(Ok(false))).1 == StatusTone::Success,
        launch_feedback_spec(Some(Ok(false))).3 == DialogIcon::Information,
        launch_feedback_spec(Some(Err(message))).0 == message,
        launch_feedback_spec(Some(Err(message))).2 == message,
        launch_feedback_spec(Some(Err(message))).1 == StatusTone::Error,
        launch_feedback_spec(None).1 == StatusTone::Error,
{
}

} // verus!
