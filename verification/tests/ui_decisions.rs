use chatgpt_timezone_launcher::config::Settings;
use chatgpt_timezone_launcher::single_instance::{check_mutex_name, mutex_creation_message, LAUNCHER_MUTEX_NAME};
use chatgpt_timezone_launcher::ui::{message_loop_step, split_command_wparam, LoopStep};
use chatgpt_timezone_launcher::ui_app::{
    client_status_text, close_refusal, command_action, geo_feedback, initial_selection,
    launch_feedback, saved_status_text, CommandAction, DialogIcon, GeoFeedback, Notification,
};
use chatgpt_timezone_launcher::ui_controls::{
    check_edit_text_length, edit_selection, edit_text_from_buffer, rgb, static_style, tone_color,
    StaticBrush, StatusTone,
};
use chatgpt_timezone_launcher::ui_layout::{
    selected_zone_index, IDC_BADGE, IDC_HELP, IDC_INFO, IDC_LOCATE, IDC_SAVE, IDC_SAVE_LAUNCH,
    IDC_STATUS, IDC_TIMEZONE, IDC_TITLE,
};
use chatgpt_timezone_launcher::workflow::SaveLaunchOutcome;

#[test]
fn mutex_name_cannot_be_empty() {
    assert!(check_mutex_name("").is_err());
    assert!(check_mutex_name("a\0b").is_err());
    assert!(check_mutex_name(LAUNCHER_MUTEX_NAME).is_ok());
    assert_eq!(mutex_creation_message("拒绝访问"), "无法创建单实例锁：拒绝访问。");
}

#[test]
fn commands_map_to_actions() {
    assert_eq!(
        command_action(IDC_TIMEZONE, Notification::EditChange, false),
        CommandAction::RestartSearchTimer
    );
    assert_eq!(
        command_action(IDC_TIMEZONE, Notification::EditChange, true),
        CommandAction::Ignore
    );
    assert_eq!(command_action(IDC_LOCATE, Notification::Clicked, false), CommandAction::Locate);
    assert_eq!(command_action(IDC_SAVE, Notification::Clicked, true), CommandAction::Save);
    assert_eq!(
        command_action(IDC_SAVE_LAUNCH, Notification::Clicked, false),
        CommandAction::SaveAndLaunch
    );
    assert_eq!(command_action(IDC_SAVE, Notification::Other, false), CommandAction::Ignore);
    assert_eq!(command_action(999, Notification::Clicked, false), CommandAction::Ignore);
}

#[test]
fn window_opens_on_the_saved_zone_or_the_default() {
    let saved = Settings::new("Asia/Tokyo").unwrap();
    assert_eq!(
        initial_selection(Ok(Some(saved))),
        ("Asia/Tokyo".to_string(), "已载入上次保存的时区。".to_string())
    );
    assert_eq!(initial_selection(Ok(None)).0, "Etc/UTC");
    assert_eq!(
        initial_selection(Err("设置文件格式无效。".to_string())),
        (
            "Etc/UTC".to_string(),
            "设置文件格式无效。 已使用安全默认值 Etc/UTC。".to_string()
        )
    );
    assert_eq!(client_status_text(Ok(r"C:\a.exe".to_string())), r"已检测：C:\a.exe");
    assert_eq!(client_status_text(Err("没有找到".to_string())), "没有找到");
}

#[test]
fn location_results_select_the_listed_zone() {
    let zones = vec!["Asia/Tokyo".to_string(), "Etc/UTC".to_string()];
    match geo_feedback(&zones, Some(Ok("Etc/UTC".to_string()))) {
        GeoFeedback::Select { index, status } => {
            assert_eq!(index, 1);
            assert_eq!(status, "已定位为 Etc/UTC。IP 未保存；请保存或直接启动。");
        }
        GeoFeedback::Failure(_) => panic!("zone is listed"),
    }
    assert!(matches!(
        geo_feedback(&zones, Some(Ok("Europe/Paris".to_string()))),
        GeoFeedback::Failure(message) if message == "定位结果不在内置 IANA 时区表中。"
    ));
    assert!(matches!(
        geo_feedback(&zones, Some(Err("离线".to_string()))),
        GeoFeedback::Failure(message) if message == "离线"
    ));
    assert!(matches!(
        geo_feedback(&zones, None),
        GeoFeedback::Failure(message) if message == "未能取得定位结果，请重试。"
    ));
}

#[test]
fn launch_results_are_reported() {
    let running = launch_feedback(Some(Ok(SaveLaunchOutcome::AlreadyRunning("c".to_string()))));
    assert_eq!(running.tone, StatusTone::Warning);
    assert_eq!(running.icon, DialogIcon::Warning);
    assert!(running.dialog.contains("绝不会强制结束"));
    let launched = launch_feedback(Some(Ok(SaveLaunchOutcome::Launched("c".to_string()))));
    assert_eq!(launched.status, "Codex 已使用所选时区启动。");
    assert_eq!(launched.icon, DialogIcon::Information);
    let failed = launch_feedback(Some(Err("坏了".to_string())));
    assert_eq!((failed.status.as_str(), failed.dialog.as_str()), ("坏了", "坏了"));
    assert_eq!(failed.tone, StatusTone::Error);
    let missing = launch_feedback(None);
    assert_eq!(missing.status, "未能取得启动结果，请重试。");
    assert_eq!(saved_status_text("Asia/Tokyo"), "已保存 Asia/Tokyo，下次打开会自动选中。");
    assert!(close_refusal(true).is_some());
    assert!(close_refusal(false).is_none());
}

#[test]
fn colours_and_static_styles() {
    assert_eq!(rgb(0x12, 0x34, 0x56), 0x0056_3412);
    assert_eq!(tone_color(StatusTone::Error), rgb(185, 45, 45));
    let badge = static_style(IDC_BADGE, 0);
    assert_eq!(badge.brush, StaticBrush::Badge);
    assert_eq!(badge.background, Some(rgb(31, 111, 235)));
    assert_eq!(badge.text, rgb(255, 255, 255));
    assert_eq!(static_style(IDC_INFO, 0).brush, StaticBrush::Info);
    assert_eq!(static_style(IDC_STATUS, 0x123456).text, 0x123456);
    assert_eq!(static_style(IDC_HELP, 0).text, rgb(94, 105, 120));
    assert_eq!(static_style(IDC_TITLE, 0).text, rgb(28, 38, 53));
}

#[test]
fn zone_field_reading_and_selection() {
    assert!(check_edit_text_length(0).is_err());
    assert!(check_edit_text_length(65).is_err());
    assert_eq!(check_edit_text_length(64).unwrap(), 65);
    let buffer: Vec<u16> = "Asia/Tokyo\0".encode_utf16().collect();
    assert_eq!(edit_text_from_buffer(&buffer, 10).unwrap(), "Asia/Tokyo");
    assert_eq!(edit_text_from_buffer(&buffer, 4).unwrap(), "Asia");
    assert_eq!(edit_text_from_buffer(&buffer, 0).unwrap_err(), "无法读取时区输入。");
    assert_eq!(edit_selection("abc"), (3 << 16) | 3);
    assert_eq!(edit_selection(&"x".repeat(80)), (64 << 16) | 64);
    let zones = vec!["A".to_string(), "B".to_string(), "B".to_string()];
    assert_eq!(selected_zone_index(&zones, "B"), 1);
    assert_eq!(selected_zone_index(&zones, "C"), 0);
}

#[test]
fn command_parameters_and_message_loop() {
    assert_eq!(split_command_wparam(0x0005_0065), (101, 5));
    assert_eq!(split_command_wparam(0xFFFF_FFFF_0000_0068), (104, 0));
    assert_eq!(message_loop_step(0), LoopStep::Quit);
    assert_eq!(message_loop_step(1), LoopStep::Dispatch);
    assert_eq!(
        message_loop_step(-1),
        LoopStep::Fail("Windows 消息循环发生错误。".to_string())
    );
}
