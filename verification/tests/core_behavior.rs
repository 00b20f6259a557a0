use chatgpt_timezone_launcher::config::{settings_from_fields, settings_payload, Settings};
use chatgpt_timezone_launcher::discovery::{
    first_probe, next_probe, select_first_existing, ClientTarget, ProbeStep,
};
use chatgpt_timezone_launcher::process::{launch_route, LaunchRoute};
use std::cell::RefCell;
use chatgpt_timezone_launcher::geo::{
    check_http_status, check_response_body, network_error_message, timezone_from_reply,
    IpApiReply, IP_SERVICE_URL, WINHTTP_ERROR_CANNOT_CONNECT, WINHTTP_ERROR_NAME_NOT_RESOLVED,
    WINHTTP_ERROR_TIMEOUT,
};
use chatgpt_timezone_launcher::process::{
    is_client_process_name, is_client_running, should_block_for_process, ProcessInfo,
};
use chatgpt_timezone_launcher::timezone::validate_timezone;
use windows_sys::Win32::Networking::WinHttp::{
    ERROR_WINHTTP_CANNOT_CONNECT, ERROR_WINHTTP_NAME_NOT_RESOLVED, ERROR_WINHTTP_TIMEOUT,
};

#[test]
fn accepts_canonical_iana_timezone() {
    assert_eq!(
        validate_timezone("America/New_York").unwrap(),
        "America/New_York"
    );
}

#[test]
fn rejects_non_iana_and_control_character_timezone() {
    assert!(validate_timezone("China Standard Time").is_err());
    assert!(validate_timezone("Asia/Shanghai\nOTHER=value").is_err());
}

#[test]
fn timezone_rejections_carry_their_own_messages() {
    assert_eq!(validate_timezone("").unwrap_err(), "请选择有效的 IANA 时区。");
    assert_eq!(
        validate_timezone(" Asia/Tokyo").unwrap_err(),
        "请选择有效的 IANA 时区。"
    );
    assert_eq!(
        validate_timezone("Asia/Tokyo\u{3000}").unwrap_err(),
        "请选择有效的 IANA 时区。"
    );
    assert_eq!(
        validate_timezone(&"A".repeat(65)).unwrap_err(),
        "请选择有效的 IANA 时区。"
    );
    assert_eq!(
        validate_timezone("Asia/Tokyo;rm").unwrap_err(),
        "时区名称包含不允许的字符。"
    );
    assert_eq!(
        validate_timezone("China Standard Time").unwrap_err(),
        "时区名称包含不允许的字符。"
    );
    assert_eq!(
        validate_timezone("Mars/Olympus_Mons").unwrap_err(),
        "无法识别该 IANA 时区。"
    );
    assert_eq!(
        validate_timezone("asia/tokyo").unwrap_err(),
        "无法识别该 IANA 时区。"
    );
}

#[test]
fn validation_accepts_zones_with_signs_and_aliases() {
    assert_eq!(validate_timezone("Etc/GMT+5").unwrap(), "Etc/GMT+5");
    assert_eq!(validate_timezone("Etc/GMT-14").unwrap(), "Etc/GMT-14");
    assert_eq!(validate_timezone("US/Eastern").unwrap(), "US/Eastern");
    assert_eq!(
        validate_timezone("America/Argentina/Buenos_Aires").unwrap(),
        "America/Argentina/Buenos_Aires"
    );
}

#[test]
fn validated_zone_validates_again_to_itself() {
    let first = validate_timezone("Europe/London").unwrap();
    assert_eq!(validate_timezone(&first).unwrap(), first);
}

#[test]
fn invalid_timezone_in_settings_is_rejected() {
    assert!(settings_from_fields(Some("not/a-zone".to_string()), None).is_err());
}

#[test]
fn legacy_settings_remembered_timezone_is_migrated_without_restart_policy() {
    let decoded = settings_from_fields(None, Some("America/Los_Angeles".to_string())).unwrap();
    assert_eq!(decoded.timezone, "America/Los_Angeles");
}

#[test]
fn current_settings_field_wins_over_legacy_field() {
    let decoded = settings_from_fields(
        Some("Asia/Tokyo".to_string()),
        Some("America/Los_Angeles".to_string()),
    )
    .unwrap();
    assert_eq!(decoded.timezone, "Asia/Tokyo");
    assert_eq!(
        settings_from_fields(None, None).unwrap_err(),
        "设置文件格式无效。"
    );
}

#[test]
fn utf8_bom_settings_are_accepted_for_windows_compatibility() {
    let json = b"\xEF\xBB\xBF{\"timezone\":\"Asia/Tokyo\"}";
    assert_eq!(settings_payload(json).unwrap(), b"{\"timezone\":\"Asia/Tokyo\"}");
    let plain = b"{\"timezone\":\"Asia/Tokyo\"}";
    assert_eq!(settings_payload(plain).unwrap(), plain);
}

#[test]
fn oversized_settings_are_refused() {
    let big = vec![b' '; 16 * 1024 + 1];
    assert_eq!(settings_payload(&big).unwrap_err(), "设置文件异常过大。");
    let limit = vec![b' '; 16 * 1024];
    assert!(settings_payload(&limit).is_ok());
}

#[test]
fn settings_new_keeps_only_a_valid_zone() {
    assert_eq!(Settings::new("Europe/London").unwrap().timezone, "Europe/London");
    assert!(Settings::new("Europe/London\r\nTZ=UTC").is_err());
}

#[test]
fn discovery_chooses_first_existing_executable_candidate() {
    let candidates = vec!["old.exe".to_string(), "ChatGPT.exe".to_string()];
    let selected = select_first_existing(&candidates, |path: &str| path == "ChatGPT.exe");

    assert_eq!(selected, Some("ChatGPT.exe".to_string()));
}

#[test]
fn discovery_returns_none_when_no_candidate_exists() {
    let candidates = vec!["a.exe".to_string(), "b.exe".to_string()];
    assert_eq!(select_first_existing(&candidates, |_: &str| false), None);
    let both = vec!["a.exe".to_string(), "b.exe".to_string()];
    assert_eq!(
        select_first_existing(&both, |_: &str| true),
        Some("a.exe".to_string())
    );
}

#[test]
fn running_chatgpt_blocks_launch_but_unrelated_codex_cli_does_not() {
    let target = r"C:\Program Files\WindowsApps\OpenAI.Codex\app\ChatGPT.exe";
    assert!(should_block_for_process(target, "ChatGPT.exe", None));
    assert!(!should_block_for_process(
        target,
        "codex.exe",
        Some(r"C:\Users\me\.codex\bin\codex.exe"),
    ));
}

#[test]
fn matching_codex_desktop_path_blocks_launch() {
    let target = r"C:\Apps\Codex\Codex.exe";
    assert!(should_block_for_process(
        target,
        "codex.exe",
        Some(r"c:\apps\codex\CODEX.EXE"),
    ));
}

#[test]
fn unknown_processes_and_pathless_codex_do_not_block() {
    let target = r"C:\Apps\Codex\Codex.exe";
    assert!(!should_block_for_process(target, "notepad.exe", Some(target)));
    assert!(!should_block_for_process(target, "Codex.exe", None));
    assert!(should_block_for_process(target, "CHATGPT.EXE", None));
}

#[test]
fn client_is_running_when_any_process_blocks() {
    let target = r"C:\Apps\Codex\Codex.exe";
    let cli = ProcessInfo {
        name: "codex.exe".to_string(),
        path: Some(r"C:\Users\me\.codex\bin\codex.exe".to_string()),
    };
    let desktop = ProcessInfo {
        name: "Codex.exe".to_string(),
        path: Some(r"C:\APPS\CODEX\codex.exe".to_string()),
    };
    assert!(!is_client_running(target, &[cli.clone()]));
    assert!(is_client_running(target, &[cli, desktop]));
    assert!(!is_client_running(target, &[]));
}

#[test]
fn only_the_two_client_names_are_kept_from_the_snapshot() {
    assert!(is_client_process_name("chatgpt.exe"));
    assert!(is_client_process_name("CODEX.exe"));
    assert!(!is_client_process_name("codex"));
    assert!(!is_client_process_name("explorer.exe"));
}

/// The two fields of a location reply, read from JSON the way the launcher
/// reads them (`timezone` an optional string, `error` a boolean that
/// defaults to `false`); `None` when the body is not such JSON.
fn reply_from_json(body: &[u8]) -> Option<IpApiReply> {
    let value: serde_json::Value = serde_json::from_slice(body).ok()?;
    let object = value.as_object()?;
    let timezone = match object.get("timezone") {
        None | Some(serde_json::Value::Null) => None,
        Some(serde_json::Value::String(zone)) => Some(zone.clone()),
        Some(_) => return None,
    };
    let error = match object.get("error") {
        None => false,
        Some(serde_json::Value::Bool(flag)) => *flag,
        Some(_) => return None,
    };
    Some(IpApiReply { timezone, error })
}

fn parse_timezone_response(body: &[u8]) -> Result<String, String> {
    check_response_body(body)?;
    timezone_from_reply(reply_from_json(body))
}

fn timezone_from_http_response(status: u32, body: &[u8]) -> Result<String, String> {
    check_http_status(status)?;
    parse_timezone_response(body)
}

#[test]
fn ip_service_response_yields_validated_timezone_without_retaining_ip() {
    let body = br#"{"ip":"203.0.113.9","timezone":"Asia/Tokyo","city":"Tokyo"}"#;
    assert_eq!(parse_timezone_response(body).unwrap(), "Asia/Tokyo");
}

#[test]
fn ip_service_error_and_invalid_timezone_are_clear_failures() {
    let service_error = br#"{"error":true,"reason":"RateLimited"}"#;
    let invalid_zone = br#"{"timezone":"internal.invalid"}"#;

    assert!(
        parse_timezone_response(service_error)
            .unwrap_err()
            .contains("服务")
    );
    assert!(
        parse_timezone_response(invalid_zone)
            .unwrap_err()
            .contains("时区")
    );
}

#[test]
fn ip_lookup_uses_one_fixed_https_endpoint() {
    assert_eq!(IP_SERVICE_URL, "https://ipapi.co/json/");
}

#[test]
fn ip_http_failures_do_not_get_parsed_as_success() {
    let body = br#"{"timezone":"Asia/Shanghai"}"#;

    assert_eq!(
        timezone_from_http_response(200, body).unwrap(),
        "Asia/Shanghai"
    );
    assert!(
        timezone_from_http_response(503, body)
            .unwrap_err()
            .contains("HTTP")
    );
}

#[test]
fn ip_timeout_and_offline_errors_have_distinct_actionable_messages() {
    assert!(network_error_message(ERROR_WINHTTP_TIMEOUT, "接收").contains("超时"));
    assert!(network_error_message(ERROR_WINHTTP_CANNOT_CONNECT, "连接").contains("检查网络"));
}

#[test]
fn winhttp_error_codes_are_those_of_the_system_headers() {
    assert_eq!(WINHTTP_ERROR_TIMEOUT, ERROR_WINHTTP_TIMEOUT);
    assert_eq!(WINHTTP_ERROR_CANNOT_CONNECT, ERROR_WINHTTP_CANNOT_CONNECT);
    assert_eq!(WINHTTP_ERROR_NAME_NOT_RESOLVED, ERROR_WINHTTP_NAME_NOT_RESOLVED);
}

#[test]
fn network_failures_and_http_statuses_have_exact_messages() {
    assert_eq!(
        network_error_message(12002, "接收"),
        "定位服务接收超时，请稍后重试。"
    );
    assert_eq!(
        network_error_message(12007, "连接"),
        "无法连接定位服务，请检查网络连接。"
    );
    assert_eq!(
        network_error_message(12030, "发送"),
        "定位服务发送失败（错误 12030）。"
    );
    assert_eq!(
        check_http_status(503).unwrap_err(),
        "定位服务返回了 HTTP 503 错误，请稍后重试。"
    );
    assert_eq!(
        check_http_status(0).unwrap_err(),
        "定位服务返回了 HTTP 0 错误，请稍后重试。"
    );
    assert!(check_http_status(200).is_ok());
}

#[test]
fn reply_shapes_map_to_their_messages() {
    assert_eq!(
        parse_timezone_response(b"not json").unwrap_err(),
        "定位服务返回了无法解析的数据。"
    );
    assert_eq!(
        parse_timezone_response(br#"{"timezone":null}"#).unwrap_err(),
        "定位服务没有返回时区。"
    );
}

#[test]
fn ip_reply_failures_have_distinct_messages() {
    assert_eq!(
        timezone_from_reply(None).unwrap_err(),
        "定位服务返回了无法解析的数据。"
    );
    let missing = IpApiReply {
        timezone: None,
        error: false,
    };
    assert_eq!(
        timezone_from_reply(Some(missing)).unwrap_err(),
        "定位服务没有返回时区。"
    );
    let unavailable = IpApiReply {
        timezone: Some("Asia/Tokyo".to_string()),
        error: true,
    };
    assert_eq!(
        timezone_from_reply(Some(unavailable)).unwrap_err(),
        "定位服务暂时不可用，请稍后重试。"
    );
    assert_eq!(
        check_response_body(&vec![0u8; 64 * 1024 + 1]).unwrap_err(),
        "定位服务返回的数据异常过大。"
    );
    assert!(check_response_body(&vec![0u8; 64 * 1024]).is_ok());
}

#[test]
fn candidates_are_probed_in_order_until_the_first_that_exists() {
    let asked = RefCell::new(Vec::new());
    let candidates = vec!["a.exe".to_string(), "b.exe".to_string(), "c.exe".to_string()];
    let selected = select_first_existing(&candidates, |path: &str| {
        asked.borrow_mut().push(path.to_string());
        path == "b.exe"
    });
    assert_eq!(selected, Some("b.exe".to_string()));
    assert_eq!(*asked.borrow(), vec!["a.exe".to_string(), "b.exe".to_string()]);

    asked.borrow_mut().clear();
    assert_eq!(
        select_first_existing(&candidates, |path: &str| {
            asked.borrow_mut().push(path.to_string());
            false
        }),
        None
    );
    assert_eq!(*asked.borrow(), candidates);
}

#[test]
fn probe_steps_move_one_candidate_at_a_time() {
    assert_eq!(first_probe(0), ProbeStep::Exhausted);
    assert_eq!(first_probe(3), ProbeStep::Probe(0));
    assert_eq!(next_probe(3, 0, false), ProbeStep::Probe(1));
    assert_eq!(next_probe(3, 1, true), ProbeStep::Found(1));
    assert_eq!(next_probe(3, 2, false), ProbeStep::Exhausted);
}

#[test]
fn desktop_targets_start_directly_and_store_targets_by_activation() {
    let desktop = ClientTarget::DesktopExecutable(r"C:\Apps\ChatGPT.exe".to_string());
    assert!(matches!(launch_route(&desktop), LaunchRoute::Direct(path) if path == r"C:\Apps\ChatGPT.exe"));
    let store = ClientTarget::StorePackage {
        executable: r"C:\WindowsApps\OpenAI.Codex\app\ChatGPT.exe".to_string(),
        package_full_name: "OpenAI.Codex_1.0.0.0_x64__publisher".into(),
        app_user_model_id: "OpenAI.Codex_publisher!App".into(),
    };
    assert!(matches!(
        launch_route(&store),
        LaunchRoute::Package(name, app)
            if name == "OpenAI.Codex_1.0.0.0_x64__publisher" && app == "OpenAI.Codex_publisher!App"
    ));
}

