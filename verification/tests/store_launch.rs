use chatgpt_timezone_launcher::discovery::ClientTarget;
use chatgpt_timezone_launcher::process::launch_client_target_with;
use chatgpt_timezone_launcher::store_launch::{
    build_debugger_command_line, build_timezone_environment, check_resume_request,
    parse_resume_request, resume_event_name, valid_event_name, ResumeRequest, RESUME_EVENT_PREFIX,
};

use std::cell::{Cell, RefCell};

fn args(values: &[&str]) -> Vec<Option<String>> {
    values.iter().map(|value| Some(value.to_string())).collect()
}

#[test]
fn package_debugger_command_quotes_executable_and_uses_private_event_namespace() {
    let event_name = format!("{RESUME_EVENT_PREFIX}123-456");
    let command = build_debugger_command_line(
        Some(r"C:\Program Files\Launcher\launcher.exe"),
        &event_name,
    )
    .unwrap();

    assert_eq!(
        command,
        format!("\"C:\\Program Files\\Launcher\\launcher.exe\" --resume-event {event_name}")
    );
}

#[test]
fn debugger_command_refusals_have_their_own_messages() {
    let event_name = format!("{RESUME_EVENT_PREFIX}123-456");
    assert_eq!(
        build_debugger_command_line(Some(r"C:\a.exe"), r"Global\Other").unwrap_err(),
        "线程恢复事件名称无效。"
    );
    assert_eq!(
        build_debugger_command_line(None, &event_name).unwrap_err(),
        "启动器路径包含无效 Unicode。"
    );
    assert_eq!(
        build_debugger_command_line(Some("C:\\a\"b.exe"), &event_name).unwrap_err(),
        "启动器路径包含不允许的字符。"
    );
}

#[test]
fn resumer_accepts_only_numeric_thread_and_launcher_owned_event() {
    let event_name = format!("{RESUME_EVENT_PREFIX}123-456");
    let arguments = args(&[
        "launcher.exe",
        "--resume-event",
        &event_name,
        "-p",
        "900",
        "-tid",
        "901",
    ]);

    let request = parse_resume_request(&arguments).unwrap();
    assert_eq!(request.thread_id, 901);
    assert_eq!(request.event_name, event_name);

    let invalid_event = args(&[
        "launcher.exe",
        "--resume-event",
        r"Global\OtherApp",
        "-tid",
        "901",
    ]);
    assert!(parse_resume_request(&invalid_event).is_none());
}

#[test]
fn resumer_refuses_bad_thread_ids_and_missing_values() {
    let event_name = format!("{RESUME_EVENT_PREFIX}1-2");
    for tid in ["0", "-1", "abc", "", "4294967296", "+", "1 "] {
        let arguments = args(&["l.exe", "--resume-event", &event_name, "-tid", tid]);
        assert!(parse_resume_request(&arguments).is_none(), "tid {tid:?}");
    }
    let plus = args(&["l.exe", "--resume-event", &event_name, "-tid", "+42"]);
    assert_eq!(parse_resume_request(&plus).unwrap().thread_id, 42);
    let zeros = args(&["l.exe", "--resume-event", &event_name, "-tid", "0004294967295"]);
    assert_eq!(parse_resume_request(&zeros).unwrap().thread_id, u32::MAX);
    let dangling = args(&["l.exe", "-tid", "5", "--resume-event"]);
    assert!(parse_resume_request(&dangling).is_none());
    let mut not_unicode = args(&["l.exe", "--resume-event", "x", "-tid", "5"]);
    not_unicode[2] = None;
    assert!(parse_resume_request(&not_unicode).is_none());
    let first_wins = args(&[
        "l.exe",
        "--resume-event",
        &event_name,
        "--resume-event",
        "bad",
        "-tid",
        "7",
        "-tid",
        "8",
    ]);
    let request = parse_resume_request(&first_wins).unwrap();
    assert_eq!(request.thread_id, 7);
    assert_eq!(request.event_name, event_name);
}

#[test]
fn package_environment_is_double_null_terminated_and_contains_only_timezone() {
    let environment = build_timezone_environment("Asia/Shanghai").unwrap();
    let expected: Vec<u16> = "TZ=Asia/Shanghai\0\0".encode_utf16().collect();

    assert_eq!(environment, expected);
    assert!(build_timezone_environment("Asia/Shanghai\0X=1").is_err());
}

#[test]
fn generated_event_names_are_accepted_and_read_back() {
    let name = resume_event_name(4_294_967_295, u128::MAX);
    assert_eq!(
        name,
        format!("{RESUME_EVENT_PREFIX}4294967295-{}", u128::MAX)
    );
    assert!(valid_event_name(&name));
    assert_eq!(
        resume_event_name(0, 0),
        format!("{RESUME_EVENT_PREFIX}0-0")
    );
    let command = build_debugger_command_line(Some(r"C:\l.exe"), &name).unwrap();
    assert!(command.ends_with(&name));
    let arguments = args(&[r"C:\l.exe", "--resume-event", &name, "-p", "12", "-tid", "34"]);
    let request = parse_resume_request(&arguments).unwrap();
    assert_eq!(request.event_name, name);
    assert_eq!(request.thread_id, 34);
}

#[test]
fn event_names_outside_the_namespace_or_alphabet_are_refused() {
    assert!(!valid_event_name(r"Global\ChatGPTTimeZoneLauncher-1"));
    assert!(!valid_event_name(&format!("{RESUME_EVENT_PREFIX}a b")));
    assert!(!valid_event_name(&format!("{RESUME_EVENT_PREFIX}{}", "9".repeat(99))));
    assert!(valid_event_name(&format!("{RESUME_EVENT_PREFIX}{}", "9".repeat(98))));
    let request = ResumeRequest {
        thread_id: 0,
        event_name: format!("{RESUME_EVENT_PREFIX}1"),
    };
    assert_eq!(check_resume_request(&request).unwrap_err(), "线程恢复请求无效。");
    let request = ResumeRequest {
        thread_id: 3,
        event_name: format!("{RESUME_EVENT_PREFIX}1"),
    };
    assert!(check_resume_request(&request).is_ok());
}

#[test]
fn store_target_dispatches_to_package_activation_not_direct_create_process() {
    let direct_launch_called = Cell::new(false);
    let package_activation_called = Cell::new(false);
    let target = ClientTarget::StorePackage {
        executable: r"C:\WindowsApps\OpenAI.Codex\app\ChatGPT.exe".to_string(),
        package_full_name: "OpenAI.Codex_1.0.0.0_x64__publisher".into(),
        app_user_model_id: "OpenAI.Codex_publisher!App".into(),
    };

    launch_client_target_with(
        &target,
        "Asia/Shanghai",
        |_, _| {
            direct_launch_called.set(true);
            Ok(())
        },
        |_, _, _| {
            package_activation_called.set(true);
            Ok(())
        },
    )
    .unwrap();

    assert!(!direct_launch_called.get());
    assert!(package_activation_called.get());
}

#[test]
fn each_target_kind_gets_its_own_arguments_and_answer() {
    let seen = RefCell::new(Vec::new());
    let desktop = ClientTarget::DesktopExecutable(r"C:\Apps\ChatGPT.exe".to_string());
    let result = launch_client_target_with(
        &desktop,
        "Europe/Paris",
        |path, zone| {
            seen.borrow_mut().push(format!("direct {path} {zone}"));
            Err("无法启动 Codex 客户端。".to_string())
        },
        |_, _, _| {
            seen.borrow_mut().push("package".to_string());
            Ok(())
        },
    );
    assert_eq!(result.unwrap_err(), "无法启动 Codex 客户端。");

    let store = ClientTarget::StorePackage {
        executable: r"C:\WindowsApps\OpenAI.Codex\app\ChatGPT.exe".to_string(),
        package_full_name: "OpenAI.Codex_1.0.0.0_x64__publisher".into(),
        app_user_model_id: "OpenAI.Codex_publisher!App".into(),
    };
    launch_client_target_with(
        &store,
        "Asia/Tokyo",
        |_, _| {
            seen.borrow_mut().push("direct".to_string());
            Ok(())
        },
        |name, app, zone| {
            seen.borrow_mut().push(format!("package {name} {app} {zone}"));
            Ok(())
        },
    )
    .unwrap();

    assert_eq!(
        *seen.borrow(),
        vec![
            r"direct C:\Apps\ChatGPT.exe Europe/Paris".to_string(),
            "package OpenAI.Codex_1.0.0.0_x64__publisher OpenAI.Codex_publisher!App Asia/Tokyo"
                .to_string(),
        ]
    );
}
