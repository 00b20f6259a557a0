use chatgpt_timezone_launcher::store_activation::{
    hresult_message, next_activation_action, ActivationAction, ActivationStage, StageReport,
};

fn abort(action: ActivationAction) -> (String, bool) {
    match action {
        ActivationAction::Abort {
            message,
            revert_debugging,
        } => (message, revert_debugging),
        _ => panic!("expected an abort"),
    }
}

#[test]
fn hresult_messages_show_eight_upper_case_hex_digits() {
    assert_eq!(
        hresult_message("无法激活 Codex Store 应用", -2147024894),
        "无法激活 Codex Store 应用（HRESULT 0x80070002）。"
    );
    assert_eq!(hresult_message("x", 0x1F), "x（HRESULT 0x0000001F）。");
    assert_eq!(hresult_message("", -1), "（HRESULT 0xFFFFFFFF）。");
}

#[test]
fn successful_steps_run_in_order_and_finish_after_cleanup() {
    let steps = [
        (ActivationStage::CreateEvent, StageReport::Handle(true)),
        (ActivationStage::InitializeCom, StageReport::Status(1)),
        (ActivationStage::CreateDebugSettings, StageReport::Instance(0, true)),
        (ActivationStage::CreateActivationManager, StageReport::Instance(0, true)),
        (ActivationStage::ClearStaleDebugging, StageReport::Status(0)),
        (ActivationStage::EnableDebugging, StageReport::Status(0)),
        (ActivationStage::Activate, StageReport::Status(0)),
        (ActivationStage::AwaitResume, StageReport::Wait(true)),
    ];
    for (index, (stage, report)) in steps.iter().enumerate() {
        match next_activation_action(*stage, *report) {
            ActivationAction::Proceed(next) => {
                let expected = steps
                    .get(index + 1)
                    .map(|step| step.0)
                    .unwrap_or(ActivationStage::DisableDebugging);
                assert_eq!(next, expected);
            }
            _ => panic!("step {index} did not proceed"),
        }
    }
    assert!(matches!(
        next_activation_action(ActivationStage::DisableDebugging, StageReport::Status(0)),
        ActivationAction::Finished
    ));
}

#[test]
fn failures_before_registration_leave_nothing_to_revert() {
    let (message, revert) = abort(next_activation_action(
        ActivationStage::CreateEvent,
        StageReport::Handle(false),
    ));
    assert_eq!(message, "无法创建 Store 启动握手事件。");
    assert!(!revert);
    let (message, revert) = abort(next_activation_action(
        ActivationStage::CreateDebugSettings,
        StageReport::Instance(0, false),
    ));
    assert_eq!(message, "无法创建 Store 激活组件（HRESULT 0x00000000）。");
    assert!(!revert);
    let (message, revert) = abort(next_activation_action(
        ActivationStage::EnableDebugging,
        StageReport::Status(-2147467259),
    ));
    assert_eq!(message, "无法准备 Store 应用时区环境（HRESULT 0x80004005）。");
    assert!(!revert);
}

#[test]
fn failures_after_registration_always_revert() {
    let (message, revert) = abort(next_activation_action(
        ActivationStage::Activate,
        StageReport::Status(-1),
    ));
    assert_eq!(message, "无法激活 Codex Store 应用（HRESULT 0xFFFFFFFF）。");
    assert!(revert);
    let (message, revert) = abort(next_activation_action(
        ActivationStage::AwaitResume,
        StageReport::Wait(false),
    ));
    assert_eq!(message, "Store 应用已创建，但启动线程未在 10 秒内恢复。");
    assert!(revert);
    let (message, revert) = abort(next_activation_action(
        ActivationStage::DisableDebugging,
        StageReport::Status(-2),
    ));
    assert_eq!(message, "Codex 已启动，但无法撤销临时包设置（HRESULT 0xFFFFFFFE）。");
    assert!(revert);
}

#[test]
fn stale_settings_are_cleared_before_registration_whatever_the_outcome() {
    for status in [0, -2147024891, 1] {
        assert!(matches!(
            next_activation_action(ActivationStage::ClearStaleDebugging, StageReport::Status(status)),
            ActivationAction::Proceed(ActivationStage::EnableDebugging)
        ));
    }
    assert!(matches!(
        next_activation_action(
            ActivationStage::CreateActivationManager,
            StageReport::Instance(0, true)
        ),
        ActivationAction::Proceed(ActivationStage::ClearStaleDebugging)
    ));
}

