use chatgpt_timezone_launcher::config::Settings;
use chatgpt_timezone_launcher::workflow::{
    save_and_launch_with, save_launch_start, save_launch_step, SaveLaunchAction, SaveLaunchEvent,
    SaveLaunchOutcome, SaveLaunchState,
};
use std::cell::{Cell, RefCell};

#[test]
fn running_client_saves_selection_but_never_launches_or_terminates_it() {
    let saved_timezone = RefCell::new(None);
    let launch_called = Cell::new(false);

    let outcome = save_and_launch_with(
        "Asia/Shanghai",
        |settings: &Settings| {
            *saved_timezone.borrow_mut() = Some(settings.timezone.clone());
            Ok(())
        },
        || Ok(r"C:\Apps\ChatGPT.exe".to_string()),
        |_: &str| Ok(true),
        |_: &str, _: &str| {
            launch_called.set(true);
            Ok(())
        },
    )
    .unwrap();

    assert_eq!(*saved_timezone.borrow(), Some("Asia/Shanghai".into()));
    assert!(!launch_called.get());
    assert!(matches!(outcome, SaveLaunchOutcome::AlreadyRunning(_)));
}

#[test]
fn stopped_client_is_launched_with_validated_timezone() {
    let launched = RefCell::new(None);

    let outcome = save_and_launch_with(
        "Europe/Paris",
        |_: &Settings| Ok(()),
        || Ok(r"C:\Apps\ChatGPT.exe".to_string()),
        |_: &str| Ok(false),
        |path: &str, timezone: &str| {
            *launched.borrow_mut() = Some((path.to_string(), timezone.to_string()));
            Ok(())
        },
    )
    .unwrap();

    assert_eq!(
        *launched.borrow(),
        Some((r"C:\Apps\ChatGPT.exe".to_string(), "Europe/Paris".into()))
    );
    assert!(matches!(outcome, SaveLaunchOutcome::Launched(_)));
}

#[test]
fn invalid_timezone_stops_before_any_side_effect() {
    let side_effect = Cell::new(false);

    let result = save_and_launch_with(
        "Asia/Shanghai\nTZ=UTC",
        |_: &Settings| {
            side_effect.set(true);
            Ok(())
        },
        || {
            side_effect.set(true);
            Ok(String::new())
        },
        |_: &str| Ok(false),
        |_: &str, _: &str| Ok(()),
    );

    assert!(result.is_err());
    assert!(!side_effect.get());
}

#[test]
fn first_failure_is_returned_and_later_steps_are_skipped() {
    let later = Cell::new(false);
    let result = save_and_launch_with(
        "Asia/Tokyo",
        |_: &Settings| Err("disk full".to_string()),
        || {
            later.set(true);
            Ok(String::new())
        },
        |_: &str| Ok(false),
        |_: &str, _: &str| Ok(()),
    );
    assert_eq!(result.unwrap_err(), "disk full");
    assert!(!later.get());

    let result = save_and_launch_with(
        "Asia/Tokyo",
        |_: &Settings| Ok(()),
        || Err("not found".to_string()),
        |_: &str| Ok(false),
        |_: &str, _: &str| Ok(()),
    );
    assert_eq!(result.unwrap_err(), "not found");

    let result = save_and_launch_with(
        "Asia/Tokyo",
        |_: &Settings| Ok(()),
        || Ok("c.exe".to_string()),
        |_: &str| Err("snapshot failed".to_string()),
        |_: &str, _: &str| Ok(()),
    );
    assert_eq!(result.unwrap_err(), "snapshot failed");

    let result = save_and_launch_with(
        "Asia/Tokyo",
        |_: &Settings| Ok(()),
        || Ok("c.exe".to_string()),
        |_: &str| Ok(false),
        |_: &str, _: &str| Err("spawn failed".to_string()),
    );
    assert_eq!(result.unwrap_err(), "spawn failed");
}

#[test]
fn steps_are_saved_found_checked_then_launched_in_that_order() {
    let (state, action) = save_launch_start("Asia/Shanghai");
    assert!(matches!(&state, SaveLaunchState::AwaitSave { zone } if zone == "Asia/Shanghai"));
    assert!(matches!(&action, SaveLaunchAction::Save(settings) if settings.timezone == "Asia/Shanghai"));

    let (state, action) = save_launch_step(state, SaveLaunchEvent::Saved(Ok(())));
    assert!(matches!(action, SaveLaunchAction::Discover));

    let (state, action) = save_launch_step(
        state,
        SaveLaunchEvent::Discovered(Ok(r"C:\Apps\ChatGPT.exe".to_string())),
    );
    assert!(matches!(&action, SaveLaunchAction::CheckRunning(path) if path == r"C:\Apps\ChatGPT.exe"));

    let (state, action) = save_launch_step(state, SaveLaunchEvent::RunningChecked(Ok(false)));
    assert!(matches!(
        &action,
        SaveLaunchAction::Launch(path, zone) if path == r"C:\Apps\ChatGPT.exe" && zone == "Asia/Shanghai"
    ));

    let (state, action) = save_launch_step(state, SaveLaunchEvent::LaunchDone(Ok(())));
    assert!(matches!(state, SaveLaunchState::Done));
    assert!(matches!(
        action,
        SaveLaunchAction::Finish(Ok(SaveLaunchOutcome::Launched(ref path))) if path == r"C:\Apps\ChatGPT.exe"
    ));
}

#[test]
fn a_running_client_ends_the_steps_without_a_launch() {
    let (state, _) = save_launch_start("Europe/Paris");
    let (state, _) = save_launch_step(state, SaveLaunchEvent::Saved(Ok(())));
    let (state, _) = save_launch_step(state, SaveLaunchEvent::Discovered(Ok("c.exe".to_string())));
    let (state, action) = save_launch_step(state, SaveLaunchEvent::RunningChecked(Ok(true)));
    assert!(matches!(state, SaveLaunchState::Done));
    assert!(matches!(
        action,
        SaveLaunchAction::Finish(Ok(SaveLaunchOutcome::AlreadyRunning(ref path))) if path == "c.exe"
    ));
}

#[test]
fn a_refused_zone_or_a_failed_step_ends_the_steps_with_its_message() {
    let (state, action) = save_launch_start("Asia/Shanghai\nTZ=UTC");
    assert!(matches!(state, SaveLaunchState::Done));
    assert!(matches!(action, SaveLaunchAction::Finish(Err(_))));

    let (state, _) = save_launch_start("Asia/Tokyo");
    let (state, action) = save_launch_step(state, SaveLaunchEvent::Saved(Err("disk full".to_string())));
    assert!(matches!(state, SaveLaunchState::Done));
    assert!(matches!(action, SaveLaunchAction::Finish(Err(ref e)) if e == "disk full"));

    let (state, _) = save_launch_start("Asia/Tokyo");
    let (state, _) = save_launch_step(state, SaveLaunchEvent::Saved(Ok(())));
    let (state, _) = save_launch_step(state, SaveLaunchEvent::Discovered(Ok("c.exe".to_string())));
    let (state, _) = save_launch_step(state, SaveLaunchEvent::RunningChecked(Ok(false)));
    let (_, action) = save_launch_step(
        state,
        SaveLaunchEvent::LaunchDone(Err("spawn failed".to_string())),
    );
    assert!(matches!(action, SaveLaunchAction::Finish(Err(ref e)) if e == "spawn failed"));
}

