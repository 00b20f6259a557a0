//! The decisions of the Store-package activation handshake. The caller
//! performs each Win32/COM step and reports how it went; this module says
//! what comes next, which message a failure carries, and whether the
//! temporary package debug settings must be removed on the way out.
use vstd::prelude::*;
use crate::encoding::{hex_digits, push_hex};
use crate::text::{push_str};

verus! {

/// `{action}（HRESULT 0x{result:08X}）。`
pub open spec fn hresult_message_text(action: Seq<char>, result: i32) -> Seq<char> {
    action + "（HRESULT 0x"@ + hex_digits((result as u32) as nat, 8) + "）。"@
}

/// The message for a failed COM call: the action, then the HRESULT as
/// eight upper-case hexadecimal digits.
pub fn hresult_message(action: &str, result: i32) -> (r: String)
    ensures
        r@ == hresult_message_text(action@, result),
{
    let mut message = String::new();
    push_str(&mut message, action);
    push_str(&mut message, "（HRESULT 0x");
    push_hex(&mut message, result as u32, 8);
    push_str(&mut message, "）。");
    message
}

/// The steps of an activation, in the order they are taken.
#[derive(Clone, Copy, Debug, PartialEq, Eq)]
pub enum ActivationStage {
    /// Create the handshake event the resumer will signal.
    CreateEvent,
    /// Initialise COM on the calling thread.
    InitializeCom,
    /// Create the `PackageDebugSettings` object.
    CreateDebugSettings,
    /// Create the `ApplicationActivationManager` object.
    CreateActivationManager,
    /// Remove package debug settings that an earlier activation, ended
    /// abnormally, may have left behind; how this goes does not matter.
    ClearStaleDebugging,
    /// Register the resumer and the `TZ` environment for the package.
    EnableDebugging,
    /// Activate the application by its user model id.
    Activate,
    /// Wait (up to ten seconds) for the resumer's signal.
    AwaitResume,
    /// Remove the temporary package debug settings.
    DisableDebugging,
}

/// How a step went, as the caller observed it.
#[derive(Clone, Copy, Debug, PartialEq, Eq)]
pub enum StageReport {
    /// A handle-creating call: whether a handle came back.
    Handle(bool),
    /// A call that returns an HRESULT.
    Status(i32),
    /// `CoCreateInstance`: its HRESULT and whether an interface came back.
    Instance(i32, bool),
    /// The wait: whether the event was signalled in time.
    Wait(bool),
}

/// What to do after a step.
pub enum ActivationAction {
    /// Go on with this step.
    Proceed(ActivationStage),
    /// The client was activated and the temporary settings are removed.
    Finished,
    /// Stop with this message; when `revert_debugging` is set, the package
    /// debug settings were registered and must be removed before leaving.
    Abort { message: String, revert_debugging: bool },
}

/// The decision, with the message as text.
pub enum ActivationStep {
    Proceed(ActivationStage),
    Finished,
    Abort(Seq<char>, bool),
}

impl View for ActivationAction {
    type V = ActivationStep;

    open spec fn view(&self) -> ActivationStep {
        match self {
            ActivationAction::Proceed(stage) => ActivationStep::Proceed(*stage),
            ActivationAction::Finished => ActivationStep::Finished,
            ActivationAction::Abort { message, revert_debugging } => ActivationStep::Abort(
                message@,
                *revert_debugging,
            ),
        }
    }
}

/// The position of a step in the order of the activation.
pub open spec fn stage_index(stage: ActivationStage) -> nat {
    match stage {
        ActivationStage::CreateEvent => 0,
        ActivationStage::InitializeCom => 1,
        ActivationStage::CreateDebugSettings => 2,
        ActivationStage::CreateActivationManager => 3,
        ActivationStage::ClearStaleDebugging => 4,
        ActivationStage::EnableDebugging => 5,
        ActivationStage::Activate => 6,
        ActivationStage::AwaitResume => 7,
        ActivationStage::DisableDebugging => 8,
    }
}

/// The report has the form that the step produces.
pub open spec fn report_fits(stage: ActivationStage, report: StageReport) -> bool {
    match stage {
        ActivationStage::CreateEvent => report is Handle,
        ActivationStage::CreateDebugSettings | ActivationStage::CreateActivationManager => report is Instance,
        ActivationStage::AwaitResume => report is Wait,
        _ => report is Status,
    }
}

/// The step succeeded.
pub open spec fn report_succeeded(report: StageReport) -> bool {
    match report {
        StageReport::Handle(present) => present,
        StageReport::Status(result) => result >= 0,
        StageReport::Instance(result, present) => result >= 0 && present,
        StageReport::Wait(signaled) => signaled,
    }
}

/// The HRESULT a report carries (zero for the others).
pub open spec fn report_status(report: StageReport) -> i32 {
    match report {
        StageReport::Status(result) => result,
        StageReport::Instance(result, _) => result,
        _ => 0,
    }
}

/// The step that follows a successful one.
pub open spec fn next_stage(stage: ActivationStage) -> ActivationStage {
    match stage {
        ActivationStage::CreateEvent => ActivationStage::InitializeCom,
        ActivationStage::InitializeCom => ActivationStage::CreateDebugSettings,
        ActivationStage::CreateDebugSettings => ActivationStage::CreateActivationManager,
        ActivationStage::CreateActivationManager => ActivationStage::ClearStaleDebugging,
        ActivationStage::ClearStaleDebugging => ActivationStage::EnableDebugging,
        ActivationStage::EnableDebugging => ActivationStage::Activate,
        ActivationStage::Activate => ActivationStage::AwaitResume,
        _ => ActivationStage::DisableDebugging,
    }
}

/// The package debug settings are registered once this step is reached.
pub open spec fn debugging_enabled_at(stage: ActivationStage) -> bool {
    stage_index(stage) > 5
}

/// The message a failed step carries.
pub open spec fn failure_message(stage: ActivationStage, report: StageReport) -> Seq<char> {
    let status = report_status(report);
    match stage {
        ActivationStage::CreateEvent => "无法创建 Store 启动握手事件。"@,
        ActivationStage::InitializeCom => hresult_message_text("无法初始化 Store 应用激活"@, status),
        ActivationStage::CreateDebugSettings | ActivationStage::CreateActivationManager =>
            hresult_message_text("无法创建 Store 激活组件"@, status),
        ActivationStage::ClearStaleDebugging | ActivationStage::EnableDebugging => hresult_message_text(
            "无法准备 Store 应用时区环境"@,
            status,
        ),
        ActivationStage::Activate => hresult_message_text("无法激活 Codex Store 应用"@, status),
        ActivationStage::AwaitResume => "Store 应用已创建，但启动线程未在 10 秒内恢复。"@,
        ActivationStage::DisableDebugging => hresult_message_text(
            "Codex 已启动，但无法撤销临时包设置"@,
            status,
        ),
    }
}

/// What follows a step with this report. The removal of stale settings
/// is always followed by the registration, however it went.
pub open spec fn activation_transition(stage: ActivationStage, report: StageReport) -> ActivationStep {
    if stage == ActivationStage::ClearStaleDebugging {
        ActivationStep::Proceed(ActivationStage::EnableDebugging)
    } else if !report_succeeded(report) {
        ActivationStep::Abort(failure_message(stage, report), debugging_enabled_at(stage))
    } else if stage == ActivationStage::DisableDebugging {
        ActivationStep::Finished
    } else {
        ActivationStep::Proceed(next_stage(stage))
    }
}

fn succeeded(report: StageReport) -> (r: bool)
    ensures
        r == report_succeeded(report),
{
    match report {
        StageReport::Handle(present) => present,
        StageReport::Status(result) => result >= 0,
        StageReport::Instance(result, present) => result >= 0 && present,
        StageReport::Wait(signaled) => signaled,
    }
}

fn status_of(report: StageReport) -> (r: i32)
    ensures
        r == report_status(report),
{
    match report {
        StageReport::Status(result) => result,
        StageReport::Instance(result, _) => result,
        _ => 0,
    }
}

/// Decides what follows `stage` now that it went as `report` says.
pub fn next_activation_action(stage: ActivationStage, report: StageReport) -> (r: ActivationAction)
    requires
        report_fits(stage, report),
    ensures
        r@ == activation_transition(stage, report),
{
    if let ActivationStage::ClearStaleDebugging = stage {
        return ActivationAction::Proceed(ActivationStage::EnableDebugging);
    }
    if !succeeded(report) {
        let status = status_of(report);
        let message = match stage {
            ActivationStage::CreateEvent => "无法创建 Store 启动握手事件。".to_owned(),
            ActivationStage::InitializeCom => hresult_message("无法初始化 Store 应用激活", status),
            ActivationStage::CreateDebugSettings | ActivationStage::CreateActivationManager =>
                hresult_message("无法创建 Store 激活组件", status),
            ActivationStage::ClearStaleDebugging | ActivationStage::EnableDebugging => hresult_message(
                "无法准备 Store 应用时区环境",
                status,
            ),
            ActivationStage::Activate => hresult_message("无法激活 Codex Store 应用", status),
            ActivationStage::AwaitResume => "Store 应用已创建，但启动线程未在 10 秒内恢复。".to_owned(),
            ActivationStage::DisableDebugging => hresult_message(
                "Codex 已启动，但无法撤销临时包设置",
                status,
            ),
        };
        let revert_debugging = match stage {
            ActivationStage::Activate | ActivationStage::AwaitResume
            | ActivationStage::DisableDebugging => true,
            _ => false,
        };
        return ActivationAction::Abort { message, revert_debugging };
    }
    match stage {
        ActivationStage::CreateEvent => ActivationAction::Proceed(ActivationStage::InitializeCom),
        ActivationStage::InitializeCom => ActivationAction::Proceed(
            ActivationStage::CreateDebugSettings,
        ),
        ActivationStage::CreateDebugSettings => ActivationAction::Proceed(
            ActivationStage::CreateActivationManager,
        ),
        ActivationStage::CreateActivationManager => ActivationAction::Proceed(
            ActivationStage::ClearStaleDebugging,
        ),
        ActivationStage::ClearStaleDebugging => ActivationAction::Proceed(
            ActivationStage::EnableDebugging,
        ),
        ActivationStage::EnableDebugging => ActivationAction::Proceed(ActivationStage::Activate),
        ActivationStage::Activate => ActivationAction::Proceed(ActivationStage::AwaitResume),
        ActivationStage::AwaitResume => ActivationAction::Proceed(ActivationStage::DisableDebugging),
        ActivationStage::DisableDebugging => ActivationAction::Finished,
    }
}

// ---------------------------------------------------------------------------
// Whole runs
// ---------------------------------------------------------------------------

/// Where a run that starts at `stage` and meets `reports` one step after
/// another ends: its final decision, or `None` when the reports run out
/// before it ends.
pub open spec fn run_from(stage: ActivationStage, reports: Seq<StageReport>) -> Option<
    (ActivationStage, ActivationStep),
>
    decreases reports.len(),
{
    if reports.len() == 0 {
        None
    } else {
        match activation_transition(stage, reports[0]) {
            ActivationStep::Proceed(next) => run_from(next, reports.drop_first()),
            step => Some((stage, step)),
        }
    }
}

/// Every run ends in one of two ways. It finishes only from the last step,
/// so a finished activation has removed the temporary package settings.
/// It aborts with the order to remove those settings exactly when it
/// stopped after registering them; an abort before that leaves nothing to
/// remove.
pub proof fn lemma_activation_never_leaves_debugging_enabled(
    stage: ActivationStage,
    reports: Seq<StageReport>,
)
    ensures
        run_from(stage, reports) matches Some((last, step)) ==> match step {
            ActivationStep::Finished => last == ActivationStage::DisableDebugging,
            ActivationStep::Abort(_, revert) => revert == debugging_enabled_at(last) && stage_index(
                last,
            ) >= stage_index(stage),
            ActivationStep::Proceed(_) => false,
        },
    decreases reports.len(),
{
    if reports.len() > 0 {
        if let ActivationStep::Proceed(next) = activation_transition(stage, reports[0]) {
            lemma_activation_never_leaves_debugging_enabled(next, reports.drop_first());
        }
    }
}

/// A step never goes back: each successful step moves one place on, so a
/// run from any step has ended once it has met as many reports as there
/// are steps left.
pub proof fn lemma_activation_moves_forward(stage: ActivationStage, reports: Seq<StageReport>)
    ensures
        forall|report: StageReport|
            #[trigger] activation_transition(stage, report) matches ActivationStep::Proceed(next)
                ==> stage_index(next) == stage_index(stage) + 1,
        reports.len() + stage_index(stage) >= 9 ==> run_from(stage, reports) is Some,
    decreases reports.len(),
{
    if reports.len() > 0 {
        if let ActivationStep::Proceed(next) = activation_transition(stage, reports[0]) {
            lemma_activation_moves_forward(next, reports.drop_first());
        }
    }
}

/// The step at a position of the order.
pub open spec fn stage_at(index: nat) -> ActivationStage {
    if index == 0 {
        ActivationStage::CreateEvent
    } else if index == 1 {
        ActivationStage::InitializeCom
    } else if index == 2 {
        ActivationStage::CreateDebugSettings
    } else if index == 3 {
        ActivationStage::CreateActivationManager
    } else if index == 4 {
        ActivationStage::ClearStaleDebugging
    } else if index == 5 {
        ActivationStage::EnableDebugging
    } else if index == 6 {
        ActivationStage::Activate
    } else if index == 7 {
        ActivationStage::AwaitResume
    } else {
        ActivationStage::DisableDebugging
    }
}

/// A run finishes only after it took every remaining step in order, each
/// successfully (but for the removal of stale settings, whose outcome does
/// not matter): in particular only after the registration, the activation,
/// the resumer's signal and the removal of the settings all succeeded.
pub proof fn lemma_finished_activation_took_every_step(
    stage: ActivationStage,
    reports: Seq<StageReport>,
)
    ensures
        run_from(stage, reports) matches Some((_, ActivationStep::Finished)) ==> {
            &&& reports.len() >= 9 - stage_index(stage)
            &&& forall|k: int|
                0 <= k < 9 - stage_index(stage) && stage_at((stage_index(stage) + k) as nat)
                    != ActivationStage::ClearStaleDebugging ==> report_succeeded(#[trigger] reports[k])
        },
    decreases reports.len(),
{
    if reports.len() > 0 {
        if let ActivationStep::Proceed(next) = activation_transition(stage, reports[0]) {
            let tail = reports.drop_first();
            lemma_finished_activation_took_every_step(next, tail);
            assert(stage_at(stage_index(stage)) == stage);
            assert(stage_index(next) == stage_index(stage) + 1);
            if run_from(stage, reports) matches Some((_, ActivationStep::Finished)) {
                assert forall|k: int|
                    0 <= k < 9 - stage_index(stage) && stage_at((stage_index(stage) + k) as nat)
                        != ActivationStage::ClearStaleDebugging implies report_succeeded(
                    #[trigger] reports[k],
                ) by {
                    if k > 0 {
                        assert(reports[k] == tail[k - 1]);
                        assert((stage_index(next) + (k - 1)) as nat == (stage_index(stage) + k) as nat);
                    }
                }
            }
        } else {
            assert(stage_at(stage_index(stage)) == stage);
        }
    }
}

/// An activation that finished did so only after the registration of the
/// `TZ` environment, the activation, the resumer's signal within the wait
/// and the removal of the registration each succeeded, in that order.
pub proof fn lemma_activation_finishes_only_after_cleanup(reports: Seq<StageReport>)
    ensures
        run_from(ActivationStage::CreateEvent, reports) matches Some((_, ActivationStep::Finished))
            ==> {
            &&& reports.len() >= 9
            &&& report_succeeded(reports[5])
            &&& report_succeeded(reports[6])
            &&& report_succeeded(reports[7])
            &&& report_succeeded(reports[8])
        },
{
    lemma_finished_activation_took_every_step(ActivationStage::CreateEvent, reports);
    assert(stage_at(5) != ActivationStage::ClearStaleDebugging);
    assert(stage_at(6) != ActivationStage::ClearStaleDebugging);
    assert(stage_at(7) != ActivationStage::ClearStaleDebugging);
    assert(stage_at(8) != ActivationStage::ClearStaleDebugging);
}

} // verus!

verus! {

/// A step that went well moves on to the step right after it (the removal
/// of stale settings moves on however it went), and the removal of the
/// registration, when it goes well, finishes the activation. A step that
/// went badly stops the run.
pub proof fn lemma_success_moves_on(stage: ActivationStage, report: StageReport)
    requires
        report_fits(stage, report),
    ensures
        (report_succeeded(report) || stage == ActivationStage::ClearStaleDebugging) && stage
            != ActivationStage::DisableDebugging ==> (activation_transition(stage, report) matches ActivationStep::Proceed(
            next,
        ) && stage_index(next) == stage_index(stage) + 1),
        report_succeeded(report) && stage == ActivationStage::DisableDebugging
            ==> activation_transition(stage, report) == ActivationStep::Finished,
        !report_succeeded(report) && stage != ActivationStage::ClearStaleDebugging
            ==> activation_transition(stage, report) is Abort,
{
}

/// A run in which every step goes well takes all nine steps in order and
/// finishes.
pub proof fn lemma_all_successful_run_finishes(reports: Seq<StageReport>)
    requires
        reports.len() >= 9,
        forall|k: int|
            0 <= k < 9 ==> report_fits(stage_at(k as nat), #[trigger] reports[k])
                && report_succeeded(reports[k]),
    ensures
        run_from(ActivationStage::CreateEvent, reports) == Some(
            (ActivationStage::DisableDebugging, ActivationStep::Finished),
        ),
{
    lemma_all_successful_run_from(0, reports);
}

proof fn lemma_all_successful_run_from(index: nat, reports: Seq<StageReport>)
    requires
        index < 9,
        reports.len() >= 9 - index,
        forall|k: int|
            0 <= k < 9 - index ==> report_fits(stage_at((index + k) as nat), #[trigger] reports[k])
                && report_succeeded(reports[k]),
    ensures
        run_from(stage_at(index), reports) == Some(
            (ActivationStage::DisableDebugging, ActivationStep::Finished),
        ),
    decreases 9 - index,
{
    let stage = stage_at(index);
    assert(report_fits(stage_at((index + 0) as nat), reports[0]) && report_succeeded(reports[0]));
    assert(stage_index(stage) == index);
    if index < 8 {
        let tail = reports.drop_first();
        assert forall|k: int| 0 <= k < 9 - (index + 1) implies report_fits(
            stage_at(((index + 1) + k) as nat),
            #[trigger] tail[k],
        ) && report_succeeded(tail[k]) by {
            assert(tail[k] == reports[k + 1]);
            assert(((index + 1) + k) as nat == (index + (k + 1)) as nat);
        }
        assert(next_stage(stage) == stage_at(index + 1));
        lemma_all_successful_run_from(index + 1, tail);
    }
}

} // verus!
