//! The order of "save and launch": validate, remember, find the client,
//! and start it only when it is not already running.
use vstd::prelude::*;
use crate::config::Settings;
use crate::timezone::timezone_verdict;

verus! {

/// How a save-and-launch ended when nothing failed.
#[derive(Clone, Debug, PartialEq, Eq)]
pub enum SaveLaunchOutcome {
    /// The settings were saved, but the client at this path is running,
    /// so it was left alone.
    AlreadyRunning(String),
    /// The settings were saved and the client at this path was started.
    Launched(String),
}

/// The text of a unit `Result`.
pub open spec fn unit_result_text(r: Result<(), String>) -> Result<(), Seq<char>> {
    match r {
        Ok(()) => Ok(()),
        Err(e) => Err(e@),
    }
}

/// `save` may answer `outcome` when handed settings for `zone`.
pub open spec fn save_answers<S: FnOnce(&Settings) -> Result<(), String>>(
    save: S,
    zone: Seq<char>,
    outcome: Result<(), Seq<char>>,
) -> bool {
    exists|settings: Settings, result: Result<(), String>|
        settings.timezone@ == zone && #[trigger] call_ensures(save, (&settings,), result)
            && unit_result_text(result) == outcome
}

/// `discover` may answer `outcome`.
pub open spec fn discover_answers<D: FnOnce() -> Result<String, String>>(
    discover: D,
    outcome: Result<Seq<char>, Seq<char>>,
) -> bool {
    exists|result: Result<String, String>|
        #[trigger] call_ensures(discover, (), result) && crate::text::text_result(result) == outcome
}

/// `running` may answer `outcome` for the client at `path`.
pub open spec fn running_answers<R: FnOnce(&str) -> Result<bool, String>>(
    running: R,
    path: Seq<char>,
    outcome: Result<bool, Seq<char>>,
) -> bool {
    exists|p: &str, result: Result<bool, String>|
        p@ == path && #[trigger] call_ensures(running, (p,), result) && match result {
            Ok(b) => outcome == Ok::<bool, Seq<char>>(b),
            Err(e) => outcome == Err::<bool, Seq<char>>(e@),
        }
}

/// `launch` may answer `outcome` for the client at `path` and `zone`.
pub open spec fn launch_answers<L: FnOnce(&str, &str) -> Result<(), String>>(
    launch: L,
    path: Seq<char>,
    zone: Seq<char>,
    outcome: Result<(), Seq<char>>,
) -> bool {
    exists|p: &str, z: &str, result: Result<(), String>|
        p@ == path && z@ == zone && #[trigger] call_ensures(launch, (p, z), result)
            && unit_result_text(result) == outcome
}

// ---------------------------------------------------------------------------
// The steps of a save-and-launch
// ---------------------------------------------------------------------------

/// Where a save-and-launch stands: the answer it waits for next.
pub enum SaveLaunchState {
    /// The settings for the validated `zone` are being saved.
    AwaitSave { zone: String },
    /// The client is being looked for.
    AwaitDiscover { zone: String },
    /// It is being checked whether the client at `path` is running.
    AwaitRunning { zone: String, path: String },
    /// The client at `path` is being started.
    AwaitLaunch { path: String },
    /// Nothing more happens.
    Done,
}

/// The answer of the step that was asked for.
pub enum SaveLaunchEvent {
    Saved(Result<(), String>),
    Discovered(Result<String, String>),
    RunningChecked(Result<bool, String>),
    LaunchDone(Result<(), String>),
}

/// The step to take next.
pub enum SaveLaunchAction {
    /// Save these settings.
    Save(Settings),
    /// Look for the client.
    Discover,
    /// Check whether the client at this path is running.
    CheckRunning(String),
    /// Start the client at this path (first) with this zone (second).
    Launch(String, String),
    /// Stop with this result.
    Finish(Result<SaveLaunchOutcome, String>),
}

/// `SaveLaunchState` with its texts as sequences.
pub enum SaveLaunchStage {
    AwaitSave(Seq<char>),
    AwaitDiscover(Seq<char>),
    AwaitRunning(Seq<char>, Seq<char>),
    AwaitLaunch(Seq<char>),
    Done,
}

/// `SaveLaunchEvent` with its texts as sequences.
pub enum SaveLaunchAnswer {
    Saved(Result<(), Seq<char>>),
    Discovered(Result<Seq<char>, Seq<char>>),
    RunningChecked(Result<bool, Seq<char>>),
    LaunchDone(Result<(), Seq<char>>),
}

/// How a save-and-launch ends, with its texts as sequences.
pub enum SaveLaunchEnd {
    AlreadyRunning(Seq<char>),
    Launched(Seq<char>),
    Failed(Seq<char>),
}

/// `SaveLaunchAction` with its texts as sequences (the settings by their zone).
pub enum SaveLaunchCall {
    Save(Seq<char>),
    Discover,
    CheckRunning(Seq<char>),
    Launch(Seq<char>, Seq<char>),
    Finish(SaveLaunchEnd),
}

/// The end of a save-and-launch result, as text.
pub open spec fn outcome_end(r: Result<SaveLaunchOutcome, String>) -> SaveLaunchEnd {
    match r {
        Ok(SaveLaunchOutcome::AlreadyRunning(path)) => SaveLaunchEnd::AlreadyRunning(path@),
        Ok(SaveLaunchOutcome::Launched(path)) => SaveLaunchEnd::Launched(path@),
        Err(message) => SaveLaunchEnd::Failed(message@),
    }
}

impl View for SaveLaunchState {
    type V = SaveLaunchStage;

    open spec fn view(&self) -> SaveLaunchStage {
        match self {
            SaveLaunchState::AwaitSave { zone } => SaveLaunchStage::AwaitSave(zone@),
            SaveLaunchState::AwaitDiscover { zone } => SaveLaunchStage::AwaitDiscover(zone@),
            SaveLaunchState::AwaitRunning { zone, path } => SaveLaunchStage::AwaitRunning(
                zone@,
                path@,
            ),
            SaveLaunchState::AwaitLaunch { path } => SaveLaunchStage::AwaitLaunch(path@),
            SaveLaunchState::Done => SaveLaunchStage::Done,
        }
    }
}

impl View for SaveLaunchEvent {
    type V = SaveLaunchAnswer;

    open spec fn view(&self) -> SaveLaunchAnswer {
        match self {
            SaveLaunchEvent::Saved(r) => SaveLaunchAnswer::Saved(unit_result_text(*r)),
            SaveLaunchEvent::Discovered(r) => SaveLaunchAnswer::Discovered(
                crate::text::text_result(*r),
            ),
            SaveLaunchEvent::RunningChecked(r) => SaveLaunchAnswer::RunningChecked(
                match r {
                    Ok(b) => Ok(*b),
                    Err(e) => Err(e@),
                },
            ),
            SaveLaunchEvent::LaunchDone(r) => SaveLaunchAnswer::LaunchDone(unit_result_text(*r)),
        }
    }
}

impl View for SaveLaunchAction {
    type V = SaveLaunchCall;

    open spec fn view(&self) -> SaveLaunchCall {
        match self {
            SaveLaunchAction::Save(settings) => SaveLaunchCall::Save(settings.timezone@),
            SaveLaunchAction::Discover => SaveLaunchCall::Discover,
            SaveLaunchAction::CheckRunning(path) => SaveLaunchCall::CheckRunning(path@),
            SaveLaunchAction::Launch(path, zone) => SaveLaunchCall::Launch(path@, zone@),
            SaveLaunchAction::Finish(r) => SaveLaunchCall::Finish(outcome_end(*r)),
        }
    }
}

/// How a save-and-launch begins: a refused zone ends it at once with the
/// validator's message, before any step; a valid one is saved first.
pub open spec fn save_launch_begin(timezone: Seq<char>) -> (SaveLaunchStage, SaveLaunchCall) {
    match timezone_verdict(timezone) {
        Ok(zone) => (SaveLaunchStage::AwaitSave(zone), SaveLaunchCall::Save(zone)),
        Err(message) => (SaveLaunchStage::Done, SaveLaunchCall::Finish(SaveLaunchEnd::Failed(message))),
    }
}

/// The answer is the one the stage waits for.
pub open spec fn answer_fits(stage: SaveLaunchStage, answer: SaveLaunchAnswer) -> bool {
    match stage {
        SaveLaunchStage::AwaitSave(_) => answer is Saved,
        SaveLaunchStage::AwaitDiscover(_) => answer is Discovered,
        SaveLaunchStage::AwaitRunning(_, _) => answer is RunningChecked,
        SaveLaunchStage::AwaitLaunch(_) => answer is LaunchDone,
        SaveLaunchStage::Done => false,
    }
}

/// What follows an answer: after a successful save the client is looked
/// for; the path found is checked for a running client; a running client
/// ends the run (it is never started), a stopped one is started with the
/// saved zone; a start ends the run. The first failure ends the run with
/// its message, and nothing follows it.
pub open spec fn save_launch_transition(stage: SaveLaunchStage, answer: SaveLaunchAnswer) -> (
    SaveLaunchStage,
    SaveLaunchCall,
) {
    match stage {
        SaveLaunchStage::AwaitSave(zone) => match answer {
            SaveLaunchAnswer::Saved(Ok(())) => (
                SaveLaunchStage::AwaitDiscover(zone),
                SaveLaunchCall::Discover,
            ),
            SaveLaunchAnswer::Saved(Err(e)) => (
                SaveLaunchStage::Done,
                SaveLaunchCall::Finish(SaveLaunchEnd::Failed(e)),
            ),
            _ => (stage, SaveLaunchCall::Discover),
        },
        SaveLaunchStage::AwaitDiscover(zone) => match answer {
            SaveLaunchAnswer::Discovered(Ok(path)) => (
                SaveLaunchStage::AwaitRunning(zone, path),
                SaveLaunchCall::CheckRunning(path),
            ),
            SaveLaunchAnswer::Discovered(Err(e)) => (
                SaveLaunchStage::Done,
                SaveLaunchCall::Finish(SaveLaunchEnd::Failed(e)),
            ),
            _ => (stage, SaveLaunchCall::Discover),
        },
        SaveLaunchStage::AwaitRunning(zone, path) => match answer {
            SaveLaunchAnswer::RunningChecked(Ok(true)) => (
                SaveLaunchStage::Done,
                SaveLaunchCall::Finish(SaveLaunchEnd::AlreadyRunning(path)),
            ),
            SaveLaunchAnswer::RunningChecked(Ok(false)) => (
                SaveLaunchStage::AwaitLaunch(path),
                SaveLaunchCall::Launch(path, zone),
            ),
            SaveLaunchAnswer::RunningChecked(Err(e)) => (
                SaveLaunchStage::Done,
                SaveLaunchCall::Finish(SaveLaunchEnd::Failed(e)),
            ),
            _ => (stage, SaveLaunchCall::Discover),
        },
        SaveLaunchStage::AwaitLaunch(path) => match answer {
            SaveLaunchAnswer::LaunchDone(Ok(())) => (
                SaveLaunchStage::Done,
                SaveLaunchCall::Finish(SaveLaunchEnd::Launched(path)),
            ),
            SaveLaunchAnswer::LaunchDone(Err(e)) => (
                SaveLaunchStage::Done,
                SaveLaunchCall::Finish(SaveLaunchEnd::Failed(e)),
            ),
            _ => (stage, SaveLaunchCall::Discover),
        },
        SaveLaunchStage::Done => (stage, SaveLaunchCall::Discover),
    }
}

/// Validates `timezone` and gives the first step: saving the settings for
/// the valid zone, or the end with the validator's message.
pub fn save_launch_start(timezone: &str) -> (r: (SaveLaunchState, SaveLaunchAction))
    ensures
        (r.0@, r.1@) == save_launch_begin(timezone@),
{
    match Settings::new(timezone) {
        Ok(settings) => {
            let zone = settings.timezone.clone();
            (SaveLaunchState::AwaitSave { zone }, SaveLaunchAction::Save(settings))
        },
        Err(message) => (SaveLaunchState::Done, SaveLaunchAction::Finish(Err(message))),
    }
}

/// Decides the next step of a save-and-launch from its state and the
/// answer of the step just taken.
pub fn save_launch_step(state: SaveLaunchState, event: SaveLaunchEvent) -> (r: (
    SaveLaunchState,
    SaveLaunchAction,
))
    requires
        answer_fits(state@, event@),
    ensures
        (r.0@, r.1@) == save_launch_transition(state@, event@),
{
    match state {
        SaveLaunchState::AwaitSave { zone } => match event {
            SaveLaunchEvent::Saved(Ok(())) => (
                SaveLaunchState::AwaitDiscover { zone },
                SaveLaunchAction::Discover,
            ),
            SaveLaunchEvent::Saved(Err(e)) => (SaveLaunchState::Done, SaveLaunchAction::Finish(Err(e))),
            _ => vstd::pervasive::unreached(),
        },
        SaveLaunchState::AwaitDiscover { zone } => match event {
            SaveLaunchEvent::Discovered(Ok(path)) => {
                let checked = path.clone();
                (SaveLaunchState::AwaitRunning { zone, path }, SaveLaunchAction::CheckRunning(checked))
            },
            SaveLaunchEvent::Discovered(Err(e)) => (
                SaveLaunchState::Done,
                SaveLaunchAction::Finish(Err(e)),
            ),
            _ => vstd::pervasive::unreached(),
        },
        SaveLaunchState::AwaitRunning { zone, path } => match event {
            SaveLaunchEvent::RunningChecked(Ok(true)) => (
                SaveLaunchState::Done,
                SaveLaunchAction::Finish(Ok(SaveLaunchOutcome::AlreadyRunning(path))),
            ),
            SaveLaunchEvent::RunningChecked(Ok(false)) => {
                let started = path.clone();
                (SaveLaunchState::AwaitLaunch { path }, SaveLaunchAction::Launch(started, zone))
            },
            SaveLaunchEvent::RunningChecked(Err(e)) => (
                SaveLaunchState::Done,
                SaveLaunchAction::Finish(Err(e)),
            ),
            _ => vstd::pervasive::unreached(),
        },
        SaveLaunchState::AwaitLaunch { path } => match event {
            SaveLaunchEvent::LaunchDone(Ok(())) => (
                SaveLaunchState::Done,
                SaveLaunchAction::Finish(Ok(SaveLaunchOutcome::Launched(path))),
            ),
            SaveLaunchEvent::LaunchDone(Err(e)) => (
                SaveLaunchState::Done,
                SaveLaunchAction::Finish(Err(e)),
            ),
            _ => vstd::pervasive::unreached(),
        },
        SaveLaunchState::Done => vstd::pervasive::unreached(),
    }
}

/// Saves the zone, finds the client and starts it with that zone, unless
/// it is running already, taking the steps that `save_launch_start` and
/// `save_launch_step` decide, in turn. The zone is validated before anything else
/// happens, `save` receives exactly the validated settings, `running` and
/// `launch` receive the path that `discover` returned, and the first
/// failure is returned as it is. The `requires` lets each step be taken
/// only in its turn: `save` only for the validated zone, `discover` only
/// after a successful save, `running` only for a path that `discover`
/// answered, and `launch` only for such a path that `running` found not
/// running, with the validated zone.
pub fn save_and_launch_with<Save, Discover, Running, Launch>(
    timezone: &str,
    save: Save,
    discover: Discover,
    running: Running,
    launch: Launch,
) -> (r: Result<SaveLaunchOutcome, String>) where
    Save: FnOnce(&Settings) -> Result<(), String>,
    Discover: FnOnce() -> Result<String, String>,
    Running: FnOnce(&str) -> Result<bool, String>,
    Launch: FnOnce(&str, &str) -> Result<(), String>,

    requires
        forall|s: &Settings|
            timezone_verdict(timezone@) is Ok && s.timezone@ == timezone@ ==> call_requires(
                save,
                (s,),
            ),
        timezone_verdict(timezone@) is Ok && save_answers(save, timezone@, Ok(())) ==> call_requires(
            discover,
            (),
        ),
        forall|p: &str|
            timezone_verdict(timezone@) is Ok && save_answers(save, timezone@, Ok(()))
                && discover_answers(discover, Ok(p@)) ==> call_requires(running, (p,)),
        forall|p: &str, z: &str|
            timezone_verdict(timezone@) is Ok && save_answers(save, timezone@, Ok(()))
                && discover_answers(discover, Ok(p@)) && running_answers(running, p@, Ok(false))
                && z@ == timezone@ ==> call_requires(launch, (p, z)),
    ensures
        timezone_verdict(timezone@) matches Err(message) ==> r matches Err(e) && e@ == message,
        r matches Ok(SaveLaunchOutcome::AlreadyRunning(path)) ==> {
            &&& timezone_verdict(timezone@) == Ok::<Seq<char>, Seq<char>>(timezone@)
            &&& save_answers(save, timezone@, Ok(()))
            &&& discover_answers(discover, Ok(path@))
            &&& running_answers(running, path@, Ok(true))
        },
        r matches Ok(SaveLaunchOutcome::Launched(path)) ==> {
            &&& timezone_verdict(timezone@) == Ok::<Seq<char>, Seq<char>>(timezone@)
            &&& save_answers(save, timezone@, Ok(()))
            &&& discover_answers(discover, Ok(path@))
            &&& running_answers(running, path@, Ok(false))
            &&& launch_answers(launch, path@, timezone@, Ok(()))
        },
        timezone_verdict(timezone@) is Ok ==> (r matches Err(e) ==> {
            ||| save_answers(save, timezone@, Err(e@))
            ||| save_answers(save, timezone@, Ok(())) && discover_answers(discover, Err(e@))
            ||| save_answers(save, timezone@, Ok(())) && exists|path: Seq<char>|
                #[trigger] discover_answers(discover, Ok(path)) && (running_answers(running, path, Err(e@))
                    || (running_answers(running, path, Ok(false)) && launch_answers(
                    launch,
                    path,
                    timezone@,
                    Err(e@),
                )))
        }),
{
    let (state, action) = save_launch_start(timezone);
    let settings = match action {
        SaveLaunchAction::Save(settings) => settings,
        SaveLaunchAction::Finish(r) => return r,
        _ => vstd::pervasive::unreached(),
    };
    let saved = save(&settings);
    assert(call_ensures(save, (&settings,), saved));
    let (state, action) = save_launch_step(state, SaveLaunchEvent::Saved(saved));
    match action {
        SaveLaunchAction::Discover => {},
        SaveLaunchAction::Finish(r) => return r,
        _ => vstd::pervasive::unreached(),
    }
    let found = discover();
    assert(call_ensures(discover, (), found));
    let (state, action) = save_launch_step(state, SaveLaunchEvent::Discovered(found));
    let executable = match action {
        SaveLaunchAction::CheckRunning(path) => path,
        SaveLaunchAction::Finish(r) => return r,
        _ => vstd::pervasive::unreached(),
    };
    let path: &str = executable.as_str();
    let checked = running(path);
    assert(call_ensures(running, (path,), checked));
    assert(discover_answers(discover, Ok(executable@)));
    let (state, action) = save_launch_step(state, SaveLaunchEvent::RunningChecked(checked));
    let (target, zone) = match action {
        SaveLaunchAction::Launch(target, zone) => (target, zone),
        SaveLaunchAction::Finish(r) => {
            assert(running_answers(running, executable@, Ok(true)) || running_answers(
                running,
                executable@,
                Err(outcome_end(r)->Failed_0),
            ));
            return r;
        },
        _ => vstd::pervasive::unreached(),
    };
    assert(running_answers(running, executable@, Ok(false)));
    let target_path: &str = target.as_str();
    let target_zone: &str = zone.as_str();
    let started = launch(target_path, target_zone);
    assert(call_ensures(launch, (target_path, target_zone), started));
    assert(launch_answers(launch, executable@, timezone@, unit_result_text(started)));
    let (_, action) = save_launch_step(state, SaveLaunchEvent::LaunchDone(started));
    match action {
        SaveLaunchAction::Finish(r) => r,
        _ => vstd::pervasive::unreached(),
    }
}

} // verus!

verus! {

// ---------------------------------------------------------------------------
// Laws of the steps
// ---------------------------------------------------------------------------

/// The place of a stage in the order of the steps.
pub open spec fn stage_rank(stage: SaveLaunchStage) -> nat {
    match stage {
        SaveLaunchStage::AwaitSave(_) => 0,
        SaveLaunchStage::AwaitDiscover(_) => 1,
        SaveLaunchStage::AwaitRunning(_, _) => 2,
        SaveLaunchStage::AwaitLaunch(_) => 3,
        SaveLaunchStage::Done => 4,
    }
}

/// The place of a step in the order of the steps.
pub open spec fn call_rank(call: SaveLaunchCall) -> nat {
    match call {
        SaveLaunchCall::Save(_) => 0,
        SaveLaunchCall::Discover => 1,
        SaveLaunchCall::CheckRunning(_) => 2,
        SaveLaunchCall::Launch(_, _) => 3,
        SaveLaunchCall::Finish(_) => 4,
    }
}

/// The zone a stage carries (empty for the stages that carry none).
pub open spec fn stage_zone(stage: SaveLaunchStage) -> Seq<char> {
    match stage {
        SaveLaunchStage::AwaitSave(zone) => zone,
        SaveLaunchStage::AwaitDiscover(zone) => zone,
        SaveLaunchStage::AwaitRunning(zone, _) => zone,
        _ => Seq::empty(),
    }
}

/// The steps decided from `stage` on, when the steps taken answer
/// `answers` in turn (until an answer is not the one awaited).
pub open spec fn save_launch_calls(stage: SaveLaunchStage, answers: Seq<SaveLaunchAnswer>) -> Seq<
    SaveLaunchCall,
>
    decreases answers.len(),
{
    if answers.len() == 0 || !answer_fits(stage, answers[0]) {
        Seq::empty()
    } else {
        let (next, call) = save_launch_transition(stage, answers[0]);
        seq![call] + save_launch_calls(next, answers.drop_first())
    }
}

/// Every step of a save-and-launch of `timezone` whose steps answer
/// `answers` in turn: the first step, then those that follow the answers.
pub open spec fn save_launch_run(timezone: Seq<char>, answers: Seq<SaveLaunchAnswer>) -> Seq<
    SaveLaunchCall,
> {
    seq![save_launch_begin(timezone).1] + save_launch_calls(save_launch_begin(timezone).0, answers)
}

proof fn lemma_calls_from(stage: SaveLaunchStage, answers: Seq<SaveLaunchAnswer>)
    ensures
        ({
            let c = save_launch_calls(stage, answers);
            &&& forall|i: int, j: int|
                0 <= i < j < c.len() ==> call_rank(#[trigger] c[i]) < call_rank(#[trigger] c[j])
            &&& forall|i: int| 0 <= i < c.len() ==> call_rank(#[trigger] c[i]) > stage_rank(stage)
            &&& c.len() <= answers.len()
            &&& forall|k: int|
                0 <= k < c.len() ==> (#[trigger] c[k] matches SaveLaunchCall::Launch(p, z) ==> {
                    &&& z == stage_zone(stage)
                    &&& answers[k] == SaveLaunchAnswer::RunningChecked(Ok(false))
                    &&& k > 0 ==> c[k - 1] == SaveLaunchCall::CheckRunning(p)
                    &&& k == 0 ==> stage == SaveLaunchStage::AwaitRunning(z, p)
                })
        }),
    decreases answers.len(),
{
    if answers.len() > 0 && answer_fits(stage, answers[0]) {
        let (next, call) = save_launch_transition(stage, answers[0]);
        let tail = answers.drop_first();
        lemma_calls_from(next, tail);
        let rest = save_launch_calls(next, tail);
        let c = save_launch_calls(stage, answers);
        assert(c == seq![call] + rest);
        assert(call_rank(call) == stage_rank(next));
        assert(call_rank(call) > stage_rank(stage));
        assert forall|i: int, j: int| 0 <= i < j < c.len() implies call_rank(#[trigger] c[i])
            < call_rank(#[trigger] c[j]) by {
            if i > 0 {
                assert(c[i] == rest[i - 1]);
            }
            assert(c[j] == rest[j - 1]);
        }
        assert forall|k: int| 0 <= k < c.len() implies (#[trigger] c[k] matches SaveLaunchCall::Launch(
            p,
            z,
        ) ==> {
            &&& z == stage_zone(stage)
            &&& answers[k] == SaveLaunchAnswer::RunningChecked(Ok(false))
            &&& k > 0 ==> c[k - 1] == SaveLaunchCall::CheckRunning(p)
            &&& k == 0 ==> stage == SaveLaunchStage::AwaitRunning(z, p)
        }) by {
            if k > 0 {
                assert(c[k] == rest[k - 1]);
                assert(answers[k] == tail[k - 1]);
                if let SaveLaunchCall::Launch(p, z) = c[k] {
                    assert(call_rank(rest[k - 1]) == 3);
                    assert(stage_rank(next) < 3);
                    if k == 1 {
                        assert(next == SaveLaunchStage::AwaitRunning(z, p));
                    } else {
                        assert(c[k - 1] == rest[k - 2]);
                    }
                }
            }
        }
    }
}

/// The order of a save-and-launch, whatever its steps answer: the steps
/// come in the order save, look for the client, check whether it runs,
/// start it, end, each at most once, and nothing follows the end. A
/// refused zone ends the run before any step. A valid zone is saved
/// first, as it is. The client is started only right after the check of
/// that same path answered that it is not running, and with the validated
/// zone.
pub proof fn lemma_save_launch_order(timezone: Seq<char>, answers: Seq<SaveLaunchAnswer>)
    ensures
        ({
            let run = save_launch_run(timezone, answers);
            &&& forall|i: int, j: int|
                0 <= i < j < run.len() ==> call_rank(#[trigger] run[i]) < call_rank(
                    #[trigger] run[j],
                )
            &&& timezone_verdict(timezone) matches Err(message) ==> run == seq![
                SaveLaunchCall::Finish(SaveLaunchEnd::Failed(message)),
            ]
            &&& timezone_verdict(timezone) is Ok ==> run[0] == SaveLaunchCall::Save(timezone)
            &&& forall|k: int|
                0 <= k < run.len() ==> (#[trigger] run[k] matches SaveLaunchCall::Launch(p, z) ==> {
                    &&& z == timezone
                    &&& k >= 2
                    &&& run[k - 1] == SaveLaunchCall::CheckRunning(p)
                    &&& answers[k - 1] == SaveLaunchAnswer::RunningChecked(Ok(false))
                })
        }),
{
    let (stage, first) = save_launch_begin(timezone);
    let rest = save_launch_calls(stage, answers);
    let run = save_launch_run(timezone, answers);
    lemma_calls_from(stage, answers);
    assert(run == seq![first] + rest);
    assert(call_rank(first) == stage_rank(stage));
    if timezone_verdict(timezone) is Err {
        assert(rest =~= Seq::<SaveLaunchCall>::empty());
        assert(run =~= seq![first]);
    }
    assert forall|i: int, j: int| 0 <= i < j < run.len() implies call_rank(#[trigger] run[i])
        < call_rank(#[trigger] run[j]) by {
        if i > 0 {
            assert(run[i] == rest[i - 1]);
        }
        assert(run[j] == rest[j - 1]);
    }
    assert forall|k: int| 0 <= k < run.len() implies (#[trigger] run[k] matches SaveLaunchCall::Launch(
        p,
        z,
    ) ==> {
        &&& z == timezone
        &&& k >= 2
        &&& run[k - 1] == SaveLaunchCall::CheckRunning(p)
        &&& answers[k - 1] == SaveLaunchAnswer::RunningChecked(Ok(false))
    }) by {
        if let SaveLaunchCall::Launch(p, z) = run[k] {
            assert(k > 0);
            assert(run[k] == rest[k - 1]);
            assert(stage matches SaveLaunchStage::AwaitSave(_));
            assert(k - 1 > 0);
            assert(run[k - 1] == rest[k - 2]);
        }
    }
}

} // verus!

verus! {

/// Each successful answer moves to the next step: a saved zone leads to
/// looking for the client, a path found to checking that same path, a
/// stopped client to starting that path with the saved zone, and a start
/// to the end with that path launched; a running client ends the run as
/// already running, at that path, with no start. Any failed answer ends
/// the run with its own message.
pub proof fn lemma_answers_move_the_run(zone: Seq<char>, path: Seq<char>, message: Seq<char>)
    ensures
        save_launch_transition(SaveLaunchStage::AwaitSave(zone), SaveLaunchAnswer::Saved(Ok(())))
            == (SaveLaunchStage::AwaitDiscover(zone), SaveLaunchCall::Discover),
        save_launch_transition(
            SaveLaunchStage::AwaitDiscover(zone),
            SaveLaunchAnswer::Discovered(Ok(path)),
        ) == (SaveLaunchStage::AwaitRunning(zone, path), SaveLaunchCall::CheckRunning(path)),
        save_launch_transition(
            SaveLaunchStage::AwaitRunning(zone, path),
            SaveLaunchAnswer::RunningChecked(Ok(false)),
        ) == (SaveLaunchStage::AwaitLaunch(path), SaveLaunchCall::Launch(path, zone)),
        save_launch_transition(
            SaveLaunchStage::AwaitRunning(zone, path),
            SaveLaunchAnswer::RunningChecked(Ok(true)),
        ).1 == SaveLaunchCall::Finish(SaveLaunchEnd::AlreadyRunning(path)),
        save_launch_transition(SaveLaunchStage::AwaitLaunch(path), SaveLaunchAnswer::LaunchDone(Ok(())))
            .1 == SaveLaunchCall::Finish(SaveLaunchEnd::Launched(path)),
        save_launch_transition(
            SaveLaunchStage::AwaitSave(zone),
            SaveLaunchAnswer::Saved(Err(message)),
        ).1 == SaveLaunchCall::Finish(SaveLaunchEnd::Failed(message)),
        save_launch_transition(
            SaveLaunchStage::AwaitDiscover(zone),
            SaveLaunchAnswer::Discovered(Err(message)),
        ).1 == SaveLaunchCall::Finish(SaveLaunchEnd::Failed(message)),
        save_launch_transition(
            SaveLaunchStage::AwaitRunning(zone, path),
            SaveLaunchAnswer::RunningChecked(Err(message)),
        ).1 == SaveLaunchCall::Finish(SaveLaunchEnd::Failed(message)),
        save_launch_transition(
            SaveLaunchStage::AwaitLaunch(path),
            SaveLaunchAnswer::LaunchDone(Err(message)),
        ).1 == SaveLaunchCall::Finish(SaveLaunchEnd::Failed(message)),
        timezone_verdict(zone) is Ok ==> save_launch_begin(zone) == (
            SaveLaunchStage::AwaitSave(zone),
            SaveLaunchCall::Save(zone),
        ),
{
    crate::timezone::lemma_validation_is_idempotent(zone);
}

} // verus!
