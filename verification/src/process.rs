//! Which running processes keep the launcher from starting the client.
use vstd::prelude::*;
use crate::discovery::ClientTarget;
use crate::text::{ascii_lower, eq_ignore_ascii_case, str_eq_ignore_ascii_case, text_option};
use crate::workflow::unit_result_text;

verus! {

/// The file name of the ChatGPT desktop client.
pub const CHATGPT_EXECUTABLE: &'static str = "ChatGPT.exe";

/// The file name of the Codex desktop client (also the Codex CLI's name).
pub const CODEX_EXECUTABLE: &'static str = "Codex.exe";

/// A running process, as the process snapshot reports it: its executable
/// file name and, when it could be queried, the full path of its image.
#[derive(Clone, Debug, PartialEq, Eq)]
pub struct ProcessInfo {
    pub name: String,
    pub path: Option<String>,
}

/// Whether a process with this name and path means the client is already
/// running: any `ChatGPT.exe` does; a `Codex.exe` only when its path is
/// the target's (so the Codex CLI does not), both compared ignoring ASCII
/// case.
pub open spec fn blocks_launch(target: Seq<char>, name: Seq<char>, path: Option<Seq<char>>) -> bool {
    if eq_ignore_ascii_case(name, CHATGPT_EXECUTABLE@) {
        true
    } else if !eq_ignore_ascii_case(name, CODEX_EXECUTABLE@) {
        false
    } else {
        path matches Some(p) && eq_ignore_ascii_case(target, p)
    }
}

pub open spec fn is_client_name(name: Seq<char>) -> bool {
    eq_ignore_ascii_case(name, CHATGPT_EXECUTABLE@) || eq_ignore_ascii_case(name, CODEX_EXECUTABLE@)
}

/// Decides whether the process `process_name` (image `process_path`)
/// keeps the client at `target` from being launched.
pub fn should_block_for_process(target: &str, process_name: &str, process_path: Option<&str>) -> (r:
    bool)
    ensures
        r == blocks_launch(
            target@,
            process_name@,
            match process_path {
                Some(p) => Some(p@),
                None => None,
            },
        ),
{
    if str_eq_ignore_ascii_case(process_name, CHATGPT_EXECUTABLE) {
        return true;
    }
    if !str_eq_ignore_ascii_case(process_name, CODEX_EXECUTABLE) {
        return false;
    }
    match process_path {
        Some(running_path) => str_eq_ignore_ascii_case(target, running_path),
        None => false,
    }
}

/// Whether a process snapshot entry names one of the two clients (the
/// snapshot keeps only those).
pub fn is_client_process_name(name: &str) -> (r: bool)
    ensures
        r == is_client_name(name@),
{
    str_eq_ignore_ascii_case(name, CHATGPT_EXECUTABLE) || str_eq_ignore_ascii_case(
        name,
        CODEX_EXECUTABLE,
    )
}

/// Whether any of the running `processes` keeps the client at `target`
/// from being launched.
pub fn is_client_running(target: &str, processes: &[ProcessInfo]) -> (r: bool)
    ensures
        r == exists|i: int|
            0 <= i < processes@.len() && #[trigger] blocks_launch(
                target@,
                processes@[i].name@,
                text_option(processes@[i].path),
            ),
{
    let mut i: usize = 0;
    while i < processes.len()
        invariant
            0 <= i <= processes.len(),
            forall|k: int|
                0 <= k < i ==> !#[trigger] blocks_launch(
                    target@,
                    processes@[k].name@,
                    text_option(processes@[k].path),
                ),
        decreases processes.len() - i,
    {
        let process = &processes[i];
        let path: Option<&str> = match &process.path {
            Some(p) => Some(p.as_str()),
            None => None,
        };
        if should_block_for_process(target, process.name.as_str(), path) {
            assert(blocks_launch(target@, processes@[i as int].name@, text_option(processes@[i as int].path)));
            return true;
        }
        i += 1;
    }
    false
}

/// `direct` may answer `outcome` for the executable `path` and `zone`.
pub open spec fn direct_answers<D: FnOnce(&str, &str) -> Result<(), String>>(
    direct: D,
    path: Seq<char>,
    zone: Seq<char>,
    outcome: Result<(), Seq<char>>,
) -> bool {
    exists|p: &str, z: &str, result: Result<(), String>|
        p@ == path && z@ == zone && #[trigger] call_ensures(direct, (p, z), result)
            && unit_result_text(result) == outcome
}

/// `package` may answer `outcome` for the package `full_name`, the
/// application `app_id` and `zone`.
pub open spec fn package_answers<P: FnOnce(&str, &str, &str) -> Result<(), String>>(
    package: P,
    full_name: Seq<char>,
    app_id: Seq<char>,
    zone: Seq<char>,
    outcome: Result<(), Seq<char>>,
) -> bool {
    exists|f: &str, a: &str, z: &str, result: Result<(), String>|
        f@ == full_name && a@ == app_id && z@ == zone && #[trigger] call_ensures(
            package,
            (f, a, z),
            result,
        ) && unit_result_text(result) == outcome
}

/// How a target is started: an ordinary executable from its path, a Store
/// package by its full name and application id.
pub enum LaunchRoute<'a> {
    Direct(&'a str),
    Package(&'a str, &'a str),
}

/// `LaunchRoute` with its texts as sequences.
pub enum LaunchRouteText {
    Direct(Seq<char>),
    Package(Seq<char>, Seq<char>),
}

impl<'a> View for LaunchRoute<'a> {
    type V = LaunchRouteText;

    open spec fn view(&self) -> LaunchRouteText {
        match self {
            LaunchRoute::Direct(path) => LaunchRouteText::Direct(path@),
            LaunchRoute::Package(full_name, app_id) => LaunchRouteText::Package(full_name@, app_id@),
        }
    }
}

/// An ordinary executable is started directly from its path; a Store
/// package only through activation, never from its executable's path.
pub open spec fn route_of(target: ClientTarget) -> LaunchRouteText {
    match target {
        ClientTarget::DesktopExecutable(path) => LaunchRouteText::Direct(path@),
        ClientTarget::StorePackage { package_full_name, app_user_model_id, .. } =>
            LaunchRouteText::Package(package_full_name@, app_user_model_id@),
    }
}

/// The way `target` is started.
pub fn launch_route<'a>(target: &'a ClientTarget) -> (r: LaunchRoute<'a>)
    ensures
        r@ == route_of(*target),
{
    match target {
        ClientTarget::DesktopExecutable(path) => LaunchRoute::Direct(path.as_str()),
        ClientTarget::StorePackage { package_full_name, app_user_model_id, .. } => LaunchRoute::Package(
            package_full_name.as_str(),
            app_user_model_id.as_str(),
        ),
    }
}

/// Starts `target` with `timezone` on the route that `launch_route`
/// decides: an ordinary executable through `direct` (a process started
/// from its path), a Store package through `package` (activation by its
/// full name and application id). Only the one that fits the target is
/// called, and its answer is returned; the `requires` lets `direct` run
/// only for a desktop target's path and `package` only for a Store
/// target's package, each with `timezone`.
pub fn launch_client_target_with<Direct, Package>(
    target: &ClientTarget,
    timezone: &str,
    direct: Direct,
    package: Package,
) -> (r: Result<(), String>) where
    Direct: FnOnce(&str, &str) -> Result<(), String>,
    Package: FnOnce(&str, &str, &str) -> Result<(), String>,

    requires
        forall|p: &str, z: &str|
            route_of(*target) == LaunchRouteText::Direct(p@) && z@ == timezone@ ==> call_requires(
                direct,
                (p, z),
            ),
        forall|f: &str, a: &str, z: &str|
            route_of(*target) == LaunchRouteText::Package(f@, a@) && z@ == timezone@
                ==> call_requires(package, (f, a, z)),
    ensures
        match target {
            ClientTarget::DesktopExecutable(path) => direct_answers(
                direct,
                path@,
                timezone@,
                unit_result_text(r),
            ),
            ClientTarget::StorePackage { package_full_name, app_user_model_id, .. } =>
                package_answers(
                package,
                package_full_name@,
                app_user_model_id@,
                timezone@,
                unit_result_text(r),
            ),
        },
{
    match launch_route(target) {
        LaunchRoute::Direct(path) => {
            let result = direct(path, timezone);
            assert(call_ensures(direct, (path, timezone), result));
            result
        },
        LaunchRoute::Package(full_name, app_id) => {
            let result = package(full_name, app_id, timezone);
            assert(call_ensures(package, (full_name, app_id, timezone), result));
            result
        },
    }
}

} // verus!

verus! {

/// Any running `ChatGPT.exe` (in any ASCII case) keeps the client from
/// being launched, whatever its path and whatever the target; a running
/// `Codex.exe` does so exactly when its path is the target's, ignoring
/// ASCII case, so a Codex CLI elsewhere or of unknown path does not; a
/// process of any other name never does.
pub proof fn lemma_which_processes_block(target: Seq<char>, name: Seq<char>, path: Option<Seq<char>>)
    ensures
        eq_ignore_ascii_case(name, CHATGPT_EXECUTABLE@) ==> blocks_launch(target, name, path),
        eq_ignore_ascii_case(name, CODEX_EXECUTABLE@) ==> (blocks_launch(target, name, path) <==> (
        path matches Some(p) && eq_ignore_ascii_case(target, p))),
        !eq_ignore_ascii_case(name, CHATGPT_EXECUTABLE@) && !eq_ignore_ascii_case(
            name,
            CODEX_EXECUTABLE@,
        ) ==> !blocks_launch(target, name, path),
{
    reveal_strlit("ChatGPT.exe");
    reveal_strlit("Codex.exe");
    if eq_ignore_ascii_case(name, CODEX_EXECUTABLE@) {
        assert(!eq_ignore_ascii_case(name, CHATGPT_EXECUTABLE@)) by {
            assert(CODEX_EXECUTABLE@.len() == 9);
            assert(CHATGPT_EXECUTABLE@.len() == 11);
            assert(ascii_lower(name).len() == name.len());
            assert(ascii_lower(CODEX_EXECUTABLE@).len() == 9);
            assert(ascii_lower(CHATGPT_EXECUTABLE@).len() == 11);
        }
    }
}

/// A client whose own image is running at the target blocks its launch,
/// whichever of the two client names it runs under.
pub proof fn lemma_running_target_blocks(target: Seq<char>, name: Seq<char>)
    requires
        is_client_name(name),
    ensures
        blocks_launch(target, name, Some(target)),
{
    assert(eq_ignore_ascii_case(target, target));
}

} // verus!
