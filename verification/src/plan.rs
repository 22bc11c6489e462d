//! The recovery sequence.
//!
//! From a snapshot of which processes run and from the recovered world
//! identifier, the orchestrator derives a fixed, linear sequence of actions:
//! kill the client and wait, kill the runtime and wait, start the runtime and
//! wait, relaunch the client into the recovered world.  Each conditional step
//! is skipped, never an error, when its condition fails.  Carrying the
//! actions out, best-effort and fire-and-forget, is the caller's business.

use vstd::prelude::*;
use vstd::string::StringExecFns;
use crate::extract::{extract_last_world_id_from_lines, extract_spec};

verus! {

/// One step of the recovery sequence, for the caller to perform.
#[derive(Debug, PartialEq)]
pub enum Action {
    /// Terminate the client process.
    KillClient,
    /// Terminate the runtime process.
    KillRuntime,
    /// Spawn the runtime executable at the given path.
    StartRuntime { path: String },
    /// Open the given deep-link, which relaunches the client into a world.
    LaunchClient { uri: String },
    /// Block for the given number of seconds.
    Wait { seconds: u64 },
}

/// The mathematical shape of an action.
pub enum ActionModel {
    KillClient,
    KillRuntime,
    StartRuntime(Seq<char>),
    LaunchClient(Seq<char>),
    Wait(int),
}

impl DeepView for Action {
    type V = ActionModel;

    open spec fn deep_view(&self) -> ActionModel {
        match self {
            Action::KillClient => ActionModel::KillClient,
            Action::KillRuntime => ActionModel::KillRuntime,
            Action::StartRuntime { path } => ActionModel::StartRuntime(path@),
            Action::LaunchClient { uri } => ActionModel::LaunchClient(uri@),
            Action::Wait { seconds } => ActionModel::Wait(*seconds as int),
        }
    }
}

/// The runtime executable's fixed install path.
pub open spec fn runtime_path_spec() -> Seq<char> {
    "C:\\Program Files (x86)\\Steam\\steamapps\\common\\SteamVR\\bin\\win64\\vrmonitor.exe"@
}

/// The deep-link scheme that relaunches the client into a world.
pub open spec fn uri_prefix() -> Seq<char> {
    "vrchat://launch?id="@
}

/// The log directory, relative to the user's home directory.
pub open spec fn log_subdir_spec() -> Seq<char> {
    "AppData\\LocalLow\\VRChat\\VRChat"@
}

/// The runtime's executable name, as the process table shows it.
pub open spec fn runtime_process_name_spec() -> Seq<char> {
    "vrmonitor.exe"@
}

/// The client's executable name, as the process table shows it.
pub open spec fn client_process_name_spec() -> Seq<char> {
    "VRChat.exe"@
}

/// The runtime executable's fixed install path.
pub fn runtime_path() -> (r: String)
    ensures
        r@ == runtime_path_spec(),
{
    String::from_str(
        "C:\\Program Files (x86)\\Steam\\steamapps\\common\\SteamVR\\bin\\win64\\vrmonitor.exe",
    )
}

/// The log directory, relative to the user's home directory.
pub fn log_subdirectory() -> (r: String)
    ensures
        r@ == log_subdir_spec(),
{
    String::from_str("AppData\\LocalLow\\VRChat\\VRChat")
}

/// The runtime's executable name.
pub fn runtime_process_name() -> (r: String)
    ensures
        r@ == runtime_process_name_spec(),
{
    String::from_str("vrmonitor.exe")
}

/// The client's executable name.
pub fn client_process_name() -> (r: String)
    ensures
        r@ == client_process_name_spec(),
{
    String::from_str("VRChat.exe")
}

/// The deep-link that relaunches the client into the given world.
pub fn launch_uri(world_id: &str) -> (r: String)
    ensures
        r@ == uri_prefix() + world_id@,
{
    String::from_str("vrchat://launch?id=").concat(world_id)
}

/// The whole recovery sequence for one snapshot: kill the client and wait
/// five seconds when it runs, kill the runtime and wait ten seconds when it
/// runs, start the runtime and wait ten seconds always, and relaunch the
/// client exactly when a world identifier was recovered.
pub open spec fn plan_spec(
    runtime_running: bool,
    client_running: bool,
    world: Option<Seq<char>>,
) -> Seq<ActionModel> {
    (if client_running {
        seq![ActionModel::KillClient, ActionModel::Wait(5)]
    } else {
        Seq::empty()
    }) + (if runtime_running {
        seq![ActionModel::KillRuntime, ActionModel::Wait(10)]
    } else {
        Seq::empty()
    }) + seq![ActionModel::StartRuntime(runtime_path_spec()), ActionModel::Wait(10)] + (
    match world {
        Some(id) => seq![ActionModel::LaunchClient(uri_prefix() + id)],
        None => Seq::empty(),
    })
}

/// Derive the recovery sequence from the snapshot and the recovered world.
pub fn recovery_plan(
    runtime_running: bool,
    client_running: bool,
    world_id: Option<&String>,
) -> (p: Vec<Action>)
    ensures
        p.deep_view() == plan_spec(runtime_running, client_running, world_id.deep_view()),
{
    let mut p: Vec<Action> = Vec::new();
    if client_running {
        p.push(Action::KillClient);
        p.push(Action::Wait { seconds: 5 });
    }
    if runtime_running {
        p.push(Action::KillRuntime);
        p.push(Action::Wait { seconds: 10 });
    }
    p.push(Action::StartRuntime { path: runtime_path() });
    p.push(Action::Wait { seconds: 10 });
    if let Some(id) = world_id {
        p.push(Action::LaunchClient { uri: launch_uri(id.as_str()) });
    }
    proof {
        assert(p.deep_view() =~= plan_spec(
            runtime_running,
            client_running,
            world_id.deep_view(),
        ));
    }
    p
}

/// Recover the world identifier for one run: only from an active session.
///
/// A world identifier is only ever produced when the client process was
/// observed running at snapshot time, and then it is exactly what the scan of
/// the given log lines yields.
pub fn recover_world_id(client_running: bool, log_lines: Option<&Vec<String>>) -> (r: Option<
    String,
>)
    ensures
        !client_running ==> r is None,
        log_lines is None ==> r is None,
        client_running && log_lines is Some ==> r.deep_view() == extract_spec(
            log_lines.unwrap().deep_view(),
        ),
{
    if !client_running {
        return None;
    }
    match log_lines {
        None => None,
        Some(lines) => extract_last_world_id_from_lines(lines),
    }
}

/// The computing core of one whole run: recover the world identifier from
/// the snapshot and the log lines, and derive the action sequence from it.
pub fn plan_session(
    runtime_running: bool,
    client_running: bool,
    log_lines: Option<&Vec<String>>,
) -> (r: (Option<String>, Vec<Action>))
    ensures
        !client_running ==> r.0 is None,
        log_lines is None ==> r.0 is None,
        client_running && log_lines is Some ==> r.0.deep_view() == extract_spec(
            log_lines.unwrap().deep_view(),
        ),
        r.1.deep_view() == plan_spec(runtime_running, client_running, r.0.deep_view()),
{
    let world_id = recover_world_id(client_running, log_lines);
    let p = recovery_plan(runtime_running, client_running, world_id.as_ref());
    (world_id, p)
}

} // verus!
