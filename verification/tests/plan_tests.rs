use vr_session_recovery::lines::split_lines;
use vr_session_recovery::plan::{
    client_process_name, launch_uri, log_subdirectory, plan_session, recover_world_id,
    recovery_plan, runtime_path, runtime_process_name, Action,
};

const RUNTIME_PATH: &str =
    "C:\\Program Files (x86)\\Steam\\steamapps\\common\\SteamVR\\bin\\win64\\vrmonitor.exe";

#[test]
fn fixed_paths_and_names() {
    assert_eq!(runtime_path(), RUNTIME_PATH.to_string());
    assert_eq!(log_subdirectory(), "AppData\\LocalLow\\VRChat\\VRChat".to_string());
    assert_eq!(runtime_process_name(), "vrmonitor.exe".to_string());
    assert_eq!(client_process_name(), "VRChat.exe".to_string());
}

#[test]
fn launch_uri_embeds_the_identifier() {
    assert_eq!(launch_uri("wrld_42"), "vrchat://launch?id=wrld_42".to_string());
    assert_eq!(launch_uri(""), "vrchat://launch?id=".to_string());
}

#[test]
fn client_running_runtime_not() {
    let log = split_lines("[Behaviour] Joining wrld_42");
    let (world, plan) = plan_session(false, true, Some(&log));
    assert_eq!(world, Some("wrld_42".to_string()));
    assert_eq!(
        plan,
        vec![
            Action::KillClient,
            Action::Wait { seconds: 5 },
            Action::StartRuntime { path: RUNTIME_PATH.to_string() },
            Action::Wait { seconds: 10 },
            Action::LaunchClient { uri: "vrchat://launch?id=wrld_42".to_string() },
        ]
    );
}

#[test]
fn neither_process_running() {
    let (world, plan) = plan_session(false, false, None);
    assert_eq!(world, None);
    assert_eq!(
        plan,
        vec![
            Action::StartRuntime { path: RUNTIME_PATH.to_string() },
            Action::Wait { seconds: 10 },
        ]
    );
}

#[test]
fn both_processes_running() {
    let world = Some("wrld_7".to_string());
    let plan = recovery_plan(true, true, world.as_ref());
    assert_eq!(
        plan,
        vec![
            Action::KillClient,
            Action::Wait { seconds: 5 },
            Action::KillRuntime,
            Action::Wait { seconds: 10 },
            Action::StartRuntime { path: RUNTIME_PATH.to_string() },
            Action::Wait { seconds: 10 },
            Action::LaunchClient { uri: "vrchat://launch?id=wrld_7".to_string() },
        ]
    );
}

#[test]
fn runtime_running_client_not() {
    let plan = recovery_plan(true, false, None);
    assert_eq!(
        plan,
        vec![
            Action::KillRuntime,
            Action::Wait { seconds: 10 },
            Action::StartRuntime { path: RUNTIME_PATH.to_string() },
            Action::Wait { seconds: 10 },
        ]
    );
}

#[test]
fn no_world_is_recovered_when_the_client_was_not_running() {
    let log = split_lines("[Behaviour] Joining wrld_42");
    assert_eq!(recover_world_id(false, Some(&log)), None);
}

#[test]
fn no_world_is_recovered_without_a_log() {
    assert_eq!(recover_world_id(true, None), None);
}

#[test]
fn world_is_recovered_from_an_active_session() {
    let log = split_lines("intro\n[Behaviour] Joining wrld_42\noutro");
    assert_eq!(recover_world_id(true, Some(&log)), Some("wrld_42".to_string()));
}
