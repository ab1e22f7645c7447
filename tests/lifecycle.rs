use tiptune_sidecar::lifecycle::{
    kill_method, react_to_host_event, HostEvent, HostReaction, KillMethod, LaunchFailure,
    LifecycleState,
};

#[test]
fn invalid_binary_leaves_state_absent() {
    let mut state: LifecycleState<u32> = LifecycleState::new();
    let r = state.install(Err("No such file or directory".to_string()));
    assert_eq!(r, Err(LaunchFailure { detail: "No such file or directory".to_string() }));
    assert!(!state.is_running());
    assert_eq!(state.terminate(), None);
}

#[test]
fn window_close_after_launch_kills_once() {
    let mut state: LifecycleState<u32> = LifecycleState::new();
    assert_eq!(state.install(Ok(4711)), Ok(()));
    assert!(state.is_running());
    let mut kills: Vec<u32> = Vec::new();
    let reaction = react_to_host_event(HostEvent::WindowCloseRequested);
    assert!(reaction.terminate_sidecar);
    if let Some(child) = state.terminate() {
        kills.push(child);
    }
    // the application then exits, which raises the remaining triggers
    for event in [HostEvent::ExitRequested, HostEvent::Exiting] {
        if react_to_host_event(event).terminate_sidecar {
            if let Some(child) = state.terminate() {
                kills.push(child);
            }
        }
    }
    assert!(!state.is_running());
    assert_eq!(kills, vec![4711]);
}

#[test]
fn interleaved_triggers_kill_at_most_once() {
    let mut state: LifecycleState<u32> = LifecycleState::new();
    state.install(Ok(12)).unwrap();
    let mut kills = 0;
    for _ in 0..5 {
        if state.terminate().is_some() {
            kills += 1;
        }
    }
    assert_eq!(kills, 1);
    assert!(!state.is_running());
}

#[test]
fn terminate_on_absent_state_is_noop() {
    let mut state: LifecycleState<u32> = LifecycleState::new();
    assert_eq!(state.terminate(), None);
    assert_eq!(state.terminate(), None);
    assert!(!state.is_running());
}

#[test]
fn host_events_map_to_reactions() {
    assert_eq!(
        react_to_host_event(HostEvent::WindowCloseRequested),
        HostReaction { terminate_sidecar: true, exit_app: true }
    );
    assert_eq!(
        react_to_host_event(HostEvent::ExitRequested),
        HostReaction { terminate_sidecar: true, exit_app: false }
    );
    assert_eq!(
        react_to_host_event(HostEvent::Exiting),
        HostReaction { terminate_sidecar: true, exit_app: false }
    );
    assert_eq!(
        react_to_host_event(HostEvent::Other),
        HostReaction { terminate_sidecar: false, exit_app: false }
    );
}

#[test]
fn tree_kill_names_pid_tree_and_force() {
    let m = kill_method(true, 3021);
    assert_eq!(
        m,
        KillMethod::ProcessTree {
            program: "taskkill".to_string(),
            args: vec!["/PID".to_string(), "3021".to_string(), "/T".to_string(), "/F".to_string()],
        }
    );
}

#[test]
fn direct_kill_without_tree_kill() {
    assert_eq!(kill_method(false, 3021), KillMethod::Direct);
}
