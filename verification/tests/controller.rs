use switch_bt_ws::controller::{
    apply_worker_event, controller_info, event_line, startup_commands, worker_args, ControllerState,
    GlobalEvent, StatusTracker,
};
use switch_bt_ws::ipc::{WorkerCommand, WorkerEvent};
use switch_bt_ws::worker::{parse_worker_args, WorkerLaunch};

fn status(paired: bool, rumble: bool, syncing: bool, player: u8) -> WorkerEvent {
    WorkerEvent::Status { paired, rumble, syncing, player }
}

#[test]
fn info_reports_ids_in_hex() {
    let mut state = ControllerState::new(0x0a12, 0x0001, 2);
    state.link_keys = Some("a2V5".to_string());
    let info = controller_info(7, &state);
    assert_eq!(info.id, 7);
    assert_eq!(info.vid, "0a12");
    assert_eq!(info.pid, "0001");
    assert_eq!(info.instance, 2);
    assert!(!info.paired && !info.rumble && !info.syncing);
    assert_eq!(info.player, 0);
    assert_eq!(info.link_keys.as_deref(), Some("a2V5"));
}

#[test]
fn status_is_announced_only_when_it_changes() {
    let mut state = ControllerState::new(0x0a12, 0x0001, 0);
    let mut tracker = StatusTracker::new();
    assert_eq!(apply_worker_event(&mut state, &mut tracker, 3, &status(false, false, false, 0)), None);
    assert_eq!(
        apply_worker_event(&mut state, &mut tracker, 3, &status(true, false, false, 1)),
        Some(GlobalEvent::ControllerStatus { id: 3, paired: true, rumble: false, syncing: false, player: 1 })
    );
    assert!(state.paired);
    assert_eq!(state.player, 1);
    // Same report again: nothing announced.
    assert_eq!(apply_worker_event(&mut state, &mut tracker, 3, &status(true, false, false, 1)), None);
    // Rumble alone is recorded but not announced.
    assert_eq!(apply_worker_event(&mut state, &mut tracker, 3, &status(true, true, false, 1)), None);
    assert!(state.rumble);
    assert_eq!(
        apply_worker_event(&mut state, &mut tracker, 3, &status(true, true, true, 1)),
        Some(GlobalEvent::ControllerStatus { id: 3, paired: true, rumble: true, syncing: true, player: 1 })
    );
}

#[test]
fn link_keys_are_remembered_and_announced() {
    let mut state = ControllerState::new(0x0a12, 0x0001, 1);
    let mut tracker = StatusTracker::new();
    let e = WorkerEvent::LinkKeys { data: "AAEC".to_string() };
    assert_eq!(
        apply_worker_event(&mut state, &mut tracker, 4, &e),
        Some(GlobalEvent::ControllerLinkKeys {
            id: 4,
            vid: "0a12".to_string(),
            pid: "0001".to_string(),
            instance: 1,
            data: "AAEC".to_string(),
        })
    );
    assert_eq!(state.link_keys.as_deref(), Some("AAEC"));
    assert_eq!(tracker, StatusTracker::new());
}

#[test]
fn other_events_change_nothing() {
    let mut state = ControllerState::new(1, 2, 3);
    let mut tracker = StatusTracker::new();
    for e in [WorkerEvent::Ready, WorkerEvent::Shutdown, WorkerEvent::Error { message: "x".into() }] {
        assert_eq!(apply_worker_event(&mut state, &mut tracker, 0, &e), None);
    }
    assert_eq!(state, ControllerState::new(1, 2, 3));
}

#[test]
fn event_lines() {
    assert_eq!(event_line("  {\"event\":\"ready\"}\r\n"), Some("{\"event\":\"ready\"}".to_string()));
    assert_eq!(event_line(""), None);
    assert_eq!(event_line("   "), None);
    assert_eq!(event_line("[worker] log line"), None);
}

#[test]
fn worker_arguments() {
    let args = worker_args(12, 0x0a12, 0x0001, 1, &None);
    assert_eq!(args, vec!["--worker", "12", "0a12", "0001", "1"]);
    let args = worker_args(0, 0x0a12, 0x0001, 0, &Some("a2V5cw==".to_string()));
    assert_eq!(args, vec!["--worker", "0", "0a12", "0001", "0", "--link-keys", "a2V5cw=="]);
}

#[test]
fn worker_arguments_read_back() {
    for keys in [None, Some("a2V5cw==".to_string())] {
        let mut full = vec!["switch-bt-ws.exe".to_string()];
        full.extend(worker_args(5, 0xbeef, 0x00ff, 3, &keys));
        assert_eq!(
            parse_worker_args(&full),
            Some(WorkerLaunch { vid: 0xbeef, pid: 0x00ff, instance: 3, link_keys: keys.clone() })
        );
    }
    let mut full = vec!["exe".to_string()];
    full.extend(worker_args(5, 1, 2, u32::MAX, &None));
    assert_eq!(parse_worker_args(&full).map(|l| l.instance), Some(0));
}

#[test]
fn reconnect_follows_a_start_with_link_keys() {
    assert_eq!(startup_commands(&None), vec![]);
    assert_eq!(
        startup_commands(&Some("a2V5".to_string())),
        vec![WorkerCommand::Reconnect { link_keys: None }]
    );
}
