use switch_bt_ws::ipc::{WorkerCommand, WorkerEvent};
use switch_bt_ws::worker::{
    command_action, decode_link_keys, GivenKeys, link_keys_event, parse_worker_args, retry_resets_hci, PairingLoop,
    PairingStep, StatusDecision, StatusLoop, WorkerAction, WorkerLaunch, RETRY_INTERVAL_TICKS,
};

fn args(v: &[&str]) -> Vec<String> {
    v.iter().map(|s| s.to_string()).collect()
}

#[test]
fn too_few_arguments() {
    assert_eq!(parse_worker_args(&args(&["exe", "--worker", "0", "0a12", "0001"])), None);
}

#[test]
fn unreadable_arguments_read_as_zero() {
    assert_eq!(
        parse_worker_args(&args(&["exe", "--worker", "0", "zz", "+1F", "-2", "--link-keys"])),
        Some(WorkerLaunch { vid: 0, pid: 0x1f, instance: -2, link_keys: None })
    );
    assert_eq!(
        parse_worker_args(&args(&["exe", "--worker", "0", "0a12", "0001", "x", "--link-keys", "k1", "--link-keys", "k2"])),
        Some(WorkerLaunch { vid: 0x0a12, pid: 1, instance: 0, link_keys: Some("k1".to_string()) })
    );
}

#[test]
fn plain_commands_map_to_their_calls() {
    assert_eq!(command_action(WorkerCommand::Button { button_status: 8 }, false), WorkerAction::SetButtons { button_status: 8 });
    assert_eq!(command_action(WorkerCommand::StickL { h: 1, v: 2 }, false), WorkerAction::SetStickL { h: 1, v: 2 });
    assert_eq!(command_action(WorkerCommand::StickR { h: 3, v: 4 }, false), WorkerAction::SetStickR { h: 3, v: 4 });
    assert_eq!(command_action(WorkerCommand::Gyro { g1: 1, g2: -2, g3: 3 }, false), WorkerAction::SendGyro { g1: 1, g2: -2, g3: 3 });
    assert_eq!(command_action(WorkerCommand::Accel { x: 100, y: 0, z: -1 }, false), WorkerAction::SendAccel { x: 100, y: 0, z: -1 });
    assert_eq!(
        command_action(WorkerCommand::PadColor { pad: 1, btn: 2, lg: 3, rg: 4 }, false),
        WorkerAction::SetPadColor { pad: 1, btn: 2, lg: 3, rg: 4 }
    );
    assert_eq!(command_action(WorkerCommand::RumbleRegister { key: 9 }, true), WorkerAction::RumbleRegister { key: 9 });
    assert_eq!(
        command_action(WorkerCommand::Amiibo { path: "a.bin".into() }, false),
        WorkerAction::SendAmiibo { path: "a.bin".into() }
    );
    assert_eq!(command_action(WorkerCommand::GetLinkKeys, false), WorkerAction::ExportLinkKeys);
    assert_eq!(command_action(WorkerCommand::Sync, false), WorkerAction::Sync);
    assert_eq!(command_action(WorkerCommand::SyncStop, true), WorkerAction::StopPairing);
    assert_eq!(command_action(WorkerCommand::Disconnect, false), WorkerAction::Disconnect);
    assert_eq!(command_action(WorkerCommand::Shutdown, true), WorkerAction::Shutdown);
}

#[test]
fn a_second_sync_start_is_ignored() {
    assert_eq!(command_action(WorkerCommand::SyncStart, false), WorkerAction::StartPairing);
    assert_eq!(command_action(WorkerCommand::SyncStart, true), WorkerAction::Nothing);
}

#[test]
fn link_keys_are_decoded() {
    assert_eq!(
        command_action(WorkerCommand::SetLinkKeys { data: "AAEC/w==".into() }, false),
        WorkerAction::ImportLinkKeys { keys: vec![0, 1, 2, 255] }
    );
    assert!(matches!(
        command_action(WorkerCommand::SetLinkKeys { data: "not base64!".into() }, false),
        WorkerAction::LinkKeysUndecodable
    ));
    assert_eq!(
        command_action(WorkerCommand::Reconnect { link_keys: Some("AAEC/w==".into()) }, false),
        WorkerAction::Reconnect { keys: Some(GivenKeys::Decoded(vec![0, 1, 2, 255])) }
    );
    assert!(matches!(
        command_action(WorkerCommand::Reconnect { link_keys: Some("%%".into()) }, false),
        WorkerAction::Reconnect { keys: Some(GivenKeys::Undecodable) }
    ));
    assert_eq!(command_action(WorkerCommand::Reconnect { link_keys: None }, false), WorkerAction::Reconnect { keys: None });
    assert_eq!(decode_link_keys("aGk="), Some(b"hi".to_vec()));
    assert_eq!(decode_link_keys("aGk"), None);
}

#[test]
fn link_keys_are_exported_in_base64() {
    assert_eq!(link_keys_event(&[]), None);
    assert_eq!(link_keys_event(&[0, 1, 2, 255]), Some(WorkerEvent::LinkKeys { data: "AAEC/w==".into() }));
}

#[test]
fn status_loop_sends_keys_once_per_connection() {
    let mut s = StatusLoop::new();
    assert_eq!(s.tick(false, true), StatusDecision { stop_sync: false, send_link_keys: false });
    // New connection while syncing: stop syncing and send the keys.
    assert_eq!(s.tick(true, true), StatusDecision { stop_sync: true, send_link_keys: true });
    s.record_link_keys_sent(false);
    // Not sent yet: retry.
    assert_eq!(s.tick(true, false), StatusDecision { stop_sync: false, send_link_keys: true });
    s.record_link_keys_sent(true);
    assert_eq!(s.tick(true, false), StatusDecision { stop_sync: false, send_link_keys: false });
    // Disconnection, then a new connection sends again.
    assert_eq!(s.tick(false, false), StatusDecision { stop_sync: false, send_link_keys: false });
    assert_eq!(s.tick(true, false), StatusDecision { stop_sync: false, send_link_keys: true });
}

#[test]
fn pairing_loop_retries_every_minute() {
    let mut l = PairingLoop::new();
    assert_eq!(l.step(true, false), PairingStep::Wait { retry: false, progress: false });
    for _ in 1..50 {
        l.step(true, false);
    }
    assert_eq!(l.step(true, false), PairingStep::Wait { retry: false, progress: true });
    while l.tick < RETRY_INTERVAL_TICKS {
        l.step(true, false);
    }
    assert_eq!(l.step(true, false), PairingStep::Wait { retry: true, progress: true });
    assert_eq!(l.tick, RETRY_INTERVAL_TICKS + 1);
    assert_eq!(l.step(true, true), PairingStep::Paired);
    assert_eq!(l.step(false, true), PairingStep::Cancelled);
    assert!(retry_resets_hci(&[]));
    assert!(!retry_resets_hci(&[1]));
}

#[test]
fn exported_keys_come_back_unchanged() {
    let keys: Vec<u8> = (0u8..=40).collect();
    let data = match link_keys_event(&keys) {
        Some(WorkerEvent::LinkKeys { data }) => data,
        other => panic!("unexpected {other:?}"),
    };
    assert_eq!(
        command_action(WorkerCommand::Reconnect { link_keys: Some(data.clone()) }, true),
        WorkerAction::Reconnect { keys: Some(GivenKeys::Decoded(keys.clone())) }
    );
    assert_eq!(command_action(WorkerCommand::SetLinkKeys { data }, false), WorkerAction::ImportLinkKeys { keys });
}
