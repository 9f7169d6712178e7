use switch_bt_ws::gamepad::SwitchButton;
use switch_bt_ws::ipc::{WorkerCommand, WorkerEvent};
use switch_bt_ws::protocol::{ClientMessage, ServerMessage};
use switch_bt_ws::ws_server::{
    client_message_commands, malformed_message_reply, socket_step, worker_event_to_server_msg, SocketInput, SocketStep,
};

#[test]
fn gamepad_state_becomes_button_and_sticks() {
    let mut buttons = vec![false; 18];
    buttons[0] = true;
    let cmds = client_message_commands(ClientMessage::GamepadState {
        button_status: None,
        buttons,
        axes: vec![0, 4095, 2048, 100],
    });
    assert_eq!(
        cmds,
        vec![
            WorkerCommand::Button { button_status: SwitchButton::B },
            WorkerCommand::StickL { h: 0, v: 4095 },
            WorkerCommand::StickR { h: 2048, v: 100 },
        ]
    );
}

#[test]
fn missing_axes_are_neutral_and_button_status_wins() {
    let cmds = client_message_commands(ClientMessage::GamepadState {
        button_status: Some(0x1234),
        buttons: vec![true; 18],
        axes: vec![7],
    });
    assert_eq!(
        cmds,
        vec![
            WorkerCommand::Button { button_status: 0x1234 },
            WorkerCommand::StickL { h: 7, v: 2048 },
            WorkerCommand::StickR { h: 2048, v: 2048 },
        ]
    );
}

#[test]
fn motion_defaults() {
    let cmds = client_message_commands(ClientMessage::Motion { gyro: vec![5], accel: vec![] });
    assert_eq!(
        cmds,
        vec![WorkerCommand::Gyro { g1: 5, g2: 0, g3: 0 }, WorkerCommand::Accel { x: 100, y: 100, z: 100 }]
    );
}

#[test]
fn single_command_messages() {
    let cases = vec![
        (
            ClientMessage::SetColor { pad_color: 1, button_color: 2, left_grip_color: 3, right_grip_color: 4 },
            WorkerCommand::PadColor { pad: 1, btn: 2, lg: 3, rg: 4 },
        ),
        (ClientMessage::SendAmiibo { path: "p".into() }, WorkerCommand::Amiibo { path: "p".into() }),
        (ClientMessage::RumbleRegister { key: 3 }, WorkerCommand::RumbleRegister { key: 3 }),
        (ClientMessage::Reconnect { link_keys: Some("k".into()) }, WorkerCommand::Reconnect { link_keys: Some("k".into()) }),
        (ClientMessage::SyncStart, WorkerCommand::SyncStart),
        (ClientMessage::SyncStop, WorkerCommand::SyncStop),
        (ClientMessage::Disconnect, WorkerCommand::Disconnect),
        (ClientMessage::GetLinkKeys, WorkerCommand::GetLinkKeys),
    ];
    for (msg, cmd) in cases {
        assert_eq!(client_message_commands(msg), vec![cmd]);
    }
}

#[test]
fn worker_events_for_the_browser() {
    assert_eq!(
        worker_event_to_server_msg(WorkerEvent::Status { paired: true, rumble: false, syncing: true, player: 2 }),
        Some(ServerMessage::Status { paired: true, rumble: false, syncing: true, player: 2 })
    );
    assert_eq!(
        worker_event_to_server_msg(WorkerEvent::LinkKeys { data: "x".into() }),
        Some(ServerMessage::LinkKeys { data: "x".into() })
    );
    assert_eq!(
        worker_event_to_server_msg(WorkerEvent::Error { message: "m".into() }),
        Some(ServerMessage::Error { message: "m".into() })
    );
    assert_eq!(worker_event_to_server_msg(WorkerEvent::Ready), None);
    assert_eq!(worker_event_to_server_msg(WorkerEvent::Shutdown), None);
}

#[test]
fn malformed_message_answer() {
    assert_eq!(
        malformed_message_reply("expected value at line 1 column 1"),
        ServerMessage::Error { message: "不正なメッセージ: expected value at line 1 column 1".into() }
    );
}

#[test]
fn controller_socket_steps() {
    assert_eq!(
        socket_step(SocketInput::Event(WorkerEvent::LinkKeys { data: "QUJD".to_string() })),
        SocketStep::Forward(ServerMessage::LinkKeys { data: "QUJD".to_string() })
    );
    assert_eq!(socket_step(SocketInput::Event(WorkerEvent::Ready)), SocketStep::Continue);
    assert_eq!(socket_step(SocketInput::Event(WorkerEvent::Shutdown)), SocketStep::Continue);
    assert_eq!(socket_step(SocketInput::Lagged), SocketStep::Continue);
    assert_eq!(socket_step(SocketInput::EventsClosed), SocketStep::Stop);
    assert_eq!(socket_step(SocketInput::ClientText), SocketStep::Dispatch);
    assert_eq!(socket_step(SocketInput::ClientClosed), SocketStep::Stop);
    assert_eq!(socket_step(SocketInput::ClientError), SocketStep::Stop);
    assert_eq!(socket_step(SocketInput::ClientOther), SocketStep::Continue);
    assert_eq!(socket_step(SocketInput::SendFailed), SocketStep::Stop);
}
