use switch_bt_ws::api::{
    add_controller_response, controller_not_found, driver_response, remove_controller_response,
    AddControllerResponse, DriverResponse, SimpleResponse,
};
use switch_bt_ws::cli::{debug_requested, has_flag, is_worker_invocation, licenses_requested, server_port};
use switch_bt_ws::global_ws::{
    global_event_action, global_socket_step, GlobalAction, GlobalSocketInput, GlobalSocketStep, ServerMsg,
};
use switch_bt_ws::controller::GlobalEvent;

#[test]
fn add_answers() {
    assert_eq!(
        add_controller_response(Ok(3)),
        (201, AddControllerResponse { success: true, id: Some(3), message: "コントローラー id=3 を追加しました".into() })
    );
    assert_eq!(
        add_controller_response(Err("spawn failed".into())),
        (500, AddControllerResponse { success: false, id: None, message: "spawn failed".into() })
    );
}

#[test]
fn remove_answers() {
    assert_eq!(
        remove_controller_response(12, Ok(())),
        (200, SimpleResponse { success: true, message: "コントローラー id=12 を削除しました".into() })
    );
    assert_eq!(controller_not_found(12), "コントローラー id=12 が見つかりません");
    assert_eq!(
        remove_controller_response(12, Err(controller_not_found(12))),
        (404, SimpleResponse { success: false, message: "コントローラー id=12 が見つかりません".into() })
    );
}

#[test]
fn driver_answers() {
    assert_eq!(driver_response(Ok("done".into())), DriverResponse { success: true, message: "done".into() });
    assert_eq!(driver_response(Err("no".into())), DriverResponse { success: false, message: "no".into() });
}

#[test]
fn command_line_and_port() {
    let a = |v: &[&str]| v.iter().map(|s| s.to_string()).collect::<Vec<String>>();
    assert!(is_worker_invocation(&a(&["exe", "--worker", "0"])));
    assert!(!is_worker_invocation(&a(&["exe", "--debug", "--worker"])));
    assert!(!is_worker_invocation(&a(&["exe"])));
    assert!(debug_requested(&a(&["exe", "--worker", "--debug"])));
    assert!(!debug_requested(&a(&["exe"])));
    assert_eq!(server_port(None), 8765);
    assert_eq!(server_port(Some("9000")), 9000);
    assert_eq!(server_port(Some("70000")), 8765);
    assert_eq!(server_port(Some("port")), 8765);
}

#[test]
fn global_events() {
    assert_eq!(global_event_action(GlobalEvent::ControllersChanged), GlobalAction::SendSnapshot);
    assert_eq!(global_event_action(GlobalEvent::DevicesChanged), GlobalAction::SendSnapshot);
    assert_eq!(
        global_event_action(GlobalEvent::ControllerStatus { id: 1, paired: true, rumble: false, syncing: false, player: 1 }),
        GlobalAction::Send(ServerMsg::ControllerStatus { id: 1, paired: true, rumble: false, syncing: false, player: 1 })
    );
}

#[test]
fn global_socket_steps() {
    assert_eq!(global_socket_step(GlobalSocketInput::Connected), GlobalSocketStep::RescanAndSnapshot);
    assert_eq!(global_socket_step(GlobalSocketInput::Refresh), GlobalSocketStep::RescanAndSnapshot);
    assert_eq!(
        global_socket_step(GlobalSocketInput::Event(GlobalEvent::DevicesChanged)),
        GlobalSocketStep::Act(GlobalAction::SendSnapshot)
    );
    assert_eq!(
        global_socket_step(GlobalSocketInput::Event(GlobalEvent::ControllerStatus {
            id: 2,
            paired: false,
            rumble: true,
            syncing: true,
            player: 0
        })),
        GlobalSocketStep::Act(GlobalAction::Send(ServerMsg::ControllerStatus {
            id: 2,
            paired: false,
            rumble: true,
            syncing: true,
            player: 0
        }))
    );
    assert_eq!(global_socket_step(GlobalSocketInput::Lagged), GlobalSocketStep::Continue);
    assert_eq!(global_socket_step(GlobalSocketInput::ClientOther), GlobalSocketStep::Continue);
    assert_eq!(global_socket_step(GlobalSocketInput::EventsClosed), GlobalSocketStep::Stop);
    assert_eq!(global_socket_step(GlobalSocketInput::ClientClosed), GlobalSocketStep::Stop);
    assert_eq!(global_socket_step(GlobalSocketInput::SendFailed), GlobalSocketStep::Stop);
}

#[test]
fn licenses_flag() {
    let args = |v: &[&str]| v.iter().map(|s| s.to_string()).collect::<Vec<String>>();
    assert!(licenses_requested(&args(&["switch-bt-ws", "--licenses"])));
    assert!(licenses_requested(&args(&["switch-bt-ws", "--debug", "--licenses"])));
    assert!(!licenses_requested(&args(&["switch-bt-ws", "--license"])));
    assert!(!licenses_requested(&args(&["switch-bt-ws"])));
    assert!(has_flag(&args(&["a", "-x"]), "-x"));
    assert!(!has_flag(&args(&["a", "-x"]), "-y"));
}
