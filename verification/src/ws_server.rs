//! Translation between a controller WebSocket and its worker: browser messages
//! become worker commands, worker events become browser messages.

use vstd::prelude::*;
use crate::gamepad::{button_flags, button_flags_of, STICK_NEUTRAL};
use crate::ipc::{WorkerCommand, WorkerEvent};
use crate::protocol::{ClientMessage, ServerMessage};
use crate::text::{str_chars, string_from_chars};

verus! {

/// The browser message that forwards a worker event, if the event concerns the
/// browser (status, link keys and errors do; readiness and shutdown
/// do not).
pub open spec fn server_message_for(event: WorkerEvent) -> Option<ServerMessage> {
    match event {
        WorkerEvent::Status { paired, rumble, syncing, player } =>
            Some(ServerMessage::Status { paired, rumble, syncing, player }),
        WorkerEvent::LinkKeys { data } => Some(ServerMessage::LinkKeys { data }),
        WorkerEvent::Error { message } => Some(ServerMessage::Error { message }),
        WorkerEvent::Ready => None,
        WorkerEvent::Shutdown => None,
    }
}

/// Converts a worker event into the message for the browser, if any.
pub fn worker_event_to_server_msg(event: WorkerEvent) -> (msg: Option<ServerMessage>)
    ensures
        msg == server_message_for(event),
{
    match event {
        WorkerEvent::Status { paired, rumble, syncing, player } =>
            Some(ServerMessage::Status { paired, rumble, syncing, player }),
        WorkerEvent::LinkKeys { data } => Some(ServerMessage::LinkKeys { data }),
        WorkerEvent::Error { message } => Some(ServerMessage::Error { message }),
        _ => None,
    }
}

/// Element `i` of `values`, or `default` when there is none.
pub open spec fn value_or<T>(values: Seq<T>, i: int, default: T) -> T {
    if 0 <= i < values.len() { values[i] } else { default }
}

/// The worker commands that a browser message stands for, in sending order.
pub open spec fn commands_for(msg: ClientMessage) -> Seq<WorkerCommand> {
    match msg {
        ClientMessage::GamepadState { button_status, buttons, axes } => {
            let flags = match button_status {
                Some(f) => f,
                None => button_flags_of(buttons@),
            };
            seq![
                WorkerCommand::Button { button_status: flags },
                WorkerCommand::StickL {
                    h: value_or(axes@, 0, STICK_NEUTRAL),
                    v: value_or(axes@, 1, STICK_NEUTRAL),
                },
                WorkerCommand::StickR {
                    h: value_or(axes@, 2, STICK_NEUTRAL),
                    v: value_or(axes@, 3, STICK_NEUTRAL),
                },
            ]
        },
        ClientMessage::Motion { gyro, accel } => seq![
            WorkerCommand::Gyro {
                g1: value_or(gyro@, 0, 0i16),
                g2: value_or(gyro@, 1, 0i16),
                g3: value_or(gyro@, 2, 0i16),
            },
            WorkerCommand::Accel {
                x: value_or(accel@, 0, 100i16),
                y: value_or(accel@, 1, 100i16),
                z: value_or(accel@, 2, 100i16),
            },
        ],
        ClientMessage::SetColor { pad_color, button_color, left_grip_color, right_grip_color } =>
            seq![WorkerCommand::PadColor {
                pad: pad_color,
                btn: button_color,
                lg: left_grip_color,
                rg: right_grip_color,
            }],
        ClientMessage::SendAmiibo { path } => seq![WorkerCommand::Amiibo { path }],
        ClientMessage::RumbleRegister { key } => seq![WorkerCommand::RumbleRegister { key }],
        ClientMessage::Reconnect { link_keys } => seq![WorkerCommand::Reconnect { link_keys }],
        ClientMessage::SyncStart => seq![WorkerCommand::SyncStart],
        ClientMessage::SyncStop => seq![WorkerCommand::SyncStop],
        ClientMessage::Disconnect => seq![WorkerCommand::Disconnect],
        ClientMessage::GetLinkKeys => seq![WorkerCommand::GetLinkKeys],
    }
}

/// Axis `i` (0 x, 1 y, 2 z) of a gyroscope command.
pub open spec fn gyro_axis(cmd: WorkerCommand, i: int) -> Option<i16> {
    match cmd {
        WorkerCommand::Gyro { g1, g2, g3 } =>
            if i == 0 { Some(g1) } else if i == 1 { Some(g2) } else if i == 2 { Some(g3) } else { None },
        _ => None,
    }
}

/// Axis `i` (0 x, 1 y, 2 z) of an accelerometer command.
pub open spec fn accel_axis(cmd: WorkerCommand, i: int) -> Option<i16> {
    match cmd {
        WorkerCommand::Accel { x, y, z } =>
            if i == 0 { Some(x) } else if i == 1 { Some(y) } else if i == 2 { Some(z) } else { None },
        _ => None,
    }
}

/// Gamepad axis `i` (0 left x, 1 left y, 2 right x, 3 right y) as set by the
/// left and right stick commands.
pub open spec fn stick_axis(left: WorkerCommand, right: WorkerCommand, i: int) -> Option<u32> {
    match (left, right) {
        (WorkerCommand::StickL { h: lh, v: lv }, WorkerCommand::StickR { h: rh, v: rv }) =>
            if i == 0 { Some(lh) } else if i == 1 { Some(lv) } else if i == 2 { Some(rh) } else if i == 3 { Some(rv) } else { None },
        _ => None,
    }
}

/// The browser message that a single worker command forwards, if it is one.
pub open spec fn message_of_command(cmd: WorkerCommand) -> Option<ClientMessage> {
    match cmd {
        WorkerCommand::PadColor { pad, btn, lg, rg } => Some(ClientMessage::SetColor {
            pad_color: pad,
            button_color: btn,
            left_grip_color: lg,
            right_grip_color: rg,
        }),
        WorkerCommand::Amiibo { path } => Some(ClientMessage::SendAmiibo { path }),
        WorkerCommand::RumbleRegister { key } => Some(ClientMessage::RumbleRegister { key }),
        WorkerCommand::Reconnect { link_keys } => Some(ClientMessage::Reconnect { link_keys }),
        WorkerCommand::SyncStart => Some(ClientMessage::SyncStart),
        WorkerCommand::SyncStop => Some(ClientMessage::SyncStop),
        WorkerCommand::Disconnect => Some(ClientMessage::Disconnect),
        WorkerCommand::GetLinkKeys => Some(ClientMessage::GetLinkKeys),
        _ => None,
    }
}

/// Law: a motion reading becomes a gyroscope command whose axis `i` is
/// `gyro[i]` (0 when missing) followed by an accelerometer command whose axis
/// `i` is `accel[i]` (100 when missing), each axis in its own place.
pub proof fn lemma_motion_axes(gyro: Vec<i16>, accel: Vec<i16>)
    ensures
        ({
            let cmds = commands_for(ClientMessage::Motion { gyro, accel });
            &&& cmds.len() == 2
            &&& cmds[0] is Gyro
            &&& cmds[1] is Accel
            &&& forall|i: int| 0 <= i < 3 ==> #[trigger] gyro_axis(cmds[0], i)
                == Some(if i < gyro@.len() { gyro@[i] } else { 0i16 })
            &&& forall|i: int| 0 <= i < 3 ==> #[trigger] accel_axis(cmds[1], i)
                == Some(if i < accel@.len() { accel@[i] } else { 100i16 })
        }),
{
}

/// Law: a gamepad state becomes the button command (the ready-made mask when
/// given, else the mask of the pressed buttons) and then the left and right
/// stick commands, whose axis `i` is `axes[i]` (neutral 2048 when missing),
/// each axis in its own place.
pub proof fn lemma_gamepad_axes(button_status: Option<u32>, buttons: Vec<bool>, axes: Vec<u32>)
    ensures
        ({
            let cmds = commands_for(ClientMessage::GamepadState { button_status, buttons, axes });
            &&& cmds.len() == 3
            &&& cmds[0] == WorkerCommand::Button {
                button_status: match button_status { Some(f) => f, None => button_flags_of(buttons@) },
            }
            &&& cmds[1] is StickL
            &&& cmds[2] is StickR
            &&& forall|i: int| 0 <= i < 4 ==> #[trigger] stick_axis(cmds[1], cmds[2], i)
                == Some(if i < axes@.len() { axes@[i] } else { STICK_NEUTRAL })
        }),
{
}

/// Law: every other browser message becomes exactly one worker command, which
/// carries the message's content unchanged (the message can be read back from
/// it).
pub proof fn lemma_single_commands(msg: ClientMessage)
    requires
        !(msg is GamepadState),
        !(msg is Motion),
    ensures
        commands_for(msg).len() == 1,
        message_of_command(commands_for(msg)[0]) == Some(msg),
{
}

/// The worker event that a browser message forwards.
pub open spec fn event_of_message(msg: ServerMessage) -> WorkerEvent {
    match msg {
        ServerMessage::Status { paired, rumble, syncing, player } => WorkerEvent::Status { paired, rumble, syncing, player },
        ServerMessage::LinkKeys { data } => WorkerEvent::LinkKeys { data },
        ServerMessage::Error { message } => WorkerEvent::Error { message },
    }
}

/// Law: worker events reach the browser unchanged (the event can be read back
/// from the message), except readiness and shutdown, which are not forwarded.
pub proof fn lemma_events_forwarded_unchanged(event: WorkerEvent)
    ensures
        server_message_for(event) is None <==> (event is Ready || event is Shutdown),
        server_message_for(event) matches Some(m) ==> event_of_message(m) == event,
{
}

fn u32_or(values: &Vec<u32>, i: usize, default: u32) -> (r: u32)
    ensures
        r == value_or(values@, i as int, default),
{
    if i < values.len() { values[i] } else { default }
}

fn i16_or(values: &Vec<i16>, i: usize, default: i16) -> (r: i16)
    ensures
        r == value_or(values@, i as int, default),
{
    if i < values.len() { values[i] } else { default }
}

/// The worker commands for a browser message.  A gamepad state yields the
/// button command followed by the left and right stick commands; a motion
/// reading yields a gyroscope and an accelerometer command (missing gyroscope
/// values read 0, missing accelerometer values 100); every other message
/// yields the one command it corresponds to.
pub fn client_message_commands(msg: ClientMessage) -> (cmds: Vec<WorkerCommand>)
    ensures
        cmds@ == commands_for(msg),
{
    let ghost m = msg;
    let mut cmds: Vec<WorkerCommand> = Vec::new();
    match msg {
        ClientMessage::GamepadState { button_status, buttons, axes } => {
            let flags = match button_status {
                Some(f) => f,
                None => button_flags(buttons.as_slice()),
            };
            cmds.push(WorkerCommand::Button { button_status: flags });
            let lh = u32_or(&axes, 0, STICK_NEUTRAL);
            let lv = u32_or(&axes, 1, STICK_NEUTRAL);
            let rh = u32_or(&axes, 2, STICK_NEUTRAL);
            let rv = u32_or(&axes, 3, STICK_NEUTRAL);
            cmds.push(WorkerCommand::StickL { h: lh, v: lv });
            cmds.push(WorkerCommand::StickR { h: rh, v: rv });
        },
        ClientMessage::Motion { gyro, accel } => {
            let g1 = i16_or(&gyro, 0, 0);
            let g2 = i16_or(&gyro, 1, 0);
            let g3 = i16_or(&gyro, 2, 0);
            let x = i16_or(&accel, 0, 100);
            let y = i16_or(&accel, 1, 100);
            let z = i16_or(&accel, 2, 100);
            cmds.push(WorkerCommand::Gyro { g1, g2, g3 });
            cmds.push(WorkerCommand::Accel { x, y, z });
        },
        ClientMessage::SetColor { pad_color, button_color, left_grip_color, right_grip_color } => {
            cmds.push(
                WorkerCommand::PadColor {
                    pad: pad_color,
                    btn: button_color,
                    lg: left_grip_color,
                    rg: right_grip_color,
                },
            );
        },
        ClientMessage::SendAmiibo { path } => {
            cmds.push(WorkerCommand::Amiibo { path });
        },
        ClientMessage::RumbleRegister { key } => {
            cmds.push(WorkerCommand::RumbleRegister { key });
        },
        ClientMessage::Reconnect { link_keys } => {
            cmds.push(WorkerCommand::Reconnect { link_keys });
        },
        ClientMessage::SyncStart => {
            cmds.push(WorkerCommand::SyncStart);
        },
        ClientMessage::SyncStop => {
            cmds.push(WorkerCommand::SyncStop);
        },
        ClientMessage::Disconnect => {
            cmds.push(WorkerCommand::Disconnect);
        },
        ClientMessage::GetLinkKeys => {
            cmds.push(WorkerCommand::GetLinkKeys);
        },
    }
    assert(cmds@ =~= commands_for(m));
    cmds
}

/// The text of the answer to a message that could not be read: a fixed
/// prefix followed by the reader's description of the problem.
pub open spec fn malformed_message_text(detail: Seq<char>) -> Seq<char> {
    "不正なメッセージ: "@ + detail
}

/// The error answer to a browser message that could not be read.
pub fn malformed_message_reply(detail: &str) -> (msg: ServerMessage)
    ensures
        msg matches ServerMessage::Error { message } && message@ == malformed_message_text(detail@),
{
    let mut cs = str_chars("不正なメッセージ: ");
    let mut rest = str_chars(detail);
    cs.append(&mut rest);
    ServerMessage::Error { message: string_from_chars(cs.as_slice()) }
}

/// What wakes the loop of a controller WebSocket.
#[derive(Debug, Clone, PartialEq, Eq)]
pub enum SocketInput {
    /// An event of the controller's worker.
    Event(WorkerEvent),
    /// The socket fell behind and missed worker events.
    Lagged,
    /// The worker's event channel closed.
    EventsClosed,
    /// A text frame from the browser.
    ClientText,
    /// The browser closed the socket, or the socket ended.
    ClientClosed,
    /// The socket reported an error.
    ClientError,
    /// A binary, ping or pong frame.
    ClientOther,
    /// Sending an event to the browser failed.
    SendFailed,
}

/// What the loop of a controller WebSocket does next.
#[derive(Debug, Clone, PartialEq, Eq)]
pub enum SocketStep {
    /// Send this message to the browser.
    Forward(ServerMessage),
    /// Read the text frame and send its commands to the worker (or the error
    /// answer to the browser when it cannot be read).
    Dispatch,
    /// Wait for the next input.
    Continue,
    /// End the loop; the worker and its Switch connection stay.
    Stop,
}

/// The step of a controller WebSocket loop for an input: worker events that
/// concern the browser are forwarded, text frames are dispatched, and the loop
/// ends when the event channel or the socket closes, on a socket error or when
/// a send fails; missed events and other frames are passed over.
pub open spec fn step_for(input: SocketInput) -> SocketStep {
    match input {
        SocketInput::Event(e) => match server_message_for(e) {
            Some(m) => SocketStep::Forward(m),
            None => SocketStep::Continue,
        },
        SocketInput::Lagged => SocketStep::Continue,
        SocketInput::EventsClosed => SocketStep::Stop,
        SocketInput::ClientText => SocketStep::Dispatch,
        SocketInput::ClientClosed => SocketStep::Stop,
        SocketInput::ClientError => SocketStep::Stop,
        SocketInput::ClientOther => SocketStep::Continue,
        SocketInput::SendFailed => SocketStep::Stop,
    }
}

/// Law: a controller WebSocket loop ends exactly when the worker's event
/// channel closes, the browser closes the socket, the socket fails or a send
/// fails; it forwards exactly the worker events that `server_message_for`
/// keeps, and dispatches exactly the text frames.
pub proof fn lemma_socket_stops(input: SocketInput)
    ensures
        step_for(input) == SocketStep::Stop <==> (input is EventsClosed || input is ClientClosed
            || input is ClientError || input is SendFailed),
        step_for(input) == SocketStep::Dispatch <==> input is ClientText,
        step_for(input) is Forward ==> input is Event,
{
}

/// Decides the next step of a controller WebSocket loop.
pub fn socket_step(input: SocketInput) -> (step: SocketStep)
    ensures
        step == step_for(input),
{
    match input {
        SocketInput::Event(e) => match worker_event_to_server_msg(e) {
            Some(m) => SocketStep::Forward(m),
            None => SocketStep::Continue,
        },
        SocketInput::Lagged => SocketStep::Continue,
        SocketInput::EventsClosed => SocketStep::Stop,
        SocketInput::ClientText => SocketStep::Dispatch,
        SocketInput::ClientClosed => SocketStep::Stop,
        SocketInput::ClientError => SocketStep::Stop,
        SocketInput::ClientOther => SocketStep::Continue,
        SocketInput::SendFailed => SocketStep::Stop,
    }
}

} // verus!
