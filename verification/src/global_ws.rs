//! The global WebSocket: a snapshot of devices and controllers on connection,
//! on request and after every change, and the per-controller announcements.

use vstd::prelude::*;
use crate::controller::{ControllerInfo, GlobalEvent};
use crate::driver::BtUsbDevice;

verus! {

/// A message on the global WebSocket.
#[derive(Debug, Clone, PartialEq, Eq)]
pub enum ServerMsg {
    /// Every device and controller.
    Snapshot { version: String, devices: Vec<BtUsbDevice>, controllers: Vec<ControllerInfo> },
    /// The connection state of a controller changed.
    ControllerStatus { id: u32, paired: bool, rumble: bool, syncing: bool, player: u8 },
    /// A controller reported its link keys.
    ControllerLinkKeys { id: u32, vid: String, pid: String, instance: u32, data: String },
}

/// What the global WebSocket sends for a global event.
#[derive(Debug, Clone, PartialEq, Eq)]
pub enum GlobalAction {
    /// A fresh snapshot (from the cached device list and the controllers).
    SendSnapshot,
    /// This message.
    Send(ServerMsg),
}

/// What to send for a global event: a snapshot when controllers or devices
/// changed, the announcement itself otherwise.
pub open spec fn action_for(event: GlobalEvent) -> GlobalAction {
    match event {
        GlobalEvent::ControllersChanged => GlobalAction::SendSnapshot,
        GlobalEvent::DevicesChanged => GlobalAction::SendSnapshot,
        GlobalEvent::ControllerStatus { id, paired, rumble, syncing, player } =>
            GlobalAction::Send(ServerMsg::ControllerStatus { id, paired, rumble, syncing, player }),
        GlobalEvent::ControllerLinkKeys { id, vid, pid, instance, data } =>
            GlobalAction::Send(ServerMsg::ControllerLinkKeys { id, vid, pid, instance, data }),
    }
}

/// The manager event that a global message forwards, if it forwards one.
pub open spec fn event_of_msg(msg: ServerMsg) -> Option<GlobalEvent> {
    match msg {
        ServerMsg::Snapshot { .. } => None,
        ServerMsg::ControllerStatus { id, paired, rumble, syncing, player } =>
            Some(GlobalEvent::ControllerStatus { id, paired, rumble, syncing, player }),
        ServerMsg::ControllerLinkKeys { id, vid, pid, instance, data } =>
            Some(GlobalEvent::ControllerLinkKeys { id, vid, pid, instance, data }),
    }
}

/// Law: a change of controllers or devices is answered with a snapshot; every
/// other event is sent on as a message that carries all its fields unchanged,
/// each in its own place (the event can be read back from the message).
pub proof fn lemma_events_sent_unchanged(event: GlobalEvent)
    ensures
        action_for(event) == GlobalAction::SendSnapshot <==> (event is ControllersChanged || event is DevicesChanged),
        action_for(event) matches GlobalAction::Send(m) ==> event_of_msg(m) == Some(event),
{
}

/// Decides what to send for a global event.
pub fn global_event_action(event: GlobalEvent) -> (a: GlobalAction)
    ensures
        a == action_for(event),
{
    match event {
        GlobalEvent::ControllersChanged => GlobalAction::SendSnapshot,
        GlobalEvent::DevicesChanged => GlobalAction::SendSnapshot,
        GlobalEvent::ControllerStatus { id, paired, rumble, syncing, player } =>
            GlobalAction::Send(ServerMsg::ControllerStatus { id, paired, rumble, syncing, player }),
        GlobalEvent::ControllerLinkKeys { id, vid, pid, instance, data } =>
            GlobalAction::Send(ServerMsg::ControllerLinkKeys { id, vid, pid, instance, data }),
    }
}

/// What wakes the loop of a global WebSocket.
#[derive(Debug, Clone, PartialEq, Eq)]
pub enum GlobalSocketInput {
    /// The client has just connected.
    Connected,
    /// An event of the controller manager.
    Event(GlobalEvent),
    /// The socket fell behind and missed events.
    Lagged,
    /// The manager's event channel closed.
    EventsClosed,
    /// The client asked for a rescan (`{"type": "refresh"}`).
    Refresh,
    /// The client closed the socket, or the socket ended.
    ClientClosed,
    /// Any other client frame (unreadable text, binary, ping, pong) or a
    /// socket error.
    ClientOther,
    /// Sending to the client failed.
    SendFailed,
}

/// What the loop of a global WebSocket does next.
#[derive(Debug, Clone, PartialEq, Eq)]
pub enum GlobalSocketStep {
    /// Act on a manager event.
    Act(GlobalAction),
    /// Rescan the devices, cache them and send a snapshot.
    RescanAndSnapshot,
    /// Wait for the next input.
    Continue,
    /// End the loop.
    Stop,
}

/// The step of the global WebSocket loop for an input: a snapshot with a fresh
/// device scan on connection and on request, the action for a manager event,
/// and the end of the loop when the event channel or the socket closes or a
/// send fails; missed events and other client frames are passed over.
pub open spec fn global_step_for(input: GlobalSocketInput) -> GlobalSocketStep {
    match input {
        GlobalSocketInput::Connected => GlobalSocketStep::RescanAndSnapshot,
        GlobalSocketInput::Event(e) => GlobalSocketStep::Act(action_for(e)),
        GlobalSocketInput::Lagged => GlobalSocketStep::Continue,
        GlobalSocketInput::EventsClosed => GlobalSocketStep::Stop,
        GlobalSocketInput::Refresh => GlobalSocketStep::RescanAndSnapshot,
        GlobalSocketInput::ClientClosed => GlobalSocketStep::Stop,
        GlobalSocketInput::ClientOther => GlobalSocketStep::Continue,
        GlobalSocketInput::SendFailed => GlobalSocketStep::Stop,
    }
}

/// Law: the global WebSocket loop ends exactly when the event channel or the
/// socket closes or a send fails, and sends a freshly scanned snapshot exactly
/// on connection and on request.
pub proof fn lemma_global_socket_stops(input: GlobalSocketInput)
    ensures
        global_step_for(input) == GlobalSocketStep::Stop <==> (input is EventsClosed || input is ClientClosed
            || input is SendFailed),
        global_step_for(input) == GlobalSocketStep::RescanAndSnapshot <==> (input is Connected || input is Refresh),
{
}

/// Decides the next step of the global WebSocket loop.
pub fn global_socket_step(input: GlobalSocketInput) -> (step: GlobalSocketStep)
    ensures
        step == global_step_for(input),
{
    match input {
        GlobalSocketInput::Connected => GlobalSocketStep::RescanAndSnapshot,
        GlobalSocketInput::Event(e) => GlobalSocketStep::Act(global_event_action(e)),
        GlobalSocketInput::Lagged => GlobalSocketStep::Continue,
        GlobalSocketInput::EventsClosed => GlobalSocketStep::Stop,
        GlobalSocketInput::Refresh => GlobalSocketStep::RescanAndSnapshot,
        GlobalSocketInput::ClientClosed => GlobalSocketStep::Stop,
        GlobalSocketInput::ClientOther => GlobalSocketStep::Continue,
        GlobalSocketInput::SendFailed => GlobalSocketStep::Stop,
    }
}

} // verus!
