//! Controllers as the server sees them: one worker process per Bluetooth
//! dongle.  This module holds what the server knows of each controller, how
//! a worker's events update it and are announced to every client, and the
//! command line that starts a worker.

use vstd::prelude::*;
use crate::driver::opt_view;
use crate::ipc::{WorkerCommand, WorkerEvent};
use crate::text::{
    decimal, decimal_chars, hex4, hex4_chars, str_chars, string_from_chars, trim, trim_chars,
};

verus! {

/// An event for every client of the global WebSocket.
#[derive(Debug, Clone, PartialEq, Eq)]
pub enum GlobalEvent {
    /// A controller was added or removed.
    ControllersChanged,
    /// The device list changed (after a driver operation).
    DevicesChanged,
    /// The connection state of a controller changed.
    ControllerStatus { id: u32, paired: bool, rumble: bool, syncing: bool, player: u8 },
    /// A controller reported its link keys.
    ControllerLinkKeys { id: u32, vid: String, pid: String, instance: u32, data: String },
}

/// What the REST API and the global WebSocket report of a controller.
#[derive(Debug, Clone, PartialEq, Eq)]
pub struct ControllerInfo {
    /// Controller id (0, 1, 2, ... in order of creation).
    pub id: u32,
    /// USB vendor id, lower-case hexadecimal.
    pub vid: String,
    /// USB product id, lower-case hexadecimal.
    pub pid: String,
    /// Instance among dongles with the same vendor and product id.
    pub instance: u32,
    /// Whether the Switch is connected.
    pub paired: bool,
    /// Whether the Switch requests rumble.
    pub rumble: bool,
    /// Whether the pairing loop is running.
    pub syncing: bool,
    /// Player number assigned by the Switch (1-4), 0 when none.
    pub player: u8,
    /// Link keys held by BTStack (base64), once reported.
    pub link_keys: Option<String>,
}

/// What the server knows of one controller.
#[derive(Debug, Clone, PartialEq, Eq)]
pub struct ControllerState {
    pub vid: u16,
    pub pid: u16,
    pub instance: u32,
    pub paired: bool,
    pub rumble: bool,
    pub syncing: bool,
    pub player: u8,
    pub link_keys: Option<String>,
}

impl ControllerState {
    /// The state of a freshly started controller: not paired, not rumbling,
    /// not syncing, no player number, no link keys.
    pub fn new(vid: u16, pid: u16, instance: u32) -> (s: Self)
        ensures
            s == (ControllerState {
                vid,
                pid,
                instance,
                paired: false,
                rumble: false,
                syncing: false,
                player: 0,
                link_keys: None,
            }),
    {
        ControllerState {
            vid,
            pid,
            instance,
            paired: false,
            rumble: false,
            syncing: false,
            player: 0,
            link_keys: None,
        }
    }
}

fn clone_opt_string(o: &Option<String>) -> (r: Option<String>)
    ensures
        r == *o,
{
    match o {
        Some(s) => Some(s.clone()),
        None => None,
    }
}

/// The report of controller `id` in state `state`.
pub fn controller_info(id: u32, state: &ControllerState) -> (info: ControllerInfo)
    ensures
        info.id == id,
        info.vid@ == hex4(state.vid, false),
        info.pid@ == hex4(state.pid, false),
        info.instance == state.instance,
        info.paired == state.paired,
        info.rumble == state.rumble,
        info.syncing == state.syncing,
        info.player == state.player,
        info.link_keys == state.link_keys,
{
    ControllerInfo {
        id,
        vid: string_from_chars(hex4_chars(state.vid, false).as_slice()),
        pid: string_from_chars(hex4_chars(state.pid, false).as_slice()),
        instance: state.instance,
        paired: state.paired,
        rumble: state.rumble,
        syncing: state.syncing,
        player: state.player,
        link_keys: clone_opt_string(&state.link_keys),
    }
}

/// The connection state last announced for a controller; announcements are
/// made only when it changes.
#[derive(Debug, Clone, Copy, PartialEq, Eq)]
pub struct StatusTracker {
    pub paired: bool,
    pub syncing: bool,
    pub player: u8,
}

impl StatusTracker {
    /// Nothing announced yet: as if unpaired, not syncing, without player.
    pub fn new() -> (t: Self)
        ensures
            t == (StatusTracker { paired: false, syncing: false, player: 0 }),
    {
        StatusTracker { paired: false, syncing: false, player: 0 }
    }
}

/// Whether a status report differs from what was last announced.
pub open spec fn status_changed(tracker: StatusTracker, paired: bool, syncing: bool, player: u8) -> bool {
    paired != tracker.paired || syncing != tracker.syncing || player != tracker.player
}

/// The state after a worker event: a status report sets the connection
/// fields, link keys are remembered, other events change nothing.
pub open spec fn state_after(state: ControllerState, event: WorkerEvent) -> ControllerState {
    match event {
        WorkerEvent::Status { paired, rumble, syncing, player } => ControllerState {
            paired,
            rumble,
            syncing,
            player,
            ..state
        },
        WorkerEvent::LinkKeys { data } => ControllerState { link_keys: Some(data), ..state },
        _ => state,
    }
}

/// The tracker after a worker event.
pub open spec fn tracker_after(tracker: StatusTracker, event: WorkerEvent) -> StatusTracker {
    match event {
        WorkerEvent::Status { paired, rumble, syncing, player } =>
            if status_changed(tracker, paired, syncing, player) {
                StatusTracker { paired, syncing, player }
            } else {
                tracker
            },
        _ => tracker,
    }
}

/// Applies a worker event of controller `id` to its state, and returns the
/// global event to announce, if any: a status report is announced only when
/// its pairing, syncing or player number differs from the last announcement;
/// link keys are always announced, together with the controller's ids.
pub fn apply_worker_event(
    state: &mut ControllerState,
    tracker: &mut StatusTracker,
    id: u32,
    event: &WorkerEvent,
) -> (announce: Option<GlobalEvent>)
    ensures
        *final(state) == state_after(*old(state), *event),
        *final(tracker) == tracker_after(*old(tracker), *event),
        match *event {
            WorkerEvent::Status { paired, rumble, syncing, player } =>
                if status_changed(*old(tracker), paired, syncing, player) {
                    announce == Some(GlobalEvent::ControllerStatus { id, paired, rumble, syncing, player })
                } else {
                    announce is None
                },
            WorkerEvent::LinkKeys { data } => match announce {
                Some(GlobalEvent::ControllerLinkKeys { id: i, vid, pid, instance, data: d }) =>
                    i == id && vid@ == hex4(old(state).vid, false) && pid@ == hex4(old(state).pid, false)
                        && instance == old(state).instance && d == data,
                _ => false,
            },
            _ => announce is None,
        },
{
    match event {
        WorkerEvent::Status { paired, rumble, syncing, player } => {
            state.paired = *paired;
            state.rumble = *rumble;
            state.syncing = *syncing;
            state.player = *player;
            if *paired != tracker.paired || *syncing != tracker.syncing || *player != tracker.player {
                tracker.paired = *paired;
                tracker.syncing = *syncing;
                tracker.player = *player;
                Some(GlobalEvent::ControllerStatus {
                    id,
                    paired: *paired,
                    rumble: *rumble,
                    syncing: *syncing,
                    player: *player,
                })
            } else {
                None
            }
        },
        WorkerEvent::LinkKeys { data } => {
            state.link_keys = Some(data.clone());
            Some(GlobalEvent::ControllerLinkKeys {
                id,
                vid: string_from_chars(hex4_chars(state.vid, false).as_slice()),
                pid: string_from_chars(hex4_chars(state.pid, false).as_slice()),
                instance: state.instance,
                data: data.clone(),
            })
        },
        _ => None,
    }
}

/// Law: after any status report the tracker holds the report's pairing,
/// syncing and player number; the report is announced exactly when that
/// changes the tracker (so a change of the player number alone is announced,
/// and a change of rumble alone is not), and the announcement carries the
/// report's fields; the state takes the report's four fields and keeps the
/// rest.
pub proof fn lemma_status_report(
    state: ControllerState,
    tracker: StatusTracker,
    paired: bool,
    rumble: bool,
    syncing: bool,
    player: u8,
)
    ensures
        ({
            let e = WorkerEvent::Status { paired, rumble, syncing, player };
            let reported = StatusTracker { paired, syncing, player };
            &&& tracker_after(tracker, e) == reported
            &&& status_changed(tracker, paired, syncing, player) <==> tracker != reported
            &&& state_after(state, e).paired == paired
            &&& state_after(state, e).rumble == rumble
            &&& state_after(state, e).syncing == syncing
            &&& state_after(state, e).player == player
            &&& state_after(state, e).vid == state.vid
            &&& state_after(state, e).pid == state.pid
            &&& state_after(state, e).instance == state.instance
            &&& state_after(state, e).link_keys == state.link_keys
        }),
{
}

/// Law: link keys reported by a worker are kept as the controller's link keys
/// and change nothing else; events other than status reports and link keys
/// change neither the state nor the tracker.
pub proof fn lemma_other_events(state: ControllerState, tracker: StatusTracker, event: WorkerEvent)
    ensures
        event matches WorkerEvent::LinkKeys { data } ==> state_after(state, event) == (ControllerState {
            link_keys: Some(data),
            ..state
        }),
        !(event is Status) ==> tracker_after(tracker, event) == tracker,
        !(event is Status) && !(event is LinkKeys) ==> state_after(state, event) == state,
{
}

/// Law: once a status report has been applied, applying the same report again
/// announces nothing and leaves state and tracker as they are.
pub proof fn lemma_repeated_status_is_silent(
    state: ControllerState,
    tracker: StatusTracker,
    paired: bool,
    rumble: bool,
    syncing: bool,
    player: u8,
)
    ensures
        ({
            let e = WorkerEvent::Status { paired, rumble, syncing, player };
            let s1 = state_after(state, e);
            let t1 = tracker_after(tracker, e);
            &&& !status_changed(t1, paired, syncing, player)
            &&& state_after(s1, e) == s1
            &&& tracker_after(t1, e) == t1
        }),
{
}

/// The JSON text of a line of worker output: the trimmed line when it starts
/// with `{`; other lines (blank lines, log text) carry no event.
pub open spec fn event_line_text(line: Seq<char>) -> Option<Seq<char>> {
    let t = trim(line);
    if t.len() > 0 && t[0] == '{' {
        Some(t)
    } else {
        None
    }
}

/// Law: a line of worker output carries an event exactly when, without the
/// white space at its ends, it is not empty and starts with `{`; the event's
/// text is then the line without that white space.
pub proof fn lemma_event_line(line: Seq<char>)
    ensures
        event_line_text(line) is None <==> (trim(line).len() == 0 || trim(line)[0] != '{'),
        event_line_text(line) matches Some(t) ==> t == trim(line) && t[0] == '{',
{
}

/// The JSON text of a line of worker output, if it carries an event.
pub fn event_line(line: &str) -> (r: Option<String>)
    ensures
        opt_view(r) == event_line_text(line@),
{
    let t = trim_chars(&str_chars(line));
    if t.len() > 0 && t[0] == '{' {
        Some(string_from_chars(t.as_slice()))
    } else {
        None
    }
}

/// The arguments that start the worker of controller `id` (after the program
/// path): `--worker <id> <vid> <pid> <instance>`, ids in lower-case four-digit
/// hexadecimal, then `--link-keys <keys>` when link keys are given.
pub open spec fn worker_args_spec(id: u32, vid: u16, pid: u16, instance: u32, link_keys: Option<Seq<char>>)
    -> Seq<Seq<char>>
{
    let base = seq!["--worker"@, decimal(id as nat), hex4(vid, false), hex4(pid, false), decimal(instance as nat)];
    match link_keys {
        Some(k) => base + seq!["--link-keys"@, k],
        None => base,
    }
}

/// The texts of a list of strings.
pub open spec fn string_views(s: Seq<String>) -> Seq<Seq<char>> {
    s.map_values(|x: String| x@)
}

/// The arguments that start the worker of controller `id`.
pub fn worker_args(id: u32, vid: u16, pid: u16, instance: u32, link_keys: &Option<String>) -> (args: Vec<String>)
    ensures
        string_views(args@) == worker_args_spec(id, vid, pid, instance, opt_view(*link_keys)),
{
    let mut args: Vec<String> = Vec::new();
    args.push(string_from_chars(str_chars("--worker").as_slice()));
    args.push(string_from_chars(decimal_chars(id).as_slice()));
    args.push(string_from_chars(hex4_chars(vid, false).as_slice()));
    args.push(string_from_chars(hex4_chars(pid, false).as_slice()));
    args.push(string_from_chars(decimal_chars(instance).as_slice()));
    match link_keys {
        Some(k) => {
            args.push(string_from_chars(str_chars("--link-keys").as_slice()));
            args.push(k.clone());
        },
        None => {},
    }
    assert(string_views(args@) =~= worker_args_spec(id, vid, pid, instance, opt_view(*link_keys)));
    args
}

/// The commands sent to a new worker once it runs: a reconnect when it was
/// started with link keys, nothing otherwise.
pub fn startup_commands(link_keys: &Option<String>) -> (cmds: Vec<WorkerCommand>)
    ensures
        cmds@ == (if link_keys.is_some() { seq![WorkerCommand::Reconnect { link_keys: None }] } else { Seq::empty() }),
{
    let mut cmds: Vec<WorkerCommand> = Vec::new();
    if link_keys.is_some() {
        cmds.push(WorkerCommand::Reconnect { link_keys: None });
    }
    assert(cmds@ =~= (if link_keys.is_some() { seq![WorkerCommand::Reconnect { link_keys: None }] } else { Seq::empty() }));
    cmds
}

} // verus!
