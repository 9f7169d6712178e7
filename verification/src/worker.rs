//! The decisions of a worker process: reading its command line, turning
//! server commands into BTStack actions, the periodic status loop and the
//! pairing loop.  The worker itself (threads, stdin/stdout, the BTStack calls)
//! runs these decisions and reports back what happened.

use base64::Engine;
use vstd::prelude::*;
use crate::ipc::{WorkerCommand, WorkerEvent};
use crate::text::{
    chars_equal, decimal, hex4, lemma_decimal_roundtrip_i32, lemma_decimal_value, lemma_hex4_roundtrip,
    parse_i32, parse_i32_spec, parse_u16_radix, parse_u16_spec, str_chars, unsigned_digits,
};

verus! {

// ---------------------------------------------------------------------------
// Base64 (link keys)
// ---------------------------------------------------------------------------

#[verifier::external_type_specification]
#[verifier::external_body]
pub struct ExDecodeError(base64::DecodeError);

/// What `base64::engine::general_purpose::STANDARD.decode` yields for a text:
/// the decoded bytes, or `None` when it reports an error.
pub uninterp spec fn base64_decoded(text: Seq<char>) -> Option<Seq<u8>>;

/// What `base64::engine::general_purpose::STANDARD.encode` yields for bytes.
pub uninterp spec fn base64_encoded(bytes: Seq<u8>) -> Seq<char>;

/// Whether the padded base64 length of `n` bytes fits in a `usize`
/// (otherwise `encode` panics).
pub open spec fn base64_len_fits(n: nat) -> bool {
    (n / 3) * 4 + (if n % 3 > 0 { 4nat } else { 0nat }) <= usize::MAX
}

/// Decodes standard padded base64 with `STANDARD.decode`; the result is named
/// `base64_decoded` of the text (`None` standing for any decode error).
#[verifier::external_body]
fn decode_base64(text: &str) -> (res: Result<Vec<u8>, base64::DecodeError>)
    ensures
        match res {
            Ok(bytes) => base64_decoded(text@) == Some(bytes@),
            Err(_) => base64_decoded(text@) is None,
        },
{
    base64::engine::general_purpose::STANDARD.decode(text)
}

/// Encodes bytes as standard padded base64 with `STANDARD.encode`; the result
/// is named `base64_encoded` of the bytes.  The encoding is canonical (padded
/// with `=`), which is what `STANDARD.decode` requires, so it decodes back to
/// the same bytes.
#[verifier::external_body]
fn encode_base64(bytes: &[u8]) -> (res: String)
    requires
        base64_len_fits(bytes@.len()),
    ensures
        res@ == base64_encoded(bytes@),
        base64_decoded(res@) == Some(bytes@),
{
    base64::engine::general_purpose::STANDARD.encode(bytes)
}

// ---------------------------------------------------------------------------
// Command line
// ---------------------------------------------------------------------------

/// What a worker is started for.
#[derive(Debug, Clone, PartialEq, Eq)]
pub struct WorkerLaunch {
    /// Vendor id of the dongle (0 when unreadable).
    pub vid: u16,
    /// Product id of the dongle (0 when unreadable).
    pub pid: u16,
    /// Instance among dongles with the same ids (0 when unreadable).
    pub instance: i32,
    /// Link keys (base64) to import before BTStack starts.
    pub link_keys: Option<String>,
}

/// The abstract content of a `WorkerLaunch`.
pub struct LaunchRecord {
    pub vid: u16,
    pub pid: u16,
    pub instance: i32,
    pub link_keys: Option<Seq<char>>,
}

impl View for WorkerLaunch {
    type V = LaunchRecord;

    open spec fn view(&self) -> LaunchRecord {
        LaunchRecord {
            vid: self.vid,
            pid: self.pid,
            instance: self.instance,
            link_keys: crate::driver::opt_view(self.link_keys),
        }
    }
}

/// The argument after the first `--link-keys` at or after position `j`.
pub open spec fn link_keys_arg_from(args: Seq<Seq<char>>, j: int) -> Option<Seq<char>>
    decreases args.len() - j,
{
    if j < 0 || j + 1 >= args.len() {
        None
    } else if args[j] == "--link-keys"@ {
        Some(args[j + 1])
    } else {
        link_keys_arg_from(args, j + 1)
    }
}

/// The launch described by a worker's full command line
/// `[program, --worker, id, vid, pid, instance, [--link-keys, keys]]`: `None`
/// when it has fewer than six arguments; ids are read as hexadecimal and the
/// instance as a decimal `i32`, each 0 when unreadable.
pub open spec fn launch_of(args: Seq<Seq<char>>) -> Option<LaunchRecord> {
    if args.len() < 6 {
        None
    } else {
        Some(LaunchRecord {
            vid: match parse_u16_spec(args[3], 16) { Some(v) => v, None => 0 },
            pid: match parse_u16_spec(args[4], 16) { Some(v) => v, None => 0 },
            instance: match parse_i32_spec(args[5]) { Some(v) => v, None => 0 },
            link_keys: link_keys_arg_from(args, 0),
        })
    }
}

/// Reads a worker's full command line.
pub fn parse_worker_args(args: &Vec<String>) -> (r: Option<WorkerLaunch>)
    ensures
        match r {
            Some(l) => launch_of(crate::controller::string_views(args@)) == Some(l@),
            None => launch_of(crate::controller::string_views(args@)) is None,
        },
{
    let ghost views = crate::controller::string_views(args@);
    if args.len() < 6 {
        return None;
    }
    let vid = match parse_u16_radix(&str_chars(args[3].as_str()), 16) {
        Some(v) => v,
        None => 0,
    };
    let pid = match parse_u16_radix(&str_chars(args[4].as_str()), 16) {
        Some(v) => v,
        None => 0,
    };
    let instance = match parse_i32(&str_chars(args[5].as_str())) {
        Some(v) => v,
        None => 0,
    };
    let flag = str_chars("--link-keys");
    let mut j: usize = 0;
    let n = args.len();
    while j < n - 1
        invariant
            n == args@.len(),
            n >= 6,
            views == crate::controller::string_views(args@),
            vid == (match parse_u16_spec(views[3], 16) { Some(v) => v, None => 0 }),
            pid == (match parse_u16_spec(views[4], 16) { Some(v) => v, None => 0 }),
            instance == (match parse_i32_spec(views[5]) { Some(v) => v, None => 0 }),
            flag@ == "--link-keys"@,
            j < args@.len(),
            link_keys_arg_from(views, 0) == link_keys_arg_from(views, j as int),
        decreases args@.len() - j,
    {
        assert(views[j as int] == args@[j as int]@);
        assert(views[j + 1] == args@[j + 1]@);
        if chars_equal(&str_chars(args[j].as_str()), &flag) {
            let keys = args[j + 1].clone();
            assert(link_keys_arg_from(views, j as int) == Some(views[j + 1]));
            let l = WorkerLaunch { vid, pid, instance, link_keys: Some(keys) };
            assert(l@.link_keys == Some(views[j + 1]));
            return Some(l);
        }
        j = j + 1;
    }
    Some(WorkerLaunch { vid, pid, instance, link_keys: None })
}

proof fn lemma_decimal_not_flag(n: nat)
    ensures
        decimal(n) != "--link-keys"@,
        decimal(n)[0] != '-',
        decimal(n)[0] != '+',
{
    lemma_decimal_value(n);
    reveal_strlit("--link-keys");
    assert(decimal(n)[0] != ("--link-keys"@)[0]);
}

proof fn lemma_hex4_not_flag(v: u16)
    ensures
        hex4(v, false) != "--link-keys"@,
{
    reveal_strlit("--link-keys");
    assert(hex4(v, false).len() != ("--link-keys"@).len());
}

/// Law: a worker started with the arguments that the server builds for
/// controller `id` (after any program path other than `--link-keys`) reads back
/// the same vendor id, product id and link keys, and the same instance
/// whenever it fits in an `i32` (an instance above `i32::MAX` reads as 0).
pub proof fn lemma_worker_args_roundtrip(
    program: Seq<char>,
    id: u32,
    vid: u16,
    pid: u16,
    instance: u32,
    link_keys: Option<Seq<char>>,
)
    requires
        program != "--link-keys"@,
    ensures
        launch_of(seq![program] + crate::controller::worker_args_spec(id, vid, pid, instance, link_keys))
            == Some(LaunchRecord {
                vid,
                pid,
                instance: if instance <= 0x7fff_ffff { instance as i32 } else { 0i32 },
                link_keys,
            }),
{
    let args = seq![program] + crate::controller::worker_args_spec(id, vid, pid, instance, link_keys);
    assert(args[1] == "--worker"@);
    assert(args[2] == decimal(id as nat));
    assert(args[3] == hex4(vid, false));
    assert(args[4] == hex4(pid, false));
    assert(args[5] == decimal(instance as nat));
    lemma_hex4_roundtrip(vid, false);
    lemma_hex4_roundtrip(pid, false);
    lemma_decimal_not_flag(id as nat);
    lemma_decimal_not_flag(instance as nat);
    lemma_hex4_not_flag(vid);
    lemma_hex4_not_flag(pid);
    if instance <= 0x7fff_ffff {
        lemma_decimal_roundtrip_i32(instance as nat);
    } else {
        lemma_decimal_value(instance as nat);
        assert(unsigned_digits(decimal(instance as nat)) == decimal(instance as nat));
    }
    reveal_strlit("--worker");
    reveal_strlit("--link-keys");
    assert(("--worker"@).len() != ("--link-keys"@).len());
    assert(link_keys_arg_from(args, 0) == link_keys_arg_from(args, 1));
    assert(link_keys_arg_from(args, 1) == link_keys_arg_from(args, 2));
    assert(link_keys_arg_from(args, 2) == link_keys_arg_from(args, 3));
    assert(link_keys_arg_from(args, 3) == link_keys_arg_from(args, 4));
    assert(link_keys_arg_from(args, 4) == link_keys_arg_from(args, 5));
    match link_keys {
        Some(k) => {
            assert(args[6] == "--link-keys"@);
            assert(args[7] == k);
            assert(link_keys_arg_from(args, 5) == link_keys_arg_from(args, 6));
        },
        None => {
            assert(args.len() == 6);
        },
    }
}

// ---------------------------------------------------------------------------
// Commands
// ---------------------------------------------------------------------------

/// Link keys handed over with a reconnect.
#[derive(Debug, Clone, PartialEq, Eq)]
pub enum GivenKeys {
    /// They decoded to these bytes.
    Decoded(Vec<u8>),
    /// They were not valid base64.
    Undecodable,
}

/// What the worker does for a server command.
#[derive(Debug, Clone, PartialEq, Eq)]
pub enum WorkerAction {
    /// `send_button` with the bit map.
    SetButtons { button_status: u32 },
    /// `send_stick_r`.
    SetStickR { h: u32, v: u32 },
    /// `send_stick_l`.
    SetStickL { h: u32, v: u32 },
    /// `send_gyro`.
    SendGyro { g1: i16, g2: i16, g3: i16 },
    /// `send_accel`.
    SendAccel { x: i16, y: i16, z: i16 },
    /// `send_padcolor`.
    SetPadColor { pad: u32, btn: u32, lg: u32, rg: u32 },
    /// `rumble_register`.
    RumbleRegister { key: u32 },
    /// `send_amiibo` with the file path.
    SendAmiibo { path: String },
    /// Import the decoded link keys.
    ImportLinkKeys { keys: Vec<u8> },
    /// The link keys could not be decoded; report it.
    LinkKeysUndecodable,
    /// Export the link keys (send them to the server if there are any).
    ExportLinkKeys,
    /// Import the link keys when some were given and decoded, then reconnect.
    Reconnect { keys: Option<GivenKeys> },
    /// Delete the link keys and reset HCI.
    Sync,
    /// Mark the worker as syncing and start the pairing loop.
    StartPairing,
    /// Nothing to do.
    Nothing,
    /// Mark the worker as no longer syncing (the pairing loop stops).
    StopPairing,
    /// Drop the HID connection to the Switch.
    Disconnect,
    /// Stop syncing, shut BTStack down, report the shutdown and exit.
    Shutdown,
}

/// What decoding `data` leaves for an import: the keys, or a failure.
pub open spec fn decode_matches(r: GivenKeys, data: Seq<char>) -> bool {
    match r {
        GivenKeys::Decoded(keys) => base64_decoded(data) == Some(keys@),
        GivenKeys::Undecodable => base64_decoded(data) is None,
    }
}

/// The action for a server command; `syncing` tells whether the pairing loop
/// already runs (a second start is ignored).
pub open spec fn action_matches(cmd: WorkerCommand, syncing: bool, a: WorkerAction) -> bool {
    match cmd {
        WorkerCommand::Button { button_status } => a == WorkerAction::SetButtons { button_status },
        WorkerCommand::StickR { h, v } => a == WorkerAction::SetStickR { h, v },
        WorkerCommand::StickL { h, v } => a == WorkerAction::SetStickL { h, v },
        WorkerCommand::Gyro { g1, g2, g3 } => a == WorkerAction::SendGyro { g1, g2, g3 },
        WorkerCommand::Accel { x, y, z } => a == WorkerAction::SendAccel { x, y, z },
        WorkerCommand::PadColor { pad, btn, lg, rg } => a == WorkerAction::SetPadColor { pad, btn, lg, rg },
        WorkerCommand::RumbleRegister { key } => a == WorkerAction::RumbleRegister { key },
        WorkerCommand::Amiibo { path } => a == WorkerAction::SendAmiibo { path },
        WorkerCommand::SetLinkKeys { data } => match a {
            WorkerAction::ImportLinkKeys { keys } => base64_decoded(data@) == Some(keys@),
            WorkerAction::LinkKeysUndecodable => base64_decoded(data@) is None,
            _ => false,
        },
        WorkerCommand::GetLinkKeys => a == WorkerAction::ExportLinkKeys,
        WorkerCommand::Reconnect { link_keys } => match a {
            WorkerAction::Reconnect { keys } => match (link_keys, keys) {
                (None, None) => true,
                (Some(data), Some(r)) => decode_matches(r, data@),
                _ => false,
            },
            _ => false,
        },
        WorkerCommand::Sync => a == WorkerAction::Sync,
        WorkerCommand::SyncStart => a == (if syncing { WorkerAction::Nothing } else { WorkerAction::StartPairing }),
        WorkerCommand::SyncStop => a == WorkerAction::StopPairing,
        WorkerCommand::Disconnect => a == WorkerAction::Disconnect,
        WorkerCommand::Shutdown => a == WorkerAction::Shutdown,
    }
}

/// The server command that an action carries out, for the actions that
/// determine their command (those on link keys given as text do not).
pub open spec fn command_of(a: WorkerAction) -> Option<WorkerCommand> {
    match a {
        WorkerAction::SetButtons { button_status } => Some(WorkerCommand::Button { button_status }),
        WorkerAction::SetStickR { h, v } => Some(WorkerCommand::StickR { h, v }),
        WorkerAction::SetStickL { h, v } => Some(WorkerCommand::StickL { h, v }),
        WorkerAction::SendGyro { g1, g2, g3 } => Some(WorkerCommand::Gyro { g1, g2, g3 }),
        WorkerAction::SendAccel { x, y, z } => Some(WorkerCommand::Accel { x, y, z }),
        WorkerAction::SetPadColor { pad, btn, lg, rg } => Some(WorkerCommand::PadColor { pad, btn, lg, rg }),
        WorkerAction::RumbleRegister { key } => Some(WorkerCommand::RumbleRegister { key }),
        WorkerAction::SendAmiibo { path } => Some(WorkerCommand::Amiibo { path }),
        WorkerAction::ImportLinkKeys { .. } => None,
        WorkerAction::LinkKeysUndecodable => None,
        WorkerAction::ExportLinkKeys => Some(WorkerCommand::GetLinkKeys),
        WorkerAction::Reconnect { keys: None } => Some(WorkerCommand::Reconnect { link_keys: None }),
        WorkerAction::Reconnect { keys: Some(_) } => None,
        WorkerAction::Sync => Some(WorkerCommand::Sync),
        WorkerAction::StartPairing => Some(WorkerCommand::SyncStart),
        WorkerAction::Nothing => Some(WorkerCommand::SyncStart),
        WorkerAction::StopPairing => Some(WorkerCommand::SyncStop),
        WorkerAction::Disconnect => Some(WorkerCommand::Disconnect),
        WorkerAction::Shutdown => Some(WorkerCommand::Shutdown),
    }
}

/// Law: the action for a command carries out that very command with its
/// arguments unchanged (the command can be read back from the action), except
/// for link keys given as text, which are imported exactly when they decode;
/// only a pairing start depends on whether the pairing loop runs, and it is
/// ignored exactly when it does.
pub proof fn lemma_action_carries_command(cmd: WorkerCommand, syncing: bool, a: WorkerAction)
    requires
        action_matches(cmd, syncing, a),
    ensures
        !(cmd is SetLinkKeys) && !(cmd matches WorkerCommand::Reconnect { link_keys: Some(_) })
            ==> command_of(a) == Some(cmd),
        !(cmd is SyncStart) ==> action_matches(cmd, !syncing, a),
        cmd is SyncStart ==> (a == WorkerAction::Nothing <==> syncing),
        cmd is Shutdown ==> a == WorkerAction::Shutdown,
        cmd matches WorkerCommand::SetLinkKeys { data } ==> (a is LinkKeysUndecodable <==> base64_decoded(data@) is None),
        cmd matches WorkerCommand::Reconnect { link_keys: Some(data) } ==> (
            a matches WorkerAction::Reconnect { keys: Some(k) } && (k is Undecodable <==> base64_decoded(data@) is None)),
{
}

/// Decides what the worker does for a server command.
pub fn command_action(cmd: WorkerCommand, syncing: bool) -> (a: WorkerAction)
    ensures
        action_matches(cmd, syncing, a),
{
    match cmd {
        WorkerCommand::Button { button_status } => WorkerAction::SetButtons { button_status },
        WorkerCommand::StickR { h, v } => WorkerAction::SetStickR { h, v },
        WorkerCommand::StickL { h, v } => WorkerAction::SetStickL { h, v },
        WorkerCommand::Gyro { g1, g2, g3 } => WorkerAction::SendGyro { g1, g2, g3 },
        WorkerCommand::Accel { x, y, z } => WorkerAction::SendAccel { x, y, z },
        WorkerCommand::PadColor { pad, btn, lg, rg } => WorkerAction::SetPadColor { pad, btn, lg, rg },
        WorkerCommand::RumbleRegister { key } => WorkerAction::RumbleRegister { key },
        WorkerCommand::Amiibo { path } => WorkerAction::SendAmiibo { path },
        WorkerCommand::SetLinkKeys { data } => match decode_base64(data.as_str()) {
            Ok(keys) => WorkerAction::ImportLinkKeys { keys },
            Err(_) => WorkerAction::LinkKeysUndecodable,
        },
        WorkerCommand::GetLinkKeys => WorkerAction::ExportLinkKeys,
        WorkerCommand::Reconnect { link_keys } => match link_keys {
            Some(data) => {
                let given = match decode_base64(data.as_str()) {
                    Ok(keys) => GivenKeys::Decoded(keys),
                    Err(_) => GivenKeys::Undecodable,
                };
                WorkerAction::Reconnect { keys: Some(given) }
            },
            None => WorkerAction::Reconnect { keys: None },
        },
        WorkerCommand::Sync => WorkerAction::Sync,
        WorkerCommand::SyncStart => if syncing { WorkerAction::Nothing } else { WorkerAction::StartPairing },
        WorkerCommand::SyncStop => WorkerAction::StopPairing,
        WorkerCommand::Disconnect => WorkerAction::Disconnect,
        WorkerCommand::Shutdown => WorkerAction::Shutdown,
    }
}

/// Decodes the link keys given on the command line; `None` when they do not
/// decode.
pub fn decode_link_keys(data: &str) -> (r: Option<Vec<u8>>)
    ensures
        match r {
            Some(keys) => base64_decoded(data@) == Some(keys@),
            None => base64_decoded(data@) is None,
        },
{
    match decode_base64(data) {
        Ok(keys) => Some(keys),
        Err(_) => None,
    }
}

/// The event that exports link keys: none when BTStack holds no keys, else
/// the keys in base64.
pub fn link_keys_event(keys: &[u8]) -> (e: Option<WorkerEvent>)
    requires
        base64_len_fits(keys@.len()),
    ensures
        keys@.len() == 0 ==> e is None,
        keys@.len() > 0 ==> (e matches Some(WorkerEvent::LinkKeys { data }) && data@ == base64_encoded(keys@)
            && base64_decoded(data@) == Some(keys@)),
{
    if keys.len() == 0 {
        None
    } else {
        Some(WorkerEvent::LinkKeys { data: encode_base64(keys) })
    }
}

/// Law: link keys that the worker exported, handed back unchanged with a
/// reconnect or as new link keys, are imported as the very bytes exported.
pub proof fn lemma_exported_keys_are_reimported(
    keys: Seq<u8>,
    data: String,
    syncing: bool,
    on_reconnect: WorkerAction,
    on_set: WorkerAction,
)
    requires
        base64_decoded(data@) == Some(keys),
        action_matches(WorkerCommand::Reconnect { link_keys: Some(data) }, syncing, on_reconnect),
        action_matches(WorkerCommand::SetLinkKeys { data }, syncing, on_set),
    ensures
        on_reconnect matches WorkerAction::Reconnect { keys: Some(GivenKeys::Decoded(k)) } && k@ == keys,
        on_set matches WorkerAction::ImportLinkKeys { keys: k } && k@ == keys,
{
}

// ---------------------------------------------------------------------------
// Status loop
// ---------------------------------------------------------------------------

/// The memory of the status loop, which reports every 100 ms.
#[derive(Debug, Clone, Copy, PartialEq, Eq)]
pub struct StatusLoop {
    /// Whether the Switch was connected at the previous report.
    pub prev_paired: bool,
    /// Whether the link keys of the current connection have been sent.
    pub link_keys_sent: bool,
}

/// What one status report asks for besides the report itself.
#[derive(Debug, Clone, Copy, PartialEq, Eq)]
pub struct StatusDecision {
    /// Stop the pairing loop: the Switch has just connected while syncing.
    pub stop_sync: bool,
    /// Try to send the link keys (and report whether that worked).
    pub send_link_keys: bool,
}

/// The state after a report and its decision: the pairing loop stops on a new
/// connection while syncing; the keys are sent when connected and not yet
/// sent during this connection; they count as sent only while the connection
/// lasts.
pub open spec fn status_tick(s: StatusLoop, paired: bool, syncing: bool) -> (StatusLoop, StatusDecision) {
    let rising = paired && !s.prev_paired;
    (
        StatusLoop { prev_paired: paired, link_keys_sent: paired && s.prev_paired && s.link_keys_sent },
        StatusDecision { stop_sync: rising && syncing, send_link_keys: paired && (!s.prev_paired || !s.link_keys_sent) },
    )
}

impl StatusLoop {
    /// Before the first report: not connected, nothing sent.
    pub fn new() -> (s: Self)
        ensures
            s == (StatusLoop { prev_paired: false, link_keys_sent: false }),
    {
        StatusLoop { prev_paired: false, link_keys_sent: false }
    }

    /// One report, given whether the Switch is connected and whether the
    /// pairing loop runs.  On a new connection the pairing loop is stopped and
    /// the keys count as unsent; while connected, unsent keys are sent (again
    /// at each report until that works); on disconnection they count as unsent.
    pub fn tick(&mut self, paired: bool, syncing: bool) -> (d: StatusDecision)
        ensures
            (*final(self), d) == status_tick(*old(self), paired, syncing),
    {
        let rising = paired && !self.prev_paired;
        let stop_sync = rising && syncing;
        let sent = if rising { false } else { self.link_keys_sent };
        let send = paired && !sent;
        self.prev_paired = paired;
        self.link_keys_sent = paired && sent;
        StatusDecision { stop_sync, send_link_keys: send }
    }

    /// Records whether sending the link keys worked.
    pub fn record_link_keys_sent(&mut self, sent: bool)
        ensures
            final(self).prev_paired == old(self).prev_paired,
            final(self).link_keys_sent == sent,
    {
        self.link_keys_sent = sent;
    }
}

/// Law: a report remembers whether the Switch is connected; it stops the
/// pairing loop only when the Switch has just connected while syncing, and
/// always then; it sends the link keys only while connected, always on a new
/// connection, and while connected whenever they are not yet sent; keys count
/// as sent only during a lasting connection.
pub proof fn lemma_status_report_decisions(s: StatusLoop, paired: bool, syncing: bool)
    ensures
        ({
            let (next, d) = status_tick(s, paired, syncing);
            &&& next.prev_paired == paired
            &&& d.stop_sync <==> (paired && !s.prev_paired && syncing)
            &&& d.send_link_keys ==> paired
            &&& (paired && !s.prev_paired) ==> d.send_link_keys
            &&& (paired && !s.link_keys_sent) ==> d.send_link_keys
            &&& !paired ==> !next.link_keys_sent
            &&& next.link_keys_sent ==> s.link_keys_sent
        }),
{
}

/// Law: once the link keys of a connection have been sent, reports during the
/// same connection neither send them again nor stop the pairing loop.
pub proof fn lemma_link_keys_sent_once(s: StatusLoop, syncing: bool)
    requires
        s.prev_paired,
        s.link_keys_sent,
    ensures
        !(status_tick(s, true, syncing).1.send_link_keys),
        !(status_tick(s, true, syncing).1.stop_sync),
        status_tick(s, true, syncing).0 == s,
{
}

// ---------------------------------------------------------------------------
// Pairing loop
// ---------------------------------------------------------------------------

/// Ticks (of 200 ms) between HCI resets while waiting for the Switch: 60 s.
pub const RETRY_INTERVAL_TICKS: u32 = 300;

/// Ticks between progress messages: 10 s.
pub const PROGRESS_INTERVAL_TICKS: u32 = 50;

/// The pairing loop, woken every 200 ms after the first sync.
#[derive(Debug, Clone, Copy, PartialEq, Eq)]
pub struct PairingLoop {
    /// Wake-ups so far that found the Switch not yet connected.
    pub tick: u32,
}

/// What the pairing loop does on a wake-up.
#[derive(Debug, Clone, Copy, PartialEq, Eq)]
pub enum PairingStep {
    /// Syncing was stopped: end the loop.
    Cancelled,
    /// The Switch connected: stop syncing, send the link keys, end the loop.
    Paired,
    /// Keep waiting; `retry` asks for an HCI reset unless a connection is in
    /// progress (link keys present); `progress` asks for a progress message.
    Wait { retry: bool, progress: bool },
}

impl PairingLoop {
    /// A loop that has just synced.
    pub fn new() -> (l: Self)
        ensures
            l.tick == 0,
    {
        PairingLoop { tick: 0 }
    }

    /// One wake-up, given whether syncing is still wanted and whether the
    /// Switch is connected.
    pub fn step(&mut self, syncing: bool, paired: bool) -> (step: PairingStep)
        ensures
            !syncing ==> step == PairingStep::Cancelled && final(self).tick == old(self).tick,
            syncing && paired ==> step == PairingStep::Paired && final(self).tick == old(self).tick,
            syncing && !paired ==> step == (PairingStep::Wait {
                retry: old(self).tick > 0 && old(self).tick % RETRY_INTERVAL_TICKS == 0,
                progress: old(self).tick > 0 && old(self).tick % PROGRESS_INTERVAL_TICKS == 0,
            }) && final(self).tick == (if old(self).tick == u32::MAX { 0 } else { old(self).tick + 1 }),
    {
        if !syncing {
            return PairingStep::Cancelled;
        }
        if paired {
            return PairingStep::Paired;
        }
        let retry = self.tick > 0 && self.tick % RETRY_INTERVAL_TICKS == 0;
        let progress = self.tick > 0 && self.tick % PROGRESS_INTERVAL_TICKS == 0;
        self.tick = if self.tick == u32::MAX { 0 } else { self.tick + 1 };
        PairingStep::Wait { retry, progress }
    }
}

/// Whether a due retry resets HCI: only when BTStack holds no link keys (with
/// keys a connection is in progress).
pub fn retry_resets_hci(link_keys: &[u8]) -> (b: bool)
    ensures
        b == (link_keys@.len() == 0),
{
    link_keys.len() == 0
}

} // verus!
