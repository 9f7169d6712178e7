//! Messages between the server and a worker process.  On the wire each one is
//! a line of JSON (NDJSON): commands go to the worker's stdin, events come back
//! on its stdout.

use vstd::prelude::*;

verus! {

/// A command from the server to a worker.
#[derive(Debug, Clone, PartialEq, Eq)]
pub enum WorkerCommand {
    /// Button state; `button_status` is the btkeyLib bit map.
    Button { button_status: u32 },
    /// Right stick, `h`/`v` in 0..=4095 (neutral 2048).
    StickR { h: u32, v: u32 },
    /// Left stick, `h`/`v` in 0..=4095 (neutral 2048).
    StickL { h: u32, v: u32 },
    /// Gyroscope reading.
    Gyro { g1: i16, g2: i16, g3: i16 },
    /// Accelerometer reading.
    Accel { x: i16, y: i16, z: i16 },
    /// Controller colours (each 0x00RRGGBB).
    PadColor { pad: u32, btn: u32, lg: u32, rg: u32 },
    /// Button mask to hold while the Switch requests rumble.
    RumbleRegister { key: u32 },
    /// Inject amiibo data read from a file path.
    Amiibo { path: String },
    /// Restart HCI and reconnect, importing the link keys first when given.
    Reconnect { link_keys: Option<String> },
    /// Delete all link keys and reset HCI (one press of the sync button).
    Sync,
    /// Start the pairing loop (sync until the Switch connects).
    SyncStart,
    /// Stop the pairing loop.
    SyncStop,
    /// Drop the HID connection to the Switch.
    Disconnect,
    /// Import link keys (base64).
    SetLinkKeys { data: String },
    /// Ask for the link keys to be exported.
    GetLinkKeys,
    /// Shut the worker down.
    Shutdown,
}

/// An event from a worker to the server.
#[derive(Debug, Clone, PartialEq, Eq)]
pub enum WorkerEvent {
    /// BTStack has been initialised.
    Ready,
    /// Periodic status.
    Status { paired: bool, rumble: bool, syncing: bool, player: u8 },
    /// The worker has shut down.
    Shutdown,
    /// Link keys (base64), sent when pairing succeeds.
    LinkKeys { data: String },
    /// Something went wrong.
    Error { message: String },
}

} // verus!
