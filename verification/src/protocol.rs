//! Messages between a browser and the server on a controller WebSocket.
//!
//! The browser sends analogue readings; what the library works with is their
//! digital meaning: for each button whether it is pressed (a value of at least
//! 0.5), and for each axis the 12-bit stick value it maps to.

use vstd::prelude::*;

verus! {

/// A message from the browser.
#[derive(Debug, Clone, PartialEq, Eq)]
pub enum ClientMessage {
    /// Gamepad state from the Web Gamepad API.
    GamepadState {
        /// A ready-made `button_flg` value that takes precedence over `buttons`.
        button_status: Option<u32>,
        /// Pressed state of each button, by standard index (0..=17 are mapped).
        buttons: Vec<bool>,
        /// Stick value of each axis `[left x, left y, right x, right y]`.
        axes: Vec<u32>,
    },
    /// Controller colours (each 0x00RRGGBB).
    SetColor { pad_color: u32, button_color: u32, left_grip_color: u32, right_grip_color: u32 },
    /// Load amiibo data from a path the server can read.
    SendAmiibo { path: String },
    /// Motion sensor override (raw Switch values).
    Motion { gyro: Vec<i16>, accel: Vec<i16> },
    /// Button mask to hold while rumbling.
    RumbleRegister { key: u32 },
    /// Reconnect, optionally with link keys (base64).
    Reconnect { link_keys: Option<String> },
    /// Start the pairing loop.
    SyncStart,
    /// Stop the pairing loop.
    SyncStop,
    /// Disconnect from the Switch.
    Disconnect,
    /// Ask for the link keys.
    GetLinkKeys,
}

/// A message to the browser.
#[derive(Debug, Clone, PartialEq, Eq)]
pub enum ServerMessage {
    /// Periodic status.
    Status { paired: bool, rumble: bool, syncing: bool, player: u8 },
    /// Link keys (base64) to keep in the browser.
    LinkKeys { data: String },
    /// Answer to a malformed or unprocessable message.
    Error { message: String },
}

} // verus!
