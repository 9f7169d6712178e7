//! Verified core of a Bluetooth Pro Controller bridge: the Web Gamepad to
//! Switch input mapping, the server/worker message protocol, controller
//! bookkeeping, driver-package naming and the worker's decision logic.

pub mod api;
pub mod cli;
pub mod controller;
pub mod driver;
pub mod gamepad;
pub mod global_ws;
pub mod ipc;
pub mod protocol;
pub mod registry;
pub mod scripts;
pub mod text;
pub mod worker;
pub mod ws_server;
