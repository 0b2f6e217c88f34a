//! Verified core of an IPMI/BMC tool: request building, response decoding,
//! multi-step conversations with a controller, and report rendering.
//!
//! The library never touches a device, a socket or a terminal. A command that
//! needs more than one exchange is a state machine: it says which action it is
//! waiting for and is advanced with what came back.

pub mod assoc;
pub mod bytes;
pub mod calendar;
pub mod cli;
pub mod clock;
pub mod cmd;
pub mod conn;
pub mod dialog;
pub mod event;
pub mod fru;
pub mod fru_read;
pub mod laws;
pub mod number;
pub mod sdr;
pub mod text;
pub mod ui;
