//! The verified core of a desktop player that supervises an external media
//! engine: the control protocol spoken over the engine's local channel,
//! the lifecycle of the engine process, the timing of the offscreen capture
//! loop, and the rules of the player's window, fetch proxy and store.
//!
//! Nothing here touches a process, a socket, a file or a clock. Every
//! operation is a function from plain values to plain values: it says what
//! is to be written, spawned or stored, and takes what was read. The
//! program around the library does the rest.

pub mod text;
pub mod json;
pub mod encoding;
pub mod platform;
pub mod window_cmds;
pub mod fetch_proxy;
pub mod mpv;
pub mod storage;
