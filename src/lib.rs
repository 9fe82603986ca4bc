//! Present-hook compositor and input router for an overlay that draws a
//! companion process's shared texture over a host application's frames.
//!
//! The library holds the decisions: validation of the shared frame block, the
//! compositor's per-frame state machine, the pipeline guard, input routing
//! with coordinate rescaling, the wire format of input packets, keybinds and
//! the session's hook lifecycle. GPU and window-system calls are made by the
//! caller, which feeds their outcomes back as plain values.
pub mod bytes;
pub mod compositor;
pub mod cycle;
pub mod debug;
pub mod frame;
pub mod hook;
pub mod input;
pub mod keybind;
pub mod packet;
pub mod pipeline;
pub mod router;
pub mod session;
pub mod statistics;
