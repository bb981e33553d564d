//! Guest-side core of a WASM plugin that embeds a Python interpreter.
//!
//! The plugin's boundary code (interpreter calls, raw linear-memory access,
//! symbol re-exports) lives outside this library; here stand the parts whose
//! behaviour can be stated and proved: the one-shot interpreter lifecycle
//! latch, validation of script sources as UTF-8, and the marshaling and
//! memory discipline of the host invoke bridge.

pub mod bridge;
pub mod error;
pub mod lifecycle;
pub mod utf8;
