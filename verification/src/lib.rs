//! Native-typed models of the host-runtime services an Emscripten-style
//! binding layer exposes: the main-loop registration bridge with its
//! per-context callable slot, the loop-timing descriptor and its raw
//! `(mode, value)` encoding, console output channels, script-evaluation
//! replies, and window/screen state.
//!
//! The host scheduler itself lives outside this crate; here its visible
//! state is modeled explicitly, so every transition the binding layer
//! performs carries a verified contract.

pub mod console;
pub mod decimal;
pub mod main_loop;
pub mod marshal;
pub mod script;
pub mod timing;
pub mod window;
