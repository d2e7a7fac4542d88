//! A bridge between a host process and a scripting engine that lives in a
//! dynamic library.
//!
//! The library decides; the host acts. [`bridge::Bridge`] is a state machine
//! that says which platform call is due next (load the library, resolve an
//! entry point, reset the engine, poll it, sleep, run the script) and takes
//! the outcome of that call as an [`protocol::Event`]. The text that crosses
//! the boundary is put into the engine's form by [`text`].
pub mod error;
pub mod protocol;
pub mod text;
pub mod bridge;
pub mod laws;
