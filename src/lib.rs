//! Glue between a native emulator core and a desktop shell: the owned
//! emulator handle, the emulation control calls, and the relay that turns
//! terminal output of the core into `write-terminal` events.
pub mod control;
pub mod handle;
pub mod relay;
