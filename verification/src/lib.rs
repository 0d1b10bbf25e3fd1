//! Verified state machines for sharing one hardware controller among many
//! logical clients.
//!
//! Every component here is a pure state machine: an entry point takes the
//! request or the completion event, updates the component, and hands back
//! what has to be done next (a transfer to start, an alarm to arm, a client
//! to notify). Buffers are owned values that move into a request and come
//! back with its completion, so no buffer is ever held by two parties.

pub mod buffer;
pub mod returncode;
pub mod process;
pub mod hil;
pub mod capsules;
pub mod chips;
pub mod components;
