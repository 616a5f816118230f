//! Orchestration core of a live mixing pipeline: the lifecycle state machine,
//! the classification of bus messages into events, the planning of links for
//! streams discovered at runtime, the topology descriptions handed to the
//! media runtime, and the channel steps that bridge the worker thread and the
//! caller.
pub mod state;
pub mod command;
pub mod event;
pub mod channel;
pub mod bus;
pub mod lifecycle;
pub mod linker;
pub mod streamer;
