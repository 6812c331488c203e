//! The decisions of a plugin that connects the dial of the Ajazz N1 to a
//! stream-deck host.
//!
//! The plugin watches the USB bus for the N1, runs one session with every
//! device that it finds, and turns what the dial reports into shell commands
//! or into events for the host. This library decides; it neither talks to a
//! device nor runs a command. Its caller does both, and tells the library
//! what came of it.
//!
//! - [`device`]: which devices are an N1, and the ids that they go by.
//! - [`input`]: the raw input codes of the dial.
//! - [`update`]: what to do with every change that a device reports.
//! - [`action`]: the command that a turn of the dial runs.
//! - [`registry`]: the table in which the plugin keeps its devices and its
//!   sessions.
//! - [`watcher`]: what happens when a device is plugged in or unplugged.
//! - [`session`]: the steps of a session, from the connect to the end.
//! - [`token`]: what is taken on trust from the cancellation token of
//!   `tokio_util`.

pub mod action;
pub mod device;
pub mod input;
pub mod registry;
pub mod session;
pub mod token;
pub mod update;
pub mod watcher;
