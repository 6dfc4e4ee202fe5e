//! Core of a live-coding MIDI event processor.
//!
//! A user picks a script out of a folder, the script processes live MIDI
//! input, and edits to the script file are recompiled and hot-swapped while
//! the process stays alive. This crate holds the verified heart of that tool:
//! the script catalog, the watch-event classifier, the session record, the
//! compile-run engine with its error-recovery protocol, and the event
//! dispatcher's decision rules. Everything that talks to the outside world
//! (the terminal, the MIDI transport, the filesystem watcher, the script
//! runtime) lives in the surrounding application, which feeds plain values
//! into these functions and performs the actions they return.

pub mod catalog;
pub mod dispatcher;
pub mod engine;
pub mod session;
pub mod midi;
pub mod paths;
pub mod text;
pub mod watch;
