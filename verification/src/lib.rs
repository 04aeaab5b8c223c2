//! Launching and supervising a fleet of cooperating node processes.
//!
//! A [`config::Config`] describes the fleet, and is checked before anything
//! is started. A [`launcher::Launcher`] decides, one step at a time, which
//! process is to be started or stopped next; the program around this library
//! carries each step out on the operating system and reports how it went.
//! [`lifecycle`] describes that dialogue and holds what is proved of it: a
//! launch that fails leaves nothing running, and a shutdown stops every
//! process whether or not each could be terminated.

pub mod cli;
pub mod clock;
pub mod config;
pub mod discovery;
pub mod error;
pub mod launcher;
pub mod lifecycle;
pub mod signal;
pub mod task;
pub mod text;
