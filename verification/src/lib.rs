//! Configuration bootstrap and execution reporting for a command-line timer.
//!
//! Two things happen around every run of the timer. Before it, the
//! configuration directory and its file are made sure of ([`configurer`]).
//! After it, the settings of the run are normalized and the run is reported
//! to the log and, where the time zone was not supported, to the terminal
//! ([`logger`], [`timer`]).
//!
//! The library decides and computes; it leaves the disk, the terminal and the
//! log file to its caller. What it asks of the clock and of the `log` crate
//! is in [`clock`] and [`logger`].

pub mod clock;
pub mod color;
pub mod configurer;
pub mod logger;
pub mod pattern_matcher;
pub mod text;
pub mod timer;
