//! Scheduling and coordination core of a daily-wallpaper utility.
//!
//! The library owns the logic of the background service: the daily timer
//! with catch-up and jitter, the persisted timer state and its on-disk
//! document, the fetch pipeline with retry, retention cleanup, download
//! history, and the lockfile-based single-instance rules. Network,
//! filesystem and desktop integration stay outside; they hand the library
//! plain values and carry out the actions it decides on.

pub mod bing;
pub mod clock;
pub mod config;
pub mod dates;
pub mod fetch;
pub mod lockfile;
pub mod service;
pub mod text;
pub mod timer;
pub mod timer_doc;
