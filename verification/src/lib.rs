//! Debouncing of mouse-button chatter.
//!
//! Worn mouse switches produce spurious rapid-fire transitions ("chatter"):
//! one physical press is seen by the operating system as several presses in
//! quick succession. This crate decides, for every raw button transition,
//! whether it is an authentic user action or chatter, by comparing the time
//! elapsed since the previous relevant transition of the same button against
//! a per-button threshold.
//!
//! The crate is organised around a few small pieces:
//!
//! - [`engine`]: the per-button timing state and the admit/suppress decision.
//! - [`hook`]: mapping of raw window messages to button transitions and the
//!   complete treatment of one low-level mouse-hook callback invocation.
//! - [`stats`]: counters of admitted and suppressed events and their
//!   fixed-point percentage report.
//! - [`logging`]: the typed values handed to a console sink, and the exact
//!   text each event and the current configuration render to.
//! - [`config`]: command-line splitting and threshold/keyword parsing.
//! - [`tray`]: the menu events of the tray front-end and the texts it shows.
//!
//! All decision logic is written against explicit state passed in by the
//! caller; reading the clock, installing the hook and writing to the console
//! are left to the embedding program.

pub mod config;
pub mod engine;
pub mod hook;
pub mod logging;
pub mod stats;
pub mod tray;
