//! Decision logic of a desktop shell that wraps a single hosted web
//! application in a native window.
//!
//! The crate holds no I/O. Each module is a set of pure decisions over plain
//! values, with contracts that pin the result down:
//!
//! - [`pattern`]: URL patterns and how they match.
//! - [`detector`]: page-state detection and the one-shot redirect.
//! - [`scheduler`]: the coordinator that decides when detection runs again.
//! - [`watchdog`]: detector and scheduler of one window, kept together.
//! - [`shell`]: window, tray and page-request decisions.
//! - [`updater`]: the update flow as a state machine.

pub mod detector;
pub mod pattern;
pub mod scheduler;
pub mod shell;
pub mod updater;
pub mod watchdog;
