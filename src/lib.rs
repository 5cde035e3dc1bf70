//! The decisions of a desktop application shell, as verified state machines.
//!
//! - `platform`: which visual effect each platform family gets, and the
//!   message with which a refused effect stops the process.
//! - `setup`: the start-up sequence (register the self-update capability on
//!   desktop targets, find the main window, apply the effect), driven by the
//!   events that the application framework reports.
//! - `update`: the self-update flow (check, download with a running byte
//!   count, install, restart), with no retry after an error.
//! - `report`: the console lines that the update flow prints.
//!
//! The framework calls themselves (windows, plugins, the update service)
//! are made by the caller, which hands each outcome back as an event.
pub mod platform;
pub mod report;
pub mod setup;
pub mod update;
