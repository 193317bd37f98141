//! State and display model of a terminal task-list manager.
//!
//! The state keeps an active and an archived list of tasks, the page that
//! is shown, a cursor into the shown list and a running flag. Every
//! operation is a total function of the state: on an empty list, a missing
//! selection or the wrong page it changes no list, and each one keeps the
//! cursor valid for the shown list.
pub mod app;
pub mod cursor;
pub mod models;
pub mod screen;
