//! Download-and-cache core of a model installer: a fixed catalog of models,
//! interpretation of metadata probes into content identifiers, the layout of a
//! shared content-addressed cache, and the install state machine that decides,
//! event by event, what to probe, fetch, store and link.
pub mod cache;
pub mod catalog;
pub mod command;
pub mod error;
pub mod guarantees;
pub mod install;
pub mod probe;
