//! Control plane for geographic search indexes.
//!
//! Each index is driven by a finite state machine from `NotAvailable` to
//! `Available`. The machine's transitions, the choice of the job that every
//! state calls for, the messages that announce each new state and the
//! listener that mirrors them into the index record are stated here over
//! mathematical models and proved.
pub mod time;
pub mod text;
pub mod error;
pub mod settings;
pub mod init;
pub mod address;
pub mod json;
pub mod db;
pub mod fsm;
pub mod api;
