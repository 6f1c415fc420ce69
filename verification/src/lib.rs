//! State-transition core of a terminal dashboard built on the
//! model-update-view pattern.
//!
//! The crate holds the application model, the translation of key presses into
//! intent messages, the reducer that applies a message to the model, the
//! decisions of the input multiplexer and of the main loop, the view model that
//! a painter draws, and the chart-of-accounts lookup tables. Terminal I/O,
//! threads and widget painting live with the program that uses the crate.

pub mod app_state;
pub mod chart_of_accounts;
pub mod connection_view;
pub mod dashboard;
pub mod error;
pub mod event;
pub mod key;
pub mod laws;
pub mod message;
pub mod status_bar;
pub mod text;
pub mod theme;
pub mod view;
