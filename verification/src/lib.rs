//! Decision logic of a terminal dashboard for workflow runs: the retry engine,
//! the request facade and the application state machine.

pub mod app;
pub mod auth;
pub mod clock;
pub mod event;
pub mod github;
pub mod models;
pub mod remote;
pub mod retry;
pub mod text;
pub mod ui;
