//! What holds of the adapter as a whole.
pub mod chart;
pub mod command;
pub mod config;
pub mod dashboard;
pub mod discovery;
pub mod document;
pub mod key;
pub mod number;
pub mod operation;
pub mod publisher;
pub mod schedule;
pub mod service;
pub mod session;
pub mod stats;
pub mod text;
pub mod view;
