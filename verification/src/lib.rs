//! An adapter between the cloud service of an inverter and Home Assistant: what it reads
//! from the service it publishes over MQTT, and what Home Assistant commands it writes back.
pub mod command;
pub mod config;
pub mod dashboard;
pub mod discovery;
pub mod double;
pub mod error;
pub mod http;
pub mod json;
pub mod laws;
pub mod model;
pub mod mqtt;
pub mod qcore;
pub mod schedule;
pub mod session;
pub mod stats;
pub mod text;
pub mod time;
