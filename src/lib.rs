//! Data model of a client for a message broker's HTTP administration API:
//! the payloads that declare queues, exchanges, policies and other
//! resources, and the typed entities parsed from what the broker reports.
pub mod commons;
pub mod json;
pub mod requests;
pub mod fields;
pub mod responses;
