//! Roster ingestion: turns rows of a membership workbook into canonical
//! attendee records and reconciles them into a roster keyed by member
//! identifier.

pub mod cell;
pub mod config;
pub mod date;
pub mod error;
pub mod import;
pub mod mapping;
pub mod normalize;
pub mod number;
pub mod pipeline;
pub mod record;
pub mod request;
pub mod schema;
pub mod store;
pub mod text;
pub mod upload;
pub mod validate;
pub mod workbook;
