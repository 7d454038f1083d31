//! Forecast tables of a weather page, read into typed per-hour records.

pub mod date;
pub mod field;
pub mod markup;
pub mod scrape;
pub mod table;
pub mod text;
pub mod weather;
