//! Decode aviation weather reports (METAR observations and TAF forecasts)
//! from a JSON-like value tree into typed weather fields, and render each
//! field as a severity-coloured text fragment driven by configurable
//! thresholds.

pub mod span;
pub mod text;
pub mod config;
pub mod report;
pub mod time;
pub mod units;
pub mod wxcodes;
pub mod clouds;
pub mod metar;
pub mod taf;
pub mod laws;
