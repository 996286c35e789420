//! Decision layer of a river and weather monitoring service.
//!
//! Readings from gauge, reservoir and weather providers are judged here: is a
//! reading fresh enough to trust, which hazard level has it reached, what kind
//! of failure does an error text describe, and how healthy is each configured
//! source. Every function carries a contract that Verus proves.

pub mod alert;
pub mod dev_mode;
pub mod ingest;
pub mod logging;
pub mod model;
pub mod stations;
pub mod text;
pub mod time;
pub mod verify;
