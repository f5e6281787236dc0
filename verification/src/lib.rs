//! Verified core of an ingestion engine for economic-calendar events.

pub mod text;
pub mod time;
pub mod error;
pub mod models;
pub mod questdb;
pub mod fxstreet;
pub mod backfill;
pub mod webhook;

