//! Verified core of a small fan-control daemon.
//!
//! The daemon polls a thermal-zone file, compares the reading against a
//! configured threshold, and drives one GPIO line high (fan on) or low
//! (fan off), sleeping between polls. This crate holds the verified logic:
//! parsing the sensor text, loading and merging the configuration, and the
//! per-cycle decision. The surrounding process does the actual file, GPIO
//! and timer work and feeds plain values in and out.

pub mod control;
pub mod error;
pub mod override_file;
pub mod settings;
pub mod text;
