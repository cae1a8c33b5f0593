//! A verified parser for systemd-style unit files.
//!
//! The library turns the raw lines of a unit file into a strongly typed
//! record: it classifies lines, merges backslash continuations, tracks the
//! active segment, dispatches `Key=Value` attributes, and interprets byte
//! and duration quantities.  Every public function carries a contract that
//! pins its result to a mathematical model of the file format.

pub mod text;
pub mod unit;
pub mod tables;
pub mod quantity;
pub mod scan;
pub mod parse;
pub mod laws;
