//! Decision logic of a throughput and memory benchmark for concurrent maps
//! under three memory-reclamation disciplines (none, EBR and PEBR).
use vstd::prelude::*;

pub mod config;
pub mod memory;
pub mod prefill;
pub mod report;
pub mod schedule;
pub mod workload;
