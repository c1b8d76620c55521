//! A minimal probe of the local host: overall CPU utilisation between two
//! readings of the kernel's tick counters, and total and free memory as
//! human-readable gibibyte figures.
//!
//! The library holds the arithmetic and the decisions. Reading the counters
//! and waiting between two readings is left to the caller, who hands the
//! plain values in.

pub mod system;
