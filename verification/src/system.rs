//! The probe: its data in `structures`, the computations in `logic`, the
//! order of a CPU measurement's steps in `sampler`, and the text of a byte
//! count in `gibibytes`.

pub mod gibibytes;
pub mod logic;
pub mod sampler;
pub mod structures;
