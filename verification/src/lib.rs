//! A one-dimensional binary cellular automaton under elementary rule 110,
//! evolved over a fixed-length generation for a given number of rounds.
//!
//! The interior of a generation is recomputed each round from 3-bit
//! neighborhood codes; the two boundary cells are left dead by every round.
//! Three host-side backends — a sequential stepper over an explicit index
//! list, a data-parallel stepper over a thread pool, and a vector stepper
//! working in fixed-width batches with a scalar tail — are each proved to
//! return the same final generation, `run_spec` of the input, so their
//! results are identical by construction. A device-offloaded backend runs
//! the same rule outside the host and reports its failures through
//! [`device::DeviceError`].

pub mod device;
pub mod driver;
pub mod laws;
pub mod loader;
pub mod rule;
pub mod step;
