//! Dead-time estimation for a trigger/readout buffer.
//!
//! A bounded event buffer with a single readout slot is driven one tick at a
//! time by a simulation loop: a Bernoulli trigger process injects events, a
//! fixed block interval throttles the trigger logic, and counters record how
//! many triggers were lost because the buffer was full or the trigger logic
//! was blocked. A sweep runs the simulation once per buffer capacity in a
//! requested range and reports the results in capacity order.

pub mod buffer;
mod rng;
pub mod sim;
pub mod sweep;
