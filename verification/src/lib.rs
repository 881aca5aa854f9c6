//! Pseudo-random output derived from two independent numeric processes: a
//! chaotic double pendulum whose physical parameters are drawn from a
//! 64-bit seed, and a deterministic bit-mixing expansion of a textual seed
//! into simulation parameters.
//!
//! The pendulum parameters, the seed expansion and everything computed
//! from a clock reading are verified here. The floating-point integrator
//! that consumes the parameters lives outside the library; the clocks are
//! external collaborators, trusted only for the shape of their readings.

pub mod clock;
pub mod pendulum;
pub mod seed_expand;
