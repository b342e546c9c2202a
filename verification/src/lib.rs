//! Control core of an affine-scaling (Karmarkar-style) linear optimizer.
//!
//! The numeric work of each iteration — slacks, diagonal rescaling, the
//! scaled Gram matrix and its pseudo-inverse, the ascent direction, the
//! ratio test and the damped step — is performed by an unverified driver
//! holding a dense linear-algebra backend. This crate owns everything that
//! can be decided without floating-point values: the order of those
//! pipeline stages, the termination and failure rules, and the iteration
//! budget. The driver reports what each stage observed; the machine here
//! answers with the next stage to run or with the final outcome.

pub mod solver;
pub mod trace;
