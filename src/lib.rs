//! Per-class statistics and a separability score for each of the thirteen
//! attributes of a fixed-schema wine dataset.
//!
//! Every measurement is held as a whole number of thousandths, so means,
//! variances and mean spreads are exact rationals. Square roots and the final
//! ratio are left to the caller.

pub mod sample;
pub mod partition;
pub mod stats;
pub mod score;
pub mod report;
