//! A small statistics toolkit: moments, covariance and correlation, the
//! least-squares line and its sums of squares, association matrices, the
//! z-test, row sampling and counting.
//!
//! Samples are binary64 values carried as their bit patterns (`u64`). What
//! can be read off the bits is decided here (`ieee`): which values are NaN,
//! which are zero, how two of them compare. The arithmetic itself is asked
//! of an arithmetic unit that the caller hands in (`arithmetic`), and every
//! statistic is stated, and proved, over the results of that unit.

pub mod ieee;
pub mod arithmetic;
pub mod arrays;
pub mod utilities;
pub mod simple_linear_regression;
pub mod counting;
pub mod hypothesis_testing;
pub mod sampling;
pub mod association_matrix;
