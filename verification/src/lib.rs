//! Summation of IEEE-754 binary64 values, represented as bit patterns, with a
//! verified left-to-right fold, plus a fixed greeting.

pub mod greeting;
pub mod ieee;
pub mod summation;

pub use greeting::greet;
pub use summation::sum;
