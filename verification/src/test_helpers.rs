//! Shorthands for writing down what a log is expected to hold.

pub mod ops;
