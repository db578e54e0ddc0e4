//! A container that holds at most one value and hands it out exactly once.

pub mod one;
