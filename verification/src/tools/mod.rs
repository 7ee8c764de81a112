//! Pieces of the diagnostic tools that do not touch the network.

pub mod discovery;
