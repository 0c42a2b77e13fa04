//! Data carried by the demultiplexer filter calls.

pub mod data;
