//! What the library takes from its caller's configuration.

pub mod cli;
