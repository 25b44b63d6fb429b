//! The documentation assistant: library lookups across crates.io, npm, PyPI, GitHub and the web.

pub mod agent;
pub mod definitions;
pub mod laws;
pub mod tools;
