//! The infrastructure assistant: it streams its answers as the model writes them.

pub mod agent;
pub mod laws;
pub mod reception;
pub mod stream;
