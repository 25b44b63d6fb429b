//! The coding agent: it reads, edits, searches and tests code, all confined to a workspace.

pub mod agent;
pub mod definitions;
pub mod laws;
pub mod project;
pub mod quoting;
pub mod sandbox;
pub mod tools;
