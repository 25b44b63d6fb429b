//! The research paper assistant: arXiv, Semantic Scholar and Wikipedia.

pub mod definitions;
pub mod feed;
pub mod laws;
pub mod tools;
