//! The legal research assistant: SEC filings, the Federal Register and case law.

pub mod definitions;
pub mod laws;
pub mod tools;
