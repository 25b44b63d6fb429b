//! The finance assistant: exchange rates and cryptocurrencies.

pub mod definitions;
pub mod laws;
pub mod tools;
