//! The operations assistant: repositories, build runs, images, endpoints and the web.

pub mod definitions;
pub mod laws;
pub mod tools;
