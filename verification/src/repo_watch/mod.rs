//! The repo-watch agent: it reports on what has happened in GitHub repositories.

pub mod agent;
pub mod commits;
pub mod files;
pub mod github;
pub mod laws;
pub mod messages;
pub mod prompt;
pub mod report_laws;
pub mod schedule;
pub mod slack;
pub mod surveys;
pub mod talk_laws;
