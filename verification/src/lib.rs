//! The logic of a family of agents that answer questions with the help of a language model and
//! tools: a coding agent, a documentation assistant, an infrastructure manager, a watcher of
//! repositories, and the lookup tools of legal, research, finance and operations assistants.
//!
//! Nothing here talks to the network, to the file system or to a clock. What an agent wants done
//! is handed out as a value, and what came back is handed in: a tool call is carried on from the
//! replies so far, a talk with a model from one turn to the next.

use vstd::prelude::*;

pub mod agent;
pub mod coding;
pub mod devops;
pub mod docs;
pub mod finance;
pub mod http;
pub mod infra;
pub mod json;
pub mod legal;
pub mod paper;
pub mod repo_watch;
pub mod schema;
pub mod telemetry;
pub mod text;
pub mod web;

verus! {

} // verus!
