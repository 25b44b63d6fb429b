//! What the agents share: the events they report, their settings, and the tool-calling talk with
//! a model.

pub mod card;
pub mod chat;
pub mod events;
pub mod laws;
pub mod preview;
pub mod talk;
pub mod talk_laws;
