//! Dispatch core of a chat-bot command framework: prefix resolution,
//! command tree lookup, dispatch policy, and edit tracking.
pub mod dispatch;
pub mod laws;
pub mod pattern;
pub mod resolver;
pub mod structs;
pub mod text;
pub mod tracker;
pub mod tree;
