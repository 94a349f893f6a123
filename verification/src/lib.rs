//! Chat with a meeting transcript: prompt building, server-sent-event
//! decoding, conversation shaping and per-meeting stream bookkeeping.
pub mod commands;
pub mod flow;
pub mod json;
pub mod lines;
pub mod prompt;
pub mod provider;
pub mod registry;
pub mod repository;
pub mod request;
pub mod sse;
pub mod stream;
pub mod text;
pub mod turns;
