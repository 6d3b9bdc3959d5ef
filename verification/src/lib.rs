//! Client-side request pipeline for a hosted text-generation service:
//! bounded sampling parameters, engine definitions, the completion request
//! builder and the state machine behind a streamed completion.

pub mod actions;
pub mod args;
pub mod completion;
pub mod config;
pub mod engine;
pub mod framing;
pub mod number;
pub mod parameters;
pub mod stream;
pub mod style;
pub mod text;
pub mod textsynth;
