//! A tick-driven grid world in which a single tool-using agent executes
//! validated movement sequences through an event scheduler.
//!
//! The crate is organised around the flow of a tool call: a streamed model
//! round is accumulated (`openrouter`), validated into typed actions
//! (`agent`), scheduled as timed events (`events`), executed step by step
//! against the map (`map`) by the tick driver (`driver`), and resolved back
//! into one tool result per call (`tool_execution`).

pub mod agent;
pub mod driver;
pub mod events;
pub mod textfmt;
pub mod tool_execution;
pub mod tools;
pub mod editor;
pub mod map;
pub mod map_type;
pub mod openrouter;
