//! A minimal actor runtime: independent units of sequential computation,
//! each owning private state, communicating only through asynchronous
//! messages delivered to a per-actor mailbox.
//!
//! The heart of the crate is the verified lifecycle state machine of a
//! script driver ([`actors::driver`]): how an actor buffers input before
//! activation, switches between active and paused processing, drains its
//! mailbox on shutdown, and stops at once when its script signals
//! completion. The mailbox itself is the standard multi-producer,
//! single-consumer channel, taken as given behind a small trusted boundary
//! ([`channel`] wrappers); threads that host drivers are the embedding
//! program's business, not this library's.

mod channel;

pub mod actors;
pub mod types;

pub use actors::Actor;
pub use actors::ActorFinished;
pub use actors::ActorResult;
pub use actors::Direction;
pub use actors::Message;
pub use actors::Null;
pub use actors::cast;
pub use actors::cast_loop;
pub use actors::cast_mut;
pub use actors::curtain_call;
pub use actors::from_the_top;
pub use actors::driver::Driver;
pub use actors::driver::DriverView;
pub use actors::driver::Script;
pub use actors::loop_driver::LoopDriver;
pub use actors::loop_driver::LoopScript;
pub use actors::understudy::ReadError;
pub use actors::understudy::Understudy;
