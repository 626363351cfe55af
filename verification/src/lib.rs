//! Core logic of a small chat-platform bot: command-set reconciliation,
//! the pin/unpin action state machine, module aggregation, and reply
//! formatting. All network traffic is performed by the surrounding
//! application; this crate computes every decision those calls depend on.

pub mod command;
pub mod dispatch;
pub mod pin;
pub mod reconcile;
pub mod registry;
pub mod reply;
pub mod text;
