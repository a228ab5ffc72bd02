//! Core of a terminal dashboard that tracks the health of source-code
//! repositories: a progressive two-phase loading pipeline, a message
//! protocol between background producers and the interactive state owner,
//! a per-view-mode cache, and navigation over the resulting list.
//!
//! Everything here is pure with respect to the outside world: network
//! fetching, terminal handling and rendering live in the surrounding
//! binary, which feeds this library plain values (timestamps as seconds,
//! fetched payloads as library types) and carries out the fetch actions
//! the state machine asks for.

pub mod models;
pub mod text;
pub mod messages;
pub mod cache;
pub mod state;
pub mod pipeline;
pub mod github;
pub mod events;
pub mod laws;
