//! Output routing synchronization engine for an audio session graph.
//!
//! The library tracks which endpoint a session treats as the default for a
//! direction, an optional per-stream explicit routing override published
//! through shared key/value metadata, and the ordered set of endpoints that
//! currently exist.  It resolves the three into one effective route and keeps
//! a user-facing selector control consistent with that route while the user
//! may also write to the selector, without producing update feedback loops.
//!
//! Modules, leaves first:
//! - [`text`]: decimal parsing/rendering and the `target.` key-namespace match;
//! - [`registry`]: the ordered endpoint collection with id/position lookups;
//! - [`tracker`]: the current default endpoint id for a direction;
//! - [`overrides`]: the per-stream explicit routing override store;
//! - [`resolver`]: the pure combination of the three into an effective route;
//! - [`controller`]: the reactive selector synchronization state machine;
//! - [`toggle`]: the guarded default-endpoint toggle synchronization.

pub mod controller;
pub mod overrides;
pub mod registry;
pub mod resolver;
pub mod text;
pub mod toggle;
pub mod tracker;
