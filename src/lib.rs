//! Coordination engine for shared buzzer rooms.
//!
//! A room has members identified by name, one host, and a single buzzer slot
//! that the first claimant holds until the host frees it. Every change of a
//! room yields exactly one event describing the state after the change, which
//! the embedding server fans out to every connected session of that room.
pub mod api;
pub mod websocket;
pub mod rooms;
pub mod registry;
pub mod session;
pub mod auth;
pub mod components;
