//! A room of clients that share one small state.
//!
//! Each room owns the one authoritative copy of its state, takes updates
//! from any connected client, and tells every connected client of the
//! result.  This crate holds the room's decisions; reading requests, talking
//! to the durable store and sending on connections are the host's part.
//!
//! * [`sync`] — the room and its handlers;
//! * [`model`] — the room and its store as one value, and what holds of it;
//! * [`id_map`], [`keyed`] — maps keyed by client identifier;
//! * [`game_state`], [`attachment`], [`session`], [`error`] — the data;
//! * [`request`] — what is read from a request;
//! * [`oauth`], [`user`] — the settings and data of the login flow.

pub mod attachment;
pub mod error;
pub mod game_state;
pub mod id_map;
pub mod keyed;
pub mod model;
pub mod oauth;
pub mod request;
pub mod session;
pub mod sync;
pub mod user;

pub use sync::SillySync;
