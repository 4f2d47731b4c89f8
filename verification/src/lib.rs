//! Connection-routing and broadcast-fanout core of a sharded multiplayer
//! server: one simulation process feeds many proxy processes, each proxy
//! owning a subset of the client connections.
//!
//! The simulation expresses broadcast intents as proxy-agnostic
//! [`intermediate::IntermediateServerToProxyMessage`] values, accumulates
//! them for one tick in a [`buffer::OutgoingMessageBuffer`], and at flush
//! time lowers each intent once per connected proxy into the proxy-specific
//! [`wire::ServerToProxyMessage`] it should actually receive, filtering all
//! connection references down to the connections that proxy owns.

pub mod buffer;
pub mod entity;
pub mod flags;
pub mod gameplay;
pub mod identity;
pub mod intermediate;
pub mod item;
pub mod lifecycle;
pub mod lookup;
pub mod packet_state;
pub mod permission;
pub mod player;
pub mod proxy_table;
pub mod region;
pub mod scratch;
pub mod skin;
pub mod transform;
pub mod utils;
pub mod wire;
