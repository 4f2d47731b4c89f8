//! Addressing tokens for the sharded connection space.
//!
//! A `ProxyId` names one live proxy-to-simulation connection, a
//! `ConnectionId` one client stream behind such a proxy, and a `ChannelId`
//! one cluster-wide packet channel (an interest group of connections).
//! These are pure addressing tokens: construction performs no validation,
//! since validity is a property of the current connection table, not of the
//! value itself.

use vstd::prelude::*;

verus! {

/// A unique identifier for a proxy to game server connection.
#[derive(Copy, Clone, Debug, PartialEq, Eq, Hash, Structural)]
pub struct ProxyId {
    /// The underlying unique identifier for the proxy connection, unique
    /// among all proxies currently connected to the simulation process.
    pub proxy_id: u64,
}

impl ProxyId {
    /// Creates a new proxy ID with the specified proxy identifier.
    pub fn new(proxy_id: u64) -> (r: Self)
        ensures
            r.proxy_id == proxy_id,
    {
        Self { proxy_id }
    }

    /// Returns the underlying proxy identifier.
    pub fn inner(self) -> (r: u64)
        ensures
            r == self.proxy_id,
    {
        self.proxy_id
    }
}

/// A unique identifier for a client connection.
///
/// The stream identifier is unique only within its owning proxy; global
/// uniqueness requires the pair of stream id and proxy id.
#[derive(Copy, Clone, Debug, PartialEq, Eq, Hash, Structural)]
pub struct ConnectionId {
    /// The proxy-local identifier of this client stream.
    pub stream_id: u64,

    /// The proxy which this player connection is connected to.
    pub proxy_id: ProxyId,
}

impl ConnectionId {
    /// Creates a new connection ID from a stream identifier and the proxy
    /// that owns the stream.
    pub fn new(stream_id: u64, proxy_id: ProxyId) -> (r: Self)
        ensures
            r.stream_id == stream_id,
            r.proxy_id == proxy_id,
    {
        Self { stream_id, proxy_id }
    }

    /// Returns the proxy which this player connection is connected to.
    pub fn proxy_id(self) -> (r: ProxyId)
        ensures
            r == self.proxy_id,
    {
        self.proxy_id
    }

    /// Returns the underlying proxy-local stream identifier.
    pub fn inner(self) -> (r: u64)
        ensures
            r == self.stream_id,
    {
        self.stream_id
    }
}

/// A marker for an entity that acts as a packet channel.
#[derive(Copy, Clone, Debug)]
pub struct Channel;

/// A unique identifier for a channel. The server is responsible for
/// managing channel IDs.
#[derive(Copy, Clone, Debug, PartialEq, Eq, Hash, Structural)]
pub struct ChannelId {
    /// The underlying unique identifier for this channel.
    pub channel_id: u32,
}

impl ChannelId {
    /// Creates a new channel ID with the specified identifier.
    pub fn new(channel_id: u32) -> (r: Self)
        ensures
            r.channel_id == channel_id,
    {
        Self { channel_id }
    }

    /// Returns the underlying channel identifier.
    pub fn inner(self) -> (r: u32)
        ensures
            r == self.channel_id,
    {
        self.channel_id
    }
}

/// A coarse two-dimensional chunk coordinate, the addressing key of
/// spatially-scoped broadcasts. The locality rule around it is resolved by
/// the receiving proxy.
#[derive(Copy, Clone, Debug, PartialEq, Eq, Hash, Structural)]
pub struct ChunkPosition {
    /// The chunk column along the x axis.
    pub x: i16,
    /// The chunk column along the z axis.
    pub z: i16,
}

impl ChunkPosition {
    /// Creates a chunk position from its two coordinates.
    pub fn new(x: i16, z: i16) -> (r: Self)
        ensures
            r.x == x,
            r.z == z,
    {
        Self { x, z }
    }
}

} // verus!
