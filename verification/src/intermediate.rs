//! The proxy-agnostic vocabulary of broadcast and routing intents.
//!
//! Each variant carries its addressing metadata and an already-encoded
//! payload that this layer treats as opaque bytes. An intermediate message
//! is produced within one simulation tick, enqueued into the outgoing
//! buffer, lowered once per connected proxy at flush time, and then
//! dropped.

use vstd::prelude::*;

use crate::identity::{ChunkPosition, ConnectionId};

verus! {

/// A batch of player chunk positions, addressed to the owning proxies of
/// the listed connections.
#[derive(Clone, Debug, PartialEq, Eq)]
pub struct UpdatePlayerPositions {
    /// The connections whose positions are reported, in step with
    /// `positions`.
    pub stream: Vec<ConnectionId>,
    /// The chunk position of each connection in `stream`.
    pub positions: Vec<ChunkPosition>,
}

/// Announces a new channel together with the packet bytes a proxy should
/// replay to evict stale subscribers of the channel.
#[derive(Clone, Debug, PartialEq, Eq)]
pub struct AddChannel {
    /// The identifier of the channel being created.
    pub channel_id: u32,
    /// Pre-encoded packets sent to a client when it unsubscribes from the
    /// channel.
    pub unsubscribe_packets: Vec<u8>,
}

/// One channel's new coarse position.
#[derive(Copy, Clone, Debug, PartialEq, Eq, Structural)]
pub struct UpdateChannelPosition {
    /// The channel that moved.
    pub channel_id: u32,
    /// Its new chunk position.
    pub position: ChunkPosition,
}

/// A batched position update covering every channel that moved this tick.
#[derive(Clone, Debug, PartialEq, Eq)]
pub struct UpdateChannelPositions {
    /// One entry per moved channel.
    pub updates: Vec<UpdateChannelPosition>,
}

/// Retires a channel cluster-wide.
#[derive(Clone, Debug, PartialEq, Eq)]
pub struct RemoveChannel {
    /// The identifier of the channel being removed.
    pub channel_id: u32,
}

/// Replays a channel's current packet backlog to new subscribers, leaving
/// out the excluded connection if its proxy owns it.
#[derive(Clone, Debug, PartialEq, Eq)]
pub struct SubscribeChannelPackets {
    /// The channel whose backlog is replayed.
    pub channel_id: u32,
    /// The connection the replayed packets describe, which must not
    /// receive them itself.
    pub exclude: Option<ConnectionId>,
    /// The pre-encoded snapshot to replay.
    pub data: Vec<u8>,
}

/// Marks a connection as ready to receive broadcast traffic.
#[derive(Clone, Debug, PartialEq, Eq)]
pub struct SetReceiveBroadcasts {
    /// The connection to mark.
    pub stream: ConnectionId,
}

/// A broadcast to every connection of every proxy.
#[derive(Clone, Debug, PartialEq, Eq)]
pub struct BroadcastGlobal {
    /// A connection that must not receive the payload, if any.
    pub exclude: Option<ConnectionId>,
    /// The pre-encoded payload.
    pub data: Vec<u8>,
}

/// A broadcast to the connections near a coarse chunk position; the
/// locality rule is resolved by each proxy.
#[derive(Clone, Debug, PartialEq, Eq)]
pub struct BroadcastLocal {
    /// The centre of the broadcast.
    pub center: ChunkPosition,
    /// A connection that must not receive the payload, if any.
    pub exclude: Option<ConnectionId>,
    /// The pre-encoded payload.
    pub data: Vec<u8>,
}

/// A broadcast to the subscribers of one channel.
#[derive(Clone, Debug, PartialEq, Eq)]
pub struct BroadcastChannel {
    /// The channel whose subscribers are addressed.
    pub channel_id: u32,
    /// A connection that must not receive the payload, if any.
    pub exclude: Option<ConnectionId>,
    /// The pre-encoded payload.
    pub data: Vec<u8>,
}

/// A payload for exactly one connection.
#[derive(Clone, Debug, PartialEq, Eq)]
pub struct Unicast {
    /// The addressed connection.
    pub stream: ConnectionId,
    /// The pre-encoded payload.
    pub data: Vec<u8>,
}

/// Asks the owning proxy to close one client connection.
#[derive(Clone, Debug, PartialEq, Eq)]
pub struct Shutdown {
    /// The connection to close.
    pub stream: ConnectionId,
}

/// A proxy-agnostic broadcast or routing intent produced by the
/// simulation, lowered per proxy by
/// [`transform_for_proxy`](IntermediateServerToProxyMessage::transform_for_proxy).
#[derive(Clone, Debug, PartialEq, Eq)]
pub enum IntermediateServerToProxyMessage {
    /// See [`UpdatePlayerPositions`].
    UpdatePlayerPositions(UpdatePlayerPositions),
    /// See [`AddChannel`].
    AddChannel(AddChannel),
    /// See [`UpdateChannelPositions`].
    UpdateChannelPositions(UpdateChannelPositions),
    /// See [`RemoveChannel`].
    RemoveChannel(RemoveChannel),
    /// See [`SubscribeChannelPackets`].
    SubscribeChannelPackets(SubscribeChannelPackets),
    /// See [`BroadcastGlobal`].
    BroadcastGlobal(BroadcastGlobal),
    /// See [`BroadcastLocal`].
    BroadcastLocal(BroadcastLocal),
    /// See [`BroadcastChannel`].
    BroadcastChannel(BroadcastChannel),
    /// See [`Unicast`].
    Unicast(Unicast),
    /// See [`SetReceiveBroadcasts`].
    SetReceiveBroadcasts(SetReceiveBroadcasts),
    /// See [`Shutdown`].
    Shutdown(Shutdown),
}

/// The mathematical model of one intermediate message: the same variants
/// over sequences instead of vectors.
pub ghost enum IntermediateMsgView {
    /// Models [`UpdatePlayerPositions`].
    UpdatePlayerPositions { stream: Seq<ConnectionId>, positions: Seq<ChunkPosition> },
    /// Models [`AddChannel`].
    AddChannel { channel_id: u32, unsubscribe_packets: Seq<u8> },
    /// Models [`UpdateChannelPositions`].
    UpdateChannelPositions { updates: Seq<UpdateChannelPosition> },
    /// Models [`RemoveChannel`].
    RemoveChannel { channel_id: u32 },
    /// Models [`SubscribeChannelPackets`].
    SubscribeChannelPackets { channel_id: u32, exclude: Option<ConnectionId>, data: Seq<u8> },
    /// Models [`BroadcastGlobal`].
    BroadcastGlobal { exclude: Option<ConnectionId>, data: Seq<u8> },
    /// Models [`BroadcastLocal`].
    BroadcastLocal { center: ChunkPosition, exclude: Option<ConnectionId>, data: Seq<u8> },
    /// Models [`BroadcastChannel`].
    BroadcastChannel { channel_id: u32, exclude: Option<ConnectionId>, data: Seq<u8> },
    /// Models [`Unicast`].
    Unicast { stream: ConnectionId, data: Seq<u8> },
    /// Models [`SetReceiveBroadcasts`].
    SetReceiveBroadcasts { stream: ConnectionId },
    /// Models [`Shutdown`].
    Shutdown { stream: ConnectionId },
}

impl View for IntermediateServerToProxyMessage {
    type V = IntermediateMsgView;

    open spec fn view(&self) -> IntermediateMsgView {
        match self {
            IntermediateServerToProxyMessage::UpdatePlayerPositions(m) => {
                IntermediateMsgView::UpdatePlayerPositions {
                    stream: m.stream@,
                    positions: m.positions@,
                }
            },
            IntermediateServerToProxyMessage::AddChannel(m) => {
                IntermediateMsgView::AddChannel {
                    channel_id: m.channel_id,
                    unsubscribe_packets: m.unsubscribe_packets@,
                }
            },
            IntermediateServerToProxyMessage::UpdateChannelPositions(m) => {
                IntermediateMsgView::UpdateChannelPositions { updates: m.updates@ }
            },
            IntermediateServerToProxyMessage::RemoveChannel(m) => {
                IntermediateMsgView::RemoveChannel { channel_id: m.channel_id }
            },
            IntermediateServerToProxyMessage::SubscribeChannelPackets(m) => {
                IntermediateMsgView::SubscribeChannelPackets {
                    channel_id: m.channel_id,
                    exclude: m.exclude,
                    data: m.data@,
                }
            },
            IntermediateServerToProxyMessage::BroadcastGlobal(m) => {
                IntermediateMsgView::BroadcastGlobal { exclude: m.exclude, data: m.data@ }
            },
            IntermediateServerToProxyMessage::BroadcastLocal(m) => {
                IntermediateMsgView::BroadcastLocal {
                    center: m.center,
                    exclude: m.exclude,
                    data: m.data@,
                }
            },
            IntermediateServerToProxyMessage::BroadcastChannel(m) => {
                IntermediateMsgView::BroadcastChannel {
                    channel_id: m.channel_id,
                    exclude: m.exclude,
                    data: m.data@,
                }
            },
            IntermediateServerToProxyMessage::Unicast(m) => {
                IntermediateMsgView::Unicast { stream: m.stream, data: m.data@ }
            },
            IntermediateServerToProxyMessage::SetReceiveBroadcasts(m) => {
                IntermediateMsgView::SetReceiveBroadcasts { stream: m.stream }
            },
            IntermediateServerToProxyMessage::Shutdown(m) => {
                IntermediateMsgView::Shutdown { stream: m.stream }
            },
        }
    }
}

} // verus!
