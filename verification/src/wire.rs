//! The proxy-specific wire messages produced by the per-proxy transform.
//!
//! Each variant mirrors an intermediate message minus the addressing a
//! proxy does not need: a connection owned by the target proxy is reduced
//! to its proxy-local stream id, and an exclusion not owned by the target
//! proxy degrades to no exclusion. Payload bytes pass through unmodified;
//! framing is the transport layer's concern.

use vstd::prelude::*;

use crate::identity::ChunkPosition;
use crate::intermediate::UpdateChannelPosition;

verus! {

/// Wire form of [`crate::intermediate::UpdatePlayerPositions`], reduced to
/// the target proxy's own streams.
#[derive(Clone, Debug, PartialEq, Eq)]
pub struct UpdatePlayerPositions {
    /// The proxy-local stream ids whose positions are reported, in step
    /// with `positions`.
    pub stream: Vec<u64>,
    /// The chunk position of each stream in `stream`.
    pub positions: Vec<ChunkPosition>,
}

/// Wire form of [`crate::intermediate::AddChannel`], identical for every
/// proxy.
#[derive(Clone, Debug, PartialEq, Eq)]
pub struct AddChannel {
    /// The identifier of the channel being created.
    pub channel_id: u32,
    /// Pre-encoded packets replayed to a client when it unsubscribes.
    pub unsubscribe_packets: Vec<u8>,
}

/// Wire form of [`crate::intermediate::UpdateChannelPositions`], identical
/// for every proxy.
#[derive(Clone, Debug, PartialEq, Eq)]
pub struct UpdateChannelPositions {
    /// One entry per moved channel.
    pub updates: Vec<UpdateChannelPosition>,
}

/// Wire form of [`crate::intermediate::RemoveChannel`], identical for
/// every proxy.
#[derive(Clone, Debug, PartialEq, Eq)]
pub struct RemoveChannel {
    /// The identifier of the channel being removed.
    pub channel_id: u32,
}

/// Wire form of [`crate::intermediate::SubscribeChannelPackets`].
#[derive(Clone, Debug, PartialEq, Eq)]
pub struct SubscribeChannelPackets {
    /// The channel whose backlog is replayed.
    pub channel_id: u32,
    /// The target proxy's own stream to leave out, if it owns one.
    pub exclude: Option<u64>,
    /// The pre-encoded snapshot to replay.
    pub data: Vec<u8>,
}

/// Wire form of [`crate::intermediate::BroadcastGlobal`].
#[derive(Clone, Debug, PartialEq, Eq)]
pub struct BroadcastGlobal {
    /// The target proxy's own stream to leave out, if it owns one.
    pub exclude: Option<u64>,
    /// The pre-encoded payload.
    pub data: Vec<u8>,
}

/// Wire form of [`crate::intermediate::BroadcastLocal`].
#[derive(Clone, Debug, PartialEq, Eq)]
pub struct BroadcastLocal {
    /// The centre of the broadcast.
    pub center: ChunkPosition,
    /// The target proxy's own stream to leave out, if it owns one.
    pub exclude: Option<u64>,
    /// The pre-encoded payload.
    pub data: Vec<u8>,
}

/// Wire form of [`crate::intermediate::BroadcastChannel`].
#[derive(Clone, Debug, PartialEq, Eq)]
pub struct BroadcastChannel {
    /// The channel whose subscribers are addressed.
    pub channel_id: u32,
    /// The target proxy's own stream to leave out, if it owns one.
    pub exclude: Option<u64>,
    /// The pre-encoded payload.
    pub data: Vec<u8>,
}

/// Wire form of [`crate::intermediate::Unicast`]: the connection is
/// reduced to the proxy-local stream id.
#[derive(Clone, Debug, PartialEq, Eq)]
pub struct Unicast {
    /// The addressed proxy-local stream.
    pub stream: u64,
    /// The pre-encoded payload.
    pub data: Vec<u8>,
}

/// Wire form of [`crate::intermediate::SetReceiveBroadcasts`].
#[derive(Clone, Debug, PartialEq, Eq)]
pub struct SetReceiveBroadcasts {
    /// The proxy-local stream to mark.
    pub stream: u64,
}

/// Wire form of [`crate::intermediate::Shutdown`]: a distinct variant of
/// its own, so a close request can never be mistaken for a broadcast-flag
/// change.
#[derive(Clone, Debug, PartialEq, Eq)]
pub struct Shutdown {
    /// The proxy-local stream to close.
    pub stream: u64,
}

/// A proxy-specific message ready to hand to that proxy's outbound
/// transport.
#[derive(Clone, Debug, PartialEq, Eq)]
pub enum ServerToProxyMessage {
    /// See [`UpdatePlayerPositions`].
    UpdatePlayerPositions(UpdatePlayerPositions),
    /// See [`AddChannel`].
    AddChannel(AddChannel),
    /// See [`UpdateChannelPositions`].
    UpdateChannelPositions(UpdateChannelPositions),
    /// See [`RemoveChannel`].
    RemoveChannel(RemoveChannel),
    /// See [`SubscribeChannelPackets`].
    SubscribeChannelPackets(SubscribeChannelPackets),
    /// See [`BroadcastGlobal`].
    BroadcastGlobal(BroadcastGlobal),
    /// See [`BroadcastLocal`].
    BroadcastLocal(BroadcastLocal),
    /// See [`BroadcastChannel`].
    BroadcastChannel(BroadcastChannel),
    /// See [`Unicast`].
    Unicast(Unicast),
    /// See [`SetReceiveBroadcasts`].
    SetReceiveBroadcasts(SetReceiveBroadcasts),
    /// See [`Shutdown`].
    Shutdown(Shutdown),
}

/// The mathematical model of one wire message: the same variants over
/// sequences instead of vectors.
pub ghost enum WireMsgView {
    /// Models [`UpdatePlayerPositions`].
    UpdatePlayerPositions { stream: Seq<u64>, positions: Seq<ChunkPosition> },
    /// Models [`AddChannel`].
    AddChannel { channel_id: u32, unsubscribe_packets: Seq<u8> },
    /// Models [`UpdateChannelPositions`].
    UpdateChannelPositions { updates: Seq<UpdateChannelPosition> },
    /// Models [`RemoveChannel`].
    RemoveChannel { channel_id: u32 },
    /// Models [`SubscribeChannelPackets`].
    SubscribeChannelPackets { channel_id: u32, exclude: Option<u64>, data: Seq<u8> },
    /// Models [`BroadcastGlobal`].
    BroadcastGlobal { exclude: Option<u64>, data: Seq<u8> },
    /// Models [`BroadcastLocal`].
    BroadcastLocal { center: ChunkPosition, exclude: Option<u64>, data: Seq<u8> },
    /// Models [`BroadcastChannel`].
    BroadcastChannel { channel_id: u32, exclude: Option<u64>, data: Seq<u8> },
    /// Models [`Unicast`].
    Unicast { stream: u64, data: Seq<u8> },
    /// Models [`SetReceiveBroadcasts`].
    SetReceiveBroadcasts { stream: u64 },
    /// Models [`Shutdown`].
    Shutdown { stream: u64 },
}

impl View for ServerToProxyMessage {
    type V = WireMsgView;

    open spec fn view(&self) -> WireMsgView {
        match self {
            ServerToProxyMessage::UpdatePlayerPositions(m) => {
                WireMsgView::UpdatePlayerPositions { stream: m.stream@, positions: m.positions@ }
            },
            ServerToProxyMessage::AddChannel(m) => {
                WireMsgView::AddChannel {
                    channel_id: m.channel_id,
                    unsubscribe_packets: m.unsubscribe_packets@,
                }
            },
            ServerToProxyMessage::UpdateChannelPositions(m) => {
                WireMsgView::UpdateChannelPositions { updates: m.updates@ }
            },
            ServerToProxyMessage::RemoveChannel(m) => {
                WireMsgView::RemoveChannel { channel_id: m.channel_id }
            },
            ServerToProxyMessage::SubscribeChannelPackets(m) => {
                WireMsgView::SubscribeChannelPackets {
                    channel_id: m.channel_id,
                    exclude: m.exclude,
                    data: m.data@,
                }
            },
            ServerToProxyMessage::BroadcastGlobal(m) => {
                WireMsgView::BroadcastGlobal { exclude: m.exclude, data: m.data@ }
            },
            ServerToProxyMessage::BroadcastLocal(m) => {
                WireMsgView::BroadcastLocal { center: m.center, exclude: m.exclude, data: m.data@ }
            },
            ServerToProxyMessage::BroadcastChannel(m) => {
                WireMsgView::BroadcastChannel {
                    channel_id: m.channel_id,
                    exclude: m.exclude,
                    data: m.data@,
                }
            },
            ServerToProxyMessage::Unicast(m) => {
                WireMsgView::Unicast { stream: m.stream, data: m.data@ }
            },
            ServerToProxyMessage::SetReceiveBroadcasts(m) => {
                WireMsgView::SetReceiveBroadcasts { stream: m.stream }
            },
            ServerToProxyMessage::Shutdown(m) => {
                WireMsgView::Shutdown { stream: m.stream }
            },
        }
    }
}

} // verus!
