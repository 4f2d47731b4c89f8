//! The per-proxy transform: lowering one proxy-agnostic intent into the
//! zero-or-one wire message a given proxy should receive.
//!
//! Channel bookkeeping variants are sharding-invariant and lower
//! identically for every proxy. Variants that name connections filter each
//! reference against the target proxy: a reference owned by another proxy
//! is dropped. When a variant's sole addressing target filters to nothing
//! the whole message is withheld from that proxy; an exclusion that
//! filters to nothing merely degrades to "exclude nothing", since the rest
//! of the broadcast is still meaningful there.

use vstd::prelude::*;

use crate::identity::{ConnectionId, ProxyId};
use crate::intermediate::{IntermediateMsgView, IntermediateServerToProxyMessage};
use crate::wire;
use crate::wire::{ServerToProxyMessage, WireMsgView};

verus! {

/// How an exclusion lowers for one proxy: the proxy-local stream id if the
/// target proxy owns the excluded connection, and no exclusion otherwise.
pub open spec fn route_exclude(e: Option<ConnectionId>, p: ProxyId) -> Option<u64> {
    match e {
        Some(c) => if c.proxy_id == p {
            Some(c.stream_id)
        } else {
            None
        },
        None => None,
    }
}

/// How a list of connection references lowers for one proxy: the stream
/// ids of the references the target proxy owns, in their original order.
pub open spec fn route_streams(s: Seq<ConnectionId>, p: ProxyId) -> Seq<u64>
    decreases s.len(),
{
    if s.len() == 0 {
        Seq::empty()
    } else {
        let prefix = route_streams(s.drop_last(), p);
        if s.last().proxy_id == p {
            prefix.push(s.last().stream_id)
        } else {
            prefix
        }
    }
}

/// The wire message, if any, that one intermediate message becomes for
/// one target proxy. This is the defining model of
/// [`IntermediateServerToProxyMessage::transform_for_proxy`].
pub open spec fn transform_spec(m: IntermediateMsgView, p: ProxyId) -> Option<WireMsgView> {
    match m {
        IntermediateMsgView::UpdatePlayerPositions { stream, positions } => {
            Some(
                WireMsgView::UpdatePlayerPositions {
                    stream: route_streams(stream, p),
                    positions,
                },
            )
        },
        IntermediateMsgView::AddChannel { channel_id, unsubscribe_packets } => {
            Some(WireMsgView::AddChannel { channel_id, unsubscribe_packets })
        },
        IntermediateMsgView::UpdateChannelPositions { updates } => {
            Some(WireMsgView::UpdateChannelPositions { updates })
        },
        IntermediateMsgView::RemoveChannel { channel_id } => {
            Some(WireMsgView::RemoveChannel { channel_id })
        },
        IntermediateMsgView::SubscribeChannelPackets { channel_id, exclude, data } => {
            Some(
                WireMsgView::SubscribeChannelPackets {
                    channel_id,
                    exclude: route_exclude(exclude, p),
                    data,
                },
            )
        },
        IntermediateMsgView::BroadcastGlobal { exclude, data } => {
            Some(WireMsgView::BroadcastGlobal { exclude: route_exclude(exclude, p), data })
        },
        IntermediateMsgView::BroadcastLocal { center, exclude, data } => {
            Some(
                WireMsgView::BroadcastLocal {
                    center,
                    exclude: route_exclude(exclude, p),
                    data,
                },
            )
        },
        IntermediateMsgView::BroadcastChannel { channel_id, exclude, data } => {
            Some(
                WireMsgView::BroadcastChannel {
                    channel_id,
                    exclude: route_exclude(exclude, p),
                    data,
                },
            )
        },
        IntermediateMsgView::Unicast { stream, data } => {
            if stream.proxy_id == p {
                Some(WireMsgView::Unicast { stream: stream.stream_id, data })
            } else {
                None
            }
        },
        IntermediateMsgView::SetReceiveBroadcasts { stream } => {
            if stream.proxy_id == p {
                Some(WireMsgView::SetReceiveBroadcasts { stream: stream.stream_id })
            } else {
                None
            }
        },
        IntermediateMsgView::Shutdown { stream } => {
            if stream.proxy_id == p {
                Some(WireMsgView::Shutdown { stream: stream.stream_id })
            } else {
                None
            }
        },
    }
}

/// The view of an optional wire message.
pub open spec fn view_option(r: Option<ServerToProxyMessage>) -> Option<WireMsgView> {
    match r {
        Some(w) => Some(w@),
        None => None,
    }
}

/// Whether the transform of this message depends on the target proxy.
pub open spec fn sharding_sensitive(m: IntermediateMsgView) -> bool {
    match m {
        IntermediateMsgView::AddChannel { .. } => false,
        IntermediateMsgView::UpdateChannelPositions { .. } => false,
        IntermediateMsgView::RemoveChannel { .. } => false,
        _ => true,
    }
}

/// The sole addressing target of a message, for the variants that are
/// addressed to exactly one connection (as opposed to merely excluding
/// one).
pub open spec fn sole_target(m: IntermediateMsgView) -> Option<ConnectionId> {
    match m {
        IntermediateMsgView::Unicast { stream, .. } => Some(stream),
        IntermediateMsgView::SetReceiveBroadcasts { stream } => Some(stream),
        IntermediateMsgView::Shutdown { stream } => Some(stream),
        _ => None,
    }
}

/// The proxy-local stream a sole-target wire message addresses.
pub open spec fn wire_sole_stream(w: WireMsgView) -> Option<u64> {
    match w {
        WireMsgView::Unicast { stream, .. } => Some(stream),
        WireMsgView::SetReceiveBroadcasts { stream } => Some(stream),
        WireMsgView::Shutdown { stream } => Some(stream),
        _ => None,
    }
}

/// Whether the variant carries a per-broadcast exclusion.
pub open spec fn has_exclude(m: IntermediateMsgView) -> bool {
    match m {
        IntermediateMsgView::SubscribeChannelPackets { .. } => true,
        IntermediateMsgView::BroadcastGlobal { .. } => true,
        IntermediateMsgView::BroadcastLocal { .. } => true,
        IntermediateMsgView::BroadcastChannel { .. } => true,
        _ => false,
    }
}

/// The exclusion a variant carries, if the variant has one.
pub open spec fn exclude_of(m: IntermediateMsgView) -> Option<ConnectionId> {
    match m {
        IntermediateMsgView::SubscribeChannelPackets { exclude, .. } => exclude,
        IntermediateMsgView::BroadcastGlobal { exclude, .. } => exclude,
        IntermediateMsgView::BroadcastLocal { exclude, .. } => exclude,
        IntermediateMsgView::BroadcastChannel { exclude, .. } => exclude,
        _ => None,
    }
}

/// The same message with its exclusion replaced, for the variants that
/// carry one; other variants are unchanged.
pub open spec fn with_exclude(m: IntermediateMsgView, e: Option<ConnectionId>) -> IntermediateMsgView {
    match m {
        IntermediateMsgView::SubscribeChannelPackets { channel_id, data, .. } => {
            IntermediateMsgView::SubscribeChannelPackets { channel_id, exclude: e, data }
        },
        IntermediateMsgView::BroadcastGlobal { data, .. } => {
            IntermediateMsgView::BroadcastGlobal { exclude: e, data }
        },
        IntermediateMsgView::BroadcastLocal { center, data, .. } => {
            IntermediateMsgView::BroadcastLocal { center, exclude: e, data }
        },
        IntermediateMsgView::BroadcastChannel { channel_id, data, .. } => {
            IntermediateMsgView::BroadcastChannel { channel_id, exclude: e, data }
        },
        _ => m,
    }
}

/// Copies a vector of plain values.
fn copy_vec<T: Copy>(v: &Vec<T>) -> (r: Vec<T>)
    ensures
        r@ == v@,
{
    let mut r: Vec<T> = Vec::new();
    let mut i: usize = 0;
    while i < v.len()
        invariant
            i <= v.len(),
            r@ == v@.take(i as int),
        decreases v.len() - i,
    {
        r.push(v[i]);
        i = i + 1;
        assert(v@.take(i as int).drop_last() =~= v@.take(i - 1));
        assert(r@ =~= v@.take(i as int));
    }
    assert(v@.take(v@.len() as int) =~= v@);
    r
}

/// Lowers an optional exclusion for one target proxy.
fn filter_exclude(e: &Option<ConnectionId>, proxy_id: ProxyId) -> (r: Option<u64>)
    ensures
        r == route_exclude(*e, proxy_id),
{
    match e {
        Some(c) => {
            if c.proxy_id == proxy_id {
                Some(c.stream_id)
            } else {
                None
            }
        },
        None => None,
    }
}

/// Lowers a list of connection references for one target proxy, keeping
/// the streams that proxy owns in their original order.
fn filter_streams(s: &Vec<ConnectionId>, proxy_id: ProxyId) -> (r: Vec<u64>)
    ensures
        r@ == route_streams(s@, proxy_id),
{
    let mut r: Vec<u64> = Vec::new();
    let mut i: usize = 0;
    while i < s.len()
        invariant
            i <= s.len(),
            r@ == route_streams(s@.take(i as int), proxy_id),
        decreases s.len() - i,
    {
        let c = s[i];
        if c.proxy_id == proxy_id {
            r.push(c.stream_id);
        }
        i = i + 1;
        assert(s@.take(i as int).drop_last() =~= s@.take(i - 1));
        assert(s@.take(i as int).last() == s@[i - 1]);
    }
    assert(s@.take(s@.len() as int) =~= s@);
    r
}

impl IntermediateServerToProxyMessage {
    /// Whether the result of
    /// [`transform_for_proxy`](Self::transform_for_proxy) is affected by
    /// the proxy id provided.
    pub fn affected_by_proxy(&self) -> (r: bool)
        ensures
            r == sharding_sensitive(self@),
    {
        match self {
            Self::UpdatePlayerPositions(_)
            | Self::SubscribeChannelPackets(_)
            | Self::BroadcastGlobal(_)
            | Self::BroadcastLocal(_)
            | Self::BroadcastChannel(_)
            | Self::Unicast(_)
            | Self::SetReceiveBroadcasts(_)
            | Self::Shutdown(_) => true,
            Self::AddChannel(_) | Self::UpdateChannelPositions(_) | Self::RemoveChannel(_) => false,
        }
    }

    /// Transforms an intermediate message to a message suitable for
    /// sending to a particular proxy. Returns `None` if this message
    /// should not be sent to the proxy.
    pub fn transform_for_proxy(&self, proxy_id: ProxyId) -> (r: Option<ServerToProxyMessage>)
        ensures
            view_option(r) == transform_spec(self@, proxy_id),
    {
        match self {
            Self::UpdatePlayerPositions(message) => {
                Some(
                    ServerToProxyMessage::UpdatePlayerPositions(
                        wire::UpdatePlayerPositions {
                            stream: filter_streams(&message.stream, proxy_id),
                            positions: copy_vec(&message.positions),
                        },
                    ),
                )
            },
            Self::AddChannel(message) => {
                Some(
                    ServerToProxyMessage::AddChannel(
                        wire::AddChannel {
                            channel_id: message.channel_id,
                            unsubscribe_packets: copy_vec(&message.unsubscribe_packets),
                        },
                    ),
                )
            },
            Self::UpdateChannelPositions(message) => {
                Some(
                    ServerToProxyMessage::UpdateChannelPositions(
                        wire::UpdateChannelPositions { updates: copy_vec(&message.updates) },
                    ),
                )
            },
            Self::RemoveChannel(message) => {
                Some(
                    ServerToProxyMessage::RemoveChannel(
                        wire::RemoveChannel { channel_id: message.channel_id },
                    ),
                )
            },
            Self::SubscribeChannelPackets(message) => {
                Some(
                    ServerToProxyMessage::SubscribeChannelPackets(
                        wire::SubscribeChannelPackets {
                            channel_id: message.channel_id,
                            exclude: filter_exclude(&message.exclude, proxy_id),
                            data: copy_vec(&message.data),
                        },
                    ),
                )
            },
            Self::BroadcastGlobal(message) => {
                Some(
                    ServerToProxyMessage::BroadcastGlobal(
                        wire::BroadcastGlobal {
                            exclude: filter_exclude(&message.exclude, proxy_id),
                            data: copy_vec(&message.data),
                        },
                    ),
                )
            },
            Self::BroadcastLocal(message) => {
                Some(
                    ServerToProxyMessage::BroadcastLocal(
                        wire::BroadcastLocal {
                            center: message.center,
                            exclude: filter_exclude(&message.exclude, proxy_id),
                            data: copy_vec(&message.data),
                        },
                    ),
                )
            },
            Self::BroadcastChannel(message) => {
                Some(
                    ServerToProxyMessage::BroadcastChannel(
                        wire::BroadcastChannel {
                            channel_id: message.channel_id,
                            exclude: filter_exclude(&message.exclude, proxy_id),
                            data: copy_vec(&message.data),
                        },
                    ),
                )
            },
            Self::Unicast(message) => {
                if message.stream.proxy_id == proxy_id {
                    Some(
                        ServerToProxyMessage::Unicast(
                            wire::Unicast {
                                stream: message.stream.stream_id,
                                data: copy_vec(&message.data),
                            },
                        ),
                    )
                } else {
                    None
                }
            },
            Self::SetReceiveBroadcasts(message) => {
                if message.stream.proxy_id == proxy_id {
                    Some(
                        ServerToProxyMessage::SetReceiveBroadcasts(
                            wire::SetReceiveBroadcasts { stream: message.stream.stream_id },
                        ),
                    )
                } else {
                    None
                }
            },
            Self::Shutdown(message) => {
                if message.stream.proxy_id == proxy_id {
                    Some(
                        ServerToProxyMessage::Shutdown(
                            wire::Shutdown { stream: message.stream.stream_id },
                        ),
                    )
                } else {
                    None
                }
            },
        }
    }
}

/// A variant addressed solely to a connection of another proxy lowers to
/// nothing for that proxy: the proxy receives no message at all.
pub proof fn lemma_sole_target_other_proxy(m: IntermediateMsgView, c: ConnectionId, p: ProxyId)
    requires
        sole_target(m) == Some(c),
        c.proxy_id != p,
    ensures
        transform_spec(m, p) is None,
{
}

/// A variant addressed solely to a connection of the target proxy lowers
/// to a wire message addressing that connection's own stream id.
pub proof fn lemma_sole_target_owning_proxy(m: IntermediateMsgView, c: ConnectionId, p: ProxyId)
    requires
        sole_target(m) == Some(c),
        c.proxy_id == p,
    ensures
        transform_spec(m, p) matches Some(w) && wire_sole_stream(w) == Some(c.stream_id),
{
}

/// Exclusion filtering degrades gracefully: a broadcast excluding a
/// connection that the target proxy does not own lowers exactly as the
/// same broadcast with no exclusion at all.
pub proof fn lemma_exclude_unowned_is_no_exclude(
    m: IntermediateMsgView,
    c: ConnectionId,
    p: ProxyId,
)
    requires
        has_exclude(m),
        exclude_of(m) == Some(c),
        c.proxy_id != p,
    ensures
        transform_spec(m, p) == transform_spec(with_exclude(m, None), p),
{
}

/// A broadcast is delivered to every proxy whatever its exclusion: an
/// exclusion can narrow a broadcast's audience on one proxy, never
/// withhold the broadcast itself.
pub proof fn lemma_broadcast_always_delivered(m: IntermediateMsgView, p: ProxyId)
    requires
        has_exclude(m),
    ensures
        transform_spec(m, p) is Some,
{
}

/// The sharding-invariant variants lower identically for every proxy.
pub proof fn lemma_sharding_invariant(m: IntermediateMsgView, p1: ProxyId, p2: ProxyId)
    requires
        !sharding_sensitive(m),
    ensures
        transform_spec(m, p1) == transform_spec(m, p2),
        transform_spec(m, p1) is Some,
{
}

} // verus!
