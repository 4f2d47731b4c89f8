//! The per-tick outgoing message buffer.
//!
//! Game logic enqueues proxy-agnostic intents during a simulation tick;
//! enqueueing never blocks and never fails. At flush time, once per tick,
//! every accumulated intent is lowered once per connected proxy and the
//! non-empty results are handed over for that proxy in enqueue order; the
//! pending sequence is then cleared. Proxies that disconnected between
//! enqueue and flush receive nothing, and nothing is retried.

use vstd::prelude::*;

use crate::identity::{ChannelId, ChunkPosition, ConnectionId, ProxyId};
use crate::intermediate::{
    BroadcastChannel, BroadcastGlobal, BroadcastLocal, IntermediateMsgView,
    IntermediateServerToProxyMessage, SetReceiveBroadcasts, Shutdown, SubscribeChannelPackets,
    Unicast, UpdatePlayerPositions,
};
use crate::proxy_table::ProxyTable;
use crate::transform::transform_spec;
use crate::wire::{ServerToProxyMessage, WireMsgView};

verus! {

/// The models of the wire messages held in a vector, in order.
pub open spec fn wire_views(v: Seq<ServerToProxyMessage>) -> Seq<WireMsgView> {
    v.map_values(|w: ServerToProxyMessage| w@)
}

/// What one proxy is owed from a pending sequence of intents: each intent
/// lowered for that proxy, the empty results dropped, in enqueue order.
pub open spec fn deliveries(pending: Seq<IntermediateMsgView>, p: ProxyId) -> Seq<WireMsgView>
    decreases pending.len(),
{
    if pending.len() == 0 {
        Seq::empty()
    } else {
        let prefix = deliveries(pending.drop_last(), p);
        match transform_spec(pending.last(), p) {
            Some(w) => prefix.push(w),
            None => prefix,
        }
    }
}

/// Deliveries distribute over concatenation of the pending sequence:
/// everything enqueued earlier is delivered before anything enqueued
/// later, for every proxy. This is the per-proxy ordering guarantee of
/// the buffer.
pub proof fn lemma_deliveries_append(s1: Seq<IntermediateMsgView>, s2: Seq<IntermediateMsgView>, p: ProxyId)
    ensures
        deliveries(s1 + s2, p) == deliveries(s1, p) + deliveries(s2, p),
    decreases s2.len(),
{
    if s2.len() == 0 {
        assert(s1 + s2 =~= s1);
        assert(deliveries(s1, p) + deliveries(s2, p) =~= deliveries(s1, p));
    } else {
        lemma_deliveries_append(s1, s2.drop_last(), p);
        assert((s1 + s2).drop_last() =~= s1 + s2.drop_last());
        assert((s1 + s2).last() == s2.last());
        match transform_spec(s2.last(), p) {
            Some(w) => {
                assert(deliveries(s1, p) + deliveries(s2.drop_last(), p).push(w) =~= (deliveries(
                    s1,
                    p,
                ) + deliveries(s2.drop_last(), p)).push(w));
            },
            None => {},
        }
    }
}

/// The wire messages one proxy receives from one flush, in the order they
/// are to be sent.
#[derive(Clone, Debug)]
pub struct ProxyBatch {
    /// The proxy these messages are for.
    pub proxy: ProxyId,
    /// Its messages, earliest enqueued first.
    pub messages: Vec<ServerToProxyMessage>,
}

/// The per-tick accumulator of outgoing intents.
#[derive(Debug)]
pub struct OutgoingMessageBuffer {
    pending: Vec<IntermediateServerToProxyMessage>,
}

impl View for OutgoingMessageBuffer {
    type V = Seq<IntermediateMsgView>;

    closed spec fn view(&self) -> Seq<IntermediateMsgView> {
        self.pending@.map_values(|m: IntermediateServerToProxyMessage| m@)
    }
}

impl OutgoingMessageBuffer {
    /// Creates an empty buffer.
    pub fn new() -> (r: Self)
        ensures
            r@ == Seq::<IntermediateMsgView>::empty(),
    {
        let r = Self { pending: Vec::new() };
        proof {
            assert(r@ =~= Seq::<IntermediateMsgView>::empty());
        }
        r
    }

    /// The number of intents accumulated so far this tick.
    pub fn pending_len(&self) -> (r: usize)
        ensures
            r == self@.len(),
    {
        self.pending.len()
    }

    /// Appends one intent to the pending sequence. Never blocks, never
    /// fails; bounded only by process memory.
    pub fn enqueue(&mut self, message: IntermediateServerToProxyMessage)
        ensures
            final(self)@ == old(self)@.push(message@),
    {
        let ghost m = message@;
        self.pending.push(message);
        proof {
            assert(final(self)@ =~= old(self)@.push(m));
        }
    }

    /// Enqueues a broadcast to every connection of every proxy, leaving
    /// out the excluded connection on the proxy that owns it.
    pub fn enqueue_global_broadcast(&mut self, data: Vec<u8>, exclude: Option<ConnectionId>)
        ensures
            final(self)@ == old(self)@.push(
                IntermediateMsgView::BroadcastGlobal { exclude, data: data@ },
            ),
    {
        self.enqueue(
            IntermediateServerToProxyMessage::BroadcastGlobal(BroadcastGlobal { exclude, data }),
        );
    }

    /// Enqueues a broadcast to the connections near a chunk position,
    /// leaving out the excluded connection on the proxy that owns it.
    pub fn enqueue_local_broadcast(
        &mut self,
        center: ChunkPosition,
        data: Vec<u8>,
        exclude: Option<ConnectionId>,
    )
        ensures
            final(self)@ == old(self)@.push(
                IntermediateMsgView::BroadcastLocal { center, exclude, data: data@ },
            ),
    {
        self.enqueue(
            IntermediateServerToProxyMessage::BroadcastLocal(
                BroadcastLocal { center, exclude, data },
            ),
        );
    }

    /// Enqueues a broadcast to the subscribers of one channel, leaving
    /// out the excluded connection on the proxy that owns it.
    pub fn enqueue_group_broadcast(
        &mut self,
        group_id: ChannelId,
        data: Vec<u8>,
        exclude: Option<ConnectionId>,
    )
        ensures
            final(self)@ == old(self)@.push(
                IntermediateMsgView::BroadcastChannel {
                    channel_id: group_id.channel_id,
                    exclude,
                    data: data@,
                },
            ),
    {
        self.enqueue(
            IntermediateServerToProxyMessage::BroadcastChannel(
                BroadcastChannel { channel_id: group_id.channel_id, exclude, data },
            ),
        );
    }

    /// Enqueues a payload for exactly one connection.
    pub fn enqueue_unicast(&mut self, connection_id: ConnectionId, data: Vec<u8>)
        ensures
            final(self)@ == old(self)@.push(
                IntermediateMsgView::Unicast { stream: connection_id, data: data@ },
            ),
    {
        self.enqueue(
            IntermediateServerToProxyMessage::Unicast(Unicast { stream: connection_id, data }),
        );
    }

    /// Enqueues a request to close one client connection.
    pub fn enqueue_shutdown(&mut self, connection_id: ConnectionId)
        ensures
            final(self)@ == old(self)@.push(
                IntermediateMsgView::Shutdown { stream: connection_id },
            ),
    {
        self.enqueue(
            IntermediateServerToProxyMessage::Shutdown(Shutdown { stream: connection_id }),
        );
    }

    /// Enqueues the marking of one connection as ready for broadcast
    /// traffic.
    pub fn enqueue_set_receive_global_broadcasts(&mut self, connection_id: ConnectionId)
        ensures
            final(self)@ == old(self)@.push(
                IntermediateMsgView::SetReceiveBroadcasts { stream: connection_id },
            ),
    {
        self.enqueue(
            IntermediateServerToProxyMessage::SetReceiveBroadcasts(
                SetReceiveBroadcasts { stream: connection_id },
            ),
        );
    }

    /// Enqueues the replay of a channel's packet backlog towards new
    /// subscribers, leaving out the connection the backlog describes.
    pub fn subscribe_group(
        &mut self,
        group_id: ChannelId,
        connection_id: Option<ConnectionId>,
        data: Vec<u8>,
    )
        ensures
            final(self)@ == old(self)@.push(
                IntermediateMsgView::SubscribeChannelPackets {
                    channel_id: group_id.channel_id,
                    exclude: connection_id,
                    data: data@,
                },
            ),
    {
        self.enqueue(
            IntermediateServerToProxyMessage::SubscribeChannelPackets(
                SubscribeChannelPackets {
                    channel_id: group_id.channel_id,
                    exclude: connection_id,
                    data,
                },
            ),
        );
    }

    /// Enqueues a batch of player chunk positions.
    pub fn enqueue_player_positions(
        &mut self,
        stream: Vec<ConnectionId>,
        positions: Vec<ChunkPosition>,
    )
        ensures
            final(self)@ == old(self)@.push(
                IntermediateMsgView::UpdatePlayerPositions {
                    stream: stream@,
                    positions: positions@,
                },
            ),
    {
        self.enqueue(
            IntermediateServerToProxyMessage::UpdatePlayerPositions(
                UpdatePlayerPositions { stream, positions },
            ),
        );
    }

    /// Lowers every pending intent for one proxy, in enqueue order,
    /// without consuming the pending sequence.
    fn collect_for_proxy(&self, proxy: ProxyId) -> (r: Vec<ServerToProxyMessage>)
        ensures
            wire_views(r@) == deliveries(self@, proxy),
    {
        let mut out: Vec<ServerToProxyMessage> = Vec::new();
        let mut j: usize = 0;
        while j < self.pending.len()
            invariant
                j <= self.pending@.len(),
                self@ == self.pending@.map_values(|m: IntermediateServerToProxyMessage| m@),
                wire_views(out@) == deliveries(self@.take(j as int), proxy),
            decreases self.pending@.len() - j,
        {
            let ghost before = out@;
            match self.pending[j].transform_for_proxy(proxy) {
                Some(w) => {
                    let ghost wv = w@;
                    out.push(w);
                    proof {
                        assert(wire_views(out@) =~= wire_views(before).push(wv));
                    }
                },
                None => {},
            }
            j = j + 1;
            proof {
                let taken = self@.take(j as int);
                assert(taken.drop_last() =~= self@.take(j - 1));
                assert(taken.last() == self@[j - 1]);
                assert(self@[j - 1] == self.pending@[j - 1]@);
            }
        }
        proof {
            assert(self@.take(self@.len() as int) =~= self@);
        }
        out
    }

    /// Flushes the tick: lowers every pending intent once per connected
    /// proxy, hands back one batch per proxy in table order with that
    /// proxy's messages in enqueue order, and clears the pending
    /// sequence. Proxies not in the table receive nothing.
    pub fn flush(&mut self, proxies: &ProxyTable) -> (r: Vec<ProxyBatch>)
        ensures
            final(self)@ == Seq::<IntermediateMsgView>::empty(),
            r@.len() == proxies@.len(),
            forall|i: int|
                0 <= i < r@.len() ==> (#[trigger] r@[i]).proxy == proxies@[i] && wire_views(
                    r@[i].messages@,
                ) == deliveries(old(self)@, proxies@[i]),
    {
        let mut r: Vec<ProxyBatch> = Vec::new();
        let mut i: usize = 0;
        while i < proxies.len()
            invariant
                i <= proxies@.len(),
                self == old(self),
                r@.len() == i,
                forall|k: int|
                    0 <= k < i ==> (#[trigger] r@[k]).proxy == proxies@[k] && wire_views(
                        r@[k].messages@,
                    ) == deliveries(old(self)@, proxies@[k]),
            decreases proxies@.len() - i,
        {
            let proxy = proxies.get(i);
            let messages = self.collect_for_proxy(proxy);
            r.push(ProxyBatch { proxy, messages });
            i = i + 1;
        }
        self.pending.clear();
        proof {
            assert(final(self)@ =~= Seq::<IntermediateMsgView>::empty());
        }
        r
    }
}

} // verus!
