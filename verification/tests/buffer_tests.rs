use hyperion::buffer::OutgoingMessageBuffer;
use hyperion::identity::{ChannelId, ConnectionId, ProxyId};
use hyperion::proxy_table::ProxyTable;
use hyperion::wire::ServerToProxyMessage;

fn conn(stream: u64, proxy: u64) -> ConnectionId {
    ConnectionId::new(stream, ProxyId::new(proxy))
}

/// Proxy A owns streams 1 and 2, proxy B owns stream 3; a global
/// broadcast excluding stream 2 reaches A with the exclusion and B
/// without one.
#[test]
fn global_broadcast_excludes_only_on_the_owning_proxy() {
    let proxy_a = ProxyId::new(10);
    let proxy_b = ProxyId::new(20);
    let mut table = ProxyTable::new();
    table.connect(proxy_a);
    table.connect(proxy_b);

    let mut buffer = OutgoingMessageBuffer::new();
    buffer.enqueue_global_broadcast(vec![0xAB], Some(conn(2, 10)));

    let batches = buffer.flush(&table);
    assert_eq!(batches.len(), 2);

    assert_eq!(batches[0].proxy, proxy_a);
    match &batches[0].messages[..] {
        [ServerToProxyMessage::BroadcastGlobal(w)] => {
            assert_eq!(w.exclude, Some(2));
            assert_eq!(w.data, vec![0xAB]);
        }
        other => panic!("proxy A should get one global broadcast, got {other:?}"),
    }

    assert_eq!(batches[1].proxy, proxy_b);
    match &batches[1].messages[..] {
        [ServerToProxyMessage::BroadcastGlobal(w)] => {
            assert_eq!(w.exclude, None);
            assert_eq!(w.data, vec![0xAB]);
        }
        other => panic!("proxy B should get one global broadcast, got {other:?}"),
    }
}

/// A unicast to proxy B's stream 3 reaches only proxy B, as a message to
/// its local stream id.
#[test]
fn unicast_reaches_only_the_owning_proxy() {
    let proxy_a = ProxyId::new(10);
    let proxy_b = ProxyId::new(20);
    let mut table = ProxyTable::new();
    table.connect(proxy_a);
    table.connect(proxy_b);

    let mut buffer = OutgoingMessageBuffer::new();
    buffer.enqueue_unicast(conn(3, 20), vec![7, 8]);

    let batches = buffer.flush(&table);
    assert_eq!(batches.len(), 2);
    assert!(batches[0].messages.is_empty());
    match &batches[1].messages[..] {
        [ServerToProxyMessage::Unicast(w)] => {
            assert_eq!(w.stream, 3);
            assert_eq!(w.data, vec![7, 8]);
        }
        other => panic!("proxy B should get one unicast, got {other:?}"),
    }
}

/// A proxy that disconnects before the flush receives nothing, the flush
/// completes, and nothing is redelivered when the proxy reconnects.
#[test]
fn disconnected_proxy_misses_the_tick_for_good() {
    let proxy_a = ProxyId::new(1);
    let proxy_b = ProxyId::new(2);
    let mut table = ProxyTable::new();
    table.connect(proxy_a);
    table.connect(proxy_b);

    let mut buffer = OutgoingMessageBuffer::new();
    buffer.enqueue_global_broadcast(vec![1], None);

    table.disconnect(proxy_b);
    let batches = buffer.flush(&table);
    assert_eq!(batches.len(), 1);
    assert_eq!(batches[0].proxy, proxy_a);
    assert_eq!(batches[0].messages.len(), 1);

    table.connect(proxy_b);
    let after_reconnect = buffer.flush(&table);
    assert_eq!(after_reconnect.len(), 2);
    assert!(after_reconnect[0].messages.is_empty());
    assert!(after_reconnect[1].messages.is_empty());
}

/// Messages reach a proxy in the order they were enqueued, with the
/// messages it does not own simply left out.
#[test]
fn per_proxy_order_follows_enqueue_order() {
    let proxy_a = ProxyId::new(1);
    let proxy_b = ProxyId::new(2);
    let mut table = ProxyTable::new();
    table.connect(proxy_a);
    table.connect(proxy_b);

    let mut buffer = OutgoingMessageBuffer::new();
    buffer.enqueue_global_broadcast(vec![1], None);
    buffer.enqueue_unicast(conn(5, 1), vec![2]);
    buffer.enqueue_global_broadcast(vec![3], None);
    buffer.enqueue_shutdown(conn(6, 2));

    let batches = buffer.flush(&table);

    let a_kinds: Vec<&str> = batches[0]
        .messages
        .iter()
        .map(|m| match m {
            ServerToProxyMessage::BroadcastGlobal(_) => "global",
            ServerToProxyMessage::Unicast(_) => "unicast",
            ServerToProxyMessage::Shutdown(_) => "shutdown",
            _ => "other",
        })
        .collect();
    assert_eq!(a_kinds, vec!["global", "unicast", "global"]);

    let b_kinds: Vec<&str> = batches[1]
        .messages
        .iter()
        .map(|m| match m {
            ServerToProxyMessage::BroadcastGlobal(_) => "global",
            ServerToProxyMessage::Shutdown(_) => "shutdown",
            _ => "other",
        })
        .collect();
    assert_eq!(b_kinds, vec!["global", "global", "shutdown"]);
}

#[test]
fn flush_clears_the_pending_sequence() {
    let mut table = ProxyTable::new();
    table.connect(ProxyId::new(1));

    let mut buffer = OutgoingMessageBuffer::new();
    buffer.enqueue_set_receive_global_broadcasts(conn(1, 1));
    buffer.enqueue_group_broadcast(ChannelId::new(4), vec![1], None);
    assert_eq!(buffer.pending_len(), 2);

    let first = buffer.flush(&table);
    assert_eq!(first[0].messages.len(), 2);
    assert_eq!(buffer.pending_len(), 0);

    let second = buffer.flush(&table);
    assert!(second[0].messages.is_empty());
}

#[test]
fn subscribe_group_carries_the_requesting_connection() {
    let mut table = ProxyTable::new();
    table.connect(ProxyId::new(3));

    let mut buffer = OutgoingMessageBuffer::new();
    buffer.subscribe_group(ChannelId::new(44), Some(conn(9, 3)), vec![0xEE]);

    let batches = buffer.flush(&table);
    match &batches[0].messages[..] {
        [ServerToProxyMessage::SubscribeChannelPackets(w)] => {
            assert_eq!(w.channel_id, 44);
            assert_eq!(w.exclude, Some(9));
            assert_eq!(w.data, vec![0xEE]);
        }
        other => panic!("expected one subscribe message, got {other:?}"),
    }
}

#[test]
fn proxy_table_keeps_ids_unique() {
    let mut table = ProxyTable::new();
    table.connect(ProxyId::new(7));
    table.connect(ProxyId::new(7));
    assert_eq!(table.len(), 1);
    assert!(table.contains(ProxyId::new(7)));
    table.disconnect(ProxyId::new(7));
    assert_eq!(table.len(), 0);
    assert!(!table.contains(ProxyId::new(7)));
    table.disconnect(ProxyId::new(7));
    assert_eq!(table.len(), 0);
}
