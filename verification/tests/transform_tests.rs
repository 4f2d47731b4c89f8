use hyperion::identity::{ChunkPosition, ConnectionId, ProxyId};
use hyperion::intermediate::{
    AddChannel, BroadcastChannel, BroadcastGlobal, BroadcastLocal, IntermediateServerToProxyMessage,
    RemoveChannel, SetReceiveBroadcasts, Shutdown, SubscribeChannelPackets, Unicast,
    UpdateChannelPosition, UpdateChannelPositions, UpdatePlayerPositions,
};
use hyperion::wire::ServerToProxyMessage;

fn conn(stream: u64, proxy: u64) -> ConnectionId {
    ConnectionId::new(stream, ProxyId::new(proxy))
}

#[test]
fn unicast_to_owning_proxy_keeps_stream_id() {
    let message = IntermediateServerToProxyMessage::Unicast(Unicast {
        stream: conn(3, 2),
        data: vec![1, 2, 3],
    });
    let transformed = message.transform_for_proxy(ProxyId::new(2)).unwrap();
    match transformed {
        ServerToProxyMessage::Unicast(w) => {
            assert_eq!(w.stream, 3);
            assert_eq!(w.data, vec![1, 2, 3]);
        }
        other => panic!("expected a unicast, got {other:?}"),
    }
}

#[test]
fn unicast_to_other_proxy_yields_nothing() {
    let message = IntermediateServerToProxyMessage::Unicast(Unicast {
        stream: conn(3, 2),
        data: vec![1, 2, 3],
    });
    assert!(message.transform_for_proxy(ProxyId::new(1)).is_none());
}

#[test]
fn set_receive_broadcasts_is_filtered_by_owner() {
    let message = IntermediateServerToProxyMessage::SetReceiveBroadcasts(SetReceiveBroadcasts {
        stream: conn(9, 5),
    });
    assert!(message.transform_for_proxy(ProxyId::new(4)).is_none());
    let transformed = message.transform_for_proxy(ProxyId::new(5)).unwrap();
    match transformed {
        ServerToProxyMessage::SetReceiveBroadcasts(w) => assert_eq!(w.stream, 9),
        other => panic!("expected set-receive-broadcasts, got {other:?}"),
    }
}

#[test]
fn shutdown_has_a_wire_variant_of_its_own() {
    let message =
        IntermediateServerToProxyMessage::Shutdown(Shutdown { stream: conn(7, 1) });
    let transformed = message.transform_for_proxy(ProxyId::new(1)).unwrap();
    match transformed {
        ServerToProxyMessage::Shutdown(w) => assert_eq!(w.stream, 7),
        other => panic!("expected a shutdown wire message, got {other:?}"),
    }
    assert!(message.transform_for_proxy(ProxyId::new(2)).is_none());
}

#[test]
fn owned_exclusion_becomes_local_stream() {
    let message = IntermediateServerToProxyMessage::BroadcastGlobal(BroadcastGlobal {
        exclude: Some(conn(2, 1)),
        data: vec![42],
    });
    let transformed = message.transform_for_proxy(ProxyId::new(1)).unwrap();
    match transformed {
        ServerToProxyMessage::BroadcastGlobal(w) => {
            assert_eq!(w.exclude, Some(2));
            assert_eq!(w.data, vec![42]);
        }
        other => panic!("expected a global broadcast, got {other:?}"),
    }
}

#[test]
fn unowned_exclusion_equals_no_exclusion() {
    let with_exclude = IntermediateServerToProxyMessage::BroadcastGlobal(BroadcastGlobal {
        exclude: Some(conn(2, 1)),
        data: vec![42],
    });
    let without_exclude = IntermediateServerToProxyMessage::BroadcastGlobal(BroadcastGlobal {
        exclude: None,
        data: vec![42],
    });
    let target = ProxyId::new(9);
    assert_eq!(
        with_exclude.transform_for_proxy(target),
        without_exclude.transform_for_proxy(target)
    );
}

#[test]
fn local_broadcast_keeps_center_and_filters_exclusion() {
    let message = IntermediateServerToProxyMessage::BroadcastLocal(BroadcastLocal {
        center: ChunkPosition::new(-4, 11),
        exclude: Some(conn(8, 3)),
        data: vec![5, 6],
    });
    let on_owner = message.transform_for_proxy(ProxyId::new(3)).unwrap();
    match on_owner {
        ServerToProxyMessage::BroadcastLocal(w) => {
            assert_eq!((w.center.x, w.center.z), (-4, 11));
            assert_eq!(w.exclude, Some(8));
        }
        other => panic!("expected a local broadcast, got {other:?}"),
    }
    let elsewhere = message.transform_for_proxy(ProxyId::new(1)).unwrap();
    match elsewhere {
        ServerToProxyMessage::BroadcastLocal(w) => assert_eq!(w.exclude, None),
        other => panic!("expected a local broadcast, got {other:?}"),
    }
}

#[test]
fn channel_broadcast_and_subscribe_filter_exclusions() {
    let broadcast = IntermediateServerToProxyMessage::BroadcastChannel(BroadcastChannel {
        channel_id: 77,
        exclude: Some(conn(1, 1)),
        data: vec![9],
    });
    match broadcast.transform_for_proxy(ProxyId::new(2)).unwrap() {
        ServerToProxyMessage::BroadcastChannel(w) => {
            assert_eq!(w.channel_id, 77);
            assert_eq!(w.exclude, None);
        }
        other => panic!("expected a channel broadcast, got {other:?}"),
    }

    let subscribe =
        IntermediateServerToProxyMessage::SubscribeChannelPackets(SubscribeChannelPackets {
            channel_id: 77,
            exclude: Some(conn(1, 1)),
            data: vec![9],
        });
    match subscribe.transform_for_proxy(ProxyId::new(1)).unwrap() {
        ServerToProxyMessage::SubscribeChannelPackets(w) => {
            assert_eq!(w.channel_id, 77);
            assert_eq!(w.exclude, Some(1));
        }
        other => panic!("expected a subscribe message, got {other:?}"),
    }
}

#[test]
fn player_positions_keep_only_owned_streams_in_order() {
    let message =
        IntermediateServerToProxyMessage::UpdatePlayerPositions(UpdatePlayerPositions {
            stream: vec![conn(1, 1), conn(2, 2), conn(3, 1), conn(4, 3)],
            positions: vec![
                ChunkPosition::new(0, 0),
                ChunkPosition::new(1, 1),
                ChunkPosition::new(2, 2),
                ChunkPosition::new(3, 3),
            ],
        });
    match message.transform_for_proxy(ProxyId::new(1)).unwrap() {
        ServerToProxyMessage::UpdatePlayerPositions(w) => {
            assert_eq!(w.stream, vec![1, 3]);
            assert_eq!(w.positions.len(), 4);
        }
        other => panic!("expected a position update, got {other:?}"),
    }
}

#[test]
fn channel_bookkeeping_ignores_the_target_proxy() {
    let add = IntermediateServerToProxyMessage::AddChannel(AddChannel {
        channel_id: 5,
        unsubscribe_packets: vec![1],
    });
    let update = IntermediateServerToProxyMessage::UpdateChannelPositions(UpdateChannelPositions {
        updates: vec![UpdateChannelPosition {
            channel_id: 5,
            position: ChunkPosition::new(1, 2),
        }],
    });
    let remove = IntermediateServerToProxyMessage::RemoveChannel(RemoveChannel { channel_id: 5 });
    for message in [&add, &update, &remove] {
        assert!(!message.affected_by_proxy());
        assert_eq!(
            message.transform_for_proxy(ProxyId::new(1)),
            message.transform_for_proxy(ProxyId::new(200))
        );
        assert!(message.transform_for_proxy(ProxyId::new(1)).is_some());
    }
    let unicast = IntermediateServerToProxyMessage::Unicast(Unicast {
        stream: conn(1, 1),
        data: vec![],
    });
    assert!(unicast.affected_by_proxy());
}
